//! The shared recording session: the state the control thread and the
//! capture callback coordinate over.
//!
//! While a stream is open the callback appends downmixed frames into the
//! session's buffer; stopping takes the buffer out before anything reads
//! it, so a stop observes every sample the callback wrote and nothing can
//! race the read. At most one buffer exists at a time: a new recording
//! cannot begin while the previous one's buffer has not been taken.

use vstd::prelude::*;
use crate::audio::{downmix, downmixed_seq};
use crate::errors::AppResult;
use crate::resample::{resample, resample_seq, resampled_len};

verus! {

/// The input rate the speech recognizer requires: 16 kHz mono.
pub const ENGINE_SAMPLE_RATE: u32 = 16000;

/// Mutable capture state shared between the control thread and the audio
/// callback: the recording flag, the open stream's native sample rate, and
/// the sample buffer the callback appends into.
pub struct RecordingSession {
    recording: bool,
    sample_rate: u32,
    shared_buffer: Option<Vec<i32>>,
}

impl RecordingSession {
    /// Whether capture is under way.
    pub closed spec fn is_recording_spec(&self) -> bool {
        self.recording
    }

    /// The native sample rate stored when the current stream opened.
    pub closed spec fn rate_spec(&self) -> u32 {
        self.sample_rate
    }

    /// Whether a capture buffer exists (it does from start until stop).
    pub closed spec fn has_buffer(&self) -> bool {
        self.shared_buffer is Some
    }

    /// The samples captured so far; empty when no buffer exists.
    pub closed spec fn captured_spec(&self) -> Seq<i32> {
        match self.shared_buffer {
            Some(b) => b@,
            None => Seq::<i32>::empty(),
        }
    }

    /// Well-formedness: an active recording always has a buffer, and a
    /// stored stream rate is a real rate.
    pub closed spec fn wf(&self) -> bool {
        &&& (self.recording ==> self.shared_buffer is Some)
        &&& self.sample_rate > 0
    }

    /// A fresh, idle session: nothing recording, no buffer pending.
    pub fn new() -> (s: Self)
        ensures
            s.wf(),
            !s.is_recording_spec(),
            !s.has_buffer(),
            s.rate_spec() == ENGINE_SAMPLE_RATE,
    {
        RecordingSession { recording: false, sample_rate: ENGINE_SAMPLE_RATE, shared_buffer: None }
    }

    /// Whether capture is under way (what the interface polls).
    pub fn is_recording(&self) -> (r: bool)
        ensures
            r == self.is_recording_spec(),
    {
        self.recording
    }

    /// The stored native sample rate.
    pub fn sample_rate(&self) -> (r: u32)
        ensures
            r == self.rate_spec(),
    {
        self.sample_rate
    }

    /// Whether a capture buffer is still pending (a started recording
    /// whose samples have not been taken).
    pub fn has_pending_buffer(&self) -> (r: bool)
        ensures
            r == self.has_buffer(),
    {
        self.shared_buffer.is_some()
    }

    /// How many samples the callback has accumulated so far.
    pub fn captured_len(&self) -> (n: usize)
        ensures
            n == self.captured_spec().len(),
    {
        match &self.shared_buffer {
            Some(b) => b.len(),
            None => 0,
        }
    }

    /// Start accumulating a recording from a stream opened at
    /// `native_rate`: store the rate, install a fresh empty buffer and
    /// raise the recording flag.
    ///
    /// The guards of the hotkey state machine ensure no recording is under
    /// way and the previous buffer has been taken.
    pub fn begin_capture(&mut self, native_rate: u32)
        requires
            !old(self).is_recording_spec(),
            !old(self).has_buffer(),
            native_rate > 0,
        ensures
            final(self).wf(),
            final(self).is_recording_spec(),
            final(self).has_buffer(),
            final(self).rate_spec() == native_rate,
            final(self).captured_spec() == Seq::<i32>::empty(),
    {
        self.recording = true;
        self.sample_rate = native_rate;
        self.shared_buffer = Some(Vec::new());
    }

    /// The capture callback's only operation: average one interleaved
    /// hardware frame group down to mono and append it to the shared
    /// buffer. Touches nothing else in the session.
    #[verifier::loop_isolation(false)]
    pub fn append_frame(&mut self, data: &Vec<i32>, channels: u16)
        requires
            old(self).wf(),
            old(self).is_recording_spec(),
            1 <= channels,
            data@.len() + channels <= usize::MAX,
        ensures
            final(self).wf(),
            final(self).is_recording_spec(),
            final(self).has_buffer(),
            final(self).rate_spec() == old(self).rate_spec(),
            final(self).captured_spec() == old(self).captured_spec() + downmixed_seq(
                data@,
                channels as int,
            ),
    {
        let mono = downmix(data, channels);
        let mut buffer = match self.shared_buffer.take() {
            Some(b) => b,
            None => Vec::new(),
        };
        let mut k: usize = 0;
        while k < mono.len()
            invariant
                k <= mono@.len(),
                buffer@ == old(self).captured_spec() + mono@.subrange(0, k as int),
            decreases mono@.len() - k,
        {
            buffer.push(mono[k]);
            proof {
                assert(mono@.subrange(0, k as int + 1) =~= mono@.subrange(0, k as int).push(
                    mono@[k as int],
                ));
            }
            k = k + 1;
        }
        proof {
            assert(mono@.subrange(0, mono@.len() as int) =~= mono@);
        }
        self.shared_buffer = Some(buffer);
    }

    /// Take the capture buffer out, clearing the recording flag.
    ///
    /// The control thread destroys the stream between this and any read of
    /// the returned samples, so nothing further writes into them.
    pub fn end_capture(&mut self) -> (raw: Vec<i32>)
        ensures
            old(self).wf() ==> final(self).wf(),
            !final(self).is_recording_spec(),
            !final(self).has_buffer(),
            final(self).rate_spec() == old(self).rate_spec(),
            raw@ == old(self).captured_spec(),
    {
        self.recording = false;
        match self.shared_buffer.take() {
            Some(buffer) => buffer,
            None => Vec::new(),
        }
    }
}

/// The recording as the recognizer will receive it: converted to the
/// engine rate when the stream's native rate differs, untouched otherwise
/// (and untouched when nothing was captured).
pub open spec fn finished_recording_spec(s: RecordingSession) -> Seq<i32> {
    let raw = s.captured_spec();
    if s.rate_spec() != ENGINE_SAMPLE_RATE && raw.len() > 0 {
        resample_seq(raw, s.rate_spec() as int, ENGINE_SAMPLE_RATE as int)
    } else {
        raw
    }
}

/// Length of a finished recording: a capture at the engine rate (or an
/// empty one) is handed over untouched, and any other capture of `n`
/// samples at `r` Hz becomes exactly `floor(n * 16000 / r)` samples.
pub proof fn lemma_finished_recording_len(s: RecordingSession)
    requires
        s.wf(),
    ensures
        s.rate_spec() != ENGINE_SAMPLE_RATE && s.captured_spec().len() > 0
            ==> finished_recording_spec(s).len() == resampled_len(
            s.captured_spec().len() as int,
            s.rate_spec() as int,
            ENGINE_SAMPLE_RATE as int,
        ),
        s.rate_spec() == ENGINE_SAMPLE_RATE || s.captured_spec().len() == 0
            ==> finished_recording_spec(s) == s.captured_spec(),
{
    if s.rate_spec() != ENGINE_SAMPLE_RATE && s.captured_spec().len() > 0 {
        vstd::arithmetic::mul::lemma_mul_nonnegative(
            s.captured_spec().len() as int,
            ENGINE_SAMPLE_RATE as int,
        );
        vstd::arithmetic::div_mod::lemma_div_pos_is_pos(
            s.captured_spec().len() as int * ENGINE_SAMPLE_RATE as int,
            s.rate_spec() as int,
        );
    }
}

/// Stop the current recording and return its samples, resampled to the
/// engine rate when the native rate differs.
///
/// Clears the recording flag and takes the buffer before the samples are
/// read; a stop with no open buffer, or with zero captured samples,
/// returns an empty recording without error.
pub fn stop_recording(session: &mut RecordingSession) -> (r: AppResult<Vec<i32>>)
    requires
        old(session).wf(),
        resampled_len(
            old(session).captured_spec().len() as int,
            old(session).rate_spec() as int,
            ENGINE_SAMPLE_RATE as int,
        ) <= usize::MAX,
    ensures
        final(session).wf(),
        !final(session).is_recording_spec(),
        !final(session).has_buffer(),
        final(session).rate_spec() == old(session).rate_spec(),
        r matches Ok(samples) && samples@ == finished_recording_spec(*old(session)),
{
    let raw = session.end_capture();
    let rate = session.sample_rate;
    if rate != ENGINE_SAMPLE_RATE && raw.len() > 0 {
        Ok(resample(&raw, rate, ENGINE_SAMPLE_RATE))
    } else {
        Ok(raw)
    }
}

} // verus!
