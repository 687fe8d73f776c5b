//! Capture-side audio logic: device list shaping, device selection, and the
//! per-callback downmix of interleaved multi-channel frames to mono.
//!
//! The platform audio host enumerates devices and delivers hardware frames;
//! this module holds the decisions and arithmetic around those calls, on
//! plain values. Samples are fixed-point amplitudes (`i32`).

use vstd::prelude::*;
use vstd::string::StringExecFns;
use crate::arith::{floor_div_i64, isqrt_u64, lemma_div_between};
use crate::errors::{AppError, AppResult};
use vstd::arithmetic::div_mod::lemma_fundamental_div_mod;

verus! {

/// One input device as shown to the user.
#[derive(Debug, Clone)]
pub struct AudioDevice {
    /// The device's name, as the platform host reports it.
    pub name: String,
    /// Whether this device is the platform default input.
    pub is_default: bool,
}

/// `descriptor` presents the device called `name` correctly: it carries the
/// name and is marked default exactly when the name is the default one.
pub open spec fn labels_device(
    descriptor: AudioDevice,
    name: Seq<char>,
    default_name: Seq<char>,
) -> bool {
    descriptor.name@ == name && descriptor.is_default == (name == default_name)
}

/// Shape the platform host's device names into user-facing descriptors,
/// marking the entry whose name equals the default device's name.
#[verifier::loop_isolation(false)]
pub fn list_input_devices(names: Vec<String>, default_name: &String) -> (devices: Vec<
    AudioDevice,
>)
    ensures
        devices@.len() == names@.len(),
        forall|i: int|
            0 <= i < names@.len() ==> #[trigger] labels_device(
                devices@[i],
                names@[i]@,
                default_name@,
            ),
{
    let mut devices: Vec<AudioDevice> = Vec::new();
    let mut i: usize = 0;
    while i < names.len()
        invariant
            i <= names@.len(),
            devices@.len() == i,
            forall|j: int|
                0 <= j < i ==> #[trigger] labels_device(devices@[j], names@[j]@, default_name@),
        decreases names@.len() - i,
    {
        let name = names[i].clone();
        let is_default = name.eq(default_name);
        devices.push(AudioDevice { name, is_default });
        proof {
            assert(labels_device(devices@[i as int], names@[i as int]@, default_name@));
        }
        i = i + 1;
    }
    devices
}

/// Resolve the device a recording should open: an exact name match when one
/// was requested, the platform default otherwise.
///
/// Returns the index of the first device whose name equals the requested
/// one; when no name was requested, the default index the host reported.
/// Fails when the requested name matches nothing, or when nothing was
/// requested and the host has no default input.
#[verifier::loop_isolation(false)]
pub fn select_device(names: &Vec<String>, requested: &Option<String>, default_index: Option<
    usize,
>) -> (r: AppResult<usize>)
    requires
        default_index matches Some(d) ==> d < names@.len(),
    ensures
        match requested {
            Some(name) => match r {
                Ok(i) => {
                    &&& i < names@.len()
                    &&& names@[i as int]@ == name@
                    &&& forall|j: int| 0 <= j < i ==> names@[j]@ != name@
                },
                Err(e) => {
                    &&& forall|j: int| 0 <= j < names@.len() ==> names@[j]@ != name@
                    &&& e matches AppError::Audio(m) && m@ == "Peripherique introuvable : "@
                        + name@
                },
            },
            None => match default_index {
                Some(d) => r matches Ok(i) && i == d,
                None => r matches Err(e) && (e matches AppError::Audio(m) && m@
                    == "Aucun micro par defaut detecte"@),
            },
        },
{
    match requested {
        Some(name) => {
            let mut i: usize = 0;
            while i < names.len()
                invariant
                    i <= names@.len(),
                    forall|j: int| 0 <= j < i ==> names@[j]@ != name@,
                decreases names@.len() - i,
            {
                if names[i].eq(name) {
                    return Ok(i);
                }
                i = i + 1;
            }
            Err(
                AppError::Audio(
                    String::from_str("Peripherique introuvable : ").concat(name.as_str()),
                ),
            )
        },
        None => match default_index {
            Some(d) => Ok(d),
            None => Err(AppError::Audio(String::from_str("Aucun micro par defaut detecte"))),
        },
    }
}

/// Sum of a sequence of samples, as an unbounded integer.
pub open spec fn seq_sum(s: Seq<i32>) -> int
    decreases s.len(),
{
    if s.len() == 0 {
        0
    } else {
        s[0] + seq_sum(s.drop_first())
    }
}

/// Appending one sample adds its value to the sum.
proof fn lemma_seq_sum_push(s: Seq<i32>, x: i32)
    ensures
        seq_sum(s.push(x)) == seq_sum(s) + x,
    decreases s.len(),
{
    assert(seq_sum(s.push(x)) == s.push(x)[0] + seq_sum(s.push(x).drop_first()));
    if s.len() == 0 {
        assert(s.push(x)[0] == x);
        assert(s.push(x).drop_first() =~= Seq::<i32>::empty());
        assert(seq_sum(Seq::<i32>::empty()) == 0);
    } else {
        assert(s.push(x)[0] == s[0]);
        assert(s.push(x).drop_first() =~= s.drop_first().push(x));
        lemma_seq_sum_push(s.drop_first(), x);
    }
}

/// Number of mono samples produced from `len` interleaved samples in groups
/// of `channels`: one per frame group, the trailing partial group included.
pub open spec fn frame_count(len: int, channels: int) -> int {
    (len + channels - 1) / channels
}

/// Where frame group `k` ends: `channels` samples past its start, clamped
/// to the end of the input for the trailing partial group.
pub open spec fn frame_end(len: int, channels: int, k: int) -> int {
    if (k + 1) * channels < len {
        (k + 1) * channels
    } else {
        len
    }
}

/// The mono value of frame group `k`: the arithmetic mean of its samples,
/// always divided by the full channel count.
pub open spec fn downmixed_at(data: Seq<i32>, channels: int, k: int) -> int {
    seq_sum(data.subrange(k * channels, frame_end(data.len() as int, channels, k))) / channels
}

/// The whole downmixed sequence, frame group by frame group.
pub open spec fn downmixed_seq(data: Seq<i32>, channels: int) -> Seq<i32> {
    Seq::new(
        frame_count(data.len() as int, channels) as nat,
        |k: int| downmixed_at(data, channels, k) as i32,
    )
}

/// Downmix of a two-channel interleaved recording `[L0, R0, L1, R1, ...]`:
/// the mono buffer has one sample per stereo pair, and each is the mean
/// `(L + R) / 2` of its pair.
pub proof fn lemma_stereo_downmix(data: Seq<i32>)
    requires
        data.len() % 2 == 0,
    ensures
        frame_count(data.len() as int, 2) == data.len() / 2,
        forall|k: int|
            0 <= k < data.len() / 2 ==> #[trigger] downmixed_at(data, 2, k) == (data[2 * k]
                + data[2 * k + 1]) / 2,
{
    let n = data.len() as int;
    lemma_fundamental_div_mod(n, 2);
    let m = n / 2;
    vstd::arithmetic::div_mod::lemma_div_multiples_vanish_fancy(m, 1, 2);
    assert(frame_count(n, 2) == m);
    assert forall|k: int| 0 <= k < m implies #[trigger] downmixed_at(data, 2, k) == (data[2 * k]
        + data[2 * k + 1]) / 2 by {
        assert(frame_end(n, 2, k) == 2 * k + 2);
        let pair = data.subrange(k * 2, 2 * k + 2);
        assert(pair.len() == 2);
        let tail = pair.drop_first();
        assert(tail.drop_first() =~= Seq::<i32>::empty());
        assert(seq_sum(Seq::<i32>::empty()) == 0);
        assert(seq_sum(tail) == tail[0]);
        assert(tail[0] == pair[1]);
        assert(seq_sum(pair) == pair[0] + pair[1]);
        assert(pair[0] == data[2 * k] && pair[1] == data[2 * k + 1]);
    }
}

/// Average each interleaved frame group of `data` down to one mono sample.
///
/// The output has one sample per group of `channels` input samples (the
/// trailing partial group included), and each output sample is the floor of
/// the group's arithmetic mean.
pub fn downmix(data: &Vec<i32>, channels: u16) -> (out: Vec<i32>)
    requires
        1 <= channels,
        data@.len() + channels <= usize::MAX,
    ensures
        out@.len() == frame_count(data@.len() as int, channels as int),
        forall|k: int|
            0 <= k < out@.len() ==> #[trigger] out@[k] as int == downmixed_at(
                data@,
                channels as int,
                k,
            ),
        out@ == downmixed_seq(data@, channels as int),
{
    let n = data.len();
    let ch = channels as usize;
    let mut out: Vec<i32> = Vec::new();
    let mut start: usize = 0;
    proof {
        assert(out@.len() * ch == 0) by (nonlinear_arith)
            requires
                out@.len() == 0,
        ;
    }
    while start < n
        invariant
            1 <= ch <= 0xFFFF,
            ch == channels,
            n == data@.len(),
            n + ch <= usize::MAX,
            start <= n,
            start == out@.len() * ch || (start == n && n <= out@.len() * ch),
            out@.len() == 0 ==> start == 0,
            out@.len() > 0 ==> (out@.len() - 1) * ch < n,
            forall|k: int|
                0 <= k < out@.len() ==> #[trigger] out@[k] as int == downmixed_at(
                    data@,
                    channels as int,
                    k,
                ),
        decreases n - start,
    {
        let ghost k = out@.len() as int;
        let end = if n - start > ch {
            start + ch
        } else {
            n
        };
        proof {
            // start < n rules the partial-frame exit state out, so the
            // frame really starts at k * ch.
            assert(start == k * ch);
            assert((k + 1) * ch as int == k * ch as int + ch as int) by (nonlinear_arith);
            assert(end as int == frame_end(n as int, ch as int, k));
        }
        let mut acc: i64 = 0;
        let mut j = start;
        while j < end
            invariant
                start <= j <= end <= n,
                end - start <= ch <= 0xFFFF,
                n == data@.len(),
                acc == seq_sum(data@.subrange(start as int, j as int)),
                -((j - start) as i64 * 0x8000_0000i64) <= acc <= (j - start) as i64
                    * 0x7FFF_FFFFi64,
            decreases end - j,
        {
            proof {
                assert(data@.subrange(start as int, j as int + 1) =~= data@.subrange(
                    start as int,
                    j as int,
                ).push(data@[j as int]));
                lemma_seq_sum_push(data@.subrange(start as int, j as int), data@[j as int]);
            }
            acc = acc + (data[j] as i64);
            j = j + 1;
        }
        proof {
            let cnt = (end - start) as int;
            assert(-(0x8000_0000i64 * ch as int) <= acc as int <= 0x7FFF_FFFFi64 * ch as int)
                by (nonlinear_arith)
                requires
                    0 <= cnt <= ch as int,
                    -(cnt * 0x8000_0000i64) <= acc as int <= cnt * 0x7FFF_FFFFi64,
            ;
            lemma_div_between(-0x8000_0000, 0x7FFF_FFFF, acc as int, ch as int);
        }
        let mono = floor_div_i64(acc, channels as i64);
        out.push(mono as i32);
        start = end;
    }
    proof {
        let m = out@.len() as int;
        let chi = ch as int;
        let ni = n as int;
        if m == 0 {
            assert(ni == 0);
            vstd::arithmetic::div_mod::lemma_basic_div(ni + chi - 1, chi);
        } else {
            // (m - 1) * ch < n <= m * ch pins the ceiling quotient to m.
            assert(start == n);
            assert((m - 1) * chi < ni && ni <= m * chi);
            assert(0 <= ni + chi - 1 - m * chi < chi) by (nonlinear_arith)
                requires
                    (m - 1) * chi < ni <= m * chi,
                    0 < chi,
            ;
            vstd::arithmetic::div_mod::lemma_fundamental_div_mod_converse_div(
                ni + chi - 1,
                chi,
                m,
                ni + chi - 1 - m * chi,
            );
        }
        assert(out@ =~= downmixed_seq(data@, channels as int));
    }
    out
}

/// Sum of squared samples, as an unbounded integer.
pub open spec fn sum_squares(s: Seq<i32>) -> int
    decreases s.len(),
{
    if s.len() == 0 {
        0
    } else {
        s[0] * s[0] + sum_squares(s.drop_first())
    }
}

/// Appending one sample adds its square to the sum.
proof fn lemma_sum_squares_push(s: Seq<i32>, x: i32)
    ensures
        sum_squares(s.push(x)) == sum_squares(s) + x * x,
    decreases s.len(),
{
    assert(sum_squares(s.push(x)) == s.push(x)[0] * s.push(x)[0] + sum_squares(
        s.push(x).drop_first(),
    ));
    if s.len() == 0 {
        assert(s.push(x)[0] == x);
        assert(s.push(x).drop_first() =~= Seq::<i32>::empty());
        assert(sum_squares(Seq::<i32>::empty()) == 0);
    } else {
        assert(s.push(x)[0] == s[0]);
        assert(s.push(x).drop_first() =~= s.drop_first().push(x));
        lemma_sum_squares_push(s.drop_first(), x);
    }
}

/// The integer square root, defined by counting up: the largest `r` with
/// `r * r <= n`.
pub open spec fn isqrt_spec(n: int) -> int
    decreases n,
{
    if n <= 0 {
        0
    } else {
        let r = isqrt_spec(n - 1);
        if (r + 1) * (r + 1) <= n {
            r + 1
        } else {
            r
        }
    }
}

/// `isqrt_spec` really brackets its argument between consecutive squares.
pub proof fn lemma_isqrt_spec_bounds(n: int)
    requires
        0 <= n,
    ensures
        0 <= isqrt_spec(n),
        isqrt_spec(n) * isqrt_spec(n) <= n,
        n < (isqrt_spec(n) + 1) * (isqrt_spec(n) + 1),
    decreases n,
{
    if n == 0 {
    } else {
        lemma_isqrt_spec_bounds(n - 1);
        let r0 = isqrt_spec(n - 1);
        if (r0 + 1) * (r0 + 1) <= n {
            assert(n < (r0 + 2) * (r0 + 2)) by (nonlinear_arith)
                requires
                    0 <= r0,
                    n - 1 < (r0 + 1) * (r0 + 1),
            ;
        }
    }
}

/// Only one integer is bracketed that way, so any witness equals the spec.
proof fn lemma_isqrt_unique(n: int, r: int)
    requires
        0 <= n,
        0 <= r,
        r * r <= n,
        n < (r + 1) * (r + 1),
    ensures
        r == isqrt_spec(n),
{
    lemma_isqrt_spec_bounds(n);
    let s = isqrt_spec(n);
    assert(r == s) by (nonlinear_arith)
        requires
            0 <= r,
            0 <= s,
            r * r <= n,
            n < (r + 1) * (r + 1),
            s * s <= n,
            n < (s + 1) * (s + 1),
    ;
}

/// The level shown for one microphone-test window: the root-mean-square of
/// the window's samples, amplified tenfold and clamped to `full_scale`
/// (the fixed-point value standing for 1.0). An empty window reads zero.
pub open spec fn mic_level_spec(s: Seq<i32>, full_scale: int) -> int {
    if s.len() == 0 {
        0
    } else {
        let rms = isqrt_spec(sum_squares(s) / s.len() as int);
        if 10 * rms < full_scale {
            10 * rms
        } else {
            full_scale
        }
    }
}

/// Compute the clamped root-mean-square level of one test window.
pub fn mic_level(samples: &Vec<i32>, full_scale: u32) -> (level: u32)
    ensures
        level as int == mic_level_spec(samples@, full_scale as int),
        level <= full_scale,
{
    let n = samples.len();
    if n == 0 {
        return 0;
    }
    let mut acc: u128 = 0;
    let mut j: usize = 0;
    while j < n
        invariant
            j <= n,
            n == samples@.len(),
            acc == sum_squares(samples@.subrange(0, j as int)),
            acc <= j as int * 0x4000_0000_0000_0000i64,
        decreases n - j,
    {
        let s = samples[j] as i64;
        proof {
            assert(0 <= s * s <= 0x4000_0000_0000_0000i64) by (nonlinear_arith)
                requires
                    -0x8000_0000i64 <= s <= 0x7FFF_FFFFi64,
            ;
            assert(samples@.subrange(0, j as int + 1) =~= samples@.subrange(0, j as int).push(
                samples@[j as int],
            ));
            lemma_sum_squares_push(samples@.subrange(0, j as int), samples@[j as int]);
        }
        let sq = s * s;
        acc = acc + (sq as u128);
        j = j + 1;
    }
    proof {
        assert(samples@.subrange(0, n as int) =~= samples@);
        vstd::arithmetic::div_mod::lemma_multiply_divide_le(
            acc as int,
            n as int,
            0x4000_0000_0000_0000i64 as int,
        );
        vstd::arithmetic::div_mod::lemma_div_pos_is_pos(acc as int, n as int);
    }
    let mean = (acc / (n as u128)) as u64;
    let rms = isqrt_u64(mean);
    proof {
        lemma_isqrt_unique(mean as int, rms as int);
        assert(rms as int <= 0x8000_0000i64) by (nonlinear_arith)
            requires
                rms as int * rms as int <= 0x4000_0000_0000_0000i64,
                0 <= rms as int,
        ;
    }
    let amplified = 10 * (rms as u64);
    if amplified < full_scale as u64 {
        amplified as u32
    } else {
        full_scale
    }
}

} // verus!
