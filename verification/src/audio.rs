//! Audio capture decisions that do not depend on floating point: the
//! speech-start thresholds, down-mixing to mono, the voice-activity gate
//! that decides which frames are forwarded, and the PCM byte layout.
use vstd::prelude::*;
use crate::text::{chars_of, owned, push_str, replace_chars, replace_seq, starts_with, match_at, string_from_chars, views};

verus! {

/// Consecutive speech frames needed before a session counts as having
/// started speaking.
pub const SPEECH_START_MIN_HITS: u32 = 3;

/// Speech detected within this many milliseconds of the hotkey press is
/// treated as the key's own noise and ignored.
pub const HOTKEY_NOISE_GUARD_MS: u64 = 80;


/// `a / b` rounded toward zero (Rust's integer division), for `b > 0`.
pub open spec fn div_trunc(a: int, b: int) -> int {
    if a >= 0 {
        a / b
    } else {
        -((-a) / b)
    }
}

/// The sum of `data[from..to]`.
pub open spec fn sum_range(data: Seq<i16>, from: int, to: int) -> int
    decreases to - from,
{
    if to <= from {
        0
    } else {
        sum_range(data, from, to - 1) + data[to - 1] as int
    }
}

/// Interleaved samples down-mixed to mono: each frame of `ch` samples (the
/// last one possibly shorter) becomes the truncated average of its
/// samples, divided by `ch` in every case.
pub open spec fn mono_spec(data: Seq<i16>, ch: int) -> Seq<i16> {
    Seq::new(
        ((data.len() + ch - 1) / ch) as nat,
        |k: int| div_trunc(sum_range(data, k * ch, if (k + 1) * ch <= data.len() { (k + 1) * ch } else { data.len() as int }), ch) as i16,
    )
}

proof fn lemma_sum_bounds(data: Seq<i16>, from: int, to: int)
    requires
        0 <= from <= to <= data.len(),
    ensures
        -32768 * (to - from) <= sum_range(data, from, to) <= 32767 * (to - from),
    decreases to - from,
{
    if to > from {
        lemma_sum_bounds(data, from, to - 1);
    }
}

/// Down-mixes interleaved audio with `channels` channels to mono; one
/// channel (or none) is returned as it is.
pub fn to_mono(data: &[i16], channels: u16) -> (m: Vec<i16>)
    ensures
        channels <= 1 ==> m@ == data@,
        channels > 1 ==> m@ == mono_spec(data@, channels as int),
{
    if channels <= 1 {
        let mut v: Vec<i16> = Vec::new();
        let mut i: usize = 0;
        while i < data.len()
            invariant
                i <= data@.len(),
                v@ == data@.take(i as int),
            decreases data@.len() - i,
        {
            v.push(data[i]);
            i = i + 1;
            assert(v@ =~= data@.take(i as int));
        }
        assert(data@.take(i as int) =~= data@);
        return v;
    }
    let ch = channels as usize;
    let n = data.len();
    assert(n / ch <= usize::MAX / 2) by (nonlinear_arith)
        requires
            ch >= 2,
            n <= usize::MAX,
    {
    }
    let frames = n / ch + if n % ch == 0 { 0 } else { 1 };
    assert(frames == (n + ch - 1) / (ch as int)) by (nonlinear_arith)
        requires
            ch > 1,
            frames == n / ch + if n % ch == 0 { 0int } else { 1int },
    {
    }
    let mut m: Vec<i16> = Vec::new();
    let mut k: usize = 0;
    while k < frames
        invariant
            ch == channels as usize,
            ch > 1,
            n == data@.len(),
            frames == (n + ch - 1) / (ch as int),
            k <= frames,
            m@.len() == k,
            forall|j: int| 0 <= j < k ==> m@[j] == mono_spec(data@, ch as int)[j],
        decreases frames - k,
    {
        assert(k * ch < n) by (nonlinear_arith)
            requires
                k < frames,
                frames == (n + ch - 1) / (ch as int),
                ch > 1,
        {
        }
        let start = k * ch;
        let end = if n - start >= ch { start + ch } else { n };
        let mut sum: i32 = 0;
        let mut i = start;
        while i < end
            invariant
                start <= i <= end <= n,
                n == data@.len(),
                end - start <= ch,
                ch <= 65535,
                sum == sum_range(data@, start as int, i as int),
            decreases end - i,
        {
            proof {
                lemma_sum_bounds(data@, start as int, i as int + 1);
            }
            assert(-32768 * (i + 1 - start) >= -2147483648 && 32767 * (i + 1 - start) <= 2147483647) by (nonlinear_arith)
                requires
                    i + 1 - start <= 65535,
                    i + 1 - start >= 0,
            {
            }
            sum = sum + data[i] as i32;
            i = i + 1;
        }
        proof {
            lemma_sum_bounds(data@, start as int, end as int);
        }
        let c = ch as i32;
        let neg = sum < 0;
        let mag: i32 = if neg {
            -sum
        } else {
            sum
        };
        let q = mag / c;
        assert(q <= 32768 && (!neg ==> q <= 32767)) by (nonlinear_arith)
            requires
                0 <= mag,
                neg ==> mag <= 32768 * (end - start),
                !neg ==> mag <= 32767 * (end - start),
                end - start <= c,
                c > 1,
                q == mag / c,
        {
        }
        let avg: i32 = if neg {
            -q
        } else {
            q
        };
        assert(avg == div_trunc(sum as int, c as int));
        m.push(avg as i16);
        assert((k + 1) * ch == k * ch + ch) by (nonlinear_arith);
        assert(end == if (k + 1) * ch <= n { (k + 1) * ch } else { n as int });
        k = k + 1;
    }
    assert(m@ =~= mono_spec(data@, ch as int));
    m
}

// ── Voice-activity gate ──

/// Decides which captured frames are forwarded, given whether each frame
/// is speech (its level reached the threshold).
#[derive(Debug, Clone, Copy, PartialEq, Eq)]
pub struct VadGate {
    /// Consecutive non-speech frames.
    pub silent_chunks: u32,
    /// Speech was seen in this session.
    pub speech_detected: bool,
    /// Frames forwarded after speech ends, so its tail is not clipped
    /// (about 200 ms).
    pub trailing_allowance: u32,
    pub trailing_remaining: u32,
}

/// The next state for a frame and whether that frame is sent on: speech
/// is sent and restarts the trailing window; silence is sent while the
/// trailing window lasts, and, before any speech, for the first 50 frames
/// (about a second) so recognition can get going.
pub open spec fn gate_step(g: VadGate, is_speech: bool) -> (VadGate, bool) {
    if is_speech {
        (VadGate { speech_detected: true, silent_chunks: 0, trailing_remaining: g.trailing_allowance, ..g }, true)
    } else {
        let s = (g.silent_chunks + 1) as u32;
        if g.trailing_remaining > 0 {
            (VadGate { silent_chunks: s, trailing_remaining: (g.trailing_remaining - 1) as u32, ..g }, true)
        } else {
            (VadGate { silent_chunks: s, ..g }, !g.speech_detected && s < 50)
        }
    }
}

impl VadGate {
    /// A fresh gate: no speech yet, a trailing window of 10 frames.
    pub fn new() -> (g: Self)
        ensures
            g == (VadGate {
                silent_chunks: 0,
                speech_detected: false,
                trailing_allowance: 10,
                trailing_remaining: 0,
            }),
    {
        VadGate { silent_chunks: 0, speech_detected: false, trailing_allowance: 10, trailing_remaining: 0 }
    }

    /// Takes one frame; returns whether it is forwarded.
    pub fn step(&mut self, is_speech: bool) -> (send: bool)
        requires
            !is_speech ==> old(self).silent_chunks < u32::MAX,
        ensures
            (*final(self), send) == gate_step(*old(self), is_speech),
    {
        if is_speech {
            self.speech_detected = true;
            self.silent_chunks = 0;
            self.trailing_remaining = self.trailing_allowance;
            true
        } else {
            self.silent_chunks = self.silent_chunks + 1;
            if self.trailing_remaining > 0 {
                self.trailing_remaining = self.trailing_remaining - 1;
                return true;
            }
            !self.speech_detected && self.silent_chunks < 50
        }
    }
}

/// The voice-activity settings of a session: sensitivity clamped to 1–10
/// and the silence auto-stop to 3–60 seconds.
pub fn vad_config_values(sensitivity: u8, silence_auto_stop_secs: u8) -> (r: (u8, u8))
    ensures
        r.0 == if sensitivity < 1 { 1 } else if sensitivity > 10 { 10 } else { sensitivity },
        r.1 == if silence_auto_stop_secs < 3 { 3 } else if silence_auto_stop_secs > 60 {
            60
        } else {
            silence_auto_stop_secs
        },
{
    let s = if sensitivity < 1 {
        1
    } else if sensitivity > 10 {
        10
    } else {
        sensitivity
    };
    let t = if silence_auto_stop_secs < 3 {
        3
    } else if silence_auto_stop_secs > 60 {
        60
    } else {
        silence_auto_stop_secs
    };
    (s, t)
}

/// The little-endian bytes of 16-bit samples.
pub open spec fn le_bytes(samples: Seq<i16>) -> Seq<u8>
    decreases samples.len(),
{
    if samples.len() == 0 {
        Seq::empty()
    } else {
        let u = samples.last() as u16;
        le_bytes(samples.drop_last()) + seq![(u % 256) as u8, (u / 256) as u8]
    }
}

/// Serializes samples as 16-bit little-endian PCM.
pub fn pcm_le_bytes(samples: &[i16]) -> (b: Vec<u8>)
    ensures
        b@ == le_bytes(samples@),
{
    let mut b: Vec<u8> = Vec::new();
    let mut i: usize = 0;
    while i < samples.len()
        invariant
            i <= samples@.len(),
            b@ == le_bytes(samples@.take(i as int)),
        decreases samples@.len() - i,
    {
        assert(samples@.take((i + 1) as int).drop_last() =~= samples@.take(i as int));
        let u = samples[i] as u16;
        b.push((u % 256) as u8);
        b.push((u / 256) as u8);
        i = i + 1;
        assert(b@ =~= le_bytes(samples@.take(i as int)));
    }
    assert(samples@.take(i as int) =~= samples@);
    b
}

/// How a captured system-audio buffer is read.
#[derive(Debug, Clone, Copy, PartialEq, Eq)]
pub enum CaptureFormat {
    /// Flagged silent: that many zero samples.
    Silence,
    /// 32-bit float samples.
    Float32,
    /// 16-bit integer samples.
    Pcm16,
    /// Anything else is skipped.
    Unsupported,
}

/// The format of a captured buffer, from its silence flag and the mix
/// format.
pub fn capture_format(silent: bool, is_float: bool, bits_per_sample: u16) -> (f: CaptureFormat)
    ensures
        f == if silent {
            CaptureFormat::Silence
        } else if is_float && bits_per_sample == 32 {
            CaptureFormat::Float32
        } else if bits_per_sample == 16 {
            CaptureFormat::Pcm16
        } else {
            CaptureFormat::Unsupported
        },
{
    if silent {
        CaptureFormat::Silence
    } else if is_float && bits_per_sample == 32 {
        CaptureFormat::Float32
    } else if bits_per_sample == 16 {
        CaptureFormat::Pcm16
    } else {
        CaptureFormat::Unsupported
    }
}

/// The measuring window for a microphone level test: 3 s by default, at
/// most 10 s.
pub fn measure_window_ms(duration_ms: Option<u64>) -> (d: u64)
    ensures
        d == match duration_ms {
            Some(n) => if n < 10000 { n } else { 10000 },
            None => 3000,
        },
{
    let n = match duration_ms {
        Some(n) => n,
        None => 3000,
    };
    if n < 10000 {
        n
    } else {
        10000
    }
}


// ── Input devices ──

/// Some entry of `list` starts with `name`.
pub open spec fn listed_prefix(list: Seq<Seq<char>>, name: Seq<char>) -> bool {
    exists|i: int| 0 <= i < list.len() && starts_with(#[trigger] list[i], name)
}

/// The device list shown to the user, built from the devices in order:
/// each name is added unless an entry already starts with it.
pub open spec fn device_list_from(start: Seq<Seq<char>>, names: Seq<Seq<char>>) -> Seq<Seq<char>>
    decreases names.len(),
{
    if names.len() == 0 {
        start
    } else {
        let prev = device_list_from(start, names.drop_last());
        if listed_prefix(prev, names.last()) {
            prev
        } else {
            prev.push(names.last())
        }
    }
}

/// The default device's entry: its name marked `(默认)`.
pub open spec fn default_entry(name: Seq<char>) -> Seq<char> {
    name + " (默认)"@
}

fn listed_prefix_exec(list: &Vec<String>, name: &str) -> (b: bool)
    ensures
        b == listed_prefix(views(list@), name@),
{
    let n = chars_of(name);
    let mut i: usize = 0;
    while i < list.len()
        invariant
            i <= list@.len(),
            n@ == name@,
            forall|j: int| 0 <= j < i ==> !starts_with(#[trigger] views(list@)[j], name@),
        decreases list@.len() - i,
    {
        let d = chars_of(list[i].as_str());
        if match_at(d.as_slice(), 0, n.as_slice()) {
            assert(views(list@)[i as int] == list@[i as int]@);
            return true;
        }
        i = i + 1;
    }
    false
}

/// The input devices to offer: the default device first (marked), then
/// the other devices by name, skipping names an entry already starts with.
pub fn device_list(default_name: Option<String>, names: &[String]) -> (v: Vec<String>)
    ensures
        views(v@) == device_list_from(
            match default_name {
                Some(d) => seq![default_entry(d@)],
                None => Seq::empty(),
            },
            views(names@),
        ),
{
    let mut v: Vec<String> = Vec::new();
    let ghost start: Seq<Seq<char>> = Seq::empty();
    match default_name {
        Some(d) => {
            let mut e = d;
            push_str(&mut e, " (默认)");
            v.push(e);
            proof {
                start = seq![default_entry(d@)];
            }
            assert(views(v@) =~= start);
        },
        None => {
            assert(views(v@) =~= start);
        },
    }
    let mut i: usize = 0;
    while i < names.len()
        invariant
            i <= names@.len(),
            views(v@) == device_list_from(start, views(names@.take(i as int))),
        decreases names@.len() - i,
    {
        assert(views(names@.take((i + 1) as int)).drop_last() =~= views(names@.take(i as int)));
        assert(views(names@.take((i + 1) as int)).last() == names@[i as int]@);
        if !listed_prefix_exec(&v, names[i].as_str()) {
            let ghost prev = v@;
            v.push(names[i].clone());
            assert(views(v@) =~= views(prev).push(names@[i as int]@));
        }
        i = i + 1;
    }
    assert(names@.take(i as int) =~= names@);
    v
}

/// A device setting with the default-device mark removed.
pub fn clean_device_name(name: &str) -> (c: String)
    ensures
        c@ == replace_seq(name@, " (默认)"@, Seq::empty()),
{
    let v = chars_of(name);
    let mark = chars_of(" (默认)");
    proof {
        reveal_strlit(" (默认)");
    }
    let none: Vec<char> = Vec::new();
    let r = replace_chars(v.as_slice(), mark.as_slice(), none.as_slice());
    string_from_chars(r.as_slice())
}

} // verus!
