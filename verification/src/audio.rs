//! Sample conversion, channel separation, and the voice-activated recording decisions.

use vstd::prelude::*;

verus! {

/// Converts an unsigned 16-bit sample to a signed one by moving the midpoint to zero.
pub fn u16_to_i16(sample: u16) -> (r: i16)
    ensures
        r as int == sample as int - 32768,
{
    (sample as i32 - 32768) as i16
}

/// The first sample of each frame of `ch` interleaved samples (the last frame may be short).
pub open spec fn frame_firsts(s: Seq<i16>, ch: nat) -> Seq<i16>
    decreases s.len(),
{
    if s.len() == 0 || ch == 0 {
        Seq::empty()
    } else {
        let n = if ch <= s.len() { ch } else { s.len() };
        seq![s[0]] + frame_firsts(s.skip(n as int), ch)
    }
}

/// The second sample of each frame that has one.
pub open spec fn frame_seconds(s: Seq<i16>, ch: nat) -> Seq<i16>
    decreases s.len(),
{
    if s.len() == 0 || ch == 0 {
        Seq::empty()
    } else {
        let n = if ch <= s.len() { ch } else { s.len() };
        (if n >= 2 {
            seq![s[1]]
        } else {
            Seq::empty()
        }) + frame_seconds(s.skip(n as int), ch)
    }
}

/// The samples the level meter measures: for one channel, all of them; otherwise the
/// first (left) and second (right) sample of every frame.
pub struct ChannelSamples {
    pub mono: bool,
    pub left: Vec<i16>,
    pub right: Vec<i16>,
}

/// Separates interleaved samples into what the left and right level meters measure.
pub fn split_channels(samples: &[i16], channels: u16) -> (r: ChannelSamples)
    ensures
        r.mono == (channels <= 1),
        r.mono ==> r.left@ == samples@ && r.right@.len() == 0,
        !r.mono ==> r.left@ == frame_firsts(samples@, channels as nat) && r.right@ == frame_seconds(
            samples@,
            channels as nat,
        ),
{
    if channels <= 1 {
        return ChannelSamples { mono: true, left: vstd::slice::slice_to_vec(samples), right: Vec::new() };
    }
    let ch = channels as usize;
    let n = samples.len();
    let mut left: Vec<i16> = Vec::new();
    let mut right: Vec<i16> = Vec::new();
    let mut i: usize = 0;
    assert(samples@.skip(0) =~= samples@);
    while i < n
        invariant
            i <= n,
            n == samples@.len(),
            ch == channels as nat,
            ch >= 2,
            left@ + frame_firsts(samples@.skip(i as int), ch as nat) == frame_firsts(samples@, ch as nat),
            right@ + frame_seconds(samples@.skip(i as int), ch as nat) == frame_seconds(samples@, ch as nat),
        decreases n - i,
    {
        let ghost rest = samples@.skip(i as int);
        let ghost bl = left@;
        let ghost br = right@;
        let step = if ch <= n - i { ch } else { n - i };
        left.push(samples[i]);
        if step >= 2 {
            right.push(samples[i + 1]);
        }
        assert(rest[0] == samples@[i as int]);
        assert(rest.skip(step as int) =~= samples@.skip(i + step));
        if step >= 2 {
            assert(rest[1] == samples@[i + 1]);
            assert(right@ =~= br + seq![rest[1]]);
        } else {
            assert(right@ =~= br + Seq::<i16>::empty());
        }
        assert(left@ =~= bl + seq![rest[0]]);
        i = i + step;
    }
    assert(samples@.skip(n as int) =~= Seq::<i16>::empty());
    assert(left@ =~= frame_firsts(samples@, ch as nat));
    assert(right@ =~= frame_seconds(samples@, ch as nat));
    ChannelSamples { mono: false, left, right }
}

/// How many samples of quiet end an utterance: the silence tail (milliseconds) times the
/// sample rate times the channel count, rounded down.
pub fn silence_limit(silence_tail_ms: u32, sample_rate: u32, channels: u16) -> (r: u64)
    requires
        silence_tail_ms <= crate::state::MAX_SILENCE_TAIL_MS,
    ensures
        r as int == (silence_tail_ms as int * sample_rate as int * channels as int) / 1000,
{
    let a = silence_tail_ms as u64;
    let b = sample_rate as u64;
    let c = channels as u64;
    assert(a * b <= 5000 * 0xffff_ffff) by (nonlinear_arith)
        requires a <= 5000, b <= 0xffff_ffff;
    assert(a * b * c <= 5000 * 0xffff_ffff * 0xffff) by (nonlinear_arith)
        requires a * b <= 5000 * 0xffff_ffff, c <= 0xffff;
    (a * b * c) / 1000
}

/// The longest clip: the maximum seconds times the sample rate times the channel count.
pub fn max_samples(max_seconds: u64, sample_rate: u32, channels: u16) -> (r: u64)
    requires
        max_seconds * sample_rate * channels <= u64::MAX,
    ensures
        r == max_seconds * sample_rate * channels,
{
    let b = sample_rate as u64;
    let c = channels as u64;
    if c == 0 {
        assert(max_seconds * sample_rate * channels == 0) by (nonlinear_arith)
            requires channels == 0;
        return 0;
    }
    assert(max_seconds * b <= max_seconds * b * c) by (nonlinear_arith)
        requires c >= 1;
    max_seconds * b * c
}

/// The state of a voice-activated recording: whether speech began, how many samples of
/// quiet came since the last loud chunk, and the samples kept.
pub struct Activation {
    pub active: bool,
    pub quiet_samples: usize,
    pub samples: Vec<i16>,
}

impl Activation {
    /// A recording waiting for speech.
    pub fn new() -> (r: Activation)
        ensures
            !r.active,
            r.quiet_samples == 0,
            r.samples@.len() == 0,
    {
        Activation { active: false, quiet_samples: 0, samples: Vec::new() }
    }

    /// The quiet count never exceeds what was kept, and nothing is kept before speech.
    pub open spec fn wf(&self) -> bool {
        &&& self.quiet_samples <= self.samples@.len()
        &&& !self.active ==> self.samples@.len() == 0
    }
}

/// What a chunk of input comes to.
#[derive(Clone, Copy, Debug, PartialEq, Eq, Structural)]
pub enum ChunkOutcome {
    /// Listening became unavailable; the recording is abandoned.
    Abort,
    /// Keep listening.
    Continue,
    /// The utterance ended after enough quiet.
    FinishedBySilence,
    /// The clip reached its longest length.
    FinishedByLength,
}

/// Takes one chunk of input. `loud` says the chunk's level reached the voice threshold,
/// `quiet` that it stayed below the silence threshold. Before speech a loud chunk starts
/// the recording and is kept; other chunks are dropped. After that every chunk is kept, a
/// quiet one adds its length to the quiet count and any other resets it; the recording
/// ends when the quiet count reaches `silence_limit` or the clip reaches `max_samples`.
pub fn on_chunk(
    act: &mut Activation,
    chunk: &[i16],
    listening_available: bool,
    loud: bool,
    quiet: bool,
    silence_limit: usize,
    max_samples: usize,
) -> (r: ChunkOutcome)
    requires
        old(act).wf(),
        old(act).samples@.len() + chunk@.len() <= usize::MAX,
    ensures
        final(act).wf(),
        !listening_available ==> r == ChunkOutcome::Abort && *final(act) == *old(act),
        listening_available && !old(act).active ==> {
            &&& r == ChunkOutcome::Continue
            &&& final(act).active == loud
            &&& final(act).quiet_samples == old(act).quiet_samples
            &&& final(act).samples@ == if loud { chunk@ } else { old(act).samples@ }
        },
        listening_available && old(act).active ==> {
            &&& final(act).active
            &&& final(act).samples@ == old(act).samples@ + chunk@
            &&& final(act).quiet_samples == if quiet { old(act).quiet_samples + chunk@.len() } else { 0 }
            &&& r == if final(act).quiet_samples >= silence_limit {
                ChunkOutcome::FinishedBySilence
            } else if final(act).samples@.len() >= max_samples {
                ChunkOutcome::FinishedByLength
            } else {
                ChunkOutcome::Continue
            }
        },
{
    if !listening_available {
        return ChunkOutcome::Abort;
    }
    if !act.active {
        if loud {
            act.active = true;
            act.samples.extend_from_slice(chunk);
            assert(act.samples@ =~= chunk@);
        }
        return ChunkOutcome::Continue;
    }
    if quiet {
        act.quiet_samples = act.quiet_samples + chunk.len();
    } else {
        act.quiet_samples = 0;
    }
    act.samples.extend_from_slice(chunk);
    if act.quiet_samples >= silence_limit {
        return ChunkOutcome::FinishedBySilence;
    }
    if act.samples.len() >= max_samples {
        return ChunkOutcome::FinishedByLength;
    }
    ChunkOutcome::Continue
}

/// The recorded clip, or `Err` when no speech was kept.
pub fn finish_recording(act: Activation) -> (r: Result<Vec<i16>, ()>)
    ensures
        match r {
            Ok(s) => s@ == act.samples@ && s@.len() > 0,
            Err(()) => act.samples@.len() == 0,
        },
{
    if act.samples.len() == 0 {
        Err(())
    } else {
        Ok(act.samples)
    }
}

} // verus!
