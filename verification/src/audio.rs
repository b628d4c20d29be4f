//! Decisions of the audio system: which footstep clip plays next, which
//! music file is used (each candidate is read, probed by the player, and
//! transcoded to WAV when it cannot be played as is), and how the decoded
//! packets of a transcoded file are gathered into a WAV file.
//!
//! Reading files, probing the player and running the decoder happen outside
//! this module; these functions take their outcomes and say what to do next.

use vstd::prelude::*;
use crate::wav::{build_wav, wav_bytes, wav_fits};

verus! {

/// The clip to play for the next footstep (the cursor cycles through the
/// clips) and the advanced cursor (wrapping).
pub fn next_footstep_clip(cursor: usize, clip_count: usize) -> (r: (usize, usize))
    requires
        clip_count > 0,
    ensures
        r.0 == cursor % clip_count,
        r.0 < clip_count,
        r.1 == (if cursor < usize::MAX {
            (cursor + 1) as usize
        } else {
            0usize
        }),
{
    (cursor % clip_count, cursor.wrapping_add(1))
}

// ---------------------------------------------------------------------------
// Choosing the music file
// ---------------------------------------------------------------------------

/// How a chosen music file is used.
#[derive(Clone, Copy, Debug, PartialEq, Eq, Structural)]
pub enum MusicSource {
    /// The file's bytes as read.
    Raw,
    /// The WAV transcoded from the file.
    Transcoded,
}

/// The next thing to do while choosing among the candidate music files.
#[derive(Clone, Copy, Debug, PartialEq, Eq, Structural)]
pub enum LoadStep {
    /// Read candidate `i` from disk.
    Read(usize),
    /// Ask the player whether it can decode candidate `i`'s bytes.
    ProbeRaw(usize),
    /// Transcode candidate `i` to WAV.
    Transcode(usize),
    /// Ask the player whether it can decode the WAV transcoded from `i`.
    ProbeTranscoded(usize),
    /// Done: use candidate `i` in the given form.
    Use(usize, MusicSource),
    /// Done: no candidate is playable.
    NotFound,
}

/// The step after giving up on candidate `i` of `count`.
pub open spec fn after_candidate(count: nat, i: nat) -> LoadStep {
    if i + 1 < count {
        LoadStep::Read((i + 1) as usize)
    } else {
        LoadStep::NotFound
    }
}

/// The candidate a step works on is one of the `count` candidates.
pub open spec fn step_in_range(count: nat, step: LoadStep) -> bool {
    match step {
        LoadStep::Read(i) => i < count,
        LoadStep::ProbeRaw(i) => i < count,
        LoadStep::Transcode(i) => i < count,
        LoadStep::ProbeTranscoded(i) => i < count,
        LoadStep::Use(i, _) => i < count,
        LoadStep::NotFound => true,
    }
}

/// The step that follows `step` when it succeeded (`ok`) or failed: a file
/// that is read is probed; a file the player accepts is used as is; one it
/// rejects is transcoded, and the WAV is probed and used if accepted; any
/// failure moves on to the next candidate. `Use` and `NotFound` are final.
pub open spec fn load_transition(count: nat, step: LoadStep, ok: bool) -> LoadStep {
    match step {
        LoadStep::Read(i) => if ok {
            LoadStep::ProbeRaw(i)
        } else {
            after_candidate(count, i as nat)
        },
        LoadStep::ProbeRaw(i) => if ok {
            LoadStep::Use(i, MusicSource::Raw)
        } else {
            LoadStep::Transcode(i)
        },
        LoadStep::Transcode(i) => if ok {
            LoadStep::ProbeTranscoded(i)
        } else {
            after_candidate(count, i as nat)
        },
        LoadStep::ProbeTranscoded(i) => if ok {
            LoadStep::Use(i, MusicSource::Transcoded)
        } else {
            after_candidate(count, i as nat)
        },
        LoadStep::Use(i, s) => LoadStep::Use(i, s),
        LoadStep::NotFound => LoadStep::NotFound,
    }
}

/// The first step: read the first candidate, if there is one.
pub open spec fn load_start(count: nat) -> LoadStep {
    if count == 0 {
        LoadStep::NotFound
    } else {
        LoadStep::Read(0)
    }
}

/// Where choosing among `count` candidate files starts.
pub fn first_load_step(count: usize) -> (step: LoadStep)
    ensures
        step == load_start(count as nat),
        step == (if count == 0 {
            LoadStep::NotFound
        } else {
            LoadStep::Read(0)
        }),
{
    if count == 0 {
        LoadStep::NotFound
    } else {
        LoadStep::Read(0)
    }
}

/// The step after `step`, given whether it succeeded (see
/// `load_transition`).
pub fn next_load_step(count: usize, step: LoadStep, ok: bool) -> (next: LoadStep)
    requires
        step_in_range(count as nat, step),
    ensures
        next == load_transition(count as nat, step, ok),
        step_in_range(count as nat, next),
        step matches LoadStep::Read(i) ==> next == (if ok {
            LoadStep::ProbeRaw(i)
        } else if i + 1 < count {
            LoadStep::Read((i + 1) as usize)
        } else {
            LoadStep::NotFound
        }),
        step matches LoadStep::ProbeRaw(i) ==> next == (if ok {
            LoadStep::Use(i, MusicSource::Raw)
        } else {
            LoadStep::Transcode(i)
        }),
        step matches LoadStep::Transcode(i) ==> next == (if ok {
            LoadStep::ProbeTranscoded(i)
        } else if i + 1 < count {
            LoadStep::Read((i + 1) as usize)
        } else {
            LoadStep::NotFound
        }),
        step matches LoadStep::ProbeTranscoded(i) ==> next == (if ok {
            LoadStep::Use(i, MusicSource::Transcoded)
        } else if i + 1 < count {
            LoadStep::Read((i + 1) as usize)
        } else {
            LoadStep::NotFound
        }),
        (step is Use || step is NotFound) ==> next == step,
{
    match step {
        LoadStep::Read(i) => if ok {
            LoadStep::ProbeRaw(i)
        } else if i + 1 < count {
            LoadStep::Read(i + 1)
        } else {
            LoadStep::NotFound
        },
        LoadStep::ProbeRaw(i) => if ok {
            LoadStep::Use(i, MusicSource::Raw)
        } else {
            LoadStep::Transcode(i)
        },
        LoadStep::Transcode(i) => if ok {
            LoadStep::ProbeTranscoded(i)
        } else if i + 1 < count {
            LoadStep::Read(i + 1)
        } else {
            LoadStep::NotFound
        },
        LoadStep::ProbeTranscoded(i) => if ok {
            LoadStep::Use(i, MusicSource::Transcoded)
        } else if i + 1 < count {
            LoadStep::Read(i + 1)
        } else {
            LoadStep::NotFound
        },
        LoadStep::Use(i, s) => LoadStep::Use(i, s),
        LoadStep::NotFound => LoadStep::NotFound,
    }
}

/// What happens to one candidate file at each step.
#[derive(Clone, Copy, Debug, PartialEq, Eq, Structural)]
pub struct CandidateOutcome {
    /// The file can be read.
    pub read: bool,
    /// The player accepts the file's bytes.
    pub raw_playable: bool,
    /// The file can be transcoded to WAV.
    pub transcoded: bool,
    /// The player accepts the transcoded WAV.
    pub transcoded_playable: bool,
}

/// The answer a candidate gives to `step`.
pub open spec fn outcome_answer(o: CandidateOutcome, step: LoadStep) -> bool {
    match step {
        LoadStep::Read(_) => o.read,
        LoadStep::ProbeRaw(_) => o.raw_playable,
        LoadStep::Transcode(_) => o.transcoded,
        LoadStep::ProbeTranscoded(_) => o.transcoded_playable,
        _ => false,
    }
}

/// The candidate a (non-final) step works on.
pub open spec fn step_candidate(step: LoadStep) -> int {
    match step {
        LoadStep::Read(i) => i as int,
        LoadStep::ProbeRaw(i) => i as int,
        LoadStep::Transcode(i) => i as int,
        LoadStep::ProbeTranscoded(i) => i as int,
        LoadStep::Use(i, _) => i as int,
        LoadStep::NotFound => 0,
    }
}

/// Whether a step is final.
pub open spec fn is_final_step(step: LoadStep) -> bool {
    step is Use || step is NotFound
}

/// Running at most `fuel` steps from `step` against the outcome table.
pub open spec fn run_load(outcomes: Seq<CandidateOutcome>, step: LoadStep, fuel: nat) -> LoadStep
    decreases fuel,
{
    if fuel == 0 || is_final_step(step) {
        step
    } else {
        run_load(
            outcomes,
            load_transition(
                outcomes.len(),
                step,
                outcome_answer(outcomes[step_candidate(step)], step),
            ),
            (fuel - 1) as nat,
        )
    }
}

/// How a candidate with outcome `o` can be played, if at all.
pub open spec fn candidate_source(o: CandidateOutcome) -> Option<MusicSource> {
    if !o.read {
        None
    } else if o.raw_playable {
        Some(MusicSource::Raw)
    } else if o.transcoded && o.transcoded_playable {
        Some(MusicSource::Transcoded)
    } else {
        None
    }
}

/// The first playable candidate from position `i` on, and how it is played.
pub open spec fn first_playable_from(outcomes: Seq<CandidateOutcome>, i: nat) -> LoadStep
    decreases outcomes.len() - i,
{
    if i >= outcomes.len() {
        LoadStep::NotFound
    } else {
        match candidate_source(outcomes[i as int]) {
            Some(src) => LoadStep::Use(i as usize, src),
            None => first_playable_from(outcomes, i + 1),
        }
    }
}

/// Running from a step that is not final takes the transition for the
/// answer of its candidate.
proof fn lemma_run_unfold(outcomes: Seq<CandidateOutcome>, step: LoadStep, fuel: nat)
    requires
        fuel > 0,
        !is_final_step(step),
    ensures
        run_load(outcomes, step, fuel) == run_load(
            outcomes,
            load_transition(
                outcomes.len(),
                step,
                outcome_answer(outcomes[step_candidate(step)], step),
            ),
            (fuel - 1) as nat,
        ),
{
}

/// Once past candidate `i`, the run continues exactly as from the next one.
proof fn lemma_run_after_candidate(outcomes: Seq<CandidateOutcome>, i: nat, fuel: nat)
    requires
        i < outcomes.len(),
        outcomes.len() <= usize::MAX,
        fuel >= 4 * (outcomes.len() - i - 1),
    ensures
        run_load(outcomes, after_candidate(outcomes.len(), i), fuel) == first_playable_from(
            outcomes,
            i + 1,
        ),
    decreases outcomes.len() - i, 0nat,
{
    if i + 1 < outcomes.len() {
        lemma_run_from_candidate(outcomes, i + 1, fuel);
    }
}

proof fn lemma_run_from_candidate(outcomes: Seq<CandidateOutcome>, i: nat, fuel: nat)
    requires
        i < outcomes.len(),
        outcomes.len() <= usize::MAX,
        fuel >= 4 * (outcomes.len() - i),
    ensures
        run_load(outcomes, LoadStep::Read(i as usize), fuel) == first_playable_from(outcomes, i),
    decreases outcomes.len() - i, 1nat,
{
    let n = outcomes.len();
    let o = outcomes[i as int];
    let iu = i as usize;
    let s0 = LoadStep::Read(iu);
    let s1 = LoadStep::ProbeRaw(iu);
    let s2 = LoadStep::Transcode(iu);
    let s3 = LoadStep::ProbeTranscoded(iu);
    assert(step_candidate(s0) == i);
    assert(step_candidate(s1) == i);
    assert(step_candidate(s2) == i);
    assert(step_candidate(s3) == i);
    lemma_run_unfold(outcomes, s0, fuel);
    if !o.read {
        assert(candidate_source(o) is None);
        lemma_run_after_candidate(outcomes, i, (fuel - 1) as nat);
    } else {
        lemma_run_unfold(outcomes, s1, (fuel - 1) as nat);
        if o.raw_playable {
            assert(candidate_source(o) == Some(MusicSource::Raw));
        } else {
            lemma_run_unfold(outcomes, s2, (fuel - 2) as nat);
            if !o.transcoded {
                assert(candidate_source(o) is None);
                lemma_run_after_candidate(outcomes, i, (fuel - 3) as nat);
            } else {
                lemma_run_unfold(outcomes, s3, (fuel - 3) as nat);
                if o.transcoded_playable {
                    assert(candidate_source(o) == Some(MusicSource::Transcoded));
                } else {
                    assert(candidate_source(o) is None);
                    lemma_run_after_candidate(outcomes, i, (fuel - 4) as nat);
                }
            }
        }
    }
}

/// Choosing the music file picks the first candidate that can be played,
/// as is if the player accepts it, else as a transcoded WAV, and finds
/// nothing only when no candidate can be played; it takes at most four
/// steps per candidate.
pub proof fn lemma_load_picks_first_playable(outcomes: Seq<CandidateOutcome>, fuel: nat)
    requires
        outcomes.len() <= usize::MAX,
        fuel >= 4 * outcomes.len(),
    ensures
        run_load(outcomes, load_start(outcomes.len()), fuel) == first_playable_from(outcomes, 0),
{
    if outcomes.len() > 0 {
        lemma_run_from_candidate(outcomes, 0, fuel);
    }
}

/// The file chosen is readable and playable, as is when the player accepts
/// its bytes, else through a transcoded WAV the player accepts; every file
/// before it is unreadable or unplayable both ways; nothing is chosen only
/// when no file is playable.
pub proof fn lemma_first_playable_is_playable(outcomes: Seq<CandidateOutcome>, i: nat)
    requires
        i <= outcomes.len(),
        outcomes.len() <= usize::MAX,
    ensures
        first_playable_from(outcomes, i) matches LoadStep::Use(c, src) ==> {
            &&& i <= c < outcomes.len()
            &&& outcomes[c as int].read
            &&& (src == MusicSource::Raw) == outcomes[c as int].raw_playable
            &&& src == MusicSource::Transcoded ==> outcomes[c as int].transcoded
                && outcomes[c as int].transcoded_playable
            &&& forall|j: int|
                i <= j < c ==> !(#[trigger] outcomes[j].read && (outcomes[j].raw_playable || (
                outcomes[j].transcoded && outcomes[j].transcoded_playable)))
        },
        first_playable_from(outcomes, i) is NotFound ==> forall|j: int|
            i <= j < outcomes.len() ==> !(#[trigger] outcomes[j].read && (outcomes[j].raw_playable
                || (outcomes[j].transcoded && outcomes[j].transcoded_playable))),
        first_playable_from(outcomes, i) is Use || first_playable_from(outcomes, i) is NotFound,
    decreases outcomes.len() - i,
{
    if i < outcomes.len() {
        lemma_first_playable_is_playable(outcomes, i + 1);
    }
}

// ---------------------------------------------------------------------------
// Gathering the decoded packets of a transcoded file
// ---------------------------------------------------------------------------

/// What the decoder reported.
pub enum PacketEvent {
    /// No more packets can be read (end of stream or a read error).
    StreamEnded,
    /// A packet of track `track_id` was read.
    Packet { track_id: u32 },
    /// The packet decoded to these interleaved samples.
    Decoded { sample_rate: u32, channels: u16, samples: Vec<i16> },
    /// The packet could not be decoded; `recoverable` for a malformed packet
    /// (skip it), otherwise decoding stops.
    DecodeFailed { recoverable: bool },
}

/// The next thing to do while transcoding.
#[derive(Clone, Copy, Debug, PartialEq, Eq, Structural)]
pub enum TranscodeStep {
    /// Read the next packet.
    NextPacket,
    /// Decode the packet just read.
    Decode,
    /// Stop and build the WAV.
    Finish,
}

/// The samples gathered so far from the chosen track, and the signal spec
/// (sample rate, channel count) of the first decoded packet.
pub struct PcmCollector {
    pub track_id: u32,
    pub spec: Option<(u32, u16)>,
    pub pcm: Vec<i16>,
}

impl PcmCollector {
    /// Starts gathering the packets of track `track_id`.
    pub fn new(track_id: u32) -> (c: PcmCollector)
        ensures
            c.track_id == track_id,
            c.spec is None,
            c.pcm@ == Seq::<i16>::empty(),
    {
        PcmCollector { track_id, spec: None, pcm: Vec::new() }
    }

    /// Takes one decoder report: packets of other tracks are skipped, packets
    /// of the chosen track are decoded, their samples appended (the first
    /// one fixes the signal spec), malformed packets are skipped, and the end
    /// of the stream or any other decoder error finishes.
    pub fn on_event(&mut self, event: PacketEvent) -> (step: TranscodeStep)
        ensures
            final(self).track_id == old(self).track_id,
            match event {
                PacketEvent::StreamEnded => {
                    &&& step == TranscodeStep::Finish
                    &&& final(self).spec == old(self).spec
                    &&& final(self).pcm@ == old(self).pcm@
                },
                PacketEvent::Packet { track_id } => {
                    &&& step == (if track_id == old(self).track_id {
                        TranscodeStep::Decode
                    } else {
                        TranscodeStep::NextPacket
                    })
                    &&& final(self).spec == old(self).spec
                    &&& final(self).pcm@ == old(self).pcm@
                },
                PacketEvent::Decoded { sample_rate, channels, samples } => {
                    &&& step == TranscodeStep::NextPacket
                    &&& final(self).spec == (match old(self).spec {
                        Some(s) => Some(s),
                        None => Some((sample_rate, channels)),
                    })
                    &&& final(self).pcm@ == old(self).pcm@ + samples@
                },
                PacketEvent::DecodeFailed { recoverable } => {
                    &&& step == (if recoverable {
                        TranscodeStep::NextPacket
                    } else {
                        TranscodeStep::Finish
                    })
                    &&& final(self).spec == old(self).spec
                    &&& final(self).pcm@ == old(self).pcm@
                },
            },
    {
        match event {
            PacketEvent::StreamEnded => TranscodeStep::Finish,
            PacketEvent::Packet { track_id } => {
                if track_id == self.track_id {
                    TranscodeStep::Decode
                } else {
                    TranscodeStep::NextPacket
                }
            },
            PacketEvent::Decoded { sample_rate, channels, samples } => {
                if self.spec.is_none() {
                    self.spec = Some((sample_rate, channels));
                }
                let mut samples = samples;
                self.pcm.append(&mut samples);
                TranscodeStep::NextPacket
            },
            PacketEvent::DecodeFailed { recoverable } => {
                if recoverable {
                    TranscodeStep::NextPacket
                } else {
                    TranscodeStep::Finish
                }
            },
        }
    }

    /// Whether the gathered samples fit a WAV file's size fields.
    pub open spec fn spec_fits(&self) -> bool {
        match self.spec {
            Some((rate, channels)) => wav_fits(self.pcm@.len(), rate as nat, channels as nat),
            None => true,
        }
    }

    /// Whether the gathered samples fit a WAV file's size fields.
    pub fn fits(&self) -> (b: bool)
        ensures
            b == self.spec_fits(),
    {
        match self.spec {
            Some((rate, channels)) => {
                let len = self.pcm.len();
                assert((rate as u64) * (channels as u64) * 2 <= 0x2_0000_0000_0000u64) by (nonlinear_arith)
                    requires
                        rate <= u32::MAX,
                        channels <= u16::MAX,
                ;
                len <= (u32::MAX as usize - 36) / 2 && (rate as u64) * (channels as u64) * 2
                    <= u32::MAX as u64 && (channels as u32) * 2 <= u16::MAX as u32
            },
            None => true,
        }
    }

    /// The WAV file of the gathered samples; nothing when no sample was
    /// decoded.
    pub fn finish(&self) -> (wav: Option<Vec<u8>>)
        requires
            self.spec_fits(),
        ensures
            self.pcm@.len() == 0 ==> wav is None,
            self.pcm@.len() > 0 ==> match self.spec {
                None => wav is None,
                Some((rate, channels)) => wav matches Some(w) && w@ == wav_bytes(
                    self.pcm@,
                    rate as nat,
                    channels as nat,
                ),
            },
    {
        if self.pcm.len() == 0 {
            return None;
        }
        match self.spec {
            None => None,
            Some((rate, channels)) => Some(build_wav(self.pcm.as_slice(), rate, channels)),
        }
    }
}

} // verus!
