use dragon_world::audio::{
    first_load_step, next_footstep_clip, next_load_step, LoadStep, MusicSource, PacketEvent,
    PcmCollector, TranscodeStep,
};
use dragon_world::wav::build_wav;

#[test]
fn footstep_clips_cycle() {
    let mut cursor = 0usize;
    let mut seen = Vec::new();
    for _ in 0..7 {
        let (clip, next) = next_footstep_clip(cursor, 3);
        seen.push(clip);
        cursor = next;
    }
    assert_eq!(seen, vec![0, 1, 2, 0, 1, 2, 0]);
    assert_eq!(next_footstep_clip(usize::MAX, 3), (usize::MAX % 3, 0));
}

/// Drives the loader against a table of (read, raw ok, transcoded, wav ok).
fn run(table: &[(bool, bool, bool, bool)]) -> (LoadStep, usize) {
    let n = table.len();
    let mut step = first_load_step(n);
    let mut steps = 0;
    loop {
        let ok = match step {
            LoadStep::Read(i) => table[i].0,
            LoadStep::ProbeRaw(i) => table[i].1,
            LoadStep::Transcode(i) => table[i].2,
            LoadStep::ProbeTranscoded(i) => table[i].3,
            LoadStep::Use(..) | LoadStep::NotFound => return (step, steps),
        };
        step = next_load_step(n, step, ok);
        steps += 1;
    }
}

#[test]
fn music_loader_takes_first_playable() {
    assert_eq!(run(&[]), (LoadStep::NotFound, 0));
    assert_eq!(run(&[(true, true, false, false)]).0, LoadStep::Use(0, MusicSource::Raw));
    let table = [
        (false, true, true, true),
        (true, false, false, true),
        (true, false, true, false),
        (true, false, true, true),
        (true, true, true, true),
    ];
    let (step, steps) = run(&table);
    assert_eq!(step, LoadStep::Use(3, MusicSource::Transcoded));
    assert!(steps <= 4 * table.len());
    assert_eq!(run(&table[..3]).0, LoadStep::NotFound);
}

#[test]
fn music_loader_transitions() {
    assert_eq!(next_load_step(2, LoadStep::Read(0), true), LoadStep::ProbeRaw(0));
    assert_eq!(next_load_step(2, LoadStep::Read(0), false), LoadStep::Read(1));
    assert_eq!(next_load_step(2, LoadStep::ProbeRaw(1), false), LoadStep::Transcode(1));
    assert_eq!(next_load_step(2, LoadStep::Transcode(1), false), LoadStep::NotFound);
    assert_eq!(next_load_step(2, LoadStep::ProbeTranscoded(0), false), LoadStep::Read(1));
    assert_eq!(
        next_load_step(2, LoadStep::Use(1, MusicSource::Raw), false),
        LoadStep::Use(1, MusicSource::Raw)
    );
}

#[test]
fn collector_gathers_chosen_track() {
    let mut c = PcmCollector::new(7);
    assert_eq!(c.on_event(PacketEvent::Packet { track_id: 3 }), TranscodeStep::NextPacket);
    assert_eq!(c.on_event(PacketEvent::Packet { track_id: 7 }), TranscodeStep::Decode);
    assert_eq!(
        c.on_event(PacketEvent::Decoded { sample_rate: 48000, channels: 2, samples: vec![1, 2] }),
        TranscodeStep::NextPacket
    );
    assert_eq!(
        c.on_event(PacketEvent::DecodeFailed { recoverable: true }),
        TranscodeStep::NextPacket
    );
    assert_eq!(
        c.on_event(PacketEvent::Decoded { sample_rate: 8000, channels: 1, samples: vec![3] }),
        TranscodeStep::NextPacket
    );
    assert_eq!(c.spec, Some((48000, 2)));
    assert_eq!(c.pcm, vec![1, 2, 3]);
    assert_eq!(c.on_event(PacketEvent::StreamEnded), TranscodeStep::Finish);
    assert!(c.fits());
    assert_eq!(c.finish(), Some(build_wav(&[1, 2, 3], 48000, 2)));
}

#[test]
fn collector_stops_on_fatal_error_and_needs_samples() {
    let mut c = PcmCollector::new(0);
    assert_eq!(
        c.on_event(PacketEvent::DecodeFailed { recoverable: false }),
        TranscodeStep::Finish
    );
    assert_eq!(c.finish(), None);
    c.on_event(PacketEvent::Decoded { sample_rate: 8000, channels: 1, samples: vec![] });
    assert_eq!(c.spec, Some((8000, 1)));
    assert_eq!(c.finish(), None);
}
