use impulse::source::{
    format_hint, seek_timestamp, BridgeStep, DecodeBridge, DecodeError, OpenStep, Registry, SeekError,
    DEFAULT_CHANNELS, DEFAULT_SAMPLE_RATE,
};
use impulse::span::Span;

fn run(outcomes: &[bool]) -> OpenStep {
    let mut step = OpenStep::start();
    for outcome in outcomes {
        step = step.advance(*outcome);
    }
    step
}

#[test]
fn opening_goes_through_its_steps() {
    assert_eq!(OpenStep::start(), OpenStep::OpenFile);
    assert_eq!(run(&[true]), OpenStep::Probe);
    assert_eq!(run(&[true, true]), OpenStep::FindTrack);
    assert_eq!(run(&[true, true, true]), OpenStep::PrimaryDecoder);
    assert_eq!(run(&[true, true, true, true]), OpenStep::Ready(Registry::Primary));
    assert_eq!(run(&[true, true, true, true]).outcome(), Some(Ok(Registry::Primary)));
    assert_eq!(run(&[true, true, true]).outcome(), None);
}

#[test]
fn opening_falls_back_to_the_extended_registry() {
    assert_eq!(run(&[true, true, true, false]), OpenStep::ExtendedDecoder);
    assert_eq!(run(&[true, true, true, false, true]), OpenStep::Ready(Registry::Extended));
    assert_eq!(
        run(&[true, true, true, false, true]).outcome(),
        Some(Ok(Registry::Extended))
    );
}

#[test]
fn opening_reports_the_first_failure() {
    assert_eq!(run(&[false]), OpenStep::Failed(DecodeError::Open));
    assert_eq!(run(&[true, false]), OpenStep::Failed(DecodeError::Probe));
    assert_eq!(run(&[true, true, false]), OpenStep::Failed(DecodeError::NoDefaultTrack));
    assert_eq!(run(&[true, true, true, false, false]), OpenStep::Failed(DecodeError::NoDecoder));
    assert_eq!(
        run(&[true, true, true, false, false]).outcome(),
        Some(Err(DecodeError::NoDecoder))
    );
    assert_eq!(run(&[true, false, true, true]), OpenStep::Failed(DecodeError::Probe));
    assert_eq!(run(&[true, true, true, true, false]), OpenStep::Ready(Registry::Primary));
}

#[test]
fn seek_timestamp_counts_ticks() {
    assert_eq!(seek_timestamp(Span::zero(), 44_100), Some(0));
    assert_eq!(seek_timestamp(Span::from_secs(2), 48_000), Some(96_000));
    assert_eq!(seek_timestamp(Span::new(1, 500_000_000).unwrap(), 44_100), Some(66_150));
    assert_eq!(seek_timestamp(Span::new(0, 999_999_999).unwrap(), 44_100), Some(44_099));
    assert_eq!(seek_timestamp(Span::new(0, 22_676).unwrap(), 44_100), Some(1));
    assert_eq!(seek_timestamp(Span::new(0, 22_675).unwrap(), 44_100), Some(0));
    assert_eq!(seek_timestamp(Span::new(3, 1).unwrap(), 0), Some(0));
}

#[test]
fn seek_timestamp_refuses_what_does_not_fit() {
    assert_eq!(seek_timestamp(Span::from_secs(u64::MAX), 1), Some(u64::MAX));
    assert_eq!(seek_timestamp(Span::from_secs(u64::MAX), 2), None);
    assert_eq!(seek_timestamp(Span::new(u64::MAX, 999_999_999).unwrap(), 1), Some(u64::MAX));
    assert_eq!(seek_timestamp(Span::new(u64::MAX / 2, 500_000_000).unwrap(), 2), Some(u64::MAX));
    assert_eq!(seek_timestamp(Span::new(u64::MAX / 2 + 1, 0).unwrap(), 2), None);
}

#[test]
fn bridge_defaults_to_stereo_at_48_khz() {
    let bridge = DecodeBridge::new(7, None, None);
    assert_eq!(bridge.track_id(), 7);
    assert_eq!(bridge.channels(), 2);
    assert_eq!(bridge.sample_rate(), 48_000);
    assert_eq!(DEFAULT_CHANNELS, 2);
    assert_eq!(DEFAULT_SAMPLE_RATE, 48_000);
    assert_eq!(bridge.current_frame_len(), None);
    assert_eq!(bridge.total_duration(), None);

    let mono = DecodeBridge::new(1, Some(1), Some(22_050));
    assert_eq!(mono.channels(), 1);
    assert_eq!(mono.sample_rate(), 22_050);
    assert_eq!(mono.seek_target(Span::from_secs(2)), Some(44_100));
}

#[test]
fn bridge_hands_out_a_block_in_order() {
    let mut bridge = DecodeBridge::new(0, Some(2), Some(44_100));
    assert_eq!(bridge.poll(), BridgeStep::ReadPacket);
    assert_eq!(bridge.next_sample(), None);
    assert_eq!(bridge.on_packet(Some(0)), BridgeStep::DecodePacket);
    assert_eq!(bridge.on_decoded(Some(vec![10, -20, 30])), BridgeStep::SampleReady);
    assert_eq!(bridge.poll(), BridgeStep::SampleReady);
    assert_eq!(bridge.next_sample(), Some(10));
    assert_eq!(bridge.next_sample(), Some(-20));
    assert_eq!(bridge.poll(), BridgeStep::SampleReady);
    assert_eq!(bridge.next_sample(), Some(30));
    assert_eq!(bridge.poll(), BridgeStep::ReadPacket);
    assert_eq!(bridge.next_sample(), None);
    assert_eq!(bridge.next_sample(), None);
}

#[test]
fn bridge_skips_other_tracks_and_corrupt_packets() {
    let mut bridge = DecodeBridge::new(3, None, None);
    assert_eq!(bridge.on_packet(Some(4)), BridgeStep::ReadPacket);
    assert_eq!(bridge.on_packet(Some(3)), BridgeStep::DecodePacket);
    assert_eq!(bridge.on_decoded(None), BridgeStep::ReadPacket);
    assert_eq!(bridge.next_sample(), None);
    assert_eq!(bridge.on_decoded(Some(vec![1, 2])), BridgeStep::SampleReady);
    assert_eq!(bridge.next_sample(), Some(1));
    assert_eq!(bridge.on_decoded(None), BridgeStep::ReadPacket);
    assert_eq!(bridge.next_sample(), Some(2));
    assert_eq!(bridge.on_decoded(Some(Vec::new())), BridgeStep::ReadPacket);
    assert_eq!(bridge.next_sample(), None);
}

#[test]
fn bridge_ends_with_the_stream() {
    let bridge = DecodeBridge::new(3, None, None);
    assert_eq!(bridge.on_packet(None), BridgeStep::Finished);
}

#[test]
fn bridge_drops_the_block_after_a_seek() {
    let mut bridge = DecodeBridge::new(0, None, None);
    assert_eq!(bridge.on_decoded(Some(vec![1, 2, 3, 4])), BridgeStep::SampleReady);
    assert_eq!(bridge.next_sample(), Some(1));
    assert_eq!(bridge.try_seek(true), Ok(()));
    assert_eq!(bridge.poll(), BridgeStep::ReadPacket);
    assert_eq!(bridge.next_sample(), None);
    assert_eq!(bridge.on_decoded(Some(vec![9])), BridgeStep::SampleReady);
    assert_eq!(bridge.next_sample(), Some(9));
}

#[test]
fn bridge_keeps_the_block_after_a_failed_seek() {
    let mut bridge = DecodeBridge::new(0, None, None);
    assert_eq!(bridge.on_decoded(Some(vec![1, 2, 3, 4])), BridgeStep::SampleReady);
    assert_eq!(bridge.next_sample(), Some(1));
    assert_eq!(bridge.try_seek(false), Err(SeekError::NotSupported));
    assert_eq!(bridge.next_sample(), Some(2));
    assert_eq!(bridge.next_sample(), Some(3));
}

#[test]
fn format_hint_is_the_extension() {
    assert_eq!(format_hint("/music/song.flac"), Some(String::from("flac")));
    assert_eq!(format_hint("/music/song.tar.OGG"), Some(String::from("OGG")));
    assert_eq!(format_hint("/music/song"), None);
    assert_eq!(format_hint("/music/.hidden"), None);
    assert_eq!(format_hint(""), None);
}

/// Pulls every sample out of `bridge`, reading packets from `feed` as the
/// bridge asks for them.
fn drain(bridge: &mut DecodeBridge, feed: &[(u32, Option<Vec<i16>>)]) -> Vec<i16> {
    let mut samples = Vec::new();
    let mut next = 0;
    loop {
        if let Some(sample) = bridge.next_sample() {
            samples.push(sample);
            continue;
        }
        let mut step = BridgeStep::ReadPacket;
        let mut packet = None;
        while step != BridgeStep::SampleReady {
            step = match step {
                BridgeStep::ReadPacket => {
                    packet = feed.get(next);
                    next += 1;
                    bridge.on_packet(packet.map(|read| read.0))
                }
                BridgeStep::DecodePacket => bridge.on_decoded(packet.and_then(|read| read.1.clone())),
                BridgeStep::Finished => return samples,
                BridgeStep::SampleReady => step,
            };
        }
    }
}

#[test]
fn samples_come_out_in_the_order_of_the_stream() {
    let feed = vec![
        (1, Some(vec![100, 101])),
        (0, Some(vec![1, 2, 3])),
        (0, None),
        (2, None),
        (0, Some(Vec::new())),
        (0, Some(vec![4])),
        (1, Some(vec![102])),
        (0, Some(vec![5, 6])),
    ];
    let mut bridge = DecodeBridge::new(0, None, None);
    assert_eq!(drain(&mut bridge, &feed), vec![1, 2, 3, 4, 5, 6]);
    let mut other = DecodeBridge::new(1, None, None);
    assert_eq!(drain(&mut other, &feed), vec![100, 101, 102]);
    let mut none = DecodeBridge::new(7, None, None);
    assert!(drain(&mut none, &feed).is_empty());
    assert!(drain(&mut bridge, &[]).is_empty());
}
