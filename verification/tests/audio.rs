use gametank_libretro::audio::{audio_channel, drain_audio, AUDIO_QUEUE_CAPACITY};

#[test]
fn audio_channel_starts_empty_with_room_for_4096_bytes() {
    let (producer, consumer) = audio_channel();
    assert_eq!(AUDIO_QUEUE_CAPACITY, 4096);
    assert_eq!(consumer.buffer().capacity(), 4096);
    assert_eq!(producer.slots(), 4096);
    assert!(consumer.is_empty());
}

#[test]
fn drain_of_an_empty_queue_yields_nothing() {
    let (_producer, mut consumer) = audio_channel();
    assert_eq!(drain_audio(&mut consumer), Vec::<u8>::new());
    assert!(consumer.is_empty());
}

#[test]
fn drain_yields_the_pushed_bytes_oldest_first() {
    let (mut producer, mut consumer) = audio_channel();
    assert!(producer.push(3).is_ok());
    assert!(producer.push(1).is_ok());
    assert!(producer.push(2).is_ok());
    assert_eq!(drain_audio(&mut consumer), vec![3, 1, 2]);
    assert!(consumer.is_empty());
    assert!(consumer.pop().is_err());
}

#[test]
fn a_full_queue_drains_to_exactly_what_was_pushed() {
    let (mut producer, mut consumer) = audio_channel();
    let mut pushed: Vec<u8> = Vec::new();
    for i in 0..4096usize {
        let sample: u8 = (i * 31 % 256) as u8;
        assert!(producer.push(sample).is_ok());
        pushed.push(sample);
    }
    let drained = drain_audio(&mut consumer);
    assert_eq!(drained.len(), 4096);
    assert_eq!(drained, pushed);
    assert_eq!(producer.slots(), 4096);
}

#[test]
fn a_byte_pushed_past_capacity_is_refused_and_the_rest_is_intact() {
    let (mut producer, mut consumer) = audio_channel();
    let mut pushed: Vec<u8> = Vec::new();
    for i in 0..4096usize {
        let sample: u8 = (i % 256) as u8;
        assert!(producer.push(sample).is_ok());
        pushed.push(sample);
    }
    assert!(producer.is_full());
    assert!(producer.push(0xEE).is_err());
    assert_eq!(drain_audio(&mut consumer), pushed);
}

#[test]
fn the_queue_can_be_filled_again_after_a_drain() {
    let (mut producer, mut consumer) = audio_channel();
    for round in 0..3u8 {
        for i in 0..4096usize {
            assert!(producer.push(round.wrapping_add(i as u8)).is_ok());
        }
        let drained = drain_audio(&mut consumer);
        assert_eq!(drained.len(), 4096);
        assert_eq!(drained[0], round);
        assert_eq!(drained[4095], round.wrapping_add(255));
        assert!(consumer.is_empty());
    }
}

#[test]
fn samples_pushed_after_a_drain_come_out_of_the_next_one() {
    let (mut producer, mut consumer) = audio_channel();
    assert!(producer.push(1).is_ok());
    assert!(producer.push(2).is_ok());
    assert_eq!(drain_audio(&mut consumer), vec![1, 2]);
    assert!(producer.push(3).is_ok());
    assert_eq!(drain_audio(&mut consumer), vec![3]);
    assert_eq!(drain_audio(&mut consumer), Vec::<u8>::new());
}

#[test]
fn samples_found_before_the_drain_come_out_first() {
    let (mut producer, mut consumer) = audio_channel();
    assert!(producer.push(10).is_ok());
    assert!(producer.push(20).is_ok());
    assert_eq!(consumer.slots(), 2);
    assert!(producer.push(30).is_ok());
    assert_eq!(drain_audio(&mut consumer), vec![10, 20, 30]);
    assert_eq!(producer.slots(), 4096);
}
