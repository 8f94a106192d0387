use karaoke::capture::window_room;
use karaoke::capture::window_taken;
use karaoke::capture::AudioCaptureBuffer;

#[test]
fn new_buffer_is_empty_and_holds_one_second() {
    let buffer = AudioCaptureBuffer::new(8000).unwrap();
    assert_eq!(buffer.capacity(), 8000);
    assert_eq!(buffer.available_len(), 0);
    assert_eq!(buffer.overruns(), 0);
}

#[test]
fn pushes_and_pops_in_several_calls_keep_the_order() {
    let mut buffer = AudioCaptureBuffer::new(16).unwrap();
    assert_eq!(buffer.push(&[1, 2, 3]), 3);
    assert_eq!(buffer.push(&[]), 0);
    assert_eq!(buffer.push(&[4, 5]), 2);
    assert_eq!(buffer.push(&[6, 7, 8, 9]), 4);
    assert_eq!(buffer.available_len(), 9);
    assert_eq!(buffer.pop(2), vec![1, 2]);
    assert_eq!(buffer.pop(0), Vec::<u32>::new());
    assert_eq!(buffer.pop(4), vec![3, 4, 5, 6]);
    assert_eq!(buffer.pop(10), vec![7, 8, 9]);
    assert_eq!(buffer.pop(1), Vec::<u32>::new());
    assert_eq!(buffer.overruns(), 0);
}

#[test]
fn push_over_capacity_drops_only_the_end() {
    let mut buffer = AudioCaptureBuffer::new(4).unwrap();
    assert_eq!(buffer.push(&[1, 2, 3]), 3);
    assert_eq!(buffer.push(&[4, 5, 6]), 1);
    assert_eq!(buffer.overruns(), 1);
    assert_eq!(buffer.push(&[7]), 0);
    assert_eq!(buffer.overruns(), 2);
    assert_eq!(buffer.available_len(), 4);
    assert_eq!(buffer.pop(4), vec![1, 2, 3, 4]);
}

#[test]
fn room_comes_back_after_a_pop_and_the_ring_wraps() {
    let mut buffer = AudioCaptureBuffer::new(4).unwrap();
    let mut next: u32 = 0;
    let mut expected: u32 = 0;
    for _ in 0..25 {
        let block = [next, next + 1, next + 2];
        assert_eq!(buffer.push(&block), 3);
        next += 3;
        let out = buffer.pop(3);
        assert_eq!(out, vec![expected, expected + 1, expected + 2]);
        expected += 3;
    }
    assert_eq!(buffer.available_len(), 0);
}

#[test]
fn clear_discards_everything() {
    let mut buffer = AudioCaptureBuffer::new(8).unwrap();
    buffer.push(&[9, 8, 7]);
    buffer.clear();
    assert_eq!(buffer.available_len(), 0);
    assert_eq!(buffer.pop(3), Vec::<u32>::new());
    assert_eq!(buffer.push(&[1]), 1);
    assert_eq!(buffer.pop(3), vec![1]);
    assert_eq!(buffer.capacity(), 8);
}

#[test]
fn buffer_of_no_capacity_takes_nothing() {
    let mut buffer = AudioCaptureBuffer::new(0).unwrap();
    assert_eq!(buffer.push(&[1, 2]), 0);
    assert_eq!(buffer.overruns(), 1);
    assert_eq!(buffer.pop(1), Vec::<u32>::new());
}

#[test]
fn samples_keep_their_bits() {
    let mut buffer = AudioCaptureBuffer::new(4).unwrap();
    let samples = [0.25f32.to_bits(), (-1.5f32).to_bits(), f32::NAN.to_bits(), 0];
    assert_eq!(buffer.push(&samples), 4);
    let out = buffer.pop(4);
    assert_eq!(out, samples.to_vec());
    assert_eq!(f32::from_bits(out[1]), -1.5);
}

#[test]
fn split_ends_pass_samples_from_producer_to_consumer() {
    let (mut producer, mut consumer) = AudioCaptureBuffer::new(5).unwrap().split();
    assert_eq!(consumer.available_len(), 0);
    assert_eq!(producer.push(&[10, 20, 30]), 3);
    assert_eq!(consumer.available_len(), 3);
    assert_eq!(consumer.pop(2), vec![10, 20]);
    assert_eq!(producer.push(&[40, 50, 60, 70, 80]), 4);
    assert_eq!(producer.overruns(), 1);
    assert_eq!(consumer.pop(9), vec![30, 40, 50, 60, 70]);
    assert_eq!(consumer.pop(9), Vec::<u32>::new());
}

#[test]
fn split_keeps_what_the_buffer_held_and_counted() {
    let mut buffer = AudioCaptureBuffer::new(2).unwrap();
    buffer.push(&[1, 2, 3]);
    let (mut producer, mut consumer) = buffer.split();
    assert_eq!(producer.overruns(), 1);
    assert_eq!(producer.push(&[4]), 0);
    assert_eq!(producer.overruns(), 2);
    assert_eq!(consumer.pop(2), vec![1, 2]);
}

#[test]
fn consumer_clear_says_how_many_it_discarded() {
    let (mut producer, mut consumer) = AudioCaptureBuffer::new(8).unwrap().split();
    producer.push(&[1, 2, 3, 4, 5]);
    assert_eq!(consumer.clear(), 5);
    assert_eq!(consumer.available_len(), 0);
    assert_eq!(consumer.clear(), 0);
}

#[test]
fn window_room_is_the_smaller_of_wish_and_holding() {
    assert_eq!(window_room(3, 10), 3);
    assert_eq!(window_room(10, 3), 3);
    assert_eq!(window_room(0, 3), 0);
    assert_eq!(window_room(usize::MAX, 0), 0);
    assert_eq!(window_room(7, 7), 7);
}

#[test]
fn window_taken_keeps_what_was_moved() {
    assert_eq!(window_taken(vec![1, 2, 3, 0, 0], 3), vec![1, 2, 3]);
    assert_eq!(window_taken(vec![1, 2, 3], 3), vec![1, 2, 3]);
    assert_eq!(window_taken(vec![1, 2, 3], 9), vec![1, 2, 3]);
    assert_eq!(window_taken(vec![1, 2, 3], 0), Vec::<u32>::new());
}

#[test]
fn consuming_end_never_gives_more_than_the_buffer_was_made_for() {
    let (mut producer, mut consumer) = AudioCaptureBuffer::new(4).unwrap().split();
    for round in 0..10u32 {
        producer.push(&[round; 7]);
        assert!(consumer.available_len() <= 4);
        let out = consumer.pop(100);
        assert_eq!(out, vec![round; 4]);
        producer.push(&[round; 3]);
        assert_eq!(consumer.clear(), 3);
    }
}
