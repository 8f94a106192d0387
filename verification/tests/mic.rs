use karaoke::capture::AudioCaptureBuffer;
use karaoke::capture::CaptureProducer;
use karaoke::error::SessionError;
use karaoke::mic::Microphone;

fn microphone(rate: u32) -> (CaptureProducer, Microphone) {
    let (producer, consumer) = AudioCaptureBuffer::new(rate).unwrap().split();
    (producer, Microphone::new(consumer, rate))
}

#[test]
fn new_microphone_starts_with_a_window_of_a_hundred_milliseconds() {
    let (_producer, mic) = microphone(8000);
    assert_eq!(mic.sample_rate(), 8000);
    assert_eq!(mic.window_length(), 100);
    assert_eq!(mic.elapsed_time(), 0);
    assert_eq!(mic.needed_samples(), 800);
}

#[test]
fn needed_samples_follow_the_window_length() {
    let (_producer, mut mic) = microphone(8000);
    mic.set_window_length(20);
    assert_eq!(mic.needed_samples(), 160);
    mic.set_window_length(15);
    assert_eq!(mic.needed_samples(), 120);
    mic.set_window_length(0);
    assert_eq!(mic.needed_samples(), 0);
}

#[test]
fn rounding_of_one_window_is_made_up_by_the_next() {
    let (mut producer, mut mic) = microphone(44100);
    mic.set_window_length(15);
    let mut taken: u64 = 0;
    let expected = [661u64, 662, 661, 662, 661, 662];
    for needed in expected {
        assert_eq!(mic.needed_samples(), needed);
        let block = vec![7u32; needed as usize];
        assert_eq!(producer.push(&block), block.len());
        let window = mic.consume().unwrap().unwrap();
        assert_eq!(window.len() as u64, needed);
        taken += needed;
        assert_eq!(taken, mic.elapsed_time() * 44100 / 1000);
    }
    assert_eq!(mic.elapsed_time(), 90);
}

#[test]
fn ready_needs_a_full_window_in_the_buffer() {
    let (mut producer, mut mic) = microphone(8000);
    mic.set_window_length(20);
    assert!(!mic.ready());
    assert!(!mic.ready_with(159));
    assert!(mic.ready_with(160));
    producer.push(&vec![0u32; 159]);
    assert!(!mic.ready());
    assert_eq!(mic.consume().unwrap(), None);
    producer.push(&[1]);
    assert!(mic.ready());
}

#[test]
fn consume_hands_out_the_oldest_samples_and_counts_the_window() {
    let (mut producer, mut mic) = microphone(1000);
    mic.set_window_length(3);
    producer.push(&[1, 2, 3, 4, 5, 6, 7]);
    assert_eq!(mic.consume().unwrap(), Some(vec![1, 2, 3]));
    assert_eq!(mic.elapsed_time(), 3);
    assert_eq!(mic.consume().unwrap(), Some(vec![4, 5, 6]));
    assert_eq!(mic.elapsed_time(), 6);
    assert_eq!(mic.consume().unwrap(), None);
    assert_eq!(mic.elapsed_time(), 6);
}

#[test]
fn accept_refuses_a_window_of_the_wrong_length() {
    let (_producer, mut mic) = microphone(1000);
    mic.set_window_length(4);
    assert_eq!(mic.accept(vec![1, 2, 3]), Err(SessionError::SchedulerInvariantViolation));
    assert_eq!(mic.accept(vec![1, 2, 3, 4, 5]), Err(SessionError::SchedulerInvariantViolation));
    assert_eq!(mic.elapsed_time(), 0);
    assert_eq!(mic.accept(vec![1, 2, 3, 4]), Ok(vec![1, 2, 3, 4]));
    assert_eq!(mic.elapsed_time(), 4);
}

#[test]
fn clear_discards_the_buffer_and_keeps_the_count() {
    let (mut producer, mut mic) = microphone(1000);
    mic.set_window_length(2);
    producer.push(&[1, 2, 3, 4, 5]);
    assert_eq!(mic.consume().unwrap(), Some(vec![1, 2]));
    mic.clear();
    assert!(!mic.ready());
    assert_eq!(mic.consume().unwrap(), None);
    assert_eq!(mic.elapsed_time(), 2);
    assert_eq!(mic.window_length(), 2);
}

#[test]
fn note_for_a_pitch_is_as_long_as_the_window() {
    let (_producer, mut mic) = microphone(8000);
    mic.set_window_length(18);
    let note = mic.note_for(-7);
    assert_eq!(note.length, 18);
    assert_eq!(note.pitch, -7);
    assert!(note.voiced);
    assert_eq!(note.lyric, "");
}

#[test]
fn a_window_that_needs_no_sample_is_handed_out_empty() {
    let (_producer, mut mic) = microphone(10);
    mic.set_window_length(20);
    assert_eq!(mic.needed_samples(), 0);
    assert!(mic.ready());
    assert_eq!(mic.consume().unwrap(), Some(vec![]));
    assert_eq!(mic.elapsed_time(), 20);
    mic.set_window_length(100);
    assert_eq!(mic.needed_samples(), 1);
    assert!(!mic.ready());
    assert_eq!(mic.consume().unwrap(), None);
    assert_eq!(mic.elapsed_time(), 20);
}
