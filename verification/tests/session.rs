use karaoke::capture::AudioCaptureBuffer;
use karaoke::capture::CaptureProducer;
use karaoke::error::SessionError;
use karaoke::mic::Microphone;
use karaoke::note::Note;
use karaoke::session::Action;
use karaoke::session::State;
use karaoke::session::TrackSession;
use karaoke::track::Track;

const MILLI: u64 = 1_000_000;

fn track_of(lengths: &[&[u32]]) -> Track {
    let mut track = Track::new();
    for phrase in lengths {
        let mut notes = Vec::new();
        for length in phrase.iter() {
            notes.push(Note::new(*length, 0, true, String::from("la")));
        }
        track.phrases.push(notes);
    }
    track
}

fn session_on(lengths: &[&[u32]], rate: u32) -> (CaptureProducer, TrackSession) {
    let (producer, consumer) = AudioCaptureBuffer::new(rate).unwrap().split();
    let session = TrackSession::new(track_of(lengths), Microphone::new(consumer, rate)).unwrap();
    (producer, session)
}

fn error_of(track: Track) -> SessionError {
    let (_producer, consumer) = AudioCaptureBuffer::new(8).unwrap().split();
    match TrackSession::new(track, Microphone::new(consumer, 8)) {
        Ok(_) => panic!("the track was taken"),
        Err(error) => error,
    }
}

#[test]
fn session_refuses_a_track_without_phrases() {
    assert_eq!(error_of(Track::new()), SessionError::EmptyTrack);
}

#[test]
fn session_refuses_a_track_with_an_empty_phrase() {
    assert_eq!(error_of(track_of(&[&[10], &[]])), SessionError::EmptyTrack);
    assert_eq!(error_of(track_of(&[&[]])), SessionError::EmptyTrack);
}

#[test]
fn session_refuses_a_note_of_no_length() {
    assert_eq!(error_of(track_of(&[&[10, 0]])), SessionError::EmptyTrack);
}

#[test]
fn new_session_plays_from_the_first_chunk() {
    let (_producer, session) = session_on(&[&[45, 10]], 1000);
    assert_eq!(session.state(), State::Playing);
    assert_eq!(session.phrase_index(), 0);
    assert_eq!(session.note_index(), 0);
    assert_eq!(session.chunk_index(), 0);
    assert_eq!(session.elapsed_time_goal(), 0);
    assert!(!session.is_awaiting_pitch());
    assert!(session.sung_track().phrases.is_empty());
    assert_eq!(session.backing_track().phrases[0].len(), 2);
}

#[test]
fn a_chunk_is_due_only_after_its_time_and_with_its_samples() {
    let (mut producer, mut session) = session_on(&[&[45]], 1000);
    producer.push(&vec![1u32; 15]);
    assert!(!session.ready());
    assert!(matches!(session.tick_at(14 * MILLI), Ok(Action::Idle)));
    assert_eq!(session.elapsed_time_goal(), 14 * MILLI);
    assert!(!session.ready_with(1000));
    assert!(matches!(session.tick_at(14 * MILLI), Ok(Action::Idle)));
    match session.tick_at(15 * MILLI) {
        Ok(Action::Analyze(samples)) => assert_eq!(samples, vec![1u32; 15]),
        other => panic!("no window: {:?}", other),
    }
    assert!(session.is_awaiting_pitch());
    assert_eq!(session.elapsed_time_goal(), 15 * MILLI);
}

#[test]
fn without_samples_nothing_is_handed_out() {
    let (mut producer, mut session) = session_on(&[&[20]], 1000);
    assert!(matches!(session.tick_at(500 * MILLI), Ok(Action::Idle)));
    assert!(session.ready_with(20));
    assert!(!session.ready_with(19));
    producer.push(&vec![0u32; 19]);
    assert!(matches!(session.tick_at(501 * MILLI), Ok(Action::Idle)));
    producer.push(&[0]);
    assert!(matches!(session.tick_at(502 * MILLI), Ok(Action::Analyze(_))));
}

#[test]
fn a_pitch_without_a_window_is_an_error() {
    let (_producer, mut session) = session_on(&[&[20]], 1000);
    assert!(matches!(
        session.record_pitch(3),
        Err(SessionError::SchedulerInvariantViolation)
    ));
    assert_eq!(session.state(), State::Playing);
    assert!(session.sung_track().phrases.is_empty());
}

#[test]
fn no_second_window_is_handed_out_before_the_pitch() {
    let (mut producer, mut session) = session_on(&[&[40]], 1000);
    producer.push(&vec![0u32; 40]);
    assert!(matches!(session.tick_at(100 * MILLI), Ok(Action::Analyze(_))));
    assert!(matches!(session.tick_at(200 * MILLI), Ok(Action::Idle)));
    assert!(!session.ready());
    assert!(matches!(session.record_pitch(1), Ok(Action::Analyze(_))));
    assert!(matches!(session.record_pitch(2), Ok(Action::Stop)));
    assert_eq!(session.state(), State::Finished);
}

fn play_through(lengths: &[&[u32]], rate: u32) -> TrackSession {
    let (mut producer, mut session) = session_on(lengths, rate);
    let mut now: u64 = 0;
    let mut pitch: i8 = 0;
    let mut guard = 0;
    while session.state() != State::Finished {
        guard += 1;
        assert!(guard < 10_000);
        now += 5 * MILLI;
        let block = vec![guard as u32; (rate / 200) as usize];
        producer.push(&block);
        let mut action = session.tick_at(now).unwrap();
        loop {
            match action {
                Action::Analyze(samples) => {
                    assert!(!samples.is_empty());
                    pitch = pitch.wrapping_add(1);
                    action = session.record_pitch(pitch).unwrap();
                }
                Action::Idle => break,
                Action::Stop => break,
            }
        }
    }
    session
}

#[test]
fn session_on_two_phrases_of_two_notes_finishes_with_as_many_sung_notes() {
    let session = play_through(&[&[20, 10], &[5, 20]], 8000);
    assert_eq!(session.state(), State::Finished);
    let sung = session.sung_track();
    assert_eq!(sung.phrases.len(), 2);
    assert_eq!(sung.phrases[0].len(), 2);
    assert_eq!(sung.phrases[1].len(), 2);
    let lengths: Vec<Vec<u32>> =
        sung.phrases.iter().map(|p| p.iter().map(|n| n.length).collect()).collect();
    assert_eq!(lengths, vec![vec![20, 10], vec![5, 20]]);
    let pitches: Vec<i8> = sung.phrases.iter().flatten().map(|n| n.pitch).collect();
    assert_eq!(pitches, vec![1, 2, 3, 4]);
    assert!(sung.phrases.iter().flatten().all(|n| n.voiced && n.lyric.is_empty()));
}

#[test]
fn longer_notes_are_sung_as_one_note_for_each_chunk() {
    let session = play_through(&[&[45, 50], &[59]], 8000);
    let sung = session.sung_track();
    let lengths: Vec<Vec<u32>> =
        sung.phrases.iter().map(|p| p.iter().map(|n| n.length).collect()).collect();
    assert_eq!(lengths, vec![vec![15, 15, 15, 18, 16, 16], vec![21, 19, 19]]);
    assert_eq!(session.phrase_index(), 2);
    assert_eq!(session.note_index(), 0);
    assert_eq!(session.chunk_index(), 0);
}

#[test]
fn a_finished_session_stays_as_it_is() {
    let mut session = play_through(&[&[10]], 1000);
    let goal = session.elapsed_time_goal();
    assert!(matches!(session.tick_at(u64::MAX), Ok(Action::Idle)));
    assert_eq!(session.elapsed_time_goal(), goal);
    assert!(!session.ready());
    assert!(!session.ready_with(usize::MAX));
    session.pause_at(7);
    session.resume_at(8);
    assert_eq!(session.state(), State::Finished);
    assert!(matches!(
        session.record_pitch(0),
        Err(SessionError::SchedulerInvariantViolation)
    ));
}

#[test]
fn a_paused_session_hands_out_nothing_and_adds_no_time() {
    let (mut producer, mut session) = session_on(&[&[10, 10]], 1000);
    producer.push(&vec![0u32; 100]);
    session.pause_at(2 * MILLI);
    assert_eq!(session.state(), State::Paused);
    assert!(matches!(session.tick_at(900 * MILLI), Ok(Action::Idle)));
    assert_eq!(session.elapsed_time_goal(), 0);
    assert!(!session.ready());
    session.pause_at(950 * MILLI);
    assert_eq!(session.state(), State::Paused);
    session.resume_at(1_000 * MILLI);
    assert_eq!(session.state(), State::Playing);
    assert!(matches!(session.tick_at(1_004 * MILLI), Ok(Action::Idle)));
    assert_eq!(session.elapsed_time_goal(), 4 * MILLI);
    assert!(matches!(session.tick_at(1_010 * MILLI), Ok(Action::Analyze(_))));
    assert_eq!(session.elapsed_time_goal(), 10 * MILLI);
}

#[test]
fn a_pitch_that_comes_while_paused_is_still_recorded() {
    let (mut producer, mut session) = session_on(&[&[10, 10]], 1000);
    producer.push(&vec![0u32; 100]);
    assert!(matches!(session.tick_at(50 * MILLI), Ok(Action::Analyze(_))));
    session.pause_at(51 * MILLI);
    assert!(matches!(session.record_pitch(12), Ok(Action::Idle)));
    assert_eq!(session.sung_track().phrases[0][0].pitch, 12);
    assert_eq!(session.note_index(), 1);
    session.resume_at(60 * MILLI);
    assert!(matches!(session.tick_at(61 * MILLI), Ok(Action::Analyze(_))));
}

#[test]
fn clear_capture_discards_what_was_captured() {
    let (mut producer, mut session) = session_on(&[&[10]], 1000);
    producer.push(&vec![0u32; 10]);
    session.clear_capture();
    assert!(matches!(session.tick_at(50 * MILLI), Ok(Action::Idle)));
    assert_eq!(session.state(), State::Playing);
}

#[test]
fn session_on_the_machine_clock_ticks_without_error() {
    let (mut producer, mut session) = session_on(&[&[1]], 1000);
    producer.push(&[5]);
    let mut rounds = 0u32;
    loop {
        rounds += 1;
        assert!(rounds < 50_000_000);
        match session.tick().unwrap() {
            Action::Analyze(samples) => {
                assert_eq!(samples, vec![5]);
                assert!(matches!(session.record_pitch(9), Ok(Action::Stop)));
                break;
            }
            Action::Idle => {}
            Action::Stop => panic!("stopped before a pitch"),
        }
    }
    assert_eq!(session.state(), State::Finished);
    session.pause();
    session.resume();
    assert_eq!(session.state(), State::Finished);
}

#[test]
fn a_due_chunk_that_needs_no_sample_is_handed_out_without_capture() {
    let (_producer, mut session) = session_on(&[&[20, 100]], 10);
    assert!(!session.ready());
    assert!(matches!(session.tick_at(19 * MILLI), Ok(Action::Idle)));
    assert!(!session.ready());
    match session.tick_at(20 * MILLI) {
        Ok(Action::Analyze(samples)) => assert!(samples.is_empty()),
        other => panic!("no window: {:?}", other),
    }
    for _ in 0..3 {
        match session.record_pitch(0) {
            Ok(Action::Analyze(samples)) => assert!(samples.is_empty()),
            other => panic!("no window: {:?}", other),
        }
    }
    assert_eq!(session.note_index(), 1);
    assert_eq!(session.chunk_index(), 2);
    assert!(matches!(session.record_pitch(0), Ok(Action::Idle)));
    assert_eq!(session.chunk_index(), 3);
    assert!(!session.ready());
    assert!(session.ready_with(1));
}

#[test]
fn a_second_resume_adds_no_time_to_the_goal() {
    let (_producer, mut session) = session_on(&[&[20]], 1000);
    session.pause_at(3 * MILLI);
    session.resume_at(10 * MILLI);
    session.resume_at(12 * MILLI);
    assert_eq!(session.state(), State::Playing);
    assert!(matches!(session.tick_at(15 * MILLI), Ok(Action::Idle)));
    assert_eq!(session.elapsed_time_goal(), 8 * MILLI);
}
