use karaoke::chunks::split_into_chunks;

#[test]
fn split_45_gives_three_equal_chunks() {
    assert_eq!(split_into_chunks(45), vec![15, 15, 15]);
}

#[test]
fn split_50_gives_remainder_to_first_chunk() {
    assert_eq!(split_into_chunks(50), vec![18, 16, 16]);
}

#[test]
fn split_sums_to_length_and_counts_windows() {
    let mut length: u32 = 1;
    while length <= 2000 {
        let chunks = split_into_chunks(length);
        let sum: u64 = chunks.iter().map(|c| u64::from(*c)).sum();
        assert_eq!(sum, u64::from(length));
        assert_eq!(chunks.len() as u32, (length + 19) / 20);
        length += 1;
    }
}

#[test]
fn split_of_short_note_is_one_chunk() {
    assert_eq!(split_into_chunks(1), vec![1]);
    assert_eq!(split_into_chunks(20), vec![20]);
    assert_eq!(split_into_chunks(21), vec![11, 10]);
}

#[test]
fn split_first_chunk_can_exceed_the_window() {
    assert_eq!(split_into_chunks(59), vec![21, 19, 19]);
}

#[test]
fn split_of_a_long_note_keeps_every_later_chunk_within_the_window() {
    let chunks = split_into_chunks(1_000_003);
    let sum: u64 = chunks.iter().map(|c| u64::from(*c)).sum();
    assert_eq!(sum, 1_000_003);
    assert_eq!(chunks.len(), 50_001);
    assert!(chunks.iter().skip(1).all(|c| *c >= 1 && *c <= 20));
    assert!(chunks.iter().skip(1).all(|c| *c == chunks[1]));
}
