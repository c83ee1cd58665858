use apod::segments::{next_segment_index, segment_file_name, u64_to_dec, WritePlan, WRITE_ATTEMPTS};

#[test]
fn decimal_rendering_is_exact() {
    assert_eq!(u64_to_dec(0), String::from("0"));
    assert_eq!(u64_to_dec(7), String::from("7"));
    assert_eq!(u64_to_dec(10), String::from("10"));
    assert_eq!(u64_to_dec(90210), String::from("90210"));
    assert_eq!(u64_to_dec(u64::MAX), String::from("18446744073709551615"));
}

#[test]
fn segment_names_are_exact() {
    assert_eq!(segment_file_name(0, 0), String::from("video0_segment0.webm"));
    assert_eq!(segment_file_name(3, 12), String::from("video3_segment12.webm"));
}

#[test]
fn next_index_skips_existing_segments() {
    // A directory already holding segments 0 and 1 for slot 2: the next
    // upload for that slot lands on video2_segment2.webm.
    let existing = vec![0, 1];
    let idx = next_segment_index(&existing);
    assert_eq!(idx, 2);
    assert_eq!(segment_file_name(2, idx), String::from("video2_segment2.webm"));
}

#[test]
fn next_index_fills_the_first_gap() {
    assert_eq!(next_segment_index(&vec![]), 0);
    assert_eq!(next_segment_index(&vec![1]), 0);
    assert_eq!(next_segment_index(&vec![0, 2]), 1);
    assert_eq!(next_segment_index(&vec![1, 0]), 2);
}

#[test]
fn write_plan_resumes_at_the_written_offset() {
    let mut plan = WritePlan::new(10);
    assert!(plan.pending());
    assert_eq!(plan.written, 0);
    plan.record_attempt(Some(4));
    assert_eq!(plan.written, 4);
    assert_eq!(plan.retries_left, WRITE_ATTEMPTS - 1);
    // A failed attempt burns a retry without moving the offset.
    plan.record_attempt(None);
    assert_eq!(plan.written, 4);
    assert_eq!(plan.retries_left, WRITE_ATTEMPTS - 2);
    plan.record_attempt(Some(6));
    assert_eq!(plan.written, 10);
    assert!(!plan.pending());
}

#[test]
fn write_plan_gives_up_after_bounded_retries() {
    let mut plan = WritePlan::new(5);
    let mut attempts = 0;
    while plan.pending() {
        plan.record_attempt(Some(0));
        attempts += 1;
    }
    assert_eq!(attempts, WRITE_ATTEMPTS);
    assert_eq!(plan.written, 0);
}

#[test]
fn empty_payload_needs_no_attempt() {
    let plan = WritePlan::new(0);
    assert!(!plan.pending());
}
