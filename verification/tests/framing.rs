use phase_transplant::frames::extract_frames;
use phase_transplant::frames::num_frames;

#[test]
fn frame_count_law_examples() {
    // floor((N - s) / p) + 1 frames, zero when the buffer is too short
    assert_eq!(num_frames(600, 512, 256), 1);
    assert_eq!(num_frames(511, 512, 256), 0);
    assert_eq!(num_frames(2000, 512, 256), 6);
    assert_eq!(num_frames(1200, 512, 256), 3);
    assert_eq!(num_frames(1024, 512, 512), 2);
    assert_eq!(num_frames(0, 512, 256), 0);
    assert_eq!(num_frames(512, 512, 256), 1);
    assert_eq!(num_frames(5, 1, 1), 5);
}

#[test]
fn frame_count_with_stride_larger_than_size() {
    // step > size skips samples between frames
    assert_eq!(num_frames(10, 2, 5), 2);
    let buf: Vec<u32> = (0..10).collect();
    let frames = extract_frames(&buf, 2, 5);
    assert_eq!(frames.len(), 2);
    assert_eq!(frames[0], vec![0, 1]);
    assert_eq!(frames[1], vec![5, 6]);
}

#[test]
fn extracted_frames_are_strided_windows() {
    let buf: Vec<u32> = (0..8).collect();
    let frames = extract_frames(&buf, 3, 2);
    assert_eq!(frames.len(), 3);
    assert_eq!(frames[0], vec![0, 1, 2]);
    assert_eq!(frames[1], vec![2, 3, 4]);
    assert_eq!(frames[2], vec![4, 5, 6]);
}

#[test]
fn extraction_truncates_a_partial_last_frame() {
    let buf: Vec<u32> = (0..7).collect();
    let frames = extract_frames(&buf, 3, 2);
    // a frame starting at 6 would run past the end and is never emitted
    assert_eq!(frames.len(), 3);
    assert_eq!(frames[2], vec![4, 5, 6]);
}

#[test]
fn short_buffer_yields_no_frames() {
    let buf: Vec<u32> = vec![1, 2];
    let frames = extract_frames(&buf, 3, 1);
    assert!(frames.is_empty());
}

#[test]
fn non_overlapping_frames_partition_the_buffer() {
    let buf: Vec<u32> = (0..6).collect();
    let frames = extract_frames(&buf, 2, 2);
    assert_eq!(frames.len(), 3);
    assert_eq!(frames[0], vec![0, 1]);
    assert_eq!(frames[1], vec![2, 3]);
    assert_eq!(frames[2], vec![4, 5]);
}
