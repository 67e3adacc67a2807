use gst_mxl_rs::planar::{buffer_size, check_channels, fill_channel, interleave, join_planes};

#[test]
fn channels_are_interleaved() {
    let channels = vec![
        vec![1, 2, 3, 4, 5, 6, 7, 8],
        vec![11, 12, 13, 14, 15, 16, 17, 18],
    ];
    assert_eq!(
        interleave(&channels),
        [1, 2, 3, 4, 11, 12, 13, 14, 5, 6, 7, 8, 15, 16, 17, 18]
    );
    assert_eq!(buffer_size(&channels), 16);
}

#[test]
fn only_whole_samples_of_the_last_channel_count() {
    let channels = vec![vec![1, 2, 3, 4, 5, 6, 7, 8], vec![11, 12, 13, 14, 15]];
    assert_eq!(interleave(&channels), [1, 2, 3, 4, 11, 12, 13, 14]);
    assert_eq!(buffer_size(&channels), 13);
    assert!(check_channels(&channels));
    assert!(!check_channels(&vec![vec![1, 2, 3], vec![1, 2, 3, 4]]));
    assert!(check_channels(&vec![]));
    assert!(interleave(&vec![]).is_empty());
    assert_eq!(buffer_size(&vec![]), 0);
}

#[test]
fn planes_are_joined_in_order() {
    assert_eq!(join_planes(&[1, 2], &[3]), [1, 2, 3]);
    assert_eq!(join_planes(&[], &[3]), [3]);
}

#[test]
fn samples_go_to_both_planes() {
    let chunk = [1, 2, 11, 12, 3, 4, 13, 14, 5, 6, 15, 16];
    let mut first = [0u8; 4];
    let mut second = [9u8; 3];
    fill_channel(&chunk, 1, 2, 2, 3, &mut first, &mut second);
    assert_eq!(first, [11, 12, 13, 14]);
    assert_eq!(second, [15, 16, 9]);
}

#[test]
fn a_sample_that_does_not_fit_the_first_plane_starts_the_second() {
    let chunk = [1, 2, 3, 4, 5, 6];
    let mut first = [0u8; 3];
    let mut second = [0u8; 3];
    fill_channel(&chunk, 0, 1, 2, 3, &mut first, &mut second);
    assert_eq!(first, [1, 2, 0]);
    // The second sample moves to the start of the second plane, where the
    // third one then overwrites its end.
    assert_eq!(second, [3, 5, 6]);
}

#[test]
fn samples_that_are_missing_or_have_no_room_are_left_out() {
    let mut first = [0u8; 4];
    let mut second = [0u8; 0];
    fill_channel(&[1, 2, 3], 0, 1, 2, 2, &mut first, &mut second);
    assert_eq!(first, [1, 2, 0, 0]);

    let mut first = [0u8; 2];
    fill_channel(&[1, 2, 3, 4], 0, 1, 2, 2, &mut first, &mut second);
    assert_eq!(first, [1, 2]);
}

#[test]
fn interleaving_undoes_filling() {
    let chunk: Vec<u8> = (0..36).collect();
    for split in [0, 4, 8, 12] {
        let mut channels: Vec<Vec<u8>> = Vec::new();
        for channel in 0..3 {
            let mut first = vec![0u8; split];
            let mut second = vec![0u8; 12 - split];
            fill_channel(&chunk, channel, 3, 4, 3, &mut first, &mut second);
            channels.push(join_planes(&first, &second));
        }
        assert_eq!(interleave(&channels), chunk);
        assert_eq!(buffer_size(&channels), chunk.len());
    }
}
