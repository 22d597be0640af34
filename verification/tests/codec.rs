use file_transfer::codec::{
    chunk_count, chunk_window, chunk_windows, is_complete, progress, ChunkWindow, CHUNK_SIZE,
};

fn assert_partition(total: u64) {
    let windows = chunk_windows(total);
    assert_eq!(windows.len() as u64, chunk_count(total));
    let mut position = 0u64;
    for (index, window) in windows.iter().enumerate() {
        assert_eq!(window.offset, position);
        assert_eq!(window.offset, index as u64 * CHUNK_SIZE);
        assert!(window.length > 0);
        assert!(window.length <= CHUNK_SIZE);
        assert_eq!(chunk_window(total, index as u64), Some(*window));
        position += window.length;
    }
    assert_eq!(position, total);
    if let Some(last) = windows.last() {
        assert_eq!(last.length, total - (windows.len() as u64 - 1) * CHUNK_SIZE);
    }
    assert_eq!(chunk_window(total, windows.len() as u64), None);
}

#[test]
fn chunk_size_is_one_mebibyte() {
    assert_eq!(CHUNK_SIZE, 1_048_576);
}

#[test]
fn empty_file_has_no_window() {
    assert_eq!(chunk_count(0), 0);
    assert_eq!(chunk_windows(0), vec![]);
    assert_eq!(chunk_window(0, 0), None);
}

#[test]
fn one_byte_is_one_window() {
    assert_eq!(chunk_count(1), 1);
    assert_eq!(chunk_windows(1), vec![ChunkWindow { offset: 0, length: 1 }]);
}

#[test]
fn one_byte_less_than_a_chunk() {
    assert_eq!(chunk_windows(CHUNK_SIZE - 1), vec![ChunkWindow { offset: 0, length: 1_048_575 }]);
}

#[test]
fn exactly_one_chunk() {
    assert_eq!(chunk_count(CHUNK_SIZE), 1);
    assert_eq!(chunk_windows(CHUNK_SIZE), vec![ChunkWindow { offset: 0, length: 1_048_576 }]);
}

#[test]
fn one_byte_more_than_a_chunk() {
    assert_eq!(
        chunk_windows(CHUNK_SIZE + 1),
        vec![
            ChunkWindow { offset: 0, length: 1_048_576 },
            ChunkWindow { offset: 1_048_576, length: 1 },
        ]
    );
}

#[test]
fn ten_chunks_and_seventeen_bytes() {
    let total = 10 * CHUNK_SIZE + 17;
    let windows = chunk_windows(total);
    assert_eq!(windows.len(), 11);
    assert_eq!(windows[10], ChunkWindow { offset: 10_485_760, length: 17 });
    assert_eq!(windows[9], ChunkWindow { offset: 9_437_184, length: 1_048_576 });
}

#[test]
fn two_and_a_half_mebibytes_make_three_windows() {
    assert_eq!(
        chunk_windows(2_621_440),
        vec![
            ChunkWindow { offset: 0, length: 1_048_576 },
            ChunkWindow { offset: 1_048_576, length: 1_048_576 },
            ChunkWindow { offset: 2_097_152, length: 524_288 },
        ]
    );
}

#[test]
fn windows_partition_the_file() {
    for total in [
        0,
        1,
        2,
        CHUNK_SIZE - 1,
        CHUNK_SIZE,
        CHUNK_SIZE + 1,
        2 * CHUNK_SIZE,
        2_621_440,
        10 * CHUNK_SIZE + 17,
    ] {
        assert_partition(total);
    }
}

#[test]
fn window_count_of_the_largest_file() {
    assert_eq!(chunk_count(u64::MAX), 17_592_186_044_416);
    assert_eq!(
        chunk_window(u64::MAX, 17_592_186_044_415),
        Some(ChunkWindow { offset: 18_446_744_073_708_503_040, length: 1_048_575 })
    );
    assert_eq!(chunk_window(u64::MAX, 17_592_186_044_416), None);
}

#[test]
fn progress_is_rounded_down() {
    assert_eq!(progress(0, 1_048_576, 2_621_440), 40);
    assert_eq!(progress(1_048_576, 1_048_576, 2_621_440), 80);
    assert_eq!(progress(2_097_152, 524_288, 2_621_440), 100);
    assert_eq!(progress(0, 1, 3), 33);
    assert_eq!(progress(1, 1, 3), 66);
    assert_eq!(progress(0, 29, 100), 29);
    assert_eq!(progress(0, 0, 7), 0);
    assert_eq!(progress(0, 199, 200), 99);
}

#[test]
fn progress_may_pass_one_hundred() {
    assert_eq!(progress(10, 10, 10), 200);
    assert!(is_complete(progress(10, 10, 10)));
}

#[test]
fn progress_stays_within_u64() {
    assert_eq!(progress(u64::MAX, u64::MAX, 1), u64::MAX);
    assert_eq!(progress(u64::MAX, 0, u64::MAX), 100);
    assert_eq!(progress(u64::MAX, u64::MAX, u64::MAX), 200);
}

#[test]
fn progress_of_an_empty_file() {
    assert_eq!(progress(0, 0, 0), 0);
    assert_eq!(progress(0, 1, 0), u64::MAX);
}

#[test]
fn progress_never_decreases_along_the_windows() {
    for total in [1, CHUNK_SIZE - 1, CHUNK_SIZE, CHUNK_SIZE + 1, 2_621_440, 10 * CHUNK_SIZE + 17] {
        let mut last = 0;
        let windows = chunk_windows(total);
        for window in &windows {
            let percent = progress(window.offset, window.length, total);
            assert!(percent >= last);
            assert!(percent <= 100);
            last = percent;
        }
        assert_eq!(last, 100);
    }
}

#[test]
fn complete_from_one_hundred_on() {
    assert!(!is_complete(0));
    assert!(!is_complete(99));
    assert!(is_complete(100));
    assert!(is_complete(101));
    assert!(is_complete(u64::MAX));
}
