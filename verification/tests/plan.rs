use nextion_flash::plan::chunk_count;
use nextion_flash::plan::chunk_len;
use nextion_flash::plan::chunk_offset;

#[test]
fn chunk_counts() {
    assert_eq!(chunk_count(0), 0);
    assert_eq!(chunk_count(1), 1);
    assert_eq!(chunk_count(4095), 1);
    assert_eq!(chunk_count(4096), 1);
    assert_eq!(chunk_count(4097), 2);
    assert_eq!(chunk_count(10000), 3);
    assert_eq!(chunk_count(8192), 2);
}

#[test]
fn full_chunks_then_remainder() {
    // 10000 = 2 full chunks + 1808 remaining bytes.
    assert_eq!(chunk_len(10000, 0), 4096);
    assert_eq!(chunk_len(10000, 1), 4096);
    assert_eq!(chunk_len(10000, 2), 1808);
    assert_eq!(chunk_offset(10000, 0), 0);
    assert_eq!(chunk_offset(10000, 1), 4096);
    assert_eq!(chunk_offset(10000, 2), 8192);
}

#[test]
fn exact_multiple_emits_no_trailing_empty_chunk() {
    // 8192 bytes is exactly two chunks: both full, and no third step.
    assert_eq!(chunk_count(8192), 2);
    assert_eq!(chunk_len(8192, 0), 4096);
    assert_eq!(chunk_len(8192, 1), 4096);
    for size in [4096u64, 8192, 40960] {
        let n = chunk_count(size);
        assert_eq!(n, size / 4096);
        for i in 0..n {
            assert_eq!(chunk_len(size, i), 4096);
        }
    }
}

#[test]
fn every_chunk_nonempty_and_covers_file() {
    for size in [1u64, 100, 4095, 4096, 4097, 10000, 12288, 123456] {
        let n = chunk_count(size);
        let full = size / 4096;
        let mut covered = 0u64;
        for i in 0..n {
            let len = chunk_len(size, i);
            assert!(len > 0);
            assert!(len <= 4096);
            assert_eq!(len == 4096, i < full);
            assert_eq!(chunk_offset(size, i), covered);
            covered += len;
        }
        assert_eq!(covered, size);
        if size % 4096 != 0 {
            assert_eq!(chunk_len(size, n - 1), size % 4096);
        }
    }
}
