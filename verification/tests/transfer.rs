use surfdl::orchestrator::AttemptReport;
use surfdl::transfer::{progress_basis_points, SizedTransfer, CHUNK_SIZE, FULL};

#[test]
fn progress_is_the_fraction_in_basis_points() {
    assert_eq!(progress_basis_points(0, 1000), 0);
    assert_eq!(progress_basis_points(500, 1000), 5000);
    assert_eq!(progress_basis_points(1, 3), 3333);
    assert_eq!(progress_basis_points(2, 3), 6666);
    assert_eq!(progress_basis_points(999, 1000), 9990);
    assert_eq!(progress_basis_points(1000, 1000), 10000);
    assert_eq!(progress_basis_points(8192, 1024000), 80);
}

#[test]
fn progress_is_clamped_to_a_full_bar() {
    assert_eq!(FULL, 10000);
    assert_eq!(progress_basis_points(1001, 1000), 10000);
    assert_eq!(progress_basis_points(u64::MAX, 1), 10000);
}

#[test]
fn progress_without_a_total_is_zero() {
    assert_eq!(progress_basis_points(0, 0), 0);
    assert_eq!(progress_basis_points(12345, 0), 0);
}

#[test]
fn progress_of_huge_files_does_not_overflow() {
    assert_eq!(progress_basis_points(u64::MAX - 1, u64::MAX), 9999);
    assert_eq!(progress_basis_points(u64::MAX / 2, u64::MAX), 4999);
    assert_eq!(progress_basis_points(u64::MAX, u64::MAX), 10000);
}

#[test]
fn progress_never_falls_within_an_attempt() {
    let mut transfer = SizedTransfer::new(100_000);
    let mut last = 0;
    for len in [1usize, 8192, 0, 8192, 4000, 8192, 8192, 8192, 8192, 8192, 8192, 8192, 8192, 8192, 8192] {
        let bp = transfer.record_chunk(len);
        assert!(bp >= last);
        assert!(bp <= FULL);
        last = bp;
    }
    assert_eq!(last, FULL);
}

#[test]
fn chunks_are_counted() {
    assert_eq!(CHUNK_SIZE, 8192);
    let mut transfer = SizedTransfer::new(20000);
    assert_eq!(transfer.downloaded, 0);
    assert_eq!(transfer.record_chunk(8192), 4096);
    assert_eq!(transfer.record_chunk(8192), 8192);
    assert!(!transfer.is_complete());
    assert_eq!(transfer.record_chunk(3616), 10000);
    assert_eq!(transfer.downloaded, 20000);
    assert_eq!(transfer.total, 20000);
    assert!(transfer.is_complete());
    assert_eq!(transfer.finish(), AttemptReport::StreamEnded { bytes: 20000 });
}

#[test]
fn a_count_near_the_limit_has_no_room() {
    let transfer = SizedTransfer { total: u64::MAX, downloaded: u64::MAX - 10 };
    assert!(transfer.has_room(10));
    assert!(!transfer.has_room(11));
}

#[test]
fn a_transfer_without_total_is_always_complete() {
    let mut transfer = SizedTransfer::new(0);
    assert!(transfer.is_complete());
    assert_eq!(transfer.record_chunk(100), 0);
    assert!(transfer.is_complete());
}
