use repo_sync::progress::{percent, render_fetch_line, render_fetch_summary, ProgressState, TransferStats};

fn stats(received: usize, indexed: usize, total: usize, bytes: usize) -> TransferStats {
    TransferStats {
        received_objects: received,
        indexed_objects: indexed,
        total_objects: total,
        received_bytes: bytes,
        indexed_deltas: 3,
        total_deltas: 7,
        local_objects: 0,
    }
}

#[test]
fn percent_guards_zero_total() {
    assert_eq!(percent(5, 0), 0);
    assert_eq!(percent(1, 3), 33);
    assert_eq!(percent(200, 200), 100);
    assert_eq!(percent(usize::MAX, 1), 100 * (usize::MAX as u128));
}

#[test]
fn transfer_phase_line() {
    let mut p = ProgressState::new();
    p.record_transfer(stats(50, 25, 200, 4096));
    p.record_checkout(Some(String::from("a/b.txt")), 3, 12);
    let expected = format!(
        "downloading {:3}% ({:4} kb, {:5}/{:5})  /  idx {:3}% ({:5}/{:5})  /  chk {:3}% ({:4}/{:4}) {}",
        25, 4, 50, 200, 12, 25, 200, 25, 3, 12, "a/b.txt"
    );
    assert_eq!(p.render(), expected);
    assert!(!p.take_line_break());
}

#[test]
fn nothing_known_renders_zero_percent() {
    let p = ProgressState::new();
    assert_eq!(
        p.render(),
        "downloading   0% (   0 kb,     0/    0)  /  idx   0% (    0/    0)  /  chk   0% (   0/   0) "
    );
}

#[test]
fn delta_phase_line_and_single_break() {
    let mut p = ProgressState::new();
    p.record_transfer(stats(200, 150, 200, 9000));
    assert_eq!(p.render(), "Resolving deltas 3/7");
    assert!(p.take_line_break());
    assert!(!p.take_line_break());
}

#[test]
fn snapshots_overwrite() {
    let mut p = ProgressState::new();
    p.record_transfer(stats(10, 0, 100, 0));
    p.record_transfer(stats(20, 5, 100, 0));
    assert_eq!(p.transfer, Some(stats(20, 5, 100, 0)));
    p.record_checkout(Some(String::from("x")), 1, 2);
    p.record_checkout(None, 2, 2);
    assert_eq!(p.checkout_path, None);
    assert_eq!(p.checkout_current, 2);
}

#[test]
fn ordered_stream_is_recognised() {
    let mut p = ProgressState::new();
    p.record_transfer(stats(0, 0, 0, 0));
    p.record_transfer(stats(10, 0, 100, 10));
    p.record_transfer(stats(100, 50, 100, 20));
    assert!(p.ordered);
}

#[test]
fn decreasing_or_excess_stream_is_flagged() {
    let mut p = ProgressState::new();
    p.record_transfer(stats(10, 0, 100, 0));
    p.record_transfer(stats(5, 0, 100, 0));
    assert!(!p.ordered);
    let mut q = ProgressState::new();
    q.record_transfer(stats(101, 0, 100, 0));
    assert!(!q.ordered);
}

#[test]
fn fetch_lines() {
    assert_eq!(render_fetch_line(&stats(0, 0, 0, 0)), None);
    assert_eq!(
        render_fetch_line(&stats(4, 2, 10, 512)),
        Some(String::from("Received 4/10 objects (2) in 512 bytes"))
    );
    assert_eq!(render_fetch_line(&stats(10, 2, 10, 512)), Some(String::from("Resolving deltas 3/7")));
    assert_eq!(render_fetch_summary(&stats(10, 10, 10, 2048)), "Received 10/10 objects in 2048 bytes");
    let mut s = stats(10, 10, 10, 2048);
    s.local_objects = 4;
    assert_eq!(
        render_fetch_summary(&s),
        "Received 10/10 objects in 2048 bytes (used 4 local objects)"
    );
}
