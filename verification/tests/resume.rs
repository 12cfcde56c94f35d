use plenum::app::{TransferDirection, TransferMode, TransferSummary};
use plenum::stream::ResumeCheckpoint;

#[test]
fn completed_transfer_summary_satisfies_resume_invariants() {
    let total_bytes = 1_160_000_000u64;
    let resumed_bytes_at_start = 425_000_000u64;
    let transferred_bytes = total_bytes;

    let summary: TransferSummary = TransferSummary {
        direction: TransferDirection::Receive,
        file_name: "video.mp4".to_string(),
        peer: Some("127.0.0.1:9000".to_string()),
        peer_name: Some("sender".to_string()),
        mode: TransferMode::Lan,
        total_bytes,
        transferred_bytes,
        resumed_bytes: resumed_bytes_at_start.min(transferred_bytes),
        elapsed_ms: 40_000,
    };

    // 0 <= resumed_bytes <= transferred_bytes <= total_bytes
    assert!(summary.resumed_bytes <= summary.transferred_bytes);
    assert!(summary.transferred_bytes <= summary.total_bytes);
    assert_eq!(summary.transferred_bytes, summary.total_bytes);

    // Bytes sent during this attempt.
    let session_bytes = summary.transferred_bytes - summary.resumed_bytes;
    assert_eq!(session_bytes, 735_000_000u64);

    let session_speed_bps = (session_bytes as f64) / (summary.elapsed_ms as f64 / 1000.0);
    assert!((session_speed_bps - 18_375_000.0).abs() < 1.0);
}

#[test]
fn resume_live_statistics_calculate_session_speed_and_eta_correctly() {
    let total_bytes: u64 = 1_160_000_000;
    let resume_baseline_bytes: u64 = 425_000_000;
    let current_transferred_bytes: u64 = 810_000_000;
    let elapsed_secs: f64 = 40.0;

    let session_transferred_bytes = current_transferred_bytes.saturating_sub(resume_baseline_bytes);
    assert_eq!(session_transferred_bytes, 385_000_000);

    let speed_bps = (session_transferred_bytes as f64) / elapsed_secs;
    assert_eq!(speed_bps, 9_625_000.0);

    let remaining_bytes = total_bytes.saturating_sub(current_transferred_bytes);
    assert_eq!(remaining_bytes, 350_000_000);

    let eta_secs = (remaining_bytes as f64) / speed_bps;
    assert!((eta_secs - 36.3636).abs() < 0.01);
}

#[test]
fn checkpoint_belongs_to_one_file_and_chunk_size() {
    let mut checkpoint = ResumeCheckpoint::new("example.bin", 12345, 4096);
    assert_eq!(checkpoint.next_sequence, 0);
    assert_eq!(checkpoint.bytes_written, 0);
    checkpoint.update(7, 28672);
    assert_eq!(checkpoint.next_sequence, 7);
    assert_eq!(checkpoint.bytes_written, 28672);
    assert!(checkpoint.matches("example.bin", 12345, 4096));
    assert!(!checkpoint.matches("other.bin", 12345, 4096));
    assert!(!checkpoint.matches("example.bin", 12346, 4096));
    assert!(!checkpoint.matches("example.bin", 12345, 8192));
    assert_eq!(checkpoint.clone(), checkpoint);
}
