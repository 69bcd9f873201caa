use lock_cli::batch::{BatchItem, BatchProgress, ProtocolError};
use lock_cli::outcome::EngineError;

fn item(name: &str, ok: bool) -> BatchItem<()> {
    BatchItem {
        source: format!("src/{}", name),
        dest: format!("dst/{}", name),
        result: if ok { Ok(()) } else { Err(EngineError::Io("permission denied".to_string())) },
    }
}

#[test]
fn directory_add_with_one_unreadable_file_completes() {
    let mut progress: BatchProgress<()> = BatchProgress::new();
    assert_eq!(progress.on_total(3), Ok(()));
    assert_eq!(progress.on_item(item("ok1", true)), Ok(()));
    assert_eq!(progress.on_item(item("unreadable", false)), Ok(()));
    assert_eq!(progress.on_item(item("ok2", true)), Ok(()));
    assert_eq!(progress.on_complete(true), Ok(()));
    let results: Vec<bool> = progress.items.iter().map(|i| i.result.is_ok()).collect();
    assert_eq!(results, vec![true, false, true]);
    assert_eq!(progress.items[1].source, "src/unreadable");
    assert_eq!(progress.completed, Some(true));
    assert_eq!(progress.succeeded(), 2);
    assert_eq!(progress.failed(), 1);
    assert_eq!(progress.on_complete(true), Err(ProtocolError::CompleteRepeated));
    assert_eq!(progress.completed, Some(true));
}

#[test]
fn reports_out_of_order_are_refused() {
    let mut progress: BatchProgress<()> = BatchProgress::new();
    assert_eq!(progress.on_item(item("a", true)), Err(ProtocolError::ItemBeforeTotal));
    assert_eq!(progress.on_complete(false), Err(ProtocolError::CompleteBeforeTotal));
    assert_eq!(progress.on_total(1), Ok(()));
    assert_eq!(progress.on_total(2), Err(ProtocolError::TotalRepeated));
    assert_eq!(progress.total, Some(1));
    assert_eq!(progress.on_complete(false), Ok(()));
    assert_eq!(progress.on_item(item("late", true)), Err(ProtocolError::ItemAfterComplete));
    assert!(progress.items.is_empty());
    assert_eq!(progress.completed, Some(false));
}

#[test]
fn empty_batch_counts_nothing() {
    let progress: BatchProgress<()> = BatchProgress::new();
    assert_eq!(progress.succeeded(), 0);
    assert_eq!(progress.failed(), 0);
    assert_eq!(progress.total, None);
}
