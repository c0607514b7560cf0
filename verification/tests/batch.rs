use handshaker_core::domain::{BatchTransferItem, BatchTransferResult};
use handshaker_core::error::{Error, ErrorCode, LocalFault, TransportFault};
use handshaker_core::remote::{cancelled_failure, check_batch_concurrency, finish_batch, item_failure};

fn item(n: &str) -> BatchTransferItem {
    BatchTransferItem { source: format!("/src/{n}"), target: format!("/dst/{n}") }
}

#[test]
fn error_codes_name_the_kind_of_error() {
    assert_eq!(Error::Interrupted.code(), ErrorCode::Interrupted);
    assert_eq!(Error::LocalIo(LocalFault::Io).code(), ErrorCode::LocalIo);
    assert_eq!(Error::Transport(TransportFault::Closed).code(), ErrorCode::Transport);
    assert_eq!(Error::RemoteIo { code: Some(3) }.code(), ErrorCode::RemoteIo);
}

#[test]
fn failures_carry_paths_and_error_class() {
    let skipped = cancelled_failure(&item("a"));
    assert_eq!(skipped.source, "/src/a");
    assert_eq!(skipped.target, "/dst/a");
    assert_eq!(skipped.message, "cancelled");
    assert_eq!(skipped.code, Some(ErrorCode::Interrupted));
    let failed = item_failure(&item("b"), &Error::RemoteIo { code: Some(3) }, "denied".to_string());
    assert_eq!(failed.source, "/src/b");
    assert_eq!(failed.message, "denied");
    assert_eq!(failed.code, Some(ErrorCode::RemoteIo));
}

#[test]
fn cancelled_batch_with_skipped_items_is_interrupted() {
    let result = BatchTransferResult { ok: vec![item("a")], failures: vec![cancelled_failure(&item("b"))] };
    assert_eq!(finish_batch(result, true), Err(Error::Interrupted));
}

#[test]
fn ordinary_failures_are_aggregated() {
    let failure = item_failure(&item("b"), &Error::LocalIo(LocalFault::Io), "io".to_string());
    let result = BatchTransferResult { ok: vec![item("a")], failures: vec![failure] };
    assert_eq!(finish_batch(result.clone(), true), Ok(result.clone()));
    let skipped = BatchTransferResult { ok: vec![], failures: vec![cancelled_failure(&item("c"))] };
    assert_eq!(finish_batch(skipped.clone(), false), Ok(skipped));
}

#[test]
fn batch_concurrency_range() {
    assert!(check_batch_concurrency(0).is_err());
    assert!(check_batch_concurrency(1).is_ok());
}
