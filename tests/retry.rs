use kekbit::api::ReadError;
use kekbit::image::{publication_stores, MarkerStore};
use kekbit::framing::WATERMARK;
use kekbit::reader::ReadResult;
use kekbit::retry::{open_retry_next, open_retry_pause, retry_read_again, retry_write_step, RetryStep};
use kekbit::writer::Publication;

#[test]
fn shared_write_decisions() {
    assert_eq!(retry_write_step(true, false), RetryStep::Write);
    assert_eq!(retry_write_step(true, true), RetryStep::Write);
    assert_eq!(retry_write_step(false, true), RetryStep::Wait);
    assert_eq!(retry_write_step(false, false), RetryStep::BackOff);
}

#[test]
fn retrying_iterator_decisions() {
    let rec: &[u8] = b"x";
    assert!(retry_read_again(&Some(ReadResult::Nothing), false));
    assert!(!retry_read_again(&Some(ReadResult::Nothing), true));
    assert!(!retry_read_again(&Some(ReadResult::Record(rec)), false));
    assert!(!retry_read_again(&Some(ReadResult::Failed(ReadError::Closed)), false));
    assert!(!retry_read_again(&None, false));
}

#[test]
fn retrying_open_decisions() {
    assert_eq!(open_retry_pause(300, 30), 10);
    assert_eq!(open_retry_pause(1000, 20), 50);
    assert_eq!(open_retry_next(true, 3), Some(2));
    assert_eq!(open_retry_next(true, 0), None);
    assert_eq!(open_retry_next(false, 3), None);
}

#[test]
fn marker_stores_in_publish_order() {
    let p = Publication { offset: 24, len: 5, size: 16 };
    let (first, second) = publication_stores(p);
    assert_eq!(first, MarkerStore { offset: 40, value: WATERMARK });
    assert_eq!(second, MarkerStore { offset: 24, value: 5 });
}
