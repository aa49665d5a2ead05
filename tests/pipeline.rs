use greptime_ingest::error::Error;
use greptime_ingest::pipeline::{Inserter, Offer, PipelineState};
use greptime_ingest::row::{Batch, RowBuilder};
use greptime_ingest::value::{DataType, SemanticType, TimeUnit, Value};

/// A batch of `rows` rows whose first timestamp is `first`.
fn batch(first: i64, rows: i64) -> Batch {
    let mut b = RowBuilder::new("cpu".to_string()).unwrap();
    b.add_column(
        "ts".to_string(),
        DataType::Timestamp(TimeUnit::Second),
        SemanticType::Timestamp,
    )
    .unwrap();
    for i in 0..rows {
        b.add_row(vec![Value::Timestamp(TimeUnit::Second, first + i)])
            .unwrap();
    }
    b.build().unwrap()
}

fn first_stamp(b: &Batch) -> i64 {
    match b.columns[0].values[0] {
        Value::Timestamp(_, x) => x,
        _ => panic!("not a timestamp"),
    }
}

fn accepted(r: Result<Offer, Error>) -> bool {
    matches!(r, Ok(Offer::Accepted))
}

#[test]
fn batches_reach_the_writer_in_order() {
    let mut p = Inserter::new(8).unwrap();
    assert!(accepted(p.enqueue(batch(10, 1))));
    assert!(accepted(p.enqueue(batch(20, 2))));
    assert!(accepted(p.enqueue(batch(30, 3))));
    assert_eq!(p.close(), Ok(()));
    assert_eq!(p.state(), PipelineState::Draining);
    let mut seen = Vec::new();
    while let Some(b) = p.next_batch() {
        seen.push(first_stamp(&b));
        p.send_succeeded();
    }
    assert_eq!(seen, vec![10, 20, 30]);
    assert_eq!(p.rows_sent(), 6);
    assert!(p.finish_due());
    assert_eq!(p.finish(Ok(6)), Ok(6));
    assert_eq!(p.state(), PipelineState::Finished);
    assert!(p.is_closed());
}

#[test]
fn drain_runs_while_open_too() {
    let mut p = Inserter::new(4).unwrap();
    assert!(accepted(p.enqueue(batch(1, 2))));
    let b = p.next_batch().unwrap();
    assert_eq!(b.row_count, 2);
    assert!(p.next_batch().is_none());
    assert!(accepted(p.enqueue(batch(5, 1))));
    assert!(p.next_batch().is_none());
    p.send_succeeded();
    assert_eq!(first_stamp(&p.next_batch().unwrap()), 5);
    p.send_succeeded();
    assert_eq!(p.rows_sent(), 3);
    assert!(!p.finish_due());
}

#[test]
fn enqueue_after_close_fails_at_once() {
    let mut p = Inserter::new(2).unwrap();
    assert_eq!(p.close(), Ok(()));
    assert!(matches!(p.enqueue(batch(1, 1)), Err(Error::PipelineClosed)));
    assert_eq!(p.finish(Ok(0)), Ok(0));
    assert!(matches!(p.enqueue(batch(1, 1)), Err(Error::PipelineClosed)));
    assert_eq!(p.close(), Err(Error::PipelineClosed));
}

#[test]
fn closing_twice_is_refused() {
    let mut p = Inserter::new(2).unwrap();
    assert_eq!(p.close(), Ok(()));
    assert_eq!(p.close(), Err(Error::PipelineClosed));
}

#[test]
fn send_failure_stops_the_stream() {
    let mut p = Inserter::new(4).unwrap();
    for i in 0..4 {
        assert!(accepted(p.enqueue(batch(i * 10, 1))));
    }
    let mut sends = 0;
    let b = p.next_batch().unwrap();
    assert_eq!(first_stamp(&b), 0);
    sends += 1;
    p.send_succeeded();
    let _ = p.next_batch().unwrap();
    sends += 1;
    p.send_failed("connection reset".to_string());
    assert_eq!(p.state(), PipelineState::Failed);
    assert!(p.is_closed());
    while p.next_batch().is_some() {
        sends += 1;
    }
    assert_eq!(sends, 2);
    assert!(sends < 4);
    assert_eq!(p.discarded(), 2);
    assert_eq!(p.queued(), 0);
    assert_eq!(p.rows_sent(), 1);
    assert_eq!(p.last_error().as_deref(), Some("connection reset"));
    assert!(matches!(p.enqueue(batch(99, 1)), Err(Error::PipelineClosed)));
    assert!(!p.finish_due());
    assert_eq!(p.close(), Ok(()));
    assert!(p.finish_due());
    assert_eq!(p.finish(Ok(1)), Err(Error::TransportError));
}

#[test]
fn full_queue_hands_the_batch_back() {
    let mut p = Inserter::new(2).unwrap();
    assert_eq!(p.capacity(), 2);
    assert!(accepted(p.enqueue(batch(1, 1))));
    assert!(accepted(p.enqueue(batch(2, 1))));
    let back = match p.enqueue(batch(3, 1)) {
        Ok(Offer::WouldBlock(b)) => b,
        _ => panic!("third batch should wait"),
    };
    assert_eq!(first_stamp(&back), 3);
    assert_eq!(p.queued(), 2);
    let _ = p.next_batch().unwrap();
    assert!(accepted(p.enqueue(back)));
    assert_eq!(p.queued(), 2);
}

#[test]
fn zero_capacity_is_invalid() {
    assert!(matches!(Inserter::new(0), Err(Error::InvalidArgument)));
}

#[test]
fn failed_finish_is_reported() {
    let mut p = Inserter::new(1).unwrap();
    assert_eq!(p.close(), Ok(()));
    assert_eq!(
        p.finish(Err("stream gone".to_string())),
        Err(Error::TransportError)
    );
    assert_eq!(p.last_error().as_deref(), Some("stream gone"));
}
