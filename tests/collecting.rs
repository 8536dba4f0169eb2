use sqs_microservice::collector::{queue_name_from_arn, Collector};
use sqs_microservice::dispatch::{keep_going, settle, Outcome, ProcessError};

fn s(x: &str) -> String {
    x.to_string()
}

fn success(token: &str, source: &str) -> Outcome {
    Outcome::Success { token: s(token), source: s(source) }
}

fn failure() -> Outcome {
    Outcome::Failure { error: ProcessError::Translate(s("bad payload")) }
}

#[test]
fn mixed_batch_acknowledges_successes_and_fails() {
    let outcomes = vec![
        success("t1", "arn:q"),
        failure(),
        success("t2", "arn:q"),
        failure(),
        success("t3", "arn:q"),
    ];
    let mut collector = Collector::new(outcomes.len());
    let mut acked = vec![];
    for o in outcomes {
        assert!(!collector.is_complete());
        if let Some(ack) = collector.receive(o) {
            if ack.endpoint.is_none() {
                collector.remember(ack.source.clone(), s("https://queue/q"));
            }
            acked.push(ack.token);
        }
    }
    assert!(collector.is_complete());
    assert_eq!(acked, vec![s("t1"), s("t2"), s("t3")]);
    let err = collector.finish().unwrap_err();
    assert_eq!(err.failures.len(), 2);
}

#[test]
fn all_successes_finish_ok() {
    let mut collector = Collector::new(2);
    assert!(collector.receive(success("a", "arn:q")).is_some());
    assert!(collector.receive(success("b", "arn:q")).is_some());
    assert!(collector.finish().is_ok());
}

#[test]
fn empty_batch_finishes_ok() {
    let collector = Collector::new(0);
    assert!(collector.is_complete());
    assert!(collector.finish().is_ok());
}

#[test]
fn endpoint_is_resolved_once_per_source() {
    let mut collector = Collector::new(3);
    let first = collector.receive(success("a", "arn:one")).unwrap();
    assert_eq!(first.endpoint, None);
    collector.remember(s("arn:one"), s("url-1"));
    let second = collector.receive(success("b", "arn:one")).unwrap();
    assert_eq!(second.endpoint, Some(s("url-1")));
    collector.remember(s("arn:one"), s("url-other"));
    let third = collector.receive(success("c", "arn:two")).unwrap();
    assert_eq!(third.endpoint, None);
    assert_eq!(third.token, "c");
    assert_eq!(third.source, "arn:two");
}

#[test]
fn failed_outcome_is_never_acknowledged() {
    let mut collector = Collector::new(1);
    assert!(collector.receive(failure()).is_none());
    let err = collector.finish().unwrap_err();
    assert!(matches!(err.failures[0], ProcessError::Translate(_)));
}

#[test]
fn settle_stops_at_first_failure() {
    let o = settle(
        s("tok"),
        s("src"),
        vec![Ok(()), Err(ProcessError::Sink(s("first"))), Err(ProcessError::Crashed)],
    );
    match o {
        Outcome::Failure { error: ProcessError::Sink(m) } => assert_eq!(m, "first"),
        other => panic!("unexpected outcome {:?}", other),
    }
    match settle(s("tok"), s("src"), vec![Ok(()), Ok(())]) {
        Outcome::Success { token, source } => {
            assert_eq!(token, "tok");
            assert_eq!(source, "src");
        }
        other => panic!("unexpected outcome {:?}", other),
    }
    assert!(matches!(settle(s("t"), s("s"), vec![]), Outcome::Success { .. }));
}

#[test]
fn queue_name_is_last_arn_segment() {
    assert_eq!(queue_name_from_arn("arn:aws:sqs:us-east-1:123456789012:my-queue"), "my-queue");
    assert_eq!(queue_name_from_arn("plain"), "plain");
    assert_eq!(queue_name_from_arn("ends:"), "");
    assert_eq!(queue_name_from_arn(""), "");
}

#[test]
fn keep_going_stops_after_a_failure() {
    assert!(keep_going(&vec![]));
    assert!(keep_going(&vec![Ok(()), Ok(())]));
    assert!(!keep_going(&vec![Ok(()), Err(ProcessError::Unaddressed)]));
    assert!(!keep_going(&vec![Err(ProcessError::Crashed), Ok(())]));
}
