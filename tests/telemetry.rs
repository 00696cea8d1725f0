use faucet::load_balancing::IpAddress;
use faucet::telemetry::{
    make_row, LogData, Phase, PipelineAction, PipelineEvent, PipelineState, TelemetrySender,
    BATCH_CAP,
};

fn event(path: &str, query: Option<&str>) -> LogData {
    LogData {
        target: "127.0.0.1:3001".to_string(),
        worker_route: "/".to_string(),
        worker_id: 3,
        ip: IpAddress::V4([10, 0, 0, 7]),
        method: "GET".to_string(),
        path: path.to_string(),
        query: query.map(|q| q.to_string()),
        version: "HTTP/1.1".to_string(),
        status: 200,
        user_agent: Some("curl/8.0".to_string()),
        elapsed: 1234,
    }
}

#[test]
fn row_copies_fields_in_column_order() {
    let row = make_row("prod", 1_700_000_000_000_000, &event("/index.html", Some("a=1")));
    assert_eq!(row.namespace, "prod");
    assert_eq!(row.target, "127.0.0.1:3001");
    assert_eq!(row.worker_route, "/");
    assert_eq!(row.worker_id, 3);
    assert_eq!(row.ip, IpAddress::V4([10, 0, 0, 7]));
    assert_eq!(row.method, "GET");
    assert_eq!(row.path, "/index.html");
    assert_eq!(row.query.as_deref(), Some("a=1"));
    assert_eq!(row.version, "HTTP/1.1");
    assert_eq!(row.status, 200);
    assert_eq!(row.user_agent.as_deref(), Some("curl/8.0"));
    assert_eq!(row.elapsed, 1234);
    assert_eq!(row.timestamp, 1_700_000_000_000_000);
}

#[test]
fn empty_query_is_stored_as_null() {
    assert_eq!(make_row("ns", 0, &event("/", Some(""))).query, None);
    assert_eq!(make_row("ns", 0, &event("/", None)).query, None);
    let mut e = event("/", None);
    e.user_agent = None;
    assert_eq!(make_row("ns", 0, &e).user_agent, None);
}

#[test]
fn worker_id_and_status_are_narrowed_like_casts() {
    let mut e = event("/", None);
    e.worker_id = (1usize << 32) + 5;
    e.status = 40000;
    let row = make_row("ns", 0, &e);
    assert_eq!(row.worker_id, 5);
    assert_eq!(row.status, 40000u16 as i16);
}

#[test]
fn full_batch_is_written_in_order_then_finished() {
    let (mut s, a) = PipelineState::start();
    assert_eq!(a, PipelineAction::Receive(BATCH_CAP));
    assert_eq!(BATCH_CAP, 100);
    let (t, a) = s.next(PipelineEvent::Received(3));
    assert_eq!(a, PipelineAction::AcquireSink);
    s = t;
    let (t, a) = s.next(PipelineEvent::SinkReady);
    assert_eq!(a, PipelineAction::WriteRow(0));
    s = t;
    let mut written = vec![0];
    loop {
        let (t, a) = s.next(PipelineEvent::RowWritten);
        s = t;
        match a {
            PipelineAction::WriteRow(i) => written.push(i),
            PipelineAction::Finish => break,
            other => panic!("unexpected {other:?}"),
        }
    }
    assert_eq!(written, vec![0, 1, 2]);
    let (t, a) = s.next(PipelineEvent::Finished);
    assert_eq!(a, PipelineAction::Receive(BATCH_CAP));
    assert_eq!(t.phase, Phase::Receiving);
}

#[test]
fn sink_failure_discards_the_batch_and_recovers() {
    let (s, _) = PipelineState::start();
    let (s, _) = s.next(PipelineEvent::Received(50));
    let (s, a) = s.next(PipelineEvent::SinkFailed);
    assert_eq!(a, PipelineAction::Receive(BATCH_CAP));
    assert_eq!(s.phase, Phase::Receiving);
    let (s, a) = s.next(PipelineEvent::Received(2));
    assert_eq!(a, PipelineAction::AcquireSink);
    assert_eq!(s.batch_len, 2);
}

#[test]
fn row_failure_aborts_the_rest_and_finishes() {
    let (s, _) = PipelineState::start();
    let (s, _) = s.next(PipelineEvent::Received(10));
    let (s, _) = s.next(PipelineEvent::SinkReady);
    let (s, a) = s.next(PipelineEvent::RowWritten);
    assert_eq!(a, PipelineAction::WriteRow(1));
    let (s, a) = s.next(PipelineEvent::RowFailed);
    assert_eq!(a, PipelineAction::Finish);
    let (s, a) = s.next(PipelineEvent::FinishFailed);
    assert_eq!(a, PipelineAction::Receive(BATCH_CAP));
    assert_eq!(s.phase, Phase::Receiving);
}

#[test]
fn closed_queue_stops_the_writer() {
    let (s, _) = PipelineState::start();
    let (s, a) = s.next(PipelineEvent::Received(0));
    assert_eq!(a, PipelineAction::Stop);
    assert_eq!(s.phase, Phase::Stopped);
    let (_, a) = s.next(PipelineEvent::Received(4));
    assert_eq!(a, PipelineAction::Stop);
}

#[test]
fn send_never_fails_when_the_writer_is_gone() {
    let (tx, rx) = tokio::sync::mpsc::unbounded_channel();
    drop(rx);
    let sender = TelemetrySender { sender: tx };
    for i in 0..1000 {
        sender.send(event(&format!("/{i}"), None));
    }
}

#[test]
fn send_keeps_the_order_of_one_producer() {
    let (tx, mut rx) = tokio::sync::mpsc::unbounded_channel();
    let sender = TelemetrySender { sender: tx };
    let other = sender.clone();
    sender.send(event("/a", None));
    other.send(event("/x", None));
    sender.send(event("/b", None));
    sender.send(event("/c", None));
    let mut mine = Vec::new();
    while let Ok((ts, data)) = rx.try_recv() {
        assert!(ts > 0);
        if data.path != "/x" {
            mine.push(data.path);
        }
    }
    assert_eq!(mine, vec!["/a", "/b", "/c"]);
}
