use exam_service::run_delivery;
use exam_service::StreamSession;
use exam_service::DEFAULT_PACING_UNITS;
use exam_service::DEFAULT_STREAM_LEN;

#[test]
fn full_consumption_yields_three_labelled_elements() {
    let mut session = StreamSession::new("456", "physics101", DEFAULT_STREAM_LEN, DEFAULT_PACING_UNITS);
    let outcomes = vec![true, true, true];
    let received = run_delivery(&mut session, &outcomes);
    assert_eq!(received.len(), 3);
    assert_eq!(received[0].grade, "Processing result for 456_physics101 (1/3)");
    assert_eq!(received[1].grade, "Still working on 456_physics101 (2/3)");
    assert_eq!(received[2].grade, "Completed result for 456_physics101 (3/3)");
    for rec in &received {
        assert_eq!(rec.student_name, "Streamed");
        assert_eq!(rec.subject, "Simulation");
        assert_eq!(rec.marks_obtained, 90);
        assert_eq!(rec.total_marks, 100);
    }
    assert_eq!(session.sent_count(), 3);
    assert!(session.is_finished());
}

#[test]
fn ordinal_markers_increase_within_one_stream() {
    let mut session = StreamSession::new("1", "e", 3, 0);
    let received = run_delivery(&mut session, &vec![true, true, true]);
    let markers: Vec<&str> = received.iter().map(|r| {
        let open = r.grade.rfind('(').unwrap();
        &r.grade[open..]
    }).collect();
    assert_eq!(markers, vec!["(1/3)", "(2/3)", "(3/3)"]);
}

#[test]
fn disconnect_after_one_element_stops_production() {
    let mut session = StreamSession::new("456", "physics101", 3, 1);
    // The consumer accepts the first element and then disconnects.
    let outcomes = vec![true, false, true];
    let received = run_delivery(&mut session, &outcomes);
    assert_eq!(received.len(), 1);
    assert_eq!(received[0].grade, "Processing result for 456_physics101 (1/3)");
    // At most k + 1 elements were generated in all, and nothing follows.
    assert_eq!(session.sent_count(), 2);
    assert!(session.is_finished());
    assert!(session.next_element().is_none());
}

#[test]
fn disconnect_before_first_element_delivers_nothing() {
    let mut session = StreamSession::new("a", "b", 3, 1);
    let received = run_delivery(&mut session, &vec![false, false, false]);
    assert_eq!(received.len(), 0);
    assert_eq!(session.sent_count(), 1);
    assert!(session.is_finished());
}

#[test]
fn stream_length_is_configurable() {
    let mut session = StreamSession::new("s", "x", 5, 0);
    assert_eq!(session.total_len(), 5);
    let received = run_delivery(&mut session, &vec![true; 5]);
    assert_eq!(received.len(), 5);
    assert_eq!(received[0].grade, "Processing result for s_x (1/5)");
    assert_eq!(received[3].grade, "Still working on s_x (4/5)");
    assert_eq!(received[4].grade, "Completed result for s_x (5/5)");
}

#[test]
fn pacing_interval_is_exposed_to_the_transport() {
    let session = StreamSession::new("s", "x", 3, 7);
    assert_eq!(session.pacing(), 7);
}

#[test]
fn exhausted_session_yields_nothing_more() {
    let mut session = StreamSession::new("s", "x", 1, 0);
    assert!(session.next_element().is_some());
    assert!(session.is_finished());
    assert!(session.next_element().is_none());
    assert!(session.next_element().is_none());
}

#[test]
fn concurrent_streams_interleave_independently() {
    // Two sessions stepped in alternation: each still produces exactly its
    // own ordered sequence, unaffected by the other.
    let mut first = StreamSession::new("456", "physics101", 3, 0);
    let mut second = StreamSession::new("789", "chem101", 3, 0);
    let mut lane_first = Vec::new();
    let mut lane_second = Vec::new();
    loop {
        let a = first.next_element();
        let b = second.next_element();
        if a.is_none() && b.is_none() {
            break;
        }
        if let Some(rec) = a {
            lane_first.push(rec);
        }
        if let Some(rec) = b {
            lane_second.push(rec);
        }
    }
    let expected_first = vec![
        "Processing result for 456_physics101 (1/3)",
        "Still working on 456_physics101 (2/3)",
        "Completed result for 456_physics101 (3/3)",
    ];
    let expected_second = vec![
        "Processing result for 789_chem101 (1/3)",
        "Still working on 789_chem101 (2/3)",
        "Completed result for 789_chem101 (3/3)",
    ];
    let got_first: Vec<&str> = lane_first.iter().map(|r| r.grade.as_str()).collect();
    let got_second: Vec<&str> = lane_second.iter().map(|r| r.grade.as_str()).collect();
    assert_eq!(got_first, expected_first);
    assert_eq!(got_second, expected_second);
}

#[test]
fn producer_over_real_channel_delivers_in_order() {
    let rt = tokio::runtime::Runtime::new().unwrap();
    rt.block_on(async {
        let (tx, mut rx) = tokio::sync::mpsc::channel(4);
        let mut session = StreamSession::new("456", "physics101", 3, 1);
        let producer = tokio::spawn(async move {
            loop {
                match session.next_element() {
                    None => break,
                    Some(rec) => {
                        if tx.send(rec).await.is_err() {
                            session.record_send_failure();
                            break;
                        }
                        tokio::time::sleep(std::time::Duration::from_millis(session.pacing())).await;
                    }
                }
            }
            session.sent_count()
        });
        let mut grades = Vec::new();
        while let Some(rec) = rx.recv().await {
            grades.push(rec.grade);
        }
        let sent = producer.await.unwrap();
        assert_eq!(sent, 3);
        assert_eq!(
            grades,
            vec![
                "Processing result for 456_physics101 (1/3)",
                "Still working on 456_physics101 (2/3)",
                "Completed result for 456_physics101 (3/3)",
            ]
        );
    });
}

#[test]
fn consumer_disconnect_terminates_producer_task() {
    let rt = tokio::runtime::Runtime::new().unwrap();
    rt.block_on(async {
        let (tx, mut rx) = tokio::sync::mpsc::channel(1);
        let mut session = StreamSession::new("456", "physics101", 3, 1);
        let producer = tokio::spawn(async move {
            loop {
                match session.next_element() {
                    None => break,
                    Some(rec) => {
                        if tx.send(rec).await.is_err() {
                            session.record_send_failure();
                            break;
                        }
                        tokio::time::sleep(std::time::Duration::from_millis(session.pacing())).await;
                    }
                }
            }
            session.sent_count()
        });
        let first = rx.recv().await.expect("first element must arrive");
        assert!(first.grade.ends_with("(1/3)"));
        drop(rx);
        // The producer notices the disconnect at its next send attempt and
        // terminates: at most one element past the received one.
        let sent = producer.await.unwrap();
        assert!(sent <= 2);
    });
}
