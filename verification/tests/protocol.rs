use hazelnut::ipc::{
    encode_command, encode_response, frame, handle_request, is_daemon_running, on_event,
    send_command, socket_path, DaemonCommand, DaemonFacts, DaemonResponse, IpcError, LoopEvent,
};

fn facts() -> DaemonFacts {
    DaemonFacts { uptime_seconds: 61, watches: 2, rules: 3, files_processed: 40 }
}

fn parse(text: &str) -> serde_json::Value {
    serde_json::from_str(text).unwrap()
}

#[test]
fn requests_are_one_json_object_on_one_line() {
    assert_eq!(encode_command(&DaemonCommand::Status), r#"{"type":"status"}"#);
    assert_eq!(encode_command(&DaemonCommand::Reload), r#"{"type":"reload"}"#);
    assert_eq!(encode_command(&DaemonCommand::Stop), r#"{"type":"stop"}"#);
    assert_eq!(encode_command(&DaemonCommand::GetStats), r#"{"type":"get_stats"}"#);
    assert_eq!(
        encode_command(&DaemonCommand::GetLog { limit: 250 }),
        r#"{"type":"get_log","limit":250}"#
    );
    assert_eq!(send_command(&DaemonCommand::Stop, true).unwrap(), "{\"type\":\"stop\"}\n");
    assert!(matches!(send_command(&DaemonCommand::Stop, false), Err(IpcError::Unsupported)));
    assert_eq!(frame("{}"), "{}\n");
}

#[test]
fn responses_are_json_that_reads_back() {
    let status = DaemonResponse::Status {
        running: true,
        uptime_seconds: 61,
        watches: 2,
        rules: 3,
        files_processed: 40,
    };
    assert_eq!(
        encode_response(&status),
        r#"{"type":"status","running":true,"uptime_seconds":61,"watches":2,"rules":3,"files_processed":40}"#
    );
    assert_eq!(encode_response(&DaemonResponse::Acknowledged), r#"{"type":"ok"}"#);
    assert_eq!(
        encode_response(&DaemonResponse::Log { entries: vec![] }),
        r#"{"type":"log","entries":[]}"#
    );
    let tricky = "quote \" backslash \\ tab \t newline \n bell \u{7} del \u{7f} \u{e9}\u{1f330}";
    let log = DaemonResponse::Log { entries: vec!["a".to_string(), tricky.to_string()] };
    let value = parse(&encode_response(&log));
    assert_eq!(value["type"], "log");
    assert_eq!(value["entries"][0], "a");
    assert_eq!(value["entries"][1], tricky);
    // the text is the one that serde_json writes
    assert_eq!(
        encode_response(&DaemonResponse::Error { message: tricky.to_string() }),
        format!(
            "{{\"type\":\"error\",\"message\":{}}}",
            serde_json::to_string(&serde_json::Value::String(tricky.to_string())).unwrap()
        )
    );
    for code in 0u32..0x80 {
        let s = char::from_u32(code).unwrap().to_string();
        let ours = encode_response(&DaemonResponse::Error { message: s.clone() });
        assert_eq!(parse(&ours)["message"], s.as_str(), "char {:x}", code);
        assert!(!ours.contains('\n'));
    }
}

#[test]
fn every_request_is_answered() {
    let d = handle_request(&Ok(DaemonCommand::Status), &facts());
    assert!(matches!(
        d.response,
        Some(DaemonResponse::Status {
            running: true,
            uptime_seconds: 61,
            watches: 2,
            rules: 3,
            files_processed: 40
        })
    ));
    assert!(!d.stop && !d.reload && !d.poll);
    let d = handle_request(&Ok(DaemonCommand::GetStats), &facts());
    assert!(matches!(d.response, Some(DaemonResponse::Status { files_processed: 40, .. })));

    let d = handle_request(&Ok(DaemonCommand::Stop), &facts());
    assert!(matches!(d.response, Some(DaemonResponse::Acknowledged)));
    assert!(d.stop && !d.reload);

    let d = handle_request(&Ok(DaemonCommand::Reload), &facts());
    assert!(matches!(d.response, Some(DaemonResponse::Acknowledged)));
    assert!(d.reload && !d.stop);

    let d = handle_request(&Ok(DaemonCommand::GetLog { limit: 9 }), &facts());
    match d.response {
        Some(DaemonResponse::Log { entries }) => assert!(entries.is_empty()),
        _ => panic!("no log"),
    }

    let d = handle_request(&Err("expected value at line 1 column 1".to_string()), &facts());
    match d.response {
        Some(DaemonResponse::Error { message }) => {
            assert_eq!(message, "Invalid command: expected value at line 1 column 1")
        }
        _ => panic!("no error"),
    }
    assert!(!d.stop && !d.reload);
}

#[test]
fn the_loop_heeds_signals_and_the_timer() {
    for event in [LoopEvent::Terminate, LoopEvent::Interrupt] {
        let d = on_event(&event, &facts());
        assert!(d.stop && !d.reload && !d.poll && d.response.is_none());
    }
    let d = on_event(&LoopEvent::HangUp, &facts());
    assert!(!d.stop && d.reload && !d.poll && d.response.is_none());
    let d = on_event(&LoopEvent::Tick, &facts());
    assert!(!d.stop && !d.reload && d.poll && d.response.is_none());
    let d = on_event(&LoopEvent::Request(Ok(DaemonCommand::Stop)), &facts());
    assert!(d.stop && d.response.is_some());
}

#[test]
fn the_socket_tells_whether_the_daemon_runs() {
    assert!(is_daemon_running(&Ok(DaemonResponse::Acknowledged)));
    assert!(!is_daemon_running(&Err(IpcError::Unreachable("refused".to_string()))));
    assert!(!is_daemon_running(&Err(IpcError::Unsupported)));
    assert_eq!(socket_path(Some("/run/user/1"), Some("/data")), "/run/user/1/hazelnut.sock");
    assert_eq!(socket_path(None, Some("/data")), "/data/hazelnut.sock");
    assert_eq!(socket_path(None, None), "/tmp/hazelnut.sock");
}
