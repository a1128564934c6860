use lingsubtitle::asr::{GummyErrorInfo, ResolvedGummyTarget, BINARY_AUDIO_FRAME_BYTES};
use lingsubtitle::asr_session::{
    on_control_while_finishing, on_control_while_starting, probe_on_message, probe_stream_ended,
    reader_on_message, silence_frame, wait_timeout_error, AsrSession, AudioFramer, ControlEvent,
    SessionInput, SocketMessage, WaitPhase,
};

fn target() -> ResolvedGummyTarget {
    ResolvedGummyTarget { resolved_url: "wss://h/ws".to_string() }
}

fn failure(kind: &str) -> GummyErrorInfo {
    GummyErrorInfo {
        kind: kind.to_string(),
        message: "m".to_string(),
        provider: "dashscopeGummy".to_string(),
        resolved_url: "wss://h/ws".to_string(),
        model: "gummy".to_string(),
        error_code: None,
    }
}

#[test]
fn framer_cuts_full_frames_and_keeps_the_rest() {
    let mut f = AudioFramer::new();
    let chunk: Vec<u8> = (0..7000u32).map(|i| (i % 251) as u8).collect();
    let frames = f.push_chunk(&chunk);
    assert_eq!(frames.len(), 2);
    assert!(frames.iter().all(|x| x.len() == BINARY_AUDIO_FRAME_BYTES));
    assert_eq!(f.pending_len(), 600);
    let more = f.push_chunk(&chunk[..2600]);
    assert_eq!(more.len(), 1);
    assert_eq!(f.pending_len(), 0);
    let mut all: Vec<u8> = frames.concat();
    all.extend(more.concat());
    let mut expected = chunk.clone();
    expected.extend_from_slice(&chunk[..2600]);
    assert_eq!(all, expected);
    assert!(f.take_remaining().is_none());
}

#[test]
fn framer_flushes_the_short_tail() {
    let mut f = AudioFramer::new();
    assert!(f.push_chunk(&[1, 2, 3]).is_empty());
    assert_eq!(f.take_remaining(), Some(vec![1, 2, 3]));
    assert_eq!(f.pending_len(), 0);
    assert!(f.take_remaining().is_none());
}

#[test]
fn session_sends_audio_then_finish_once() {
    let t = target();
    let mut s = AsrSession::new();
    let step = s.step(SessionInput::Audio(Some(vec![7u8; 3300])), &t, "gummy");
    assert_eq!(step.frames.len(), 1);
    assert!(!step.send_finish && step.finish.is_none());
    let step = s.step(SessionInput::Stop(Some(false)), &t, "gummy");
    assert!(step.frames.is_empty() && !step.send_finish);
    let step = s.step(SessionInput::Stop(Some(true)), &t, "gummy");
    assert_eq!(step.frames, vec![vec![7u8; 100]]);
    assert!(step.send_finish);
    assert!(s.finish_sent);
    let step = s.step(SessionInput::Audio(Some(vec![1u8; 5000])), &t, "gummy");
    assert!(step.frames.is_empty() && !step.send_finish);
    let step = s.step(SessionInput::Audio(None), &t, "gummy");
    assert!(step.frames.is_empty() && !step.send_finish);
}

#[test]
fn session_ends_on_control_events() {
    let t = target();
    let mut s = AsrSession::new();
    assert!(s.step(SessionInput::Control(Some(ControlEvent::TaskStarted)), &t, "gummy").finish.is_none());
    assert!(matches!(s.step(SessionInput::Control(Some(ControlEvent::TaskFinished)), &t, "gummy").finish, Some(Ok(()))));
    match s.step(SessionInput::Control(Some(ControlEvent::TaskFailed(failure("task_failed")))), &t, "gummy").finish {
        Some(Err(e)) => assert_eq!(e.kind, "task_failed"),
        _ => panic!("expected a failure"),
    }
    match s.step(SessionInput::Control(None), &t, "gummy").finish {
        Some(Err(e)) => {
            assert_eq!(e.kind, "connection_closed");
            assert_eq!(e.message, "Gummy WebSocket 在任务完成前中断。");
            assert_eq!(e.resolved_url, "wss://h/ws");
            assert_eq!(e.model, "gummy");
        }
        _ => panic!("expected a failure"),
    }
}

#[test]
fn end_of_capture_flushes_with_nothing_pending() {
    let t = target();
    let mut s = AsrSession::new();
    let step = s.step(SessionInput::Audio(None), &t, "m");
    assert!(step.frames.is_empty());
    assert!(step.send_finish);
}

#[test]
fn reader_forwards_results_and_reports_events() {
    let t = target();
    let a = reader_on_message(SocketMessage::Text(r#"{"header":{"event":"task-started"}}"#.to_string()), &t, "m");
    assert!(matches!(a.control, Some(ControlEvent::TaskStarted)) && !a.stop && a.result.is_none());
    let a = reader_on_message(SocketMessage::Text(r#"{"header":{"event":"task-finished"}}"#.to_string()), &t, "m");
    assert!(matches!(a.control, Some(ControlEvent::TaskFinished)) && a.stop);
    let a = reader_on_message(
        SocketMessage::Text(
            r#"{"header":{"event":"result-generated"},"payload":{"output":{"transcription":{"sentence_id":4,"text":"hi","sentence_end":true}}}}"#
                .to_string(),
        ),
        &t,
        "m",
    );
    let u = a.result.unwrap();
    assert_eq!(u.sentence_id, 4);
    assert!(u.is_final);
    assert!(a.control.is_none() && !a.stop);
    let a = reader_on_message(SocketMessage::Close, &t, "m");
    match a.control {
        Some(ControlEvent::TaskFailed(e)) => assert_eq!(e.message, "Gummy WebSocket 在任务结束前被关闭。"),
        _ => panic!("expected a failure"),
    }
    assert!(a.stop);
    let a = reader_on_message(SocketMessage::Other, &t, "m");
    assert!(a.control.is_none() && !a.stop);
    let a = reader_on_message(SocketMessage::Text("{".to_string()), &t, "m");
    match a.control {
        Some(ControlEvent::TaskFailed(e)) => assert_eq!(e.kind, "protocol_parse"),
        _ => panic!("expected a failure"),
    }
    let a = reader_on_message(SocketMessage::Error("tls handshake eof".to_string()), &t, "m");
    match a.control {
        Some(ControlEvent::TaskFailed(e)) => assert_eq!(e.kind, "tls_handshake"),
        _ => panic!("expected a failure"),
    }
}

#[test]
fn waits_decide_on_reports() {
    let t = target();
    assert!(on_control_while_starting(Some(ControlEvent::TaskStarted), &t, "m").is_ok());
    assert_eq!(
        on_control_while_starting(Some(ControlEvent::TaskFinished), &t, "m").unwrap_err().message,
        "Gummy 在 task-started 之前就结束了任务。"
    );
    assert_eq!(on_control_while_starting(None, &t, "m").unwrap_err().message, "等待 Gummy task-started 时连接中断。");
    assert!(on_control_while_finishing(Some(ControlEvent::TaskStarted), &t, "m").is_none());
    assert!(matches!(on_control_while_finishing(Some(ControlEvent::TaskFinished), &t, "m"), Some(Ok(()))));
    match on_control_while_finishing(None, &t, "m") {
        Some(Err(e)) => assert_eq!(e.message, "等待 Gummy task-finished 时连接中断。"),
        _ => panic!("expected a failure"),
    }
    assert_eq!(wait_timeout_error(WaitPhase::AwaitStarted, &t, "m").message, "等待 Gummy task-started 超时。");
    assert_eq!(wait_timeout_error(WaitPhase::AwaitFinished, &t, "m").kind, "network_timeout");
}

#[test]
fn probe_decides_on_messages() {
    let t = target();
    let started = || SocketMessage::Text(r#"{"header":{"event":"task-started"}}"#.to_string());
    assert!(matches!(probe_on_message(WaitPhase::AwaitStarted, started(), &t, "m"), Some(Ok(()))));
    assert!(probe_on_message(WaitPhase::AwaitFinished, started(), &t, "m").is_none());
    match probe_on_message(WaitPhase::AwaitStarted, SocketMessage::Close, &t, "m") {
        Some(Err(e)) => assert_eq!(e.message, "Gummy WebSocket 在检测期间被关闭。"),
        _ => panic!("expected a failure"),
    }
    match probe_on_message(WaitPhase::AwaitFinished, SocketMessage::Close, &t, "m") {
        Some(Err(e)) => assert_eq!(e.message, "Gummy 连接检测未收到 task-finished。"),
        _ => panic!("expected a failure"),
    }
    assert_eq!(probe_stream_ended(WaitPhase::AwaitStarted, &t, "m").message, "Gummy WebSocket 在检测期间提前断开。");
    let failed = SocketMessage::Text(r#"{"header":{"event":"task-failed","error_code":"E1","error_message":"no"}}"#.to_string());
    match probe_on_message(WaitPhase::AwaitFinished, failed, &t, "m") {
        Some(Err(e)) => {
            assert_eq!(e.kind, "task_failed");
            assert_eq!(e.error_code.as_deref(), Some("E1"));
            assert_eq!(e.message, "no");
        }
        _ => panic!("expected a failure"),
    }
}

#[test]
fn silence_frame_is_one_zero_frame() {
    let f = silence_frame();
    assert_eq!(f.len(), 3200);
    assert!(f.iter().all(|b| *b == 0));
}
