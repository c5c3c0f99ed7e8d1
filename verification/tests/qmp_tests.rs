use yave::Error;
use yave::lifecycle::{
    InstanceRuntime, RebootOperation, StopEvent, StopOperation, connect_gate, start_gate,
};
use yave::qmp_client::{CloseKind, Session, SessionAction, SessionState, close_error};
use yave::qmp_types::{InvokeCommand, LineShape, classify_line};

#[test]
fn command_lines_are_exact() {
    assert_eq!(InvokeCommand::quit().to_line(), b"{\"execute\":\"quit\"}\n");
    assert_eq!(InvokeCommand::reboot().to_line(), b"{\"execute\":\"system_reset\"}\n");
    assert_eq!(
        InvokeCommand::capabilities().to_line(),
        b"{\"execute\":\"qmp_capabilities\"}\n"
    );
    assert_eq!(
        InvokeCommand::with_args("blockdev-add", b"{\"driver\":\"raw\"}".to_vec()).to_line(),
        b"{\"execute\":\"blockdev-add\",\"arguments\":{\"driver\":\"raw\"}}\n"
    );
}

#[test]
fn password_command_escapes_its_payload() {
    let line = InvokeCommand::set_vnc_password("a\"b\\c\n").to_line();
    assert_eq!(
        line,
        b"{\"execute\":\"set_password\",\"arguments\":{\"password\":\"a\\\"b\\\\c\\n\",\"protocol\":\"vnc\"}}\n"
    );
    let plain = InvokeCommand::set_vnc_password("hunter2").to_line();
    assert_eq!(
        plain,
        b"{\"execute\":\"set_password\",\"arguments\":{\"password\":\"hunter2\",\"protocol\":\"vnc\"}}\n"
    );
}

#[test]
fn lines_are_classified_by_shape() {
    assert_eq!(
        classify_line(b"{\"QMP\": {\"version\": {}, \"capabilities\": []}}\n"),
        LineShape::Greeting
    );
    assert_eq!(classify_line(b"{\"event\": \"SHUTDOWN\", \"timestamp\": {}}\n"), LineShape::Event);
    assert_eq!(classify_line(b"{\"return\": {}}\n"), LineShape::Reply);
    assert_eq!(classify_line(b"{\"foo\": 1}\n"), LineShape::Malformed);
    assert_eq!(classify_line(b"not json at all"), LineShape::Malformed);
    assert_eq!(classify_line(b"[1,2,3]"), LineShape::Malformed);
    assert_eq!(classify_line(b""), LineShape::Malformed);
}

fn deliveries(acts: &[SessionAction]) -> Vec<Vec<u8>> {
    let mut out = Vec::new();
    for a in acts {
        if let SessionAction::DeliverResponse(l) = a {
            out.push(l.clone());
        }
    }
    out
}

fn writes(acts: &[SessionAction]) -> Vec<Vec<u8>> {
    let mut out = Vec::new();
    for a in acts {
        if let SessionAction::WriteLine(l) = a {
            out.push(l.clone());
        }
    }
    out
}

#[test]
fn scripted_server_answers_each_invoke_in_order() {
    let mut s = Session::new();

    // greeting: the machine sends the capability negotiation
    let acts = s.on_line(b"{\"QMP\": {\"version\": {}}}\n");
    assert_eq!(writes(&acts), vec![b"{\"execute\":\"qmp_capabilities\"}\n".to_vec()]);
    assert!(deliveries(&acts).is_empty());

    // capability acknowledgement completes the handshake
    let acts = s.on_line(b"{\"return\": {}}\n");
    assert!(acts.is_empty());
    assert_eq!(s.state(), SessionState::Idle);

    // first command goes out at once; the rest queue behind it
    let acts = s.on_submit(InvokeCommand::empty("query-status"));
    assert_eq!(writes(&acts), vec![b"{\"execute\":\"query-status\"}\n".to_vec()]);
    let acts = s.on_submit(InvokeCommand::empty("query-name"));
    assert!(acts.is_empty());
    let acts = s.on_submit(InvokeCommand::quit());
    assert!(acts.is_empty());

    // an event never satisfies an invoke; it goes to the observer
    let acts = s.on_line(b"{\"event\": \"NIC_RX\"}\n");
    assert!(deliveries(&acts).is_empty());
    assert!(matches!(&acts[0], SessionAction::ObserveEvent(l) if l == b"{\"event\": \"NIC_RX\"}\n"));

    // first response satisfies the first invoke and releases the second
    let acts = s.on_line(b"{\"return\": {\"status\": \"running\"}}\n");
    assert_eq!(deliveries(&acts), vec![b"{\"return\": {\"status\": \"running\"}}\n".to_vec()]);
    assert_eq!(writes(&acts), vec![b"{\"execute\":\"query-name\"}\n".to_vec()]);

    // interleaved event, then the second response, releasing the third
    let acts = s.on_line(b"{\"event\": \"RTC_CHANGE\"}\n");
    assert!(deliveries(&acts).is_empty());
    let acts = s.on_line(b"{\"return\": {\"name\": \"box\"}}\n");
    assert_eq!(deliveries(&acts), vec![b"{\"return\": {\"name\": \"box\"}}\n".to_vec()]);
    assert_eq!(writes(&acts), vec![b"{\"execute\":\"quit\"}\n".to_vec()]);

    // last response; nothing left to write
    let acts = s.on_line(b"{\"return\": {}}\n");
    assert_eq!(deliveries(&acts), vec![b"{\"return\": {}}\n".to_vec()]);
    assert!(writes(&acts).is_empty());
    assert_eq!(s.state(), SessionState::Idle);
}

#[test]
fn socket_closed_before_greeting_is_handshake_missing() {
    let mut s = Session::new();
    let acts = s.on_eof();
    assert_eq!(acts.len(), 1);
    assert!(matches!(acts[0], SessionAction::NotifyClose(CloseKind::HandshakeMissing)));
    assert_eq!(s.close_reason(), Some(CloseKind::HandshakeMissing));
    assert_eq!(close_error(CloseKind::HandshakeMissing), Some(Error::HandshakeMissing));
    assert_ne!(close_error(CloseKind::HandshakeMissing), Some(Error::Io));
}

#[test]
fn eof_after_handshake_is_a_clean_close() {
    let mut s = Session::new();
    s.on_line(b"{\"QMP\": {}}\n");
    s.on_line(b"{\"return\": {}}\n");
    let acts = s.on_eof();
    assert!(matches!(acts[0], SessionAction::NotifyClose(CloseKind::CleanEof)));
    assert_eq!(close_error(CloseKind::CleanEof), None);
}

#[test]
fn malformed_line_is_fatal_and_sticky() {
    let mut s = Session::new();
    s.on_line(b"{\"QMP\": {}}\n");
    s.on_line(b"{\"return\": {}}\n");
    let acts = s.on_line(b"this is not json\n");
    assert!(matches!(acts[0], SessionAction::NotifyClose(CloseKind::ProtocolError)));
    assert_eq!(s.state(), SessionState::Closed);
    let acts = s.on_submit(InvokeCommand::quit());
    assert!(matches!(acts[0], SessionAction::RejectSubmit));
    let acts = s.on_line(b"{\"return\": {}}\n");
    assert!(acts.is_empty());
}

#[test]
fn greeting_after_handshake_is_a_protocol_error() {
    let mut s = Session::new();
    s.on_line(b"{\"QMP\": {}}\n");
    s.on_line(b"{\"return\": {}}\n");
    let acts = s.on_line(b"{\"QMP\": {}}\n");
    assert!(matches!(acts[0], SessionAction::NotifyClose(CloseKind::ProtocolError)));
}

#[test]
fn event_before_greeting_is_a_protocol_error() {
    let mut s = Session::new();
    let acts = s.on_line(b"{\"event\": \"SHUTDOWN\"}\n");
    assert!(matches!(acts[0], SessionAction::NotifyClose(CloseKind::ProtocolError)));
}

#[test]
fn liveness_probe_is_idempotent() {
    let mut rt = InstanceRuntime::new();
    assert!(!rt.is_running());
    rt.observe_probe(true);
    let first = rt.is_running();
    let second = rt.is_running();
    assert_eq!(first, second);
    assert!(first);
    rt.observe_probe(false);
    assert_eq!(rt.is_running(), rt.is_running());
    assert!(!rt.is_running());
}

#[test]
fn start_and_connect_gates() {
    assert!(start_gate(false).is_ok());
    assert_eq!(start_gate(true).unwrap_err(), Error::VMRunning);
    assert!(connect_gate(true).is_ok());
    assert_eq!(connect_gate(false).unwrap_err(), Error::VMNotRunning);
}

#[test]
fn stop_turns_not_running_only_after_ack_and_close() {
    let mut rt = InstanceRuntime::new();
    rt.observe_probe(true);
    assert!(rt.is_running());

    let mut session = Session::new();
    let mut stop = StopOperation::new();
    assert_eq!(stop.command().to_line(), b"{\"execute\":\"quit\"}\n");

    // connect and handshake
    session.on_line(b"{\"QMP\": {}}\n");
    session.on_line(b"{\"return\": {}}\n");
    stop.step(StopEvent::Connected);
    assert!(!stop.is_done());
    assert!(rt.is_running());

    // the power-off command goes out and is acknowledged
    let acts = session.on_submit(stop.command());
    assert_eq!(acts.len(), 1);
    let acts = session.on_line(b"{\"return\": {}}\n");
    assert!(matches!(acts[0], SessionAction::DeliverResponse(_)));
    stop.step(StopEvent::ResponseReceived);
    assert!(!stop.is_done());
    assert!(rt.is_running());

    // only the session's close completes the stop
    let acts = session.on_eof();
    assert!(matches!(acts[0], SessionAction::NotifyClose(CloseKind::CleanEof)));
    stop.step(StopEvent::SessionClosed);
    assert!(stop.is_done());

    rt.observe_probe(false);
    assert!(!rt.is_running());
}

#[test]
fn reboot_completes_on_acknowledgement_alone() {
    let mut reboot = RebootOperation::new();
    assert_eq!(reboot.command().to_line(), b"{\"execute\":\"system_reset\"}\n");
    reboot.step(StopEvent::Connected);
    assert!(!reboot.is_done());
    reboot.step(StopEvent::ResponseReceived);
    assert!(reboot.is_done());
}

#[test]
fn failed_stop_never_reports_done() {
    let mut stop = StopOperation::new();
    stop.step(StopEvent::Connected);
    stop.step(StopEvent::OperationFailed);
    assert!(!stop.is_done());
    stop.step(StopEvent::SessionClosed);
    assert!(!stop.is_done());
}

#[test]
fn every_error_has_a_description() {
    assert_eq!(Error::VMNotFound.message(), "virtual machine not found");
    assert_eq!(Error::NoFreeResource.message(), "no free display or interface name");
    assert_eq!(Error::HandshakeMissing.message(), "socket closed before the greeting");
}
