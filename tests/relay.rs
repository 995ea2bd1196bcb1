use jdwp_proxy::dump::hex_dump;
use jdwp_proxy::header::{frame_length, header_to_string};
use jdwp_proxy::names::{command_set_to_name, command_to_name};
use jdwp_proxy::relay::{Fault, Pump};
use jdwp_proxy::session::{
    check_handshake, event_line, handshake_order, handshake_token, Direction, HandshakeOp,
    JdwpProxy, Peer,
};

fn squeeze(s: &str) -> String {
    s.split_whitespace().collect::<Vec<_>>().join(" ")
}

#[test]
fn simple_command_classified_and_forwarded() {
    let header: Vec<u8> = vec![0, 0, 0, 0x0B, 0, 0, 0, 1, 0, 1, 2];
    let mut pump = Pump::new();
    assert_eq!(pump.wanted(), Some(11));
    let step = pump.on_input(header.clone());
    assert_eq!(step.forward, header);
    let report = step.report.expect("a header of length 11 completes its message");
    assert_eq!(
        report,
        "length = 11   | id = 1   | command = VirtualMachine.ClassesBySignature"
    );
    assert_eq!(
        squeeze(&report),
        "length = 11 | id = 1 | command = VirtualMachine.ClassesBySignature"
    );
    // no body is read: the next read is a header again
    assert_eq!(pump.wanted(), Some(11));
}

#[test]
fn reply_with_error_rendered() {
    let header = [0u8, 0, 0, 0x0B, 0, 0, 0, 7, 0x80, 0, 0x64];
    let text = header_to_string(&header);
    assert_eq!(text, "length = 11   | id = 7   | error = 100");
    assert_eq!(squeeze(&text), "length = 11 | id = 7 | error = 100");
}

#[test]
fn command_with_body_reads_exact_body() {
    let header: Vec<u8> = vec![0, 0, 0, 20, 0, 0, 0, 3, 0, 11, 1];
    let body: Vec<u8> = vec![1, 2, 3, 4, 5, 6, 7, 8, 9];
    let mut pump = Pump::new();
    let step = pump.on_input(header.clone());
    assert_eq!(step.forward, header);
    assert!(step.report.is_none());
    assert_eq!(pump.wanted(), Some(9));
    let step = pump.on_input(body.clone());
    assert_eq!(step.forward, body);
    assert_eq!(
        step.report.unwrap(),
        "length = 20   | id = 3   | command = ThreadReference.Name"
    );
    assert_eq!(pump.wanted(), Some(11));
}

#[test]
fn unknown_command_set_is_unknown() {
    for command in 0..=255u8 {
        let header = [0u8, 0, 0, 11, 0, 0, 0, 2, 0, 99, command];
        let text = header_to_string(&header);
        assert!(text.ends_with("| command = Unknown.Unknown"), "{}", text);
    }
    assert_eq!(command_set_to_name(99), "Unknown");
    assert_eq!(command_to_name(99, 1), "Unknown");
}

#[test]
fn classifier_is_total() {
    for set in 0..=255u8 {
        assert!(!command_set_to_name(set).is_empty());
        for command in 0..=255u8 {
            assert!(!command_to_name(set, command).is_empty());
            let header = [0u8, 0, 0, 11, 0, 0, 0, 1, 0, set, command];
            assert!(!header_to_string(&header).is_empty());
        }
    }
}

#[test]
fn known_names() {
    assert_eq!(command_set_to_name(1), "VirtualMachine");
    assert_eq!(command_set_to_name(8), "Field");
    assert_eq!(command_set_to_name(64), "Event");
    assert_eq!(command_set_to_name(7), "Unknown");
    assert_eq!(command_to_name(64, 100), "Composite");
    assert_eq!(command_to_name(9, 4), "Unknown");
    assert_eq!(command_to_name(9, 5), "MonitorInfo");
    assert_eq!(command_to_name(8, 1), "Unknown");
    assert_eq!(command_to_name(11, 15), "IsVirtual");
}

#[test]
fn reply_flag_selects_error_branch() {
    // same bytes at offsets 9 and 10, different flags
    let reply = [0u8, 0, 0, 11, 0, 0, 0, 1, 0x80, 1, 2];
    let command = [0u8, 0, 0, 11, 0, 0, 0, 1, 0x81, 1, 2];
    assert_eq!(header_to_string(&reply), "length = 11   | id = 1   | error = 258");
    assert_eq!(
        header_to_string(&command),
        "length = 11   | id = 1   | command = VirtualMachine.ClassesBySignature"
    );
}

#[test]
fn wide_fields_are_not_cut() {
    let header = [0xFFu8, 0xFF, 0xFF, 0xFF, 0x00, 0x01, 0x86, 0xA0, 0x80, 0xFF, 0xFF];
    assert_eq!(frame_length(&header), 4294967295);
    assert_eq!(
        header_to_string(&header),
        "length = 4294967295| id = 100000| error = 65535"
    );
}

#[test]
fn frame_length_is_big_endian() {
    assert_eq!(frame_length(&[0, 0, 1, 2, 0, 0, 0, 0, 0, 0, 0]), 258);
    assert_eq!(frame_length(&[1, 0, 0, 0, 0, 0, 0, 0, 0, 0, 0]), 16777216);
}

#[test]
fn bad_length_stops_after_forwarding_header() {
    let header: Vec<u8> = vec![0, 0, 0, 5, 0, 0, 0, 1, 0, 1, 1];
    let mut pump = Pump::new();
    let step = pump.on_input(header.clone());
    assert_eq!(step.forward, header);
    assert!(step.report.is_none());
    assert_eq!(pump.wanted(), None);
    assert_eq!(pump.fault(), Some(Fault::BadLength(5)));
    let step = pump.on_input(vec![1, 2, 3]);
    assert!(step.forward.is_empty());
}

#[test]
fn short_read_stops_the_direction() {
    let mut pump = Pump::new();
    let step = pump.on_input(vec![0, 0, 0]);
    assert!(step.forward.is_empty());
    assert!(step.report.is_none());
    assert_eq!(pump.fault(), Some(Fault::ShortRead { expected: 11, got: 3 }));
    assert_eq!(pump.wanted(), None);

    let mut pump = Pump::new();
    pump.on_input(vec![0, 0, 0, 14, 0, 0, 0, 1, 0, 1, 1]);
    let step = pump.on_input(vec![9]);
    assert!(step.forward.is_empty());
    assert_eq!(pump.fault(), Some(Fault::ShortRead { expected: 3, got: 1 }));
}

#[test]
fn directions_are_independent() {
    let mut one = Pump::new();
    let other = Pump::new();
    for id in 0..5u8 {
        let step = one.on_input(vec![0, 0, 0, 12, 0, 0, 0, id, 0, 1, 1]);
        assert_eq!(step.forward.len(), 11);
        let step = one.on_input(vec![id]);
        assert_eq!(step.forward, vec![id]);
    }
    assert_eq!(other.wanted(), Some(11));
    assert_eq!(other.fault(), None);
}

#[test]
fn stream_is_relayed_byte_for_byte() {
    let mut source: Vec<u8> = Vec::new();
    source.extend_from_slice(&[0, 0, 0, 11, 0, 0, 0, 1, 0, 1, 1]);
    source.extend_from_slice(&[0, 0, 0, 13, 0, 0, 0, 2, 0x80, 0, 0, 0xAA, 0xBB]);
    source.extend_from_slice(&[0, 0, 0, 11, 0, 0, 0, 3, 0, 15, 1]);
    let mut pump = Pump::new();
    let mut at = 0usize;
    let mut sink: Vec<u8> = Vec::new();
    let mut reports: Vec<String> = Vec::new();
    while at < source.len() {
        let n = pump.wanted().unwrap();
        let step = pump.on_input(source[at..at + n].to_vec());
        at += n;
        sink.extend_from_slice(&step.forward);
        if let Some(r) = step.report {
            reports.push(r);
        }
    }
    assert_eq!(sink, source);
    assert_eq!(reports.len(), 3);
    assert_eq!(reports[1], "length = 13   | id = 2   | error = 0");
    assert_eq!(reports[2], "length = 11   | id = 3   | command = EventRequest.Set");
}

#[test]
fn handshake_token_and_order() {
    assert_eq!(handshake_token(), b"JDWP-Handshake".to_vec());
    assert!(check_handshake(b"JDWP-Handshake").is_ok());
    assert!(check_handshake(b"anything 14 by").is_ok());
    assert_eq!(
        check_handshake(b"JDWP"),
        Err(Fault::ShortRead { expected: 14, got: 4 })
    );
    assert_eq!(
        handshake_order(Peer::Debuggee),
        (HandshakeOp::Send, HandshakeOp::Receive)
    );
    assert_eq!(
        handshake_order(Peer::Debugger),
        (HandshakeOp::Receive, HandshakeOp::Send)
    );
}

#[test]
fn event_lines_carry_direction() {
    let summary = String::from("length = 11   | id = 1   | error = 0");
    assert_eq!(
        event_line(Direction::DebuggeeToDebugger, &summary),
        "Debugger <- Debuggee: length = 11   | id = 1   | error = 0"
    );
    assert_eq!(
        event_line(Direction::DebuggerToDebuggee, &summary),
        "Debugger -> Debuggee: length = 11   | id = 1   | error = 0"
    );
}

#[test]
fn proxy_settings_kept() {
    let p = JdwpProxy::new(8000, 8001, true, false);
    assert_eq!(p.debuggee_port, 8000);
    assert_eq!(p.debugger_port, 8001);
    assert!(p.verbose);
    assert!(!p.colour);
}

#[test]
fn hex_dump_of_header_and_body() {
    assert_eq!(hex_dump(&[0x00, 0xab, 0x7f], None), "00 ab 7f ");
    assert_eq!(hex_dump(&[0x0c, 0xf0], Some(11)), "0c f0 \n");
    assert_eq!(hex_dump(&[], Some(11)), "\n");
}

#[test]
fn hex_dump_breaks_lines_every_twenty() {
    let bytes: Vec<u8> = (0..22u8).collect();
    let text = hex_dump(&bytes, None);
    let expected = "00 01 02 03 04 05 06 07 08 09 0a 0b 0c 0d 0e 0f 10 11 12 13 \n14 15 ";
    assert_eq!(text, expected);
    assert_eq!(hex_dump(&[1, 2], Some(19)), "01 \n02 \n");
}

#[test]
fn hex_dump_truncates_at_eighty() {
    let bytes: Vec<u8> = vec![0xee; 100];
    let text = hex_dump(&bytes, None);
    assert!(text.ends_with("ee \n[truncated]\n"));
    assert_eq!(text.matches("ee").count(), 80);
    let text = hex_dump(&[1, 2, 3], Some(79));
    assert_eq!(text, "01 \n[truncated]\n");
}
