use fingerprint_sdk::bridge::ipc::{read_ipc_line, read_ipc_line_with_limit, ByteReader, IpcErrorKind, IpcLineError, MAX_IPC_LINE};
use fingerprint_sdk::bridge::responses::refuse_empty_search;
use fingerprint_sdk::bridge::responses::{
    invalid_command_response, load_failure_response, map_sdk_error, next_step,
    respond_without_device, zeroize_command, zeroize_response, LoopStep,
};
use fingerprint_sdk::protocol::{BridgeCommand, BridgeResponse, ResponseData, TemplateEntry};

fn error_code(resp: &BridgeResponse) -> Option<String> {
    match resp {
        BridgeResponse::Error { code, .. } => Some(code.clone()),
        _ => None,
    }
}

fn is_void(resp: &BridgeResponse) -> bool {
    matches!(resp, BridgeResponse::Success { data: ResponseData::Void })
}

// ─── read_ipc_line_with_limit ────────────────────────────────────────────

#[test]
fn read_ipc_line_reads_normal_line() {
    let input: &[u8] = b"hello\nworld\n";
    let mut reader = ByteReader::new(input);
    let mut buf = String::new();
    let n = read_ipc_line_with_limit(&mut reader, &mut buf, 1024).unwrap();
    assert_eq!(n, 6);
    assert_eq!(buf, "hello\n");
}

#[test]
fn read_ipc_line_returns_zero_at_eof() {
    let input: &[u8] = b"";
    let mut reader = ByteReader::new(input);
    let mut buf = String::new();
    let n = read_ipc_line_with_limit(&mut reader, &mut buf, 1024).unwrap();
    assert_eq!(n, 0);
    assert!(buf.is_empty());
}

#[test]
fn read_ipc_line_rejects_oversized() {
    // Limit = 10, line = 20 bytes without newline → must error.
    let input: &[u8] = b"xxxxxxxxxxxxxxxxxxxx";
    let mut reader = ByteReader::new(input);
    let mut buf = String::new();
    match read_ipc_line_with_limit(&mut reader, &mut buf, 10) {
        Err(e) if e.kind() == IpcErrorKind::InvalidData => {
            assert!(e.message().contains("exceeds 10"));
        }
        other => panic!("expected InvalidData, got {:?}", other),
    }
}

#[test]
fn read_ipc_line_accepts_line_exactly_at_limit_with_newline() {
    // 9 chars + '\n' = 10 bytes; limit = 10. Should succeed cleanly.
    let input: &[u8] = b"abcdefghi\n";
    let mut reader = ByteReader::new(input);
    let mut buf = String::new();
    let n = read_ipc_line_with_limit(&mut reader, &mut buf, 10).unwrap();
    assert_eq!(n, 10);
    assert_eq!(buf, "abcdefghi\n");
}

#[test]
fn read_ipc_line_handles_short_line_without_trailing_newline() {
    // EOF before newline: legitimate "last line", not an overflow.
    let input: &[u8] = b"abc";
    let mut reader = ByteReader::new(input);
    let mut buf = String::new();
    let n = read_ipc_line_with_limit(&mut reader, &mut buf, 1024).unwrap();
    assert_eq!(n, 3);
    assert_eq!(buf, "abc");
}

#[test]
fn read_ipc_line_consumes_one_line_at_a_time() {
    let mut reader = ByteReader::new(b"one\ntwo\n");
    let mut buf = String::new();
    assert_eq!(read_ipc_line(&mut reader, &mut buf).unwrap(), 4);
    assert_eq!(buf, "one\n");
    buf.clear();
    assert_eq!(read_ipc_line(&mut reader, &mut buf).unwrap(), 4);
    assert_eq!(buf, "two\n");
    assert_eq!(reader.remaining_len(), 0);
    assert_eq!(MAX_IPC_LINE, 64 * 1024 * 1024);
}

#[test]
fn read_ipc_line_rejects_invalid_utf8() {
    let mut reader = ByteReader::new(&[0xff, 0xfe, b'\n']);
    let mut buf = String::from("kept");
    match read_ipc_line_with_limit(&mut reader, &mut buf, 1024) {
        Err(e) => {
            assert_eq!(e, IpcLineError::InvalidUtf8);
            assert_eq!(e.message(), "stream did not contain valid UTF-8");
        }
        other => panic!("expected invalid UTF-8, got {:?}", other),
    }
    assert_eq!(buf, "kept");
}

// ─── zeroize_response ────────────────────────────────────────────────────

#[test]
fn zeroize_response_wipes_scan_result() {
    let mut resp = BridgeResponse::Success {
        data: ResponseData::ScanResult {
            image: vec![1, 2, 3, 4, 5],
            quality: 80,
            template: vec![9, 8, 7, 6],
            timestamp: 12345,
        },
    };
    zeroize_response(&mut resp);
    match resp {
        BridgeResponse::Success {
            data: ResponseData::ScanResult { image, template, quality, timestamp },
        } => {
            assert!(image.is_empty(), "image bytes not wiped");
            assert!(template.is_empty(), "template bytes not wiped");
            assert_eq!(quality, 80);
            assert_eq!(timestamp, 12345);
        }
        _ => panic!("unexpected response shape after zeroize"),
    }
}

#[test]
fn zeroize_response_wipes_template_data() {
    let mut resp = BridgeResponse::Success {
        data: ResponseData::Template { user_id: "alice".into(), data: vec![0xAB; 32], created_at: 0 },
    };
    zeroize_response(&mut resp);
    match resp {
        BridgeResponse::Success { data: ResponseData::Template { user_id, data, .. } } => {
            assert_eq!(user_id, "alice");
            assert!(data.is_empty(), "template data not wiped");
        }
        _ => panic!("unexpected response shape"),
    }
}

#[test]
fn zeroize_response_noop_on_non_biometric_variants() {
    let mut resp = BridgeResponse::Success {
        data: ResponseData::MatchResult { matched: true, score: 42, user_id: Some("bob".into()) },
    };
    zeroize_response(&mut resp);
    if let BridgeResponse::Success { data: ResponseData::MatchResult { matched, score, user_id } } = resp {
        assert!(matched);
        assert_eq!(score, 42);
        assert_eq!(user_id.as_deref(), Some("bob"));
    } else {
        panic!("response shape changed");
    }
}

#[test]
fn zeroize_response_noop_on_error() {
    let mut resp = BridgeResponse::Error { code: "X".into(), message: "y".into() };
    zeroize_response(&mut resp);
    assert_eq!(resp, BridgeResponse::Error { code: "X".into(), message: "y".into() });
}

// ─── zeroize_command ─────────────────────────────────────────────────────

#[test]
fn zeroize_command_wipes_verify_template() {
    let mut cmd = BridgeCommand::Verify { user_id: "alice".into(), template_data: vec![0xCD; 128] };
    zeroize_command(&mut cmd);
    match cmd {
        BridgeCommand::Verify { user_id, template_data } => {
            assert_eq!(user_id, "alice");
            assert!(template_data.is_empty(), "verify template_data not wiped");
        }
        _ => panic!("command shape changed"),
    }
}

#[test]
fn zeroize_command_wipes_identify_templates() {
    let mut cmd = BridgeCommand::Identify {
        templates: vec![
            TemplateEntry { user_id: "a".into(), data: vec![1, 2, 3] },
            TemplateEntry { user_id: "b".into(), data: vec![4, 5, 6] },
        ],
    };
    zeroize_command(&mut cmd);
    if let BridgeCommand::Identify { templates } = cmd {
        assert_eq!(templates.len(), 2);
        assert_eq!(templates[0].user_id, "a");
        assert_eq!(templates[1].user_id, "b");
        for t in &templates {
            assert!(t.data.is_empty(), "identify template bytes not wiped");
        }
    } else {
        panic!("command shape changed");
    }
}

#[test]
fn zeroize_command_wipes_get_quality_image() {
    let mut cmd = BridgeCommand::GetQuality { image: vec![7u8; 256] };
    zeroize_command(&mut cmd);
    if let BridgeCommand::GetQuality { image } = cmd {
        assert!(image.is_empty());
    } else {
        panic!("command shape changed");
    }
}

#[test]
fn zeroize_command_noop_on_non_biometric_variants() {
    let mut init = BridgeCommand::Init;
    zeroize_command(&mut init);
    assert_eq!(init, BridgeCommand::Init);
    let mut disconnect = BridgeCommand::Disconnect;
    zeroize_command(&mut disconnect);
    assert_eq!(disconnect, BridgeCommand::Disconnect);
    let mut capture = BridgeCommand::Capture { timeout_ms: 1000, min_quality: 60 };
    zeroize_command(&mut capture);
    assert_eq!(capture, BridgeCommand::Capture { timeout_ms: 1000, min_quality: 60 });
    let mut enroll = BridgeCommand::Enroll { user_id: "x".into(), samples: 3 };
    zeroize_command(&mut enroll);
    assert_eq!(enroll, BridgeCommand::Enroll { user_id: "x".into(), samples: 3 });
}

// ─── The command loop before `init` ──────────────────────────────────────

#[test]
fn capture_before_init_returns_not_initialized() {
    let resp = respond_without_device(&BridgeCommand::Capture { timeout_ms: 1000, min_quality: 60 }).unwrap();
    assert_eq!(error_code(&resp).as_deref(), Some("NOT_INITIALIZED"));
}

#[test]
fn verify_before_init_returns_not_initialized() {
    let cmd = BridgeCommand::Verify { user_id: "alice".into(), template_data: vec![1, 2, 3] };
    let resp = respond_without_device(&cmd).unwrap();
    assert_eq!(error_code(&resp).as_deref(), Some("NOT_INITIALIZED"));
}

#[test]
fn identify_before_init_returns_not_initialized() {
    let resp = respond_without_device(&BridgeCommand::Identify { templates: vec![] }).unwrap();
    assert_eq!(error_code(&resp).as_deref(), Some("NOT_INITIALIZED"));
}

#[test]
fn enroll_before_init_returns_not_initialized() {
    let resp = respond_without_device(&BridgeCommand::Enroll { user_id: "bob".into(), samples: 3 }).unwrap();
    assert_eq!(error_code(&resp).as_deref(), Some("NOT_INITIALIZED"));
}

#[test]
fn get_quality_before_init_returns_not_initialized() {
    let resp = respond_without_device(&BridgeCommand::GetQuality { image: vec![0, 0, 0, 0] }).unwrap();
    assert_eq!(error_code(&resp).as_deref(), Some("NOT_INITIALIZED"));
}

#[test]
fn disconnect_without_init_is_noop_ok() {
    let resp = respond_without_device(&BridgeCommand::Disconnect).unwrap();
    assert!(is_void(&resp), "expected ok/void response, got: {:?}", resp);
}

#[test]
fn init_needs_the_device_work() {
    assert!(respond_without_device(&BridgeCommand::Init).is_none());
}

#[test]
fn malformed_json_returns_error_and_stream_survives() {
    let line = "this is not json at all\n";
    assert_eq!(next_step(&Ok(line.len()), line), LoopStep::Dispatch);
    let resp1 = invalid_command_response("expected value at line 1 column 1");
    match &resp1 {
        BridgeResponse::Error { code, message } => {
            assert_eq!(code, "SDK_ERROR");
            assert!(message.contains("Invalid command"));
        }
        _ => panic!("expected SDK_ERROR/Invalid command, got: {:?}", resp1),
    }
    // The loop goes on with the next line.
    let next = "{\"action\":\"disconnect\"}\n";
    assert_eq!(next_step(&Ok(next.len()), next), LoopStep::Dispatch);
    let resp2 = respond_without_device(&BridgeCommand::Disconnect).unwrap();
    assert!(is_void(&resp2), "stream did not survive malformed JSON; got: {:?}", resp2);
}

#[test]
fn unknown_action_returns_invalid_command() {
    let resp = invalid_command_response("unknown variant `do_a_barrel_roll`");
    match resp {
        BridgeResponse::Error { message, .. } => {
            assert_eq!(message, "Invalid command: unknown variant `do_a_barrel_roll`");
        }
        other => panic!("expected serde tag error, got: {:?}", other),
    }
}

#[test]
fn empty_lines_are_skipped() {
    for _ in 0..3 {
        assert_eq!(next_step(&Ok(1), "\n"), LoopStep::Skip, "bridge unexpectedly responded to blank lines");
    }
    assert_eq!(next_step(&Ok(3), " \t\n"), LoopStep::Skip);
    let resp = respond_without_device(&BridgeCommand::Disconnect).unwrap();
    assert!(is_void(&resp), "post-blanks command failed: {:?}", resp);
}

#[test]
fn multiple_commands_round_trip_in_order() {
    let commands = vec![
        BridgeCommand::Capture { timeout_ms: 1, min_quality: 1 },
        BridgeCommand::Enroll { user_id: "x".into(), samples: 1 },
        BridgeCommand::Disconnect,
    ];
    let responses: Vec<BridgeResponse> =
        commands.iter().map(|c| respond_without_device(c).unwrap()).collect();
    assert_eq!(error_code(&responses[0]).as_deref(), Some("NOT_INITIALIZED"), "r1: {:?}", responses[0]);
    assert_eq!(error_code(&responses[1]).as_deref(), Some("NOT_INITIALIZED"), "r2: {:?}", responses[1]);
    assert!(is_void(&responses[2]), "r3: {:?}", responses[2]);
}

#[test]
fn init_without_dll_returns_sdk_error_not_panic() {
    let resp = load_failure_response("sgfplib.dll not found");
    match resp {
        BridgeResponse::Error { code, message } => {
            assert_eq!(code, "SDK_ERROR");
            assert_eq!(message, "Failed to load DLL: sgfplib.dll not found");
        }
        other => panic!("expected SDK_ERROR, got: {:?}", other),
    }
}

#[test]
fn end_of_input_stops_and_framing_errors_are_reported() {
    assert_eq!(next_step(&Ok(0), ""), LoopStep::Stop);
    match next_step(&Err(IpcLineError::TooLong { limit: 10 }), "") {
        LoopStep::RespondAndStop(BridgeResponse::Error { code, message }) => {
            assert_eq!(code, "SDK_ERROR");
            assert_eq!(message, "IPC framing error: IPC line exceeds 10 bytes");
        }
        other => panic!("expected a framing error, got {:?}", other),
    }
}

#[test]
fn sdk_codes_become_error_responses() {
    assert_eq!(
        map_sdk_error(55),
        BridgeResponse::Error { code: "DEVICE_NOT_FOUND".into(), message: "Device not found".into() }
    );
    assert_eq!(
        map_sdk_error(-7),
        BridgeResponse::Error { code: "SDK_ERROR".into(), message: "SGFPLIB error code: -7".into() }
    );
}

#[test]
fn empty_search_is_refused_without_capturing() {
    match refuse_empty_search(&[]) {
        Some(BridgeResponse::Error { code, message }) => {
            assert_eq!(code, "MATCH_FAILED");
            assert_eq!(message, "No templates provided");
        }
        other => panic!("expected the refusal, got {:?}", other),
    }
    let one = TemplateEntry { user_id: "u".into(), data: vec![1] };
    assert!(refuse_empty_search(&[one]).is_none());
}
