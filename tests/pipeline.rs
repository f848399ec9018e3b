use qmkontext::conf::{
    default_debug_mode, default_log_level, default_usage, default_usage_page, Config,
    CurrentProgramConfig, CurrentProgramMapping, CustomCommandConfig, KeyboardConfig,
};
use qmkontext::engine::{after_send, Engine, EngineStep};
use qmkontext::event_sink::{device_matches, find_device, CliSink, EventSink};
use qmkontext::event_source::{
    first_matching_value, select_value, ActiveProgramData, CommandOutput, UserEventConfig,
    UserEventSource, UserEventSourceKind,
};
use qmkontext::supervisor::{
    next_step, start_scan, SupervisorAction, SupervisorEvent, SupervisorState,
    RETRY_DELAY_SECONDS,
};
use qmkontext::text::{first_word_of, output_to_string, parse_u8, parse_unsigned, remove_newlines};
use qmkontext::{encode_frame, Error, Event, SendData, FRAME_LEN};

fn rules(pairs: &[(&str, u8)]) -> Vec<(String, u8)> {
    pairs.iter().map(|(p, v)| (p.to_string(), *v)).collect()
}

fn program_source(pairs: &[(&str, u8)], default_value: u8, fold: bool, id: u8) -> UserEventConfig {
    UserEventConfig {
        interval_seconds: 1,
        kind: UserEventSourceKind::CurrentProgram {
            mappings: rules(pairs),
            default_value,
            use_lowercase: fold,
        },
        command_id: id,
    }
}

fn window(title: &str, binary: &str) -> ActiveProgramData {
    ActiveProgramData { binary: binary.to_string(), name: title.to_string() }
}

fn output(success: bool, stdout: &[u8]) -> CommandOutput {
    CommandOutput { success, stdout: stdout.to_vec(), stderr: Vec::new() }
}

fn script_source(id: u8) -> UserEventConfig {
    UserEventConfig {
        interval_seconds: 5,
        kind: UserEventSourceKind::UserDefined { command: "echo 3".to_string() },
        command_id: id,
    }
}

#[test]
fn firefox_rule_and_default() {
    let src = program_source(&[("firefox", 1), ("code", 2)], 9, true, 4);
    let e = UserEventSource::step_source(&src, &window("Mozilla Firefox", "firefox-bin"));
    assert_eq!(e, Some(Event::Send { command_id: 4, command_data: 1 }));
    let e = UserEventSource::step_source(&src, &window("Random App", "other"));
    assert_eq!(e, Some(Event::Send { command_id: 4, command_data: 9 }));
}

#[test]
fn title_match_beats_later_binary_match() {
    let m = rules(&[("firefox", 1), ("code", 2)]);
    assert_eq!(select_value(&m, 9, true, "Mozilla Firefox", "code"), 1);
    let m = rules(&[("code", 2), ("firefox", 1)]);
    assert_eq!(select_value(&m, 9, true, "Mozilla Firefox", "firefox-bin"), 1);
}

#[test]
fn earlier_rule_wins_through_binary() {
    let m = rules(&[("code", 2), ("firefox", 1)]);
    assert_eq!(select_value(&m, 9, true, "Mozilla Firefox", "code"), 2);
}

#[test]
fn case_fold_off_is_exact() {
    let m = rules(&[("firefox", 1)]);
    assert_eq!(select_value(&m, 9, false, "Mozilla Firefox", "Firefox"), 9);
    assert_eq!(select_value(&m, 9, true, "MOZILLA FIREFOX", "x"), 1);
    let m = rules(&[("FireFox", 1)]);
    assert_eq!(select_value(&m, 9, true, "mozilla firefox", "x"), 1);
}

#[test]
fn first_matching_value_plain() {
    let m = rules(&[("ab", 1), ("cd", 2)]);
    assert_eq!(first_matching_value(&m, "xxcdxx", "yy"), Some(2));
    assert_eq!(first_matching_value(&m, "zz", "qab"), Some(1));
    assert_eq!(first_matching_value(&m, "zz", "qq"), None);
    assert_eq!(first_matching_value(&rules(&[]), "zz", "qq"), None);
    assert_eq!(first_matching_value(&rules(&[("", 7)]), "", ""), Some(7));
}

#[test]
fn events_carry_destination_id() {
    let src = program_source(&[("term", 3)], 0, false, 200);
    for (t, b) in [("terminal", "x"), ("none", "none"), ("", "")] {
        let e = UserEventSource::step_source(&src, &window(t, b)).unwrap();
        let Event::Send { command_id, .. } = e;
        assert_eq!(command_id, 200);
    }
    let e = UserEventSource::step_user_defined(&script_source(17), &output(true, b"8\n")).unwrap();
    assert_eq!(e, Event::Send { command_id: 17, command_data: 8 });
}

#[test]
fn repeated_ticks_agree() {
    let src = program_source(&[("firefox", 1), ("code", 2)], 9, true, 4);
    let w = window("Visual Studio Code", "code");
    let first = UserEventSource::step_source(&src, &w);
    for _ in 0..5 {
        assert_eq!(UserEventSource::step_source(&src, &w), first);
    }
    assert_eq!(first, Some(Event::Send { command_id: 4, command_data: 2 }));
}

#[test]
fn script_poller_has_no_window_event() {
    assert_eq!(UserEventSource::step_source(&script_source(1), &window("a", "b")), None);
}

#[test]
fn frame_layout() {
    let f = encode_frame(&SendData { command_id: 5, data: 200 });
    assert_eq!(f.len(), 33);
    assert_eq!(FRAME_LEN, 33);
    assert_eq!(f[0], 0);
    assert_eq!(f[1], 5);
    assert_eq!(f[2], 200);
    assert!(f[3..].iter().all(|b| *b == 0));
}

#[test]
fn payload_from_event() {
    let d = SendData::from_event(&Event::Send { command_id: 1, command_data: 255 });
    assert_eq!(d, SendData { command_id: 1, data: 255 });
}

#[test]
fn parse_byte_values() {
    assert_eq!(parse_u8("0"), Some(0));
    assert_eq!(parse_u8("255"), Some(255));
    assert_eq!(parse_u8("007"), Some(7));
    assert_eq!(parse_u8("+12"), Some(12));
    assert_eq!(parse_u8("256"), None);
    assert_eq!(parse_u8("1000"), None);
    assert_eq!(parse_u8(""), None);
    assert_eq!(parse_u8("+"), None);
    assert_eq!(parse_u8("-1"), None);
    assert_eq!(parse_u8("1 2"), None);
    assert_eq!(parse_u8("x"), None);
    assert_eq!(parse_unsigned("18446744073709551615", u64::MAX), Some(u64::MAX));
    assert_eq!(parse_unsigned("18446744073709551616", u64::MAX), None);
    assert_eq!(parse_unsigned("5", 4), None);
}

#[test]
fn output_text_is_trimmed_without_newlines() {
    assert_eq!(output_to_string(b"  42 \n".to_vec()), Some("42".to_string()));
    assert_eq!(output_to_string(b"a\nb\n".to_vec()), Some("ab".to_string()));
    assert_eq!(output_to_string(b"\t x y\r\n".to_vec()), Some("x y".to_string()));
    assert_eq!(output_to_string(vec![0xff, 0xfe]), None);
    assert_eq!(output_to_string(Vec::new()), Some(String::new()));
}

#[test]
fn first_word_splits_on_space() {
    assert_eq!(first_word_of("/usr/bin/firefox --new-window"), "/usr/bin/firefox");
    assert_eq!(first_word_of("code"), "code");
    assert_eq!(first_word_of(" lead"), "");
    assert_eq!(first_word_of(""), "");
}

#[test]
fn script_poller_outcomes() {
    let src = script_source(3);
    assert_eq!(
        UserEventSource::step_user_defined(&src, &output(true, b" 42\n")),
        Ok(Event::Send { command_id: 3, command_data: 42 })
    );
    match UserEventSource::step_user_defined(&src, &output(true, b" 300\n")) {
        Err(Error::UserConfigExecutionError(m)) => {
            assert_eq!(m, "the command output is not a number from 0 to 255: 300")
        }
        other => panic!("unexpected {:?}", other),
    }
    match UserEventSource::step_user_defined(&src, &output(true, b"abc")) {
        Err(Error::UserConfigExecutionError(m)) => assert!(m.ends_with(": abc")),
        other => panic!("unexpected {:?}", other),
    }
    assert!(matches!(
        UserEventSource::step_user_defined(&src, &output(false, b"1")),
        Err(Error::UserConfigExecutionError(_))
    ));
    assert!(matches!(
        UserEventSource::step_user_defined(&src, &output(true, &[0xc3])),
        Err(Error::UserConfigExecutionError(_))
    ));
}

#[test]
fn active_window_queries() {
    assert_eq!(UserEventSource::parse_window_pid(&output(true, b"4242\n")), Ok(4242));
    assert_eq!(
        UserEventSource::parse_window_pid(&output(true, b"abc")),
        Err(Error::CannotGetCurrentProgram)
    );
    assert_eq!(
        UserEventSource::parse_window_pid(&output(false, b"12")),
        Err(Error::CannotGetCurrentProgram)
    );
    assert_eq!(
        UserEventSource::program_binary(&output(true, b"/usr/lib/firefox/firefox -P\n")),
        Ok("/usr/lib/firefox/firefox".to_string())
    );
    assert_eq!(
        UserEventSource::program_binary(&output(false, b"x")),
        Err(Error::CannotGetCurrentProgram)
    );
    assert_eq!(
        UserEventSource::window_name(&output(true, b"Mozilla Firefox\n")),
        Ok("Mozilla Firefox".to_string())
    );
    assert_eq!(
        UserEventSource::window_name(&output(true, &[0x80])),
        Err(Error::CannotGetCurrentProgram)
    );
}

#[test]
fn new_source_keeps_settings() {
    let s = UserEventSource::new(vec![script_source(1), script_source(2)], 10);
    assert_eq!(s.sources.len(), 2);
    assert_eq!(s.buffer_size, 10);
}

fn kb(v: u16, p: u16) -> KeyboardConfig {
    KeyboardConfig { vendor_id: v, product_id: p, usage: 0x61, usage_page: 0xFF60 }
}

#[test]
fn device_lookup_needs_all_four_fields() {
    let wanted = kb(1, 2);
    let mut other_usage = kb(1, 2);
    other_usage.usage = 6;
    assert!(device_matches(&kb(1, 2), &wanted));
    assert!(!device_matches(&other_usage, &wanted));
    let devices = vec![other_usage, kb(1, 3), kb(1, 2), kb(1, 2)];
    assert_eq!(find_device(&devices, &wanted), Some(2));
    assert_eq!(find_device(&devices, &kb(9, 9)), None);
    assert_eq!(find_device(&Vec::new(), &wanted), None);
}

#[test]
fn reconnect_after_send_failure() {
    let n = 2;
    let (s, a) = start_scan(n);
    assert_eq!((s, a), (SupervisorState::Trying(0), SupervisorAction::TryConnect(0)));
    let (s, a) = next_step(s, SupervisorEvent::DeviceOpened, n);
    assert_eq!((s, a), (SupervisorState::Connected(0), SupervisorAction::RunEngine(0)));
    let (s, a) = next_step(s, SupervisorEvent::EngineStopped, n);
    assert_eq!(a, SupervisorAction::Sleep(RETRY_DELAY_SECONDS));
    assert_eq!(RETRY_DELAY_SECONDS, 10);
    let (s, a) = next_step(s, SupervisorEvent::DelayElapsed, n);
    assert_eq!((s, a), (SupervisorState::Trying(0), SupervisorAction::TryConnect(0)));
}

#[test]
fn scan_tries_candidates_in_order() {
    let n = 2;
    let (s, a) = next_step(SupervisorState::Trying(0), SupervisorEvent::DeviceUnreachable, n);
    assert_eq!((s, a), (SupervisorState::Trying(1), SupervisorAction::TryConnect(1)));
    let (s, a) = next_step(s, SupervisorEvent::DeviceUnreachable, n);
    assert_eq!((s, a), (SupervisorState::Waiting, SupervisorAction::Sleep(10)));
    assert_eq!(start_scan(0), (SupervisorState::Waiting, SupervisorAction::Sleep(10)));
    assert_eq!(
        next_step(SupervisorState::Waiting, SupervisorEvent::DeviceOpened, n),
        (SupervisorState::Waiting, SupervisorAction::Sleep(10))
    );
}

#[test]
fn engine_forwards_and_finishes() {
    let engine = Engine::new(CliSink);
    assert!(matches!(
        engine.step(Some(Event::Send { command_id: 1, command_data: 2 })),
        EngineStep::Continue
    ));
    assert!(matches!(engine.step(None), EngineStep::Finished(Ok(()))));
    assert_eq!(CliSink.send(&SendData { command_id: 0, data: 0 }), Ok(()));
}

struct FailingSink;

impl EventSink for FailingSink {
    fn send(&self, _data: &SendData) -> Result<(), Error> {
        Err(Error::SendError("unplugged".to_string()))
    }
}

#[test]
fn engine_stops_on_send_failure() {
    let engine = Engine::new(FailingSink);
    match engine.step(Some(Event::Send { command_id: 1, command_data: 2 })) {
        EngineStep::Finished(Err(Error::SendError(m))) => assert_eq!(m, "unplugged"),
        _ => panic!("the run must end with the send error"),
    }
}

#[test]
fn defaults() {
    assert_eq!(default_log_level(), "info");
    assert!(!default_debug_mode());
    assert_eq!(default_usage(), 0x61);
    assert_eq!(default_usage_page(), 0xFF60);
}

fn config(enable: bool, keyboard: Option<KeyboardConfig>) -> Config {
    Config {
        log_level: "info".to_string(),
        debug_mode: false,
        keyboard,
        keyboards: vec![kb(1, 1), kb(2, 2)],
        current_program: CurrentProgramConfig {
            enable,
            command_id: 1,
            interval_seconds: 2,
            default_value: 0,
            mappings: vec![
                CurrentProgramMapping { key: "zed".to_string(), value: 5 },
                CurrentProgramMapping { key: "vim".to_string(), value: 6 },
            ],
            use_lowercase: true,
        },
        custom_commands: vec![CustomCommandConfig {
            command: "date +%H".to_string(),
            command_id: 7,
            interval_seconds: 60,
        }],
    }
}

#[test]
fn pollers_from_config() {
    let specs = config(true, None).poller_specs();
    assert_eq!(specs.len(), 2);
    assert_eq!(specs[0].command_id, 1);
    assert_eq!(specs[0].interval_seconds, 2);
    match &specs[0].kind {
        UserEventSourceKind::CurrentProgram { mappings, default_value, use_lowercase } => {
            assert_eq!(mappings, &rules(&[("zed", 5), ("vim", 6)]));
            assert_eq!(*default_value, 0);
            assert!(*use_lowercase);
        }
        _ => panic!("the first poller watches windows"),
    }
    match &specs[1].kind {
        UserEventSourceKind::UserDefined { command } => assert_eq!(command, "date +%H"),
        _ => panic!("the second poller runs a command"),
    }
    assert_eq!(specs[1].command_id, 7);
    assert_eq!(specs[1].interval_seconds, 60);
    assert_eq!(config(false, None).poller_specs().len(), 1);
}

#[test]
fn candidate_devices() {
    assert_eq!(config(true, None).candidates(), vec![kb(1, 1), kb(2, 2)]);
    assert_eq!(config(true, Some(kb(3, 3))).candidates(), vec![kb(3, 3)]);
}

#[test]
fn queue_backpressure_keeps_every_event() {
    let source = UserEventSource::new(vec![script_source(1)], 1);
    let (tx, rx) = crossbeam_channel::bounded::<Event>(source.buffer_size);
    let first = Event::Send { command_id: 1, command_data: 10 };
    let second = Event::Send { command_id: 1, command_data: 11 };
    assert!(tx.try_send(first).is_ok());
    assert!(matches!(tx.try_send(second), Err(crossbeam_channel::TrySendError::Full(_))));
    assert_eq!(rx.try_recv(), Ok(first));
    assert!(tx.try_send(second).is_ok());
    assert_eq!(rx.try_recv(), Ok(second));
    assert!(rx.try_recv().is_err());
}

#[test]
fn send_outcome_decides_the_run() {
    assert!(matches!(after_send(Ok(())), EngineStep::Continue));
    match after_send(Err(Error::SendError("gone".to_string()))) {
        EngineStep::Finished(Err(Error::SendError(m))) => assert_eq!(m, "gone"),
        _ => panic!("a failed send ends the run with its error"),
    }
}

#[test]
fn newline_removal_and_unicode_trim() {
    assert_eq!(remove_newlines("a\nb\n\nc"), "abc");
    assert_eq!(remove_newlines("\u{e9}\n\u{1f600}"), "\u{e9}\u{1f600}");
    assert_eq!(remove_newlines(""), "");
    assert_eq!(
        output_to_string("\u{3000}\u{a0} 7\u{2028}\u{85}".as_bytes().to_vec()),
        Some("7".to_string())
    );
}
