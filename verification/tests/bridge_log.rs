use lovelock::bridge::{
    accept_event, classify_rejected, has_record_prefix, metadata_from_raw, parse_bridge_metadata, record_payload,
    rejection_reason, BridgeEvent, BridgeMetadata,
    HookReady, MetadataField, ModVersionObservation, RawMetadata, RejectReason, BRIDGE_RECORD_PREFIX,
    MAX_METADATA_VERSION_BYTES,
};
use lovelock::lines::{consume_bytes, update_checkpoint, MAX_INCOMPLETE_LINE_BYTES, TAIL_CHECKPOINT_BYTES};
use lovelock::listener::{
    check_step, classify_line, failure_message, newest_metadata, open_step, probe_step, read_step, scan_start,
    tail_lines, ListenerPhase, ListenerStatus, LogLine, LogProbe, LogTail, ProbeStep, TailFailure,
    HISTORICAL_SCAN_BYTES,
};

const READY_RECORD: &str = "[DEADLOCK_DEATH_HOOK]{\"schema\":1,\"event\":\"hook_ready\",\"session_id\":\"abc-1\",\"client_time_ms\":1700000000000,\"poll_interval_ms\":100}";

fn raw(schema: Option<u64>, event: Option<&str>, mod_version: MetadataField) -> RawMetadata {
    RawMetadata { schema, event: event.map(|e| e.to_owned()), mod_version }
}

#[test]
fn metadata_parser_accepts_versions_without_accepting_future_events() {
    let record = "[DEADLOCK_DEATH_HOOK]{\"schema\":9,\"event\":\"future_event\",\"mod_version\":\"0.2.0\"}";
    assert_eq!(
        parse_bridge_metadata(record),
        Some(BridgeMetadata {
            schema: 9,
            event: "future_event".to_owned(),
            mod_version: ModVersionObservation::Reported("0.2.0".to_owned()),
        })
    );
    let future = BridgeEvent::HookReady(HookReady {
        schema: 9,
        session_id: "abc-1".to_owned(),
        client_time_ms: 1,
        poll_interval_ms: 100,
    });
    assert_eq!(accept_event(future), None);
}

#[test]
fn metadata_parser_distinguishes_legacy_invalid_and_malformed() {
    let legacy = "[DEADLOCK_DEATH_HOOK]{\"schema\":1,\"event\":\"hook_ready\",\"mod_version\":null}";
    assert_eq!(parse_bridge_metadata(legacy).map(|metadata| metadata.mod_version), Some(ModVersionObservation::Invalid));
    let missing = "[DEADLOCK_DEATH_HOOK]{\"schema\":1,\"event\":\"hook_ready\"}";
    assert_eq!(parse_bridge_metadata(missing).map(|metadata| metadata.mod_version), Some(ModVersionObservation::Legacy));
    assert_eq!(parse_bridge_metadata("[DEADLOCK_DEATH_HOOK]{bad}"), None);
    let invalid_semver = "[DEADLOCK_DEATH_HOOK]{\"schema\":1,\"event\":\"hook_ready\",\"mod_version\":\"new\"}";
    assert_eq!(
        parse_bridge_metadata(invalid_semver).map(|metadata| metadata.mod_version),
        Some(ModVersionObservation::Invalid)
    );
    let oversized = format!(
        "[DEADLOCK_DEATH_HOOK]{{\"schema\":1,\"event\":\"hook_ready\",\"mod_version\":\"{}\"}}",
        "1".repeat(MAX_METADATA_VERSION_BYTES + 1)
    );
    assert_eq!(parse_bridge_metadata(&oversized).map(|metadata| metadata.mod_version), Some(ModVersionObservation::Invalid));
}

#[test]
fn metadata_needs_a_record_a_schema_and_an_event() {
    assert_eq!(parse_bridge_metadata("no record here"), None);
    assert_eq!(parse_bridge_metadata("[DEADLOCK_DEATH_HOOK]{\"event\":\"hook_ready\"}"), None);
    assert_eq!(parse_bridge_metadata("[DEADLOCK_DEATH_HOOK]{\"schema\":1}"), None);
    assert_eq!(parse_bridge_metadata("[DEADLOCK_DEATH_HOOK]{\"schema\":4294967296,\"event\":\"x\"}"), None);
    assert_eq!(
        metadata_from_raw(raw(Some(1), Some("hook_ready"), MetadataField::Other)).map(|m| m.mod_version),
        Some(ModVersionObservation::Invalid)
    );
}

#[test]
fn rejected_records_are_told_apart() {
    assert_eq!(rejection_reason("plain line"), None);
    assert_eq!(rejection_reason("[DEADLOCK_DEATH_HOOK]{bad"), Some((RejectReason::Malformed, None)));
    assert_eq!(
        rejection_reason("[DEADLOCK_DEATH_HOOK]{\"schema\":1,\"event\":\"hud_diag\"}"),
        Some((RejectReason::Diagnostic, Some("hud_diag".to_owned())))
    );
    assert_eq!(
        rejection_reason("[DEADLOCK_DEATH_HOOK]{\"schema\":2,\"event\":\"hook_ready\"}"),
        Some((RejectReason::Unsupported, Some("hook_ready".to_owned())))
    );
    assert_eq!(
        rejection_reason("[DEADLOCK_DEATH_HOOK]{\"schema\":1,\"event\":\"hook_ready\"}"),
        Some((RejectReason::MalformedKnown, Some("hook_ready".to_owned())))
    );
}

#[test]
fn parser_accepts_exact_mod_payloads_and_console_decoration() {
    let payload = &READY_RECORD[BRIDGE_RECORD_PREFIX.len()..];
    assert_eq!(record_payload(READY_RECORD), Some(payload.to_owned()));
    let decorated = format!("[Console] 12:00:01 {READY_RECORD}");
    assert_eq!(record_payload(&decorated), Some(payload.to_owned()));
    let ready = BridgeEvent::HookReady(HookReady {
        schema: 1,
        session_id: "abc-1".to_owned(),
        client_time_ms: 1_700_000_000_000,
        poll_interval_ms: 100,
    });
    assert_eq!(accept_event(ready.clone()), Some(ready));
}

#[test]
fn parser_ignores_unrelated_unknown_and_malformed_records() {
    assert_eq!(record_payload("ordinary console output"), None);
    assert!(!has_record_prefix("ordinary console output"));
    let old_schema = BridgeEvent::HookReady(HookReady {
        schema: 2,
        session_id: String::new(),
        client_time_ms: 0,
        poll_interval_ms: 0,
    });
    assert_eq!(accept_event(old_schema), None);
    assert_eq!(classify_rejected(false, None, None), RejectReason::Malformed);
    assert_eq!(classify_rejected(true, Some("future_event"), Some(1)), RejectReason::Unsupported);
    assert_eq!(classify_rejected(true, Some("hook_ready"), Some(2)), RejectReason::Unsupported);
    assert_eq!(classify_rejected(true, Some("hook_ready"), Some(1)), RejectReason::MalformedKnown);
    assert_eq!(classify_rejected(true, Some("hud_diag"), Some(1)), RejectReason::Diagnostic);
}

#[test]
fn oversized_records_are_discarded_without_losing_the_next_record() {
    let mut incomplete = Vec::new();
    let mut discarding = false;
    let mut bytes = vec![b'x'; MAX_INCOMPLETE_LINE_BYTES + 1];
    bytes.push(b'\n');
    bytes.extend_from_slice(READY_RECORD.as_bytes());
    bytes.push(b'\n');

    let lines = consume_bytes(&mut incomplete, &mut discarding, &bytes);

    assert!(incomplete.len() <= MAX_INCOMPLETE_LINE_BYTES);
    assert!(!discarding);
    assert_eq!(lines, vec![READY_RECORD.as_bytes().to_vec()]);
}

// Further cases of the same rules.

#[test]
fn partial_lines_wait_for_their_newline_and_lose_the_carriage_return() {
    let mut incomplete = Vec::new();
    let mut discarding = false;
    assert!(consume_bytes(&mut incomplete, &mut discarding, b"first li").is_empty());
    let lines = consume_bytes(&mut incomplete, &mut discarding, b"ne\r\nsecond\n\nthi");
    assert_eq!(lines, vec![b"first line".to_vec(), b"second".to_vec(), Vec::new()]);
    assert_eq!(incomplete, b"thi".to_vec());
}

#[test]
fn the_checkpoint_keeps_the_last_bytes_read() {
    let mut checkpoint = Vec::new();
    update_checkpoint(&mut checkpoint, b"abc");
    assert_eq!(checkpoint, b"abc".to_vec());
    let long = vec![7u8; TAIL_CHECKPOINT_BYTES + 10];
    update_checkpoint(&mut checkpoint, &long);
    assert_eq!(checkpoint, vec![7u8; TAIL_CHECKPOINT_BYTES]);
    update_checkpoint(&mut checkpoint, b"z");
    assert_eq!(checkpoint.len(), TAIL_CHECKPOINT_BYTES);
    assert_eq!(checkpoint.last(), Some(&b'z'));
}

#[test]
fn log_lines_are_told_apart() {
    assert_eq!(classify_line(b"plain output"), LogLine::Plain);
    assert_eq!(classify_line(READY_RECORD.as_bytes()), LogLine::Record(READY_RECORD.to_owned()));
    let mut broken = b"[DEADLOCK_DEATH_HOOK]{".to_vec();
    broken.push(0xFF);
    assert_eq!(classify_line(&broken), LogLine::InvalidUtf8Record);
    assert_eq!(classify_line(&[0xFF, 0xFE]), LogLine::Plain);
}

#[test]
fn the_tail_window_skips_a_cut_first_line_and_an_unfinished_last_one() {
    let window = b"ut line\nfull one\r\nsecond\npartial".to_vec();
    assert_eq!(tail_lines(&window, true), vec![b"full one".to_vec(), b"second".to_vec(), Vec::new()]);
    assert_eq!(
        tail_lines(&window, false),
        vec![b"ut line".to_vec(), b"full one".to_vec(), b"second".to_vec(), Vec::new()]
    );
    assert_eq!(tail_lines(b"no newline", false), vec![Vec::<u8>::new()]);
    assert_eq!(scan_start(10), 0);
    assert_eq!(scan_start(HISTORICAL_SCAN_BYTES as u64 + 17), 17);
    let older = BridgeMetadata { schema: 1, event: "a".to_owned(), mod_version: ModVersionObservation::Legacy };
    let newer = BridgeMetadata { schema: 9, event: "b".to_owned(), mod_version: ModVersionObservation::Invalid };
    assert_eq!(newest_metadata(vec![Some(older), Some(newer.clone()), None]), Some(newer));
    assert_eq!(newest_metadata(vec![None, None]), None);
}

#[test]
fn silent_since_attach_reports_until_first_bytes_then_clears() {
    let mut status = ListenerStatus::default();
    assert!(status.set_phase(ListenerPhase::Listening, None, 1_000));
    assert_eq!(status.silent_since_attach(1_400), Some(400));
    assert!(status.is_listening());
    status.last_activity_ms = Some(1_500);
    assert_eq!(status.silent_since_attach(1_600), None);
    assert_eq!(status.idle_for(1_600), Some(100));
    assert!(status.is_live(100, 1_600));
    assert!(!status.is_live(99, 1_600));
}

#[test]
fn a_phase_is_recorded_once_and_the_silence_clock_follows_listening() {
    let mut status = ListenerStatus::default();
    assert!(!status.set_phase(ListenerPhase::Stopped, None, 5));
    assert!(status.set_phase(ListenerPhase::Failed, Some("could not open".to_owned()), 10));
    assert_eq!(status.listening_since_ms, None);
    assert!(!status.set_phase(ListenerPhase::Failed, Some("could not open".to_owned()), 20));
    assert!(status.set_phase(ListenerPhase::Listening, None, 30));
    assert_eq!(status.listening_since_ms, Some(30));
    assert!(!status.set_phase(ListenerPhase::Listening, None, 40));
    assert_eq!(status.listening_since_ms, Some(30));
    status.mod_version = ModVersionObservation::Reported("0.1.0".to_owned());
    status.clear_mod_observation();
    assert_eq!(status.mod_version, ModVersionObservation::Unknown);
}

#[test]
fn reading_moves_the_offset_and_a_rewritten_log_is_noticed() {
    let mut tail = LogTail::opened_at(3, b"abc".to_vec());
    assert_eq!(LogTail::checkpoint_len_for(3), 3);
    assert_eq!(LogTail::checkpoint_len_for(1000), TAIL_CHECKPOINT_BYTES);
    assert_eq!(tail.read_len(10, 4), 4);
    assert_eq!(tail.read_len(5, 4), 2);
    assert_eq!(tail.read_len(3, 4), 0);
    let lines = tail.after_read(b"de\nf");
    assert_eq!(lines, vec![b"de".to_vec()]);
    assert_eq!(tail.offset, 7);
    assert_eq!(tail.checkpoint, b"abcde\nf".to_vec());
    assert_eq!(tail.checkpoint_start(), 0);
    assert!(tail.checkpoint_matches(b"abcde\nf"));
    assert!(!tail.checkpoint_matches(b"XXXXXXX"));
    assert!(tail.shrunk(6));
    assert!(!tail.shrunk(7));
    tail.reset();
    assert_eq!(tail.offset, 0);
    assert!(tail.checkpoint.is_empty());
    assert!(tail.partial.is_empty());
}

#[test]
fn a_missing_log_is_waited_for_and_then_read_from_its_start() {
    assert_eq!(
        probe_step(LogProbe::Missing, true),
        ProbeStep {
            close_log: true,
            read_from_start: true,
            clear_observation: true,
            phase: Some((ListenerPhase::WaitingForFile, None)),
            open_log: false,
        }
    );
    let step = probe_step(LogProbe::Uninspectable, true);
    assert!(!step.close_log && step.clear_observation && !step.open_log);
    assert_eq!(step.phase, Some((ListenerPhase::Failed, Some(TailFailure::Inspect))));
    let step = probe_step(LogProbe::NotAFile, true);
    assert!(step.close_log && step.clear_observation);
    assert_eq!(step.phase, Some((ListenerPhase::Failed, Some(TailFailure::NotAFile))));
}

#[test]
fn a_replaced_log_is_reopened_and_an_unchanged_one_is_read_on() {
    let step = probe_step(LogProbe::File { replaced: true }, true);
    assert!(step.close_log && step.clear_observation && step.open_log && step.phase.is_none());
    let step = probe_step(LogProbe::File { replaced: false }, true);
    assert!(!step.close_log && !step.clear_observation && !step.open_log && step.phase.is_none());
    assert!(probe_step(LogProbe::File { replaced: false }, false).open_log);
    assert_eq!(open_step(true, true), (true, false, ListenerPhase::Listening, None));
    assert_eq!(open_step(true, false), (false, false, ListenerPhase::Listening, None));
    assert_eq!(open_step(false, true), (false, true, ListenerPhase::Failed, Some(TailFailure::Open)));
    assert_eq!(check_step(true, false), (false, None));
    assert_eq!(check_step(true, true), (true, None));
    assert_eq!(check_step(false, false), (true, Some(TailFailure::Truncation)));
    assert_eq!(read_step(true), (ListenerPhase::Listening, None));
    assert_eq!(read_step(false), (ListenerPhase::Failed, Some(TailFailure::Read)));
}

#[test]
fn tail_failures_name_the_path_and_the_error() {
    assert_eq!(failure_message(TailFailure::Inspect, "/l", "denied"), "could not inspect /l: denied");
    assert_eq!(failure_message(TailFailure::NotAFile, "/l", ""), "/l is not a file");
    assert_eq!(failure_message(TailFailure::Open, "/l", "gone"), "could not open /l: gone");
    assert_eq!(failure_message(TailFailure::Truncation, "/l", "eof"), "could not check /l for truncation: eof");
    assert_eq!(failure_message(TailFailure::Read, "/l", "eio"), "could not read /l: eio");
}

#[test]
fn starting_resets_the_status_and_stopping_keeps_the_path() {
    let mut status = ListenerStatus::default();
    status.last_event_ms = Some(5);
    status.current_error = Some("old".to_owned());
    status.started("/l".to_owned(), true, 40);
    assert_eq!(status.phase, ListenerPhase::Listening);
    assert_eq!(status.configured_path.as_deref(), Some("/l"));
    assert_eq!(status.current_error, None);
    assert_eq!(status.last_event_ms, None);
    assert_eq!(status.listening_since_ms, Some(40));
    status.started("/m".to_owned(), false, 50);
    assert_eq!(status.phase, ListenerPhase::WaitingForFile);
    assert_eq!(status.listening_since_ms, None);
    status.last_activity_ms = Some(60);
    status.stopped();
    assert_eq!(status.phase, ListenerPhase::Stopped);
    assert_eq!(status.configured_path.as_deref(), Some("/m"));
    assert_eq!(status.last_activity_ms, Some(60));
    status.start_failed("no thread".to_owned());
    assert_eq!(status.phase, ListenerPhase::Failed);
    assert_eq!(status.current_error.as_deref(), Some("no thread"));
}
