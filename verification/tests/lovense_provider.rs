use lovelock::lovense::{
    reply_outcome, ReplyField, function_command, require_domain, stop_command, validate_duration, validate_strength, vibrate_command,
    vibrate_steady_command, Connection, Error, WireToy,
};
use lovelock::dispatch::ResolvedAction;
use lovelock::provider::{
    action_plan, checked_connection, resting_command, whole_second_duration, ActionPlan, LovenseSetup, ProviderError,
    ProviderSettings, RestingCommand,
};

#[test]
fn default_connection_targets_pc_remote_game_mode() {
    let connection = Connection::default();
    assert_eq!(connection.base_url(), "http://127-0-0-1.lovense.club:20010");
}

#[test]
fn empty_domain_is_rejected_before_any_request() {
    assert_eq!(require_domain(&Connection::new("  ", 20010)).unwrap_err(), Error::EmptyDomain);
}

#[test]
fn steady_vibrate_command_omits_time_limit() {
    let command = function_command("Vibrate:12", None, None);
    assert_eq!(command.action, "Vibrate:12");
    assert!(command.time_sec.is_none());
}

#[test]
fn timed_vibrate_command_carries_time_limit() {
    let command = function_command("Vibrate:5", Some(8), None);
    assert_eq!(command.time_sec, Some(8));
}

#[test]
fn stop_command_is_a_zero_length_function() {
    let command = function_command("Stop", Some(0), None);
    assert_eq!(command.action, "Stop");
    assert_eq!(command.time_sec, Some(0));
}

#[test]
fn strength_bounds_are_enforced() {
    assert!(validate_strength(0).is_ok());
    assert!(validate_strength(20).is_ok());
    assert!(validate_strength(21).is_err());
}

#[test]
fn duration_bounds_are_enforced() {
    assert!(validate_duration(1).is_ok());
    assert!(validate_duration(600).is_ok());
    assert!(validate_duration(0).is_err());
    assert!(validate_duration(601).is_err());
}

#[test]
fn wire_toy_prefers_nickname_and_decodes_connected_status() {
    let toy = WireToy {
        id: "fc9f37e96593".to_owned(),
        name: Some("nora".to_owned()),
        nick_name: Some("my toy".to_owned()),
        status: Some("1".to_owned()),
        battery: Some(87),
    };
    let toy = toy.into_toy();
    assert_eq!(toy.name, "my toy");
    assert!(toy.status_connected);
    assert_eq!(toy.battery, Some(87));
}

#[test]
fn wire_toy_accepts_numeric_status_from_real_world_app_responses() {
    // A numeric status reaches the library as its decimal text.
    let toy = WireToy {
        id: "881a144613cf".to_owned(),
        name: Some("tenera".to_owned()),
        nick_name: Some(String::new()),
        status: Some("1".to_owned()),
        battery: Some(100),
    };
    let toy = toy.into_toy();
    assert_eq!(toy.name, "tenera");
    assert!(toy.status_connected);
    assert_eq!(toy.battery, Some(100));

    let disconnected = WireToy {
        id: "881a144613cf".to_owned(),
        name: None,
        nick_name: None,
        status: Some("0".to_owned()),
        battery: None,
    };
    assert!(!disconnected.into_toy().status_connected);
}

#[test]
fn wire_toy_falls_back_to_id_when_unnamed() {
    let toy = WireToy { id: "abc".to_owned(), name: None, nick_name: None, status: Some("0".to_owned()), battery: None };
    let toy = toy.into_toy();
    assert_eq!(toy.name, "abc");
    assert!(!toy.status_connected);
}

#[test]
fn setup_present_requires_domain_and_port() {
    let mut setup = LovenseSetup::default();
    assert!(setup.present());
    setup.domain = "  ".to_owned();
    assert!(!setup.present());
    setup.domain = "127-0-0-1.lovense.club".to_owned();
    setup.http_port = 0;
    assert!(!setup.present());
}

#[test]
fn setup_normalizes_whitespace() {
    let setup = LovenseSetup { domain: "  example.lan  ".to_owned(), http_port: 30010 };
    assert_eq!(setup.normalized().domain, "example.lan");
}

#[test]
fn connect_rejects_incomplete_setup_before_any_request() {
    let setup = LovenseSetup { domain: String::new(), http_port: 30010 };
    assert!(matches!(checked_connection(&setup), Err(ProviderError::InvalidSetup)));
}

#[test]
fn vibrate_commands_carry_the_level_and_refuse_bad_values() {
    let timed = vibrate_command(None, 5, 8).unwrap();
    assert_eq!(timed.action, "All:5");
    assert_eq!(timed.time_sec, Some(8));
    let steady = vibrate_steady_command(None, 12).unwrap();
    assert_eq!(steady.action, "All:12");
    assert_eq!(steady.time_sec, None);
    assert_eq!(vibrate_command(None, 21, 8).unwrap_err(), Error::InvalidStrength);
    assert_eq!(vibrate_command(None, 5, 0).unwrap_err(), Error::InvalidDuration);
    let stop = stop_command(None);
    assert_eq!(stop.action, "Stop");
    assert_eq!(stop.time_sec, Some(0));
}

#[test]
fn provider_settings_normalize_trims_the_domain() {
    let mut settings = ProviderSettings::default();
    settings.lovense.domain = "  box.lan ".to_owned();
    settings.normalize();
    assert_eq!(settings.lovense.domain, "box.lan");
    assert!(settings.present());
}

#[test]
fn user_messages_explain_each_lovense_failure() {
    assert_eq!(ProviderError::Lovense(Error::EmptyDomain).user_message(), "Enter a connection domain first.");
    assert_eq!(ProviderError::InvalidSetup.message(), "Lovense setup is invalid");
    assert_eq!(Error::InvalidStrength.message(), "vibration strength must be between 0 and 20");
    assert_eq!(Error::HttpStatus(503).message(), "Lovense app returned HTTP status 503");
}

#[test]
fn a_reply_code_other_than_200_rejects_the_command() {
    assert!(reply_outcome(Some(200), &ReplyField::Absent, &ReplyField::Absent).is_ok());
    assert!(reply_outcome(None, &ReplyField::Absent, &ReplyField::Absent).is_ok());
    assert_eq!(
        reply_outcome(Some(402), &ReplyField::Text("toy busy".to_owned()), &ReplyField::Absent).unwrap_err(),
        Error::CommandRejected { message: "toy busy (code 402)".to_owned() }
    );
    assert_eq!(
        reply_outcome(Some(-1), &ReplyField::Absent, &ReplyField::Text("failed".to_owned())).unwrap_err(),
        Error::CommandRejected { message: "failed (code -1)".to_owned() }
    );
    assert_eq!(
        reply_outcome(Some(500), &ReplyField::Other, &ReplyField::Absent).unwrap_err(),
        Error::CommandRejected { message: "unknown error (code 500)".to_owned() }
    );
}

#[test]
fn whole_second_durations_are_recognized_and_sub_second_ones_are_not() {
    assert_eq!(whole_second_duration(1000), Some(1));
    assert_eq!(whole_second_duration(60_000), Some(60));
    assert_eq!(whole_second_duration(250), None);
    assert_eq!(whole_second_duration(750), None);
    assert_eq!(whole_second_duration(0), None);
}

#[test]
fn effects_play_as_timed_commands_or_a_held_level_and_a_stop() {
    assert_eq!(
        action_plan(ResolvedAction { strength: 9, duration_ms: 3000 }),
        ActionPlan::Timed { strength: 9, duration_secs: 3 }
    );
    assert_eq!(
        action_plan(ResolvedAction { strength: 9, duration_ms: 1250 }),
        ActionPlan::HoldThenStop { strength: 9, hold_ms: 1250 }
    );
    assert_eq!(resting_command(0), RestingCommand::Stop);
    assert_eq!(resting_command(4), RestingCommand::Steady(4));
}
