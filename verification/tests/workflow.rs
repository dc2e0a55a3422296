use computress::config::Config;
use computress::endpoint::{
    interpret_decision_status, interpret_fetch_status, is_success_status, namereq_endpoint,
    outstanding_summary, require_token, ApiError,
};
use computress::interaction::{
    allowed_interaction, authorize_interaction, permission_denied_message, plan_decision, Decision,
    InteractionRoute,
};
use computress::monitor::{Event, MonitorNotification, MonitorUpdate, NameRequestEvent};
use computress::presence::PresenceState;
use computress::request::{NameRequest, ParseError};
use computress::router::{route_notification, Action, ChannelConfig};

fn config(guild: u64, role: u64, channel: u64) -> Config {
    Config {
        guild_id: guild,
        mod_role_id: role,
        mod_channel_id: channel,
        log_channel_id: 0,
        name_approvals_channel_id: 0,
        monitor_address: "localhost:8003".to_string(),
        ofapi_endpoint: "api.example.org".to_string(),
    }
}

#[test]
fn unauthorized_press_is_rejected_without_side_effects() {
    // A privileged identifier from a user lacking the moderator role: the
    // route carries no decision, so no approval-client call can follow.
    let route = authorize_interaction("namereq_approve", false);
    assert_eq!(route, InteractionRoute::Reject);
    let route = authorize_interaction("namereq_deny", false);
    assert_eq!(route, InteractionRoute::Reject);
    assert_eq!(permission_denied_message(), "You don't have permission to do that.");
}

#[test]
fn authorized_press_routes_to_its_handler() {
    assert_eq!(
        authorize_interaction("namereq_approve", true),
        InteractionRoute::Decide(Decision::Approved)
    );
    assert_eq!(
        authorize_interaction("namereq_deny", true),
        InteractionRoute::Decide(Decision::Denied)
    );
}

#[test]
fn intake_filter_accepts_only_the_two_controls() {
    assert!(allowed_interaction("namereq_approve"));
    assert!(allowed_interaction("namereq_deny"));
    assert!(!allowed_interaction("namereq_approve "));
    assert!(!allowed_interaction("check"));
    assert!(!allowed_interaction(""));
}

#[test]
fn unknown_identifier_is_ignored() {
    assert_eq!(authorize_interaction("something_else", true), InteractionRoute::Unknown);
    assert_eq!(authorize_interaction("", false), InteractionRoute::Unknown);
    assert_eq!(authorize_interaction("namereq_approve ", true), InteractionRoute::Unknown);
}

#[test]
fn plan_approval_from_message_text() {
    let plan = plan_decision(
        "Name request from Player 42: **Steve**",
        Decision::Approved,
        "mod#1",
        Some(9),
    )
    .unwrap();
    assert_eq!(plan.submission.player_uid, 42);
    assert_eq!(plan.submission.requested_name, "Steve");
    assert_eq!(plan.submission.decision, "approved");
    assert_eq!(plan.submission.by, "mod#1");
    let log = plan.log_post.unwrap();
    assert_eq!(log.channel, 9);
    assert_eq!(log.text, "Name request from Player 42 **approved** :white_check_mark:: Steve");
}

#[test]
fn plan_denial_log_line() {
    let plan = plan_decision(
        "Name request from Player 42: **Steve**",
        Decision::Denied,
        "mod#1",
        Some(9),
    )
    .unwrap();
    assert_eq!(plan.submission.decision, "denied");
    let log = plan.log_post.unwrap();
    assert_eq!(log.text, "Name request from Player 42 **denied** :no_entry:: Steve");
}

#[test]
fn plan_without_log_channel_posts_nothing() {
    let plan = plan_decision(
        "Name request from Player 1: **N**",
        Decision::Approved,
        "mod",
        None,
    )
    .unwrap();
    assert!(plan.log_post.is_none());
}

#[test]
fn plan_fails_as_recovery_fails() {
    let r = plan_decision("not a request message", Decision::Approved, "mod", Some(9));
    assert!(matches!(r, Err(ParseError::Malformed)));
    let r = plan_decision(
        "Name request from Player 99999999999999999999999: **X**",
        Decision::Denied,
        "mod",
        None,
    );
    assert!(matches!(r, Err(ParseError::InvalidIdentifier)));
}

#[test]
fn already_reported_is_success_without_update() {
    let r = interpret_decision_status("https://api.example.org/namereq", 208);
    assert_eq!(r.unwrap(), false);
}

#[test]
fn fresh_decision_reports_updated() {
    let r = interpret_decision_status("https://api.example.org/namereq", 200);
    assert_eq!(r.unwrap(), true);
}

#[test]
fn failed_decision_names_endpoint_and_status() {
    let r = interpret_decision_status("https://api.example.org/namereq", 403);
    match r {
        Err(e @ ApiError::Status { .. }) => {
            assert_eq!(e.message(), "OFAPI error: https://api.example.org/namereq 403");
        },
        _ => panic!("expected a status error"),
    }
}

#[test]
fn fetch_status_interpretation() {
    assert!(interpret_fetch_status("https://h/namereq", 200).is_ok());
    assert!(interpret_fetch_status("https://h/namereq", 204).is_ok());
    match interpret_fetch_status("https://h/namereq", 500) {
        Err(ApiError::Status { endpoint, status }) => {
            assert_eq!(endpoint, "https://h/namereq");
            assert_eq!(status, 500);
        },
        _ => panic!("expected a status error"),
    }
}

#[test]
fn success_status_range() {
    assert!(!is_success_status(199));
    assert!(is_success_status(200));
    assert!(is_success_status(299));
    assert!(!is_success_status(300));
    assert!(!is_success_status(404));
}

#[test]
fn endpoint_url() {
    assert_eq!(namereq_endpoint("api.example.org"), "https://api.example.org/namereq");
}

#[test]
fn token_requirement() {
    assert_eq!(require_token(Some("SECRET-REDACTED".to_string())).unwrap(), "SECRET-REDACTED");
    match require_token(None) {
        Err(e) => assert_eq!(e.message(), "OFAPI_TOKEN environment variable missing"),
        Ok(_) => panic!("expected the configuration error"),
    }
}

#[test]
fn outstanding_summary_text() {
    assert_eq!(outstanding_summary(0), "Found 0 outstanding requests");
    assert_eq!(outstanding_summary(3), "Found 3 outstanding requests");
}

#[test]
fn config_validation() {
    assert_eq!(config(1, 2, 3).validate(), None);
    assert_eq!(config(0, 2, 3).validate(), Some("guild_id must be set"));
    assert_eq!(config(1, 0, 3).validate(), Some("mod_role_id must be set"));
    assert_eq!(config(1, 2, 0).validate(), Some("mod_channel_id must be set"));
    assert_eq!(config(0, 0, 0).validate(), Some("guild_id must be set"));
}

#[test]
fn config_optional_channels() {
    let mut c = config(1, 2, 3);
    c.log_channel_id = 7;
    let channels = c.channel_config();
    assert_eq!(channels.log_channel, Some(7));
    assert_eq!(channels.name_approvals_channel, None);
}

#[test]
fn end_to_end_request_approval() {
    // The monitor reports one player and one name request.
    let cfg = ChannelConfig { log_channel: Some(66), name_approvals_channel: Some(55) };
    let mut st = PresenceState::new();
    let n = MonitorNotification::Updated(MonitorUpdate {
        player_count: 1,
        events: vec![Event::NameRequest(NameRequestEvent {
            player_uid: 42,
            requested_name: "Steve".to_string(),
        })],
    });
    let acts = route_notification(&cfg, &mut st, &n);
    assert_eq!(acts.len(), 2);
    match &acts[0] {
        Action::SetPresence { text } => assert_eq!(text, "1 player"),
        _ => panic!("expected presence update"),
    }
    let message_text = match &acts[1] {
        Action::PostNameRequest { channel, text, controls } => {
            assert_eq!(*channel, 55);
            assert_eq!(text, "Name request from Player 42: **Steve**");
            assert_eq!(controls.len(), 2);
            text.clone()
        },
        _ => panic!("expected a posted name request"),
    };

    // An authorized moderator presses approve on that message.
    let route = authorize_interaction("namereq_approve", true);
    assert_eq!(route, InteractionRoute::Decide(Decision::Approved));
    let recovered = NameRequest::parse_from_notification_message(&message_text).unwrap();
    assert_eq!(recovered.player_uid, 42);
    assert_eq!(recovered.requested_name, "Steve");
    let plan = plan_decision(&message_text, Decision::Approved, "mod#1", Some(66)).unwrap();
    assert_eq!(plan.submission.player_uid, 42);
    assert_eq!(plan.submission.requested_name, "Steve");
    assert_eq!(plan.submission.decision, "approved");

    // The API accepts the submission; the log line is owed.
    let updated = interpret_decision_status("https://api.example.org/namereq", 200).unwrap();
    assert!(updated);
    let log = plan.log_post.unwrap();
    assert_eq!(log.channel, 66);
    assert_eq!(log.text, "Name request from Player 42 **approved** :white_check_mark:: Steve");
}
