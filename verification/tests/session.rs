use sylva_agent::authed::authed;
use sylva_agent::error::AgentError;
use sylva_agent::session::{
    check_in_loop, subscribe_loop, CheckInAction, CheckInEvent, PushPayload, Schedule,
    SubscribeAction, SubscribeEvent, CHECK_IN_INTERVAL_SECS,
};

#[test]
fn a_request_carries_the_bearer_token() {
    let request = authed("abc.def", 7);
    assert_eq!(request.message, 7);
    assert_eq!(request.metadata.len(), 1);
    assert_eq!(request.metadata.get("authorization").unwrap().as_bytes(), b"Bearer abc.def");
}

#[test]
fn an_empty_token_and_bytes_above_ascii_still_travel() {
    let empty = authed("", ());
    assert_eq!(empty.metadata.get("authorization").unwrap().as_bytes(), b"Bearer ");
    let accented = authed("é\t~", ());
    assert_eq!(accented.metadata.get("authorization").unwrap().as_bytes(), "Bearer é\t~".as_bytes());
}

#[test]
fn a_token_that_cannot_be_metadata_is_left_out() {
    for token in ["a\nb", "a\r", "\0", "\u{7f}", "\u{1f}x"] {
        let request = authed(token, "message");
        assert_eq!(request.message, "message");
        assert!(request.metadata.is_empty());
    }
}

#[test]
fn every_character_of_a_token_is_judged_alike() {
    for code in 0..=255u8 {
        let c = code as char;
        let accepted = code == 9 || (code >= 32 && code != 127);
        let request = authed(&c.to_string(), ());
        assert_eq!(request.metadata.get("authorization").is_some(), accepted, "{c:?}");
    }
}

fn due(action: CheckInAction) -> u64 {
    match action {
        CheckInAction::AwaitTick { due_secs } => due_secs,
        _ => panic!("expected a wait"),
    }
}

fn sends(action: CheckInAction) {
    match action {
        CheckInAction::Send(request) => {
            assert_eq!(request.message.agent_version, "1.2.3");
            assert_eq!(request.metadata.get("authorization").unwrap().as_bytes(), b"Bearer t");
        }
        _ => panic!("expected a check-in"),
    }
}

#[test]
fn the_first_check_in_is_due_at_once_and_the_next_every_minute() {
    assert_eq!(CHECK_IN_INTERVAL_SECS, 60);
    let mut schedule = Schedule::new();
    let mut learn = |event| check_in_loop(&mut schedule, "t", "1.2.3", event);
    assert_eq!(due(learn(CheckInEvent::Started)), 0);
    sends(learn(CheckInEvent::Ticked { elapsed_secs: 0 }));
    assert_eq!(due(learn(CheckInEvent::Accepted)), 60);
    assert_eq!(due(learn(CheckInEvent::Ticked { elapsed_secs: 59 })), 60);
    sends(learn(CheckInEvent::Ticked { elapsed_secs: 60 }));
    assert_eq!(due(learn(CheckInEvent::Accepted)), 120);
}

#[test]
fn a_late_check_in_does_not_move_the_ones_after_it() {
    let mut schedule = Schedule { due_secs: 60 };
    sends(check_in_loop(&mut schedule, "t", "1.2.3", CheckInEvent::Ticked { elapsed_secs: 200 }));
    assert_eq!(due(check_in_loop(&mut schedule, "t", "1.2.3", CheckInEvent::Accepted)), 120);
    sends(check_in_loop(&mut schedule, "t", "1.2.3", CheckInEvent::Ticked { elapsed_secs: 200 }));
    assert_eq!(schedule.due_secs, 180);
}

#[test]
fn the_schedule_ends_where_seconds_cannot_be_counted() {
    let mut schedule = Schedule { due_secs: u64::MAX - 59 };
    sends(check_in_loop(&mut schedule, "t", "1.2.3", CheckInEvent::Ticked { elapsed_secs: u64::MAX }));
    assert_eq!(schedule.due_secs, u64::MAX);
}

#[test]
fn a_failed_check_in_ends_the_run() {
    let failure = CheckInEvent::Failed("401".to_string());
    match check_in_loop(&mut Schedule::new(), "t", "1", failure) {
        CheckInAction::Stop(error) => {
            assert_eq!(error.message(), "check-in failed");
            assert_eq!(error.cause(), Some("401".to_string()));
        }
        _ => panic!("a failure stops the loop"),
    }
}

#[test]
fn the_subscription_opens_with_the_token() {
    match subscribe_loop("t", SubscribeEvent::Started) {
        SubscribeAction::Open(request) => {
            assert_eq!(request.metadata.get("authorization").unwrap().as_bytes(), b"Bearer t");
        }
        _ => panic!("the reader opens the stream"),
    }
    assert!(matches!(subscribe_loop("t", SubscribeEvent::Opened), SubscribeAction::AwaitPush(None)));
}

#[test]
fn pushes_are_noted_and_awaited() {
    let config = PushPayload::Config { location_enabled: true };
    for payload in [Some(config), Some(PushPayload::KeepAlive), None] {
        match subscribe_loop("t", SubscribeEvent::Pushed(payload)) {
            SubscribeAction::AwaitPush(noted) => assert_eq!(noted, payload),
            _ => panic!("a push keeps the stream open"),
        }
    }
}

#[test]
fn the_subscription_ends_well_only_when_closed() {
    assert!(matches!(subscribe_loop("t", SubscribeEvent::Closed), SubscribeAction::Stop(Ok(()))));
    match subscribe_loop("t", SubscribeEvent::OpenFailed("down".to_string())) {
        SubscribeAction::Stop(Err(error)) => {
            assert!(matches!(error, AgentError::Subscribe { .. }));
            assert_eq!(error.message(), "subscribe failed");
            assert_eq!(error.cause(), Some("down".to_string()));
        }
        _ => panic!("no stream, no run"),
    }
    match subscribe_loop("t", SubscribeEvent::StreamFailed("reset".to_string())) {
        SubscribeAction::Stop(Err(error)) => {
            assert!(matches!(error, AgentError::PushStream { .. }));
            assert_eq!(error.message(), "server push stream error");
            assert_eq!(error.cause(), Some("reset".to_string()));
        }
        _ => panic!("a broken stream ends the run"),
    }
}
