//! Scenario tests for the acquisition flow's step function.

use app_ticket::callbacks::{CallbackMsg, CompletedCall, CALL_COMPLETED_ID, TICKET_RESPONSE_ID};
use app_ticket::flow::{
    step, FlowAction, FlowError, FlowEvent, FlowState, INIT_FAILED_GENERIC, INIT_NO_CLIENT,
    TICKET_BUFFER_LEN,
};

fn signal_record(handle: u64) -> CallbackMsg {
    CallbackMsg {
        callback_id: CALL_COMPLETED_ID,
        completed: Some(CompletedCall {
            async_call: handle,
            callback_id: TICKET_RESPONSE_ID,
            fetch_ok: true,
            failed: false,
        }),
    }
}

#[test]
fn init_no_client_terminates_with_client_not_running() {
    let (state, action) = step(
        FlowState::AwaitingInit,
        FlowEvent::InitCompleted { code: INIT_NO_CLIENT },
    );
    match state {
        FlowState::Failed { error } => assert_eq!(error, FlowError::ClientNotRunning),
        _ => panic!("flow did not fail"),
    }
    match action {
        FlowAction::Finish { error } => assert_eq!(error, Some(FlowError::ClientNotRunning)),
        _ => panic!("flow did not finish"),
    }
}

#[test]
fn init_generic_failure_terminates() {
    let (state, action) = step(
        FlowState::AwaitingInit,
        FlowEvent::InitCompleted { code: INIT_FAILED_GENERIC },
    );
    match state {
        FlowState::Failed { error } => assert_eq!(error, FlowError::InitializationFailed),
        _ => panic!("flow did not fail"),
    }
    match action {
        FlowAction::Finish { error } => assert_eq!(error, Some(FlowError::InitializationFailed)),
        _ => panic!("flow did not finish"),
    }
}

#[test]
fn init_ok_and_unknown_codes_count_as_success() {
    for code in [0, 3, 17, -1] {
        let (state, action) = step(FlowState::AwaitingInit, FlowEvent::InitCompleted { code });
        assert!(matches!(state, FlowState::Polling));
        assert!(matches!(action, FlowAction::RequestTicket));
    }
}

#[test]
fn ticket_fetch_failure_terminates() {
    let (state, action) = step(
        FlowState::FetchingTicket,
        FlowEvent::TicketFetched { ok: false, buf: vec![0u8; TICKET_BUFFER_LEN], len: 0 },
    );
    match state {
        FlowState::Failed { error } => assert_eq!(error, FlowError::TicketRetrievalFailed),
        _ => panic!("flow did not fail"),
    }
    match action {
        FlowAction::Finish { error } => assert_eq!(error, Some(FlowError::TicketRetrievalFailed)),
        _ => panic!("flow did not finish"),
    }
}

#[test]
fn empty_ticket_buffer_encodes_to_empty_text() {
    let (state, action) = step(
        FlowState::FetchingTicket,
        FlowEvent::TicketFetched { ok: true, buf: vec![0u8; TICKET_BUFFER_LEN], len: 0 },
    );
    assert!(matches!(action, FlowAction::ReadIdentity));
    let ticket_text = match state {
        FlowState::ReadingIdentity { ticket_text } => ticket_text,
        _ => panic!("flow did not advance to the identity read"),
    };
    assert_eq!(ticket_text, "");
}

#[test]
fn full_ticket_buffer_keeps_every_byte() {
    let buf: Vec<u8> = (0..TICKET_BUFFER_LEN).map(|i| (i % 251) as u8).collect();
    let (state, _) = step(
        FlowState::FetchingTicket,
        FlowEvent::TicketFetched { ok: true, buf: buf.clone(), len: TICKET_BUFFER_LEN as u32 },
    );
    let ticket_text = match state {
        FlowState::ReadingIdentity { ticket_text } => ticket_text,
        _ => panic!("flow did not advance to the identity read"),
    };
    let decoded = base64::Engine::decode(&base64::prelude::BASE64_STANDARD, &ticket_text)
        .expect("announced ticket text must be valid base64");
    assert_eq!(decoded.len(), TICKET_BUFFER_LEN);
    assert_eq!(decoded, buf);
}

#[test]
fn reported_length_beyond_buffer_keeps_buffer_as_is() {
    let buf = vec![7u8; 16];
    let (state, _) = step(
        FlowState::FetchingTicket,
        FlowEvent::TicketFetched { ok: true, buf, len: 2048 },
    );
    let ticket_text = match state {
        FlowState::ReadingIdentity { ticket_text } => ticket_text,
        _ => panic!("flow did not advance to the identity read"),
    };
    let decoded = base64::Engine::decode(&base64::prelude::BASE64_STANDARD, &ticket_text).unwrap();
    assert_eq!(decoded, vec![7u8; 16]);
}

#[test]
fn declining_confirmation_writes_nothing() {
    let ticket = vec![1u8, 2, 3, 4];
    let (state, _) = step(
        FlowState::FetchingTicket,
        FlowEvent::TicketFetched { ok: true, buf: ticket, len: 4 },
    );
    let (state, action) = step(state, FlowEvent::IdentityRead { steamid: 76561198000000001 });
    let (steamid, announced) = match action {
        FlowAction::Announce { steamid, ticket_text } => (steamid, ticket_text),
        _ => panic!("identity and ticket were not announced"),
    };
    assert_eq!(steamid, 76561198000000001);
    assert_eq!(announced, "AQIDBA==");
    let (state, action) = step(state, FlowEvent::ConfirmAnswered { yes: false });
    match action {
        FlowAction::WriteConfig { .. } => panic!("declined confirmation must not write"),
        FlowAction::Finish { error } => assert_eq!(error, None),
        _ => panic!("flow did not finish"),
    }
    assert!(matches!(state, FlowState::Done { config_write_failed: false }));
}

#[test]
fn accepting_confirmation_writes_exact_config_text() {
    let state = FlowState::Confirming {
        steamid: 76561198012345678,
        ticket_text: "AQIDBA==".to_string(),
    };
    let (state, action) = step(state, FlowEvent::ConfirmAnswered { yes: true });
    assert!(matches!(state, FlowState::Writing));
    match action {
        FlowAction::WriteConfig { contents } => assert_eq!(
            contents,
            "[user::general]\naccount_steamid=76561198012345678\nticket=AQIDBA==\n"
        ),
        _ => panic!("accepted confirmation must write"),
    }
}

#[test]
fn write_outcome_is_reported() {
    let (state, action) = step(FlowState::Writing, FlowEvent::WriteCompleted { ok: true });
    assert!(matches!(state, FlowState::Done { config_write_failed: false }));
    assert!(matches!(action, FlowAction::Finish { error: None }));

    let (state, action) = step(FlowState::Writing, FlowEvent::WriteCompleted { ok: false });
    assert!(matches!(state, FlowState::Done { config_write_failed: true }));
    match action {
        FlowAction::Finish { error } => assert_eq!(error, Some(FlowError::ConfigWriteFailed)),
        _ => panic!("flow did not finish"),
    }
}

#[test]
fn polling_keeps_pumping_until_a_signal_arrives() {
    let (state, action) = step(
        FlowState::Polling,
        FlowEvent::CallbacksDrained { records: vec![] },
    );
    assert!(matches!(state, FlowState::Polling));
    assert!(matches!(action, FlowAction::PumpCallbacks));

    let (state, action) = step(
        FlowState::Polling,
        FlowEvent::CallbacksDrained { records: vec![signal_record(99)] },
    );
    assert!(matches!(state, FlowState::FetchingTicket));
    assert!(matches!(action, FlowAction::FetchTicket));
}
