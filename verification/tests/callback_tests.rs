//! Tests of the callback-queue scan: only a completed call whose result was
//! fetched, did not fail, and carries the ticket-response callback number
//! counts as success.

use app_ticket::callbacks::{
    scan_records, CallbackMsg, CompletedCall, CALL_COMPLETED_ID, TICKET_RESPONSE_ID,
};

fn record(callback_id: i32, inner_id: i32, fetch_ok: bool, failed: bool, handle: u64) -> CallbackMsg {
    CallbackMsg {
        callback_id,
        completed: Some(CompletedCall {
            async_call: handle,
            callback_id: inner_id,
            fetch_ok,
            failed,
        }),
    }
}

#[test]
fn empty_queue_yields_nothing() {
    assert_eq!(scan_records(&vec![]), None);
}

#[test]
fn matching_record_yields_its_handle() {
    let records = vec![record(CALL_COMPLETED_ID, TICKET_RESPONSE_ID, true, false, 42)];
    assert_eq!(scan_records(&records), Some(42));
}

#[test]
fn other_callback_numbers_are_ignored() {
    let records = vec![
        record(101, TICKET_RESPONSE_ID, true, false, 7),
        CallbackMsg { callback_id: 101, completed: None },
    ];
    assert_eq!(scan_records(&records), None);
}

#[test]
fn completed_call_of_another_kind_is_ignored() {
    let records = vec![record(CALL_COMPLETED_ID, 999, true, false, 7)];
    assert_eq!(scan_records(&records), None);
}

#[test]
fn failed_results_are_not_mistaken_for_success() {
    let records = vec![
        record(CALL_COMPLETED_ID, TICKET_RESPONSE_ID, true, true, 7),
        record(CALL_COMPLETED_ID, TICKET_RESPONSE_ID, false, false, 8),
    ];
    assert_eq!(scan_records(&records), None);
}

#[test]
fn ignored_records_around_a_match_do_not_hide_it() {
    let records = vec![
        record(101, TICKET_RESPONSE_ID, true, false, 1),
        record(CALL_COMPLETED_ID, TICKET_RESPONSE_ID, true, true, 2),
        record(CALL_COMPLETED_ID, TICKET_RESPONSE_ID, true, false, 3),
        record(CALL_COMPLETED_ID, 555, true, false, 4),
    ];
    assert_eq!(scan_records(&records), Some(3));
}

#[test]
fn last_of_several_matches_wins() {
    let records = vec![
        record(CALL_COMPLETED_ID, TICKET_RESPONSE_ID, true, false, 10),
        record(CALL_COMPLETED_ID, TICKET_RESPONSE_ID, true, false, 11),
    ];
    assert_eq!(scan_records(&records), Some(11));
}
