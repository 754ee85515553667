//! The rule that picks the success signal out of a drained callback queue.
//!
//! The dispatch loop of the binary pumps the native callback queue and hands
//! every drained record here as plain values: the record's callback number
//! and, for completed-call records, the fetched result's correlation handle,
//! callback number and failure flags. This module decides, and proves, which
//! records count as the awaited ticket response.

use vstd::prelude::*;

verus! {

/// Callback number of a completed-asynchronous-call dispatch record
/// (`SteamAPICallCompleted_t`).
pub const CALL_COMPLETED_ID: i32 = 703;

/// Callback number of an encrypted-application-ticket response
/// (`EncryptedAppTicketResponse_t`).
pub const TICKET_RESPONSE_ID: i32 = 154;

/// The result of fetching one completed asynchronous call out of the queue.
#[derive(Clone, Copy)]
pub struct CompletedCall {
    /// Correlation handle of the asynchronous call that completed.
    pub async_call: u64,
    /// Callback number of the completed call itself.
    pub callback_id: i32,
    /// Whether fetching the call's result payload succeeded.
    pub fetch_ok: bool,
    /// The failure flag the fetch reported for the call.
    pub failed: bool,
}

/// One drained dispatch record, as the binary hands it in.
#[derive(Clone, Copy)]
pub struct CallbackMsg {
    /// Callback number of the dispatch record.
    pub callback_id: i32,
    /// The fetched completed call, for records that announce one.
    pub completed: Option<CompletedCall>,
}

/// A record is the awaited success signal exactly when it announces a
/// completed asynchronous call whose result was fetched, did not fail, and
/// whose callback number is the ticket response. Records of any other
/// callback number, failed results, and results of other calls never count.
pub open spec fn is_ticket_signal(m: CallbackMsg) -> bool {
    &&& m.callback_id == CALL_COMPLETED_ID
    &&& m.completed is Some
    &&& m.completed.unwrap().fetch_ok
    &&& !m.completed.unwrap().failed
    &&& m.completed.unwrap().callback_id == TICKET_RESPONSE_ID
}

/// What a scan of a drained queue yields: the correlation handle of the last
/// record that is a ticket signal, if any.
pub open spec fn spec_scan(ms: Seq<CallbackMsg>) -> Option<u64>
    decreases ms.len(),
{
    if ms.len() == 0 {
        None
    } else if is_ticket_signal(ms.last()) {
        Some(ms.last().completed.unwrap().async_call)
    } else {
        spec_scan(ms.drop_last())
    }
}

/// Scans one drained queue for the awaited ticket response.
pub fn scan_records(records: &Vec<CallbackMsg>) -> (r: Option<u64>)
    ensures
        r == spec_scan(records@),
{
    let mut r: Option<u64> = None;
    let mut i: usize = 0;
    while i < records.len()
        invariant
            0 <= i <= records@.len(),
            r == spec_scan(records@.take(i as int)),
        decreases records@.len() - i,
    {
        let m = &records[i];
        if m.callback_id == CALL_COMPLETED_ID {
            match &m.completed {
                Some(c) => {
                    if c.fetch_ok && !c.failed && c.callback_id == TICKET_RESPONSE_ID {
                        r = Some(c.async_call);
                    }
                },
                None => {},
            }
        }
        proof {
            assert(records@.take(i + 1).drop_last() =~= records@.take(i as int));
            assert(records@.take(i + 1).last() == records@[i as int]);
        }
        i += 1;
    }
    proof {
        assert(records@.take(records@.len() as int) =~= records@);
    }
    r
}

/// The poll loop's safety: a scan reports nothing exactly when no drained
/// record is a ticket signal — records of a different callback number or
/// with a failed result are ignored — and whatever it reports is the
/// correlation handle of an actual ticket signal in the queue.
pub proof fn lemma_scan_characterization(ms: Seq<CallbackMsg>)
    ensures
        spec_scan(ms) is None <==> (forall|i: int|
            0 <= i < ms.len() ==> !is_ticket_signal(#[trigger] ms[i])),
        spec_scan(ms) is Some ==> exists|i: int|
            0 <= i < ms.len() && is_ticket_signal(#[trigger] ms[i])
                && ms[i].completed.unwrap().async_call == spec_scan(ms).unwrap(),
    decreases ms.len(),
{
    if ms.len() > 0 {
        lemma_scan_characterization(ms.drop_last());
        if is_ticket_signal(ms.last()) {
            assert(ms[ms.len() - 1] == ms.last());
        } else {
            assert(forall|i: int| 0 <= i < ms.len() - 1 ==> ms.drop_last()[i] == #[trigger] ms[i]);
        }
    }
}

} // verus!
