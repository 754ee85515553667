//! The ticket acquisition flow as a verified step function.
//!
//! The flow is a straight line: initialize the vendor session, submit one
//! asynchronous ticket request, pump the callback queue until the matching
//! response arrives, fetch and encode the ticket bytes, read the account
//! identity, and — only with the operator's consent — write the
//! configuration file. The binary performs each action the step function
//! asks for (a native SDK call, a prompt, the file write) and feeds the
//! outcome back in as the next event; every decision between the actions is
//! made, and proved, here.

use crate::callbacks::{spec_scan, scan_records, CallbackMsg};
use crate::config::{config_text, lemma_persisted_config_round_trip, render_config,
    spec_parse_config};
use crate::encode::{b64_of, base64_encode, is_base64_text};
use vstd::prelude::*;

verus! {

/// Initialization result code for a generic startup failure
/// (`k_ESteamAPIInitResult_FailedGeneric`).
pub const INIT_FAILED_GENERIC: i32 = 1;

/// Initialization result code for "no running client found"
/// (`k_ESteamAPIInitResult_NoSteamClient`).
pub const INIT_NO_CLIENT: i32 = 2;

/// Length of the buffer the ticket bytes are fetched into.
pub const TICKET_BUFFER_LEN: usize = 2028;

/// The ways the flow can go wrong.
#[derive(Clone, Copy, PartialEq, Eq, Structural, Debug)]
pub enum FlowError {
    /// The vendor session could not be started.
    InitializationFailed,
    /// No locally running, logged-in client was found.
    ClientNotRunning,
    /// The ticket fetch reported failure (commonly: the account does not own
    /// the application).
    TicketRetrievalFailed,
    /// The configuration file could not be written. Non-fatal: the flow
    /// still ends normally, with a warning.
    ConfigWriteFailed,
}

/// Where the flow stands between two events.
pub enum FlowState {
    /// The session initialization result is awaited.
    AwaitingInit,
    /// The ticket request is out; the callback queue is being pumped.
    Polling,
    /// The matching response arrived; the ticket bytes are being fetched.
    FetchingTicket,
    /// The ticket is encoded; the account identity is being read.
    ReadingIdentity { ticket_text: String },
    /// Identity and ticket are announced; the write confirmation is awaited.
    Confirming { steamid: u64, ticket_text: String },
    /// The configuration file write is under way.
    Writing,
    /// The flow ended; the file write failed if the flag says so.
    Done { config_write_failed: bool },
    /// The flow ended early with a fatal error.
    Failed { error: FlowError },
}

/// What the outside world reports back to the flow.
pub enum FlowEvent {
    /// Session initialization finished with this result code.
    InitCompleted { code: i32 },
    /// One pass over the callback queue drained these records.
    CallbacksDrained { records: Vec<CallbackMsg> },
    /// The ticket fetch finished: whether it succeeded, the buffer it
    /// filled, and the byte count it reported.
    TicketFetched { ok: bool, buf: Vec<u8>, len: u32 },
    /// The account identity was read.
    IdentityRead { steamid: u64 },
    /// The operator answered the configuration-write confirmation.
    ConfirmAnswered { yes: bool },
    /// The configuration file write finished, well or badly.
    WriteCompleted { ok: bool },
}

/// What the flow asks the outside world to do next.
pub enum FlowAction {
    /// Submit the asynchronous encrypted-ticket request, then drain the
    /// callback queue once.
    RequestTicket,
    /// Wait the polling interval, then drain the callback queue once more.
    PumpCallbacks,
    /// Fetch the ticket bytes synchronously.
    FetchTicket,
    /// Read the account identity synchronously.
    ReadIdentity,
    /// Print the identity and the ticket text, then ask whether to write
    /// the configuration file.
    Announce { steamid: u64, ticket_text: String },
    /// Overwrite the configuration file with exactly these contents.
    WriteConfig { contents: String },
    /// Stop; report the error if there is one.
    Finish { error: Option<FlowError> },
}

/// How an initialization result code is read: the two enumerated failure
/// codes are fatal, every other code counts as success.
pub open spec fn spec_classify_init(code: i32) -> Option<FlowError> {
    if code == INIT_FAILED_GENERIC {
        Some(FlowError::InitializationFailed)
    } else if code == INIT_NO_CLIENT {
        Some(FlowError::ClientNotRunning)
    } else {
        None
    }
}

/// Decides what an initialization result code means.
pub fn classify_init(code: i32) -> (r: Option<FlowError>)
    ensures
        r == spec_classify_init(code),
{
    if code == INIT_FAILED_GENERIC {
        Some(FlowError::InitializationFailed)
    } else if code == INIT_NO_CLIENT {
        Some(FlowError::ClientNotRunning)
    } else {
        None
    }
}

/// The ticket bytes kept from a fetched buffer: the reported count, capped
/// at the buffer's length.
pub open spec fn spec_truncated(buf: Seq<u8>, len: u32) -> Seq<u8> {
    if len as int <= buf.len() {
        buf.subrange(0, len as int)
    } else {
        buf
    }
}

/// Cuts a fetched buffer down to the byte count the fetch reported. A count
/// beyond the buffer's length leaves the buffer as it is; no byte is ever
/// invented or lost below the reported count.
pub fn truncate_ticket(buf: Vec<u8>, len: u32) -> (r: Vec<u8>)
    ensures
        r@ == spec_truncated(buf@, len),
{
    let mut b = buf;
    b.truncate(len as usize);
    b
}

/// Which event a state awaits. Terminal states await none.
pub open spec fn expects(s: FlowState, e: FlowEvent) -> bool {
    match (s, e) {
        (FlowState::AwaitingInit, FlowEvent::InitCompleted { .. }) => true,
        (FlowState::Polling, FlowEvent::CallbacksDrained { .. }) => true,
        (FlowState::FetchingTicket, FlowEvent::TicketFetched { .. }) => true,
        (FlowState::ReadingIdentity { .. }, FlowEvent::IdentityRead { .. }) => true,
        (FlowState::Confirming { .. }, FlowEvent::ConfirmAnswered { .. }) => true,
        (FlowState::Writing, FlowEvent::WriteCompleted { .. }) => true,
        _ => false,
    }
}

/// The machine limit on an event: a fetched buffer must be small enough to
/// encode. The buffers the flow asks for are a few kilobytes.
pub open spec fn event_within_limits(e: FlowEvent) -> bool {
    match e {
        FlowEvent::TicketFetched { buf, .. } => buf@.len() < 0x4000_0000,
        _ => true,
    }
}

/// The whole flow, one transition at a time: what the next state and the
/// next action are for each state and the event it awaits.
pub open spec fn step_rel(s: FlowState, e: FlowEvent, s2: FlowState, a: FlowAction) -> bool {
    match (s, e) {
        (FlowState::AwaitingInit, FlowEvent::InitCompleted { code }) => match spec_classify_init(
            code,
        ) {
            Some(err) => s2 == (FlowState::Failed { error: err }) && a == (FlowAction::Finish {
                error: Some(err),
            }),
            None => s2 == FlowState::Polling && a == FlowAction::RequestTicket,
        },
        (FlowState::Polling, FlowEvent::CallbacksDrained { records }) => if spec_scan(
            records@,
        ) is Some {
            s2 == FlowState::FetchingTicket && a == FlowAction::FetchTicket
        } else {
            s2 == FlowState::Polling && a == FlowAction::PumpCallbacks
        },
        (FlowState::FetchingTicket, FlowEvent::TicketFetched { ok, buf, len }) => if ok {
            &&& s2 matches FlowState::ReadingIdentity { ticket_text } && ticket_text@ == b64_of(
                spec_truncated(buf@, len),
            ) && is_base64_text(ticket_text@)
            &&& a == FlowAction::ReadIdentity
        } else {
            &&& s2 == (FlowState::Failed { error: FlowError::TicketRetrievalFailed })
            &&& a == (FlowAction::Finish { error: Some(FlowError::TicketRetrievalFailed) })
        },
        (FlowState::ReadingIdentity { ticket_text: t }, FlowEvent::IdentityRead { steamid }) => {
            &&& s2 matches FlowState::Confirming { steamid: sid2, ticket_text: t2 } && sid2
                == steamid && t2@ == t@
            &&& a matches FlowAction::Announce { steamid: sid3, ticket_text: t3 } && sid3 == steamid
                && t3@ == t@
        },
        (
            FlowState::Confirming { steamid, ticket_text: t },
            FlowEvent::ConfirmAnswered { yes },
        ) => if yes {
            &&& s2 == FlowState::Writing
            &&& a matches FlowAction::WriteConfig { contents } && contents@ == config_text(
                steamid as nat,
                t@,
            )
        } else {
            &&& s2 == (FlowState::Done { config_write_failed: false })
            &&& a == (FlowAction::Finish { error: None })
        },
        (FlowState::Writing, FlowEvent::WriteCompleted { ok }) => {
            &&& s2 == (FlowState::Done { config_write_failed: !ok })
            &&& a == (FlowAction::Finish {
                error: if ok {
                    None
                } else {
                    Some(FlowError::ConfigWriteFailed)
                },
            })
        },
        _ => false,
    }
}

/// Takes one step of the flow: decides, from the current state and the
/// event just reported, the next state and the next action.
pub fn step(s: FlowState, e: FlowEvent) -> (r: (FlowState, FlowAction))
    requires
        expects(s, e),
        event_within_limits(e),
    ensures
        step_rel(s, e, r.0, r.1),
{
    match (s, e) {
        (FlowState::AwaitingInit, FlowEvent::InitCompleted { code }) => {
            match classify_init(code) {
                Some(err) => (
                    FlowState::Failed { error: err },
                    FlowAction::Finish { error: Some(err) },
                ),
                None => (FlowState::Polling, FlowAction::RequestTicket),
            }
        },
        (FlowState::Polling, FlowEvent::CallbacksDrained { records }) => {
            match scan_records(&records) {
                Some(_) => (FlowState::FetchingTicket, FlowAction::FetchTicket),
                None => (FlowState::Polling, FlowAction::PumpCallbacks),
            }
        },
        (FlowState::FetchingTicket, FlowEvent::TicketFetched { ok, buf, len }) => {
            if ok {
                let kept = truncate_ticket(buf, len);
                let text = base64_encode(&kept);
                (FlowState::ReadingIdentity { ticket_text: text }, FlowAction::ReadIdentity)
            } else {
                (
                    FlowState::Failed { error: FlowError::TicketRetrievalFailed },
                    FlowAction::Finish { error: Some(FlowError::TicketRetrievalFailed) },
                )
            }
        },
        (FlowState::ReadingIdentity { ticket_text }, FlowEvent::IdentityRead { steamid }) => {
            let announced = ticket_text.clone();
            (
                FlowState::Confirming { steamid, ticket_text },
                FlowAction::Announce { steamid, ticket_text: announced },
            )
        },
        (FlowState::Confirming { steamid, ticket_text }, FlowEvent::ConfirmAnswered { yes }) => {
            if yes {
                let contents = render_config(steamid, ticket_text.as_str());
                (FlowState::Writing, FlowAction::WriteConfig { contents })
            } else {
                (
                    FlowState::Done { config_write_failed: false },
                    FlowAction::Finish { error: None },
                )
            }
        },
        (FlowState::Writing, FlowEvent::WriteCompleted { ok }) => {
            (
                FlowState::Done { config_write_failed: !ok },
                FlowAction::Finish {
                    error: if ok {
                        None
                    } else {
                        Some(FlowError::ConfigWriteFailed)
                    },
                },
            )
        },
        _ => {
            proof {
                assert(false);
            }
            vstd::pervasive::unreached()
        },
    }
}

/// Terminal states await no event: once the flow is done or failed, no step
/// relates to it and in particular nothing is written any more.
pub proof fn lemma_terminal_states(s: FlowState)
    requires
        s matches FlowState::Done { .. } || s matches FlowState::Failed { .. },
    ensures
        forall|e: FlowEvent| !expects(s, e),
{
}

/// A file write happens only as the immediate answer to the operator's
/// consent, and what it writes is exactly the configuration text for the
/// announced identity and ticket. In every other transition — every failure,
/// every poll, a declined confirmation — the filesystem is untouched.
pub proof fn lemma_write_only_after_consent(s: FlowState, e: FlowEvent, s2: FlowState, a: FlowAction)
    requires
        step_rel(s, e, s2, a),
        a matches FlowAction::WriteConfig { .. },
    ensures
        s matches FlowState::Confirming { .. },
        e matches FlowEvent::ConfirmAnswered { yes } && yes,
        (s matches FlowState::Confirming { steamid, ticket_text } && a matches
            FlowAction::WriteConfig { contents } && contents@ == config_text(
            steamid as nat,
            ticket_text@,
        )),
{
}

/// If initialization reports that no client is running, the flow terminates
/// at once with `ClientNotRunning`: the next state is terminal, so no
/// confirmation is ever asked and no file is ever written, whatever the
/// operator would have answered.
pub proof fn lemma_no_client_terminates(s2: FlowState, a: FlowAction)
    requires
        step_rel(FlowState::AwaitingInit, FlowEvent::InitCompleted { code: INIT_NO_CLIENT }, s2, a),
    ensures
        s2 == (FlowState::Failed { error: FlowError::ClientNotRunning }),
        a == (FlowAction::Finish { error: Some(FlowError::ClientNotRunning) }),
        forall|e: FlowEvent| !expects(s2, e),
{
}

/// If the ticket fetch reports failure, the flow terminates at once with
/// `TicketRetrievalFailed`; the next state is terminal, so no file is ever
/// written.
pub proof fn lemma_fetch_failure_terminates(
    buf: Vec<u8>,
    len: u32,
    s2: FlowState,
    a: FlowAction,
)
    requires
        step_rel(
            FlowState::FetchingTicket,
            FlowEvent::TicketFetched { ok: false, buf, len },
            s2,
            a,
        ),
    ensures
        s2 == (FlowState::Failed { error: FlowError::TicketRetrievalFailed }),
        a == (FlowAction::Finish { error: Some(FlowError::TicketRetrievalFailed) }),
        forall|e: FlowEvent| !expects(s2, e),
{
}

/// Declining the confirmation ends the flow without any write: the only
/// action left is to finish, and the terminal state accepts nothing more.
/// The identity and the ticket text were already announced by the preceding
/// transition (see `step_rel` on `IdentityRead`), so declining loses no
/// output.
pub proof fn lemma_decline_writes_nothing(
    steamid: u64,
    ticket_text: String,
    s2: FlowState,
    a: FlowAction,
)
    requires
        step_rel(
            FlowState::Confirming { steamid, ticket_text },
            FlowEvent::ConfirmAnswered { yes: false },
            s2,
            a,
        ),
    ensures
        s2 == (FlowState::Done { config_write_failed: false }),
        a == (FlowAction::Finish { error: None }),
        forall|e: FlowEvent| !expects(s2, e),
{
}

/// The poll loop keeps pumping exactly as long as no drained record is the
/// awaited ticket response, and advances to the fetch exactly when one is:
/// records with another callback number or a failed result never end the
/// loop (see `crate::callbacks::lemma_scan_characterization`).
pub proof fn lemma_poll_advances_only_on_signal(records: Vec<CallbackMsg>, s2: FlowState, a: FlowAction)
    requires
        step_rel(FlowState::Polling, FlowEvent::CallbacksDrained { records }, s2, a),
    ensures
        (exists|i: int|
            0 <= i < records@.len() && crate::callbacks::is_ticket_signal(#[trigger] records@[i]))
            <==> (s2 == FlowState::FetchingTicket && a == FlowAction::FetchTicket),
        !(exists|i: int|
            0 <= i < records@.len() && crate::callbacks::is_ticket_signal(
                #[trigger] records@[i],
            )) <==> (s2 == FlowState::Polling && a == FlowAction::PumpCallbacks),
{
    crate::callbacks::lemma_scan_characterization(records@);
}

/// Invariant of the flow: any ticket text a state carries is base64 text.
/// It holds trivially of the starting state and every step preserves it, so
/// it holds along every run.
pub open spec fn state_inv(s: FlowState) -> bool {
    match s {
        FlowState::ReadingIdentity { ticket_text } => is_base64_text(ticket_text@),
        FlowState::Confirming { ticket_text, .. } => is_base64_text(ticket_text@),
        _ => true,
    }
}

/// Every step preserves the flow's invariant.
pub proof fn lemma_step_preserves_inv(s: FlowState, e: FlowEvent, s2: FlowState, a: FlowAction)
    requires
        state_inv(s),
        step_rel(s, e, s2, a),
    ensures
        state_inv(s2),
{
}

/// The persisted file is always well-formed: on any reachable transition
/// that writes the configuration file, the written text is valid INI in the
/// sense of `crate::config::spec_parse_config` — one section, the two keys —
/// and parsing it back yields exactly the announced identity and ticket
/// text. Together with the base64 round trip
/// (`crate::encode::ticket_round_trips`), the file leads back to the exact
/// bytes the ticket source returned.
pub proof fn lemma_written_file_parses_back(
    s: FlowState,
    e: FlowEvent,
    s2: FlowState,
    a: FlowAction,
)
    requires
        state_inv(s),
        step_rel(s, e, s2, a),
        a matches FlowAction::WriteConfig { .. },
    ensures
        (s matches FlowState::Confirming { steamid, ticket_text } && a matches
            FlowAction::WriteConfig { contents } && spec_parse_config(contents@) == Some(
            (steamid as nat, ticket_text@),
        )),
{
    lemma_write_only_after_consent(s, e, s2, a);
    match s {
        FlowState::Confirming { steamid, ticket_text } => {
            lemma_persisted_config_round_trip(steamid as nat, ticket_text@);
        },
        _ => {},
    }
}

/// The message for a flow error, as the operator sees it.
pub open spec fn message_of(e: FlowError) -> Seq<char> {
    match e {
        FlowError::InitializationFailed => "Failed to initialize Steam API"@,
        FlowError::ClientNotRunning => "Steam client is not running"@,
        FlowError::TicketRetrievalFailed => "Failed to get encrypted app ticket, does the account own the game?"@,
        FlowError::ConfigWriteFailed => "Failed to create configs.user.ini"@,
    }
}

/// Renders a flow error as its message.
pub fn error_message(e: &FlowError) -> (r: String)
    ensures
        r@ == message_of(*e),
{
    match e {
        FlowError::InitializationFailed => String::from_str("Failed to initialize Steam API"),
        FlowError::ClientNotRunning => String::from_str("Steam client is not running"),
        FlowError::TicketRetrievalFailed => String::from_str(
            "Failed to get encrypted app ticket, does the account own the game?",
        ),
        FlowError::ConfigWriteFailed => String::from_str("Failed to create configs.user.ini"),
    }
}

} // verus!
