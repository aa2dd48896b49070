use vstd::prelude::*;
use dashmap::DashMap;
use serde_json::Value;
use tokio::sync::oneshot::{Receiver, Sender};
use crate::events::{channel_of, published, retained, send_line};
use crate::json::{
    as_u64, json_number, json_object, json_string, member, new_object, no_members, null,
    number_value, object_insert, object_value, parse, parsed_json, render, string_value,
    value_as_u64, value_member, value_text,
};
use crate::pending::{
    fulfil, no_slots, open_slot, pending_slots, slot_of, table_clear, table_insert, table_remove,
};
use crate::state::{bump, Metrics, RPC_TIMEOUT_ERROR};

verus! {

/// The error text of a call whose connection to the daemon is gone.
pub const CONNECTION_CLOSED_ERROR: &'static str = "signal-cli did not respond";

/// How a call ends when it does not end with a result.
#[derive(Debug)]
pub enum RpcError {
    /// No response came within the deadline.
    Timeout,
    /// The connection to the daemon is gone.
    ConnectionClosed,
    /// The daemon answered with an error, kept here as the JSON text it sent.
    RemoteError(String),
}

/// An `RpcError` as a plain value.
pub enum Failure {
    Timeout,
    ConnectionClosed,
    RemoteError(Seq<char>),
}

impl View for RpcError {
    type V = Failure;

    open spec fn view(&self) -> Failure {
        match self {
            RpcError::Timeout => Failure::Timeout,
            RpcError::ConnectionClosed => Failure::ConnectionClosed,
            RpcError::RemoteError(message) => Failure::RemoteError(message@),
        }
    }
}

impl Failure {
    /// The error text that the layers above see: a reserved word for a missed
    /// deadline, a fixed sentence for a lost connection, and the daemon's own
    /// words for its rejection.
    pub open spec fn text(self) -> Seq<char> {
        match self {
            Failure::Timeout => RPC_TIMEOUT_ERROR@,
            Failure::ConnectionClosed => CONNECTION_CLOSED_ERROR@,
            Failure::RemoteError(message) => message,
        }
    }
}

impl RpcError {
    /// The error as the text that the layers above see.
    pub fn to_error_string(&self) -> (text: String)
        ensures
            text@ == self@.text(),
    {
        match self {
            RpcError::Timeout => RPC_TIMEOUT_ERROR.to_owned(),
            RpcError::ConnectionClosed => CONNECTION_CLOSED_ERROR.to_owned(),
            RpcError::RemoteError(message) => message.clone(),
        }
    }
}

/// The outcome of a call with its error as a plain value.
pub open spec fn outcome_view(outcome: Result<Value, RpcError>) -> Result<Value, Failure> {
    match outcome {
        Ok(result) => Ok(result),
        Err(error) => Err(error@),
    }
}

/// The members of the request for `method` with `params` under the identifier
/// `id`: the protocol version, the method, the parameters and the identifier.
pub open spec fn request_fields(method: Seq<char>, params: Value, id: u64) -> Map<Seq<char>, Value> {
    no_members().insert("jsonrpc"@, json_string("2.0"@)).insert(
        "method"@,
        json_string(method),
    ).insert("params"@, params).insert("id"@, json_number(id))
}

/// The frame that goes to the daemon for a call: the request object as compact
/// JSON, closed by a line feed.
pub open spec fn request_text(method: Seq<char>, params: Value, id: u64) -> Seq<char> {
    value_text(json_object(request_fields(method, params, id))).push('\n')
}

/// Builds the frame of one call: one line, closed by the only line feed in it.
pub fn request_line(method: &str, params: Value, id: u64) -> (line: String)
    ensures
        line@ == request_text(method@, params, id),
        line@.len() >= 1,
        line@.last() == '\n',
        !line@.drop_last().contains('\n'),
{
    let mut object = new_object();
    object_insert(&mut object, "jsonrpc", string_value("2.0"));
    object_insert(&mut object, "method", string_value(method));
    object_insert(&mut object, "params", params);
    object_insert(&mut object, "id", number_value(id));
    let mut line = render(&object_value(object));
    let ghost text = line@;
    line.push('\n');
    assert(line@.drop_last() =~= text);
    line
}

/// The identifier that a frame carries: the member `id`, where it is a
/// non-negative integer.
pub open spec fn frame_id(frame: Value) -> Option<u64> {
    match value_member(frame, "id"@) {
        Some(id) => value_as_u64(id),
        None => None,
    }
}

/// The identifier that a frame carries, if it carries one.
pub fn read_frame_id(frame: &Value) -> (id: Option<u64>)
    ensures
        id == frame_id(*frame),
{
    match member(frame, "id") {
        Some(id) => as_u64(id),
        None => None,
    }
}

/// What a response means to the caller, given the text of its member `error`
/// and its member `result`, as far as it has them: the daemon's error where
/// there is one, else the result, and the JSON `null` where there is neither.
pub open spec fn outcome_from(error: Option<Seq<char>>, result: Option<Value>) -> Result<
    Value,
    Failure,
> {
    match error {
        Some(text) => Err(Failure::RemoteError(text)),
        None => match result {
            Some(value) => Ok(value),
            None => Ok(parsed_json("null"@).unwrap()),
        },
    }
}

/// The text of a document that may be missing.
pub open spec fn text_of(doc: Option<Value>) -> Option<Seq<char>> {
    match doc {
        Some(value) => Some(value_text(value)),
        None => None,
    }
}

/// The characters of a string that may be missing.
pub open spec fn chars_of(text: Option<String>) -> Option<Seq<char>> {
    match text {
        Some(string) => Some(string@),
        None => None,
    }
}

/// What a response frame means to the caller: the daemon's error, written as
/// JSON text, where the frame has the member `error`; else its member `result`,
/// and the JSON `null` where it has none.
pub open spec fn response_outcome(frame: Value) -> Result<Value, Failure> {
    outcome_from(text_of(value_member(frame, "error"@)), value_member(frame, "result"@))
}

/// Says what a response means to the caller, given the text of its member
/// `error` and its member `result`, as far as it has them.
pub fn outcome_of(error: Option<String>, result: Option<Value>) -> (outcome: Result<Value, RpcError>)
    ensures
        outcome_view(outcome) == outcome_from(chars_of(error), result),
{
    match error {
        Some(text) => Err(RpcError::RemoteError(text)),
        None => match result {
            Some(value) => Ok(value),
            None => Ok(null()),
        },
    }
}

/// Reads a response frame for the caller.
pub fn read_response(frame: &Value) -> (outcome: Result<Value, RpcError>)
    ensures
        outcome_view(outcome) == response_outcome(*frame),
{
    let error = match member(frame, "error") {
        Some(error) => Some(render(error)),
        None => None,
    };
    let result = match member(frame, "result") {
        Some(result) => Some(result.clone()),
        None => None,
    };
    outcome_of(error, result)
}

/// What a caller holds while its call is in flight.
pub struct CallTicket {
    /// The identifier of the call.
    pub id: u64,
    /// The frame to hand to the writer.
    pub line: String,
    /// Where the response will arrive.
    pub response: Receiver<Value>,
}

/// What came of waiting on a ticket.
pub enum Awaited {
    /// The response frame arrived.
    Response(Value),
    /// The slot was given up before any response: the connection is gone.
    Dropped,
    /// The frame could not be handed to the writer: the connection is gone.
    Unsent,
    /// The deadline passed first.
    TimedOut,
}

/// What a caller gets for what came of its waiting.
pub open spec fn call_outcome(awaited: Awaited) -> Result<Value, Failure> {
    match awaited {
        Awaited::Response(frame) => response_outcome(frame),
        Awaited::Dropped => Err(Failure::ConnectionClosed),
        Awaited::Unsent => Err(Failure::ConnectionClosed),
        Awaited::TimedOut => Err(Failure::Timeout),
    }
}

/// The table of calls in flight once the wait on call `id` is over. A response
/// has taken the call out already; after anything else the call is taken out
/// now, so that no entry stays behind.
pub open spec fn pending_after_wait(
    pending: Map<u64, Sender<Value>>,
    id: u64,
    awaited: Awaited,
) -> Map<u64, Sender<Value>> {
    if awaited is Response {
        pending
    } else {
        pending.remove(id)
    }
}

/// Starts a call: takes the next identifier, builds the frame and enters the
/// call in the table of calls in flight.
pub fn begin_call(
    pending: &mut DashMap<u64, Sender<Value>>,
    next_id: &mut u64,
    method: &str,
    params: Value,
) -> (ticket: CallTicket)
    ensures
        ticket.id == *old(next_id),
        *final(next_id) == bump(*old(next_id)),
        ticket.line@ == request_text(method@, params, ticket.id),
        ticket.line@.last() == '\n',
        !ticket.line@.drop_last().contains('\n'),
        pending_slots(*final(pending)) == pending_slots(*old(pending)).insert(
            ticket.id,
            slot_of(ticket.response),
        ),
{
    let id = *next_id;
    *next_id = id.wrapping_add(1);
    let line = request_line(method, params, id);
    let (slot, response) = open_slot();
    let _ = table_insert(pending, id, slot);
    CallTicket { id, line, response }
}

/// Ends a call with what came of waiting on its ticket.
pub fn finish_call(pending: &mut DashMap<u64, Sender<Value>>, id: u64, awaited: Awaited) -> (outcome:
    Result<Value, RpcError>)
    ensures
        outcome_view(outcome) == call_outcome(awaited),
        pending_slots(*final(pending)) == pending_after_wait(
            pending_slots(*old(pending)),
            id,
            awaited,
        ),
{
    match awaited {
        Awaited::Response(frame) => read_response(&frame),
        Awaited::Dropped => {
            let _ = table_remove(pending, id);
            Err(RpcError::ConnectionClosed)
        },
        Awaited::Unsent => {
            let _ = table_remove(pending, id);
            Err(RpcError::ConnectionClosed)
        },
        Awaited::TimedOut => {
            let _ = table_remove(pending, id);
            Err(RpcError::Timeout)
        },
    }
}

/// Gives up the call `id` without an outcome, for a caller that has gone away
/// while it waited: the call leaves the table, so that no entry stays behind.
pub fn abandon_call(pending: &mut DashMap<u64, Sender<Value>>, id: u64)
    ensures
        pending_slots(*final(pending)) == pending_slots(*old(pending)).remove(id),
{
    let _ = table_remove(pending, id);
}

/// Where a line from the daemon goes.
pub enum Routed {
    /// The line is no JSON: it is skipped.
    Malformed,
    /// A response: `frame` belongs in `slot`, where the caller of `id` waits.
    Response { id: u64, slot: Sender<Value>, frame: Value },
    /// An event for the subscribers: the line carries no identifier, or one
    /// that no call waits for, which is not dropped in silence.
    Event,
}

/// Where a frame goes that carries the identifier `id`, or none, while the
/// calls `pending` are in flight: to the caller that waits under its
/// identifier, and to the subscribers if nobody waits under it or if it has
/// none.
pub open spec fn routed_frame(pending: Map<u64, Sender<Value>>, id: Option<u64>, frame: Value) -> Routed {
    match id {
        Some(id) => if pending.contains_key(id) {
            Routed::Response { id, slot: pending[id], frame }
        } else {
            Routed::Event
        },
        None => Routed::Event,
    }
}

/// Where the line `line` goes while the calls `pending` are in flight.
pub open spec fn routed(pending: Map<u64, Sender<Value>>, line: Seq<char>) -> Routed {
    match parsed_json(line) {
        None => Routed::Malformed,
        Some(frame) => routed_frame(pending, frame_id(frame), frame),
    }
}

/// The calls in flight after a frame was routed that carries the identifier
/// `id`, or none: a response takes its call out.
pub open spec fn pending_without(pending: Map<u64, Sender<Value>>, id: Option<u64>) -> Map<
    u64,
    Sender<Value>,
> {
    match id {
        Some(id) => pending.remove(id),
        None => pending,
    }
}

/// The calls in flight after `line` was routed: a response takes its call out.
pub open spec fn pending_after(pending: Map<u64, Sender<Value>>, line: Seq<char>) -> Map<
    u64,
    Sender<Value>,
> {
    match routed(pending, line) {
        Routed::Response { id, .. } => pending.remove(id),
        _ => pending,
    }
}

/// Decides where a frame goes that carries the identifier `id`, or none, and
/// takes the call that it answers out of the table.
pub fn route_frame(pending: &mut DashMap<u64, Sender<Value>>, id: Option<u64>, frame: Value) -> (to:
    Routed)
    ensures
        to == routed_frame(pending_slots(*old(pending)), id, frame),
        pending_slots(*final(pending)) == pending_without(pending_slots(*old(pending)), id),
{
    match id {
        Some(id) => match table_remove(pending, id) {
            Some(slot) => Routed::Response { id, slot, frame },
            None => Routed::Event,
        },
        None => Routed::Event,
    }
}

/// Decides where a line from the daemon goes, and takes the call that it
/// answers out of the table.
pub fn route_line(pending: &mut DashMap<u64, Sender<Value>>, line: &str) -> (to: Routed)
    ensures
        to == routed(pending_slots(*old(pending)), line@),
        pending_slots(*final(pending)) == pending_after(pending_slots(*old(pending)), line@),
{
    match parse(line) {
        None => Routed::Malformed,
        Some(frame) => {
            let id = read_frame_id(&frame);
            let to = route_frame(pending, id, frame);
            assert(pending_slots(*pending) =~= pending_after(
                pending_slots(*old(pending)),
                line@,
            ));
            to
        },
    }
}

/// What was done with a line from the daemon.
#[derive(Debug, PartialEq, Eq)]
pub enum LineOutcome {
    /// It was no JSON and was skipped.
    Skipped,
    /// It was handed to the caller of `id`; `taken` tells whether that caller
    /// was still there.
    Delivered { id: u64, taken: bool },
    /// It was an event and went to `receivers` subscribers.
    Published { receivers: usize },
}

/// Whether `done` is what has to be done with a line that goes `to`.
pub open spec fn outcome_fits(done: LineOutcome, to: Routed) -> bool {
    match to {
        Routed::Malformed => done == LineOutcome::Skipped,
        Routed::Response { id, .. } => done matches LineOutcome::Delivered { id: served, .. }
            && served == id,
        Routed::Event => done is Published,
    }
}

/// The lines that the subscribers' channel holds after a line was handled: an
/// event joins them, unless nobody is subscribed.
pub open spec fn published_after(log: Seq<Seq<char>>, line: Seq<char>, done: LineOutcome) -> Seq<
    Seq<char>,
> {
    match done {
        LineOutcome::Published { receivers } => if receivers > 0 {
            log.push(line)
        } else {
            log
        },
        _ => log,
    }
}

/// The counters after a line was handled: an event is counted as received.
pub open spec fn metrics_after(metrics: Metrics, done: LineOutcome) -> Metrics {
    match done {
        LineOutcome::Published { .. } => Metrics {
            messages_received: bump(metrics.messages_received),
            ..metrics
        },
        _ => metrics,
    }
}

/// Handles one line that the daemon sent: a response goes to the caller that
/// waits for it; every other line that is JSON is an event, which is counted
/// and published to the subscribers; a line that is no JSON is skipped.
pub fn on_line(
    broadcast_tx: &mut tokio::sync::broadcast::Sender<String>,
    pending: &mut DashMap<u64, Sender<Value>>,
    metrics: &mut Metrics,
    line: &str,
) -> (done: LineOutcome)
    ensures
        outcome_fits(done, routed(pending_slots(*old(pending)), line@)),
        pending_slots(*final(pending)) == pending_after(pending_slots(*old(pending)), line@),
        *final(metrics) == metrics_after(*old(metrics), done),
        published(*final(broadcast_tx)) == published_after(
            published(*old(broadcast_tx)),
            line@,
            done,
        ),
        channel_of(*final(broadcast_tx)) == channel_of(*old(broadcast_tx)),
        retained(*final(broadcast_tx)) == retained(*old(broadcast_tx)),
        done is Published ==> retained(*final(broadcast_tx)) >= 1,
{
    match route_line(pending, line) {
        Routed::Malformed => LineOutcome::Skipped,
        Routed::Response { id, slot, frame } => {
            let taken = fulfil(slot, frame);
            LineOutcome::Delivered { id, taken }
        },
        Routed::Event => {
            metrics.inc_received();
            match send_line(broadcast_tx, line.to_owned()) {
                Some(receivers) => LineOutcome::Published { receivers },
                None => LineOutcome::Published { receivers: 0 },
            }
        },
    }
}

/// How many subscribers an outcome says were reached.
pub open spec fn reached(done: LineOutcome) -> nat {
    match done {
        LineOutcome::Published { receivers } => receivers as nat,
        _ => 0,
    }
}

/// Handles one line for a gateway whose channel to the subscribers is gone: a
/// response goes to the caller that waits for it, an event is counted and
/// reaches nobody.
pub fn on_line_unheard(pending: &mut DashMap<u64, Sender<Value>>, metrics: &mut Metrics, line: &str) -> (done:
    LineOutcome)
    ensures
        outcome_fits(done, routed(pending_slots(*old(pending)), line@)),
        pending_slots(*final(pending)) == pending_after(pending_slots(*old(pending)), line@),
        *final(metrics) == metrics_after(*old(metrics), done),
        reached(done) == 0,
{
    match route_line(pending, line) {
        Routed::Malformed => LineOutcome::Skipped,
        Routed::Response { id, slot, frame } => {
            let taken = fulfil(slot, frame);
            LineOutcome::Delivered { id, taken }
        },
        Routed::Event => {
            metrics.inc_received();
            LineOutcome::Published { receivers: 0 }
        },
    }
}

/// Gives up every call in flight: each waiting caller learns at once that the
/// connection is gone.
pub fn fail_all(pending: &mut DashMap<u64, Sender<Value>>)
    ensures
        pending_slots(*final(pending)) == no_slots(),
{
    table_clear(pending);
}

/// The identifier that the line `line` carries, if it is JSON and carries one.
pub open spec fn line_id(line: Seq<char>) -> Option<u64> {
    match parsed_json(line) {
        Some(frame) => frame_id(frame),
        None => None,
    }
}

/// The calls in flight after the lines `lines` were routed one after the other.
pub open spec fn pending_after_all(pending: Map<u64, Sender<Value>>, lines: Seq<Seq<char>>) -> Map<
    u64,
    Sender<Value>,
>
    decreases lines.len(),
{
    if lines.len() == 0 {
        pending
    } else {
        pending_after(pending_after_all(pending, lines.drop_last()), lines.last())
    }
}

/// Where the line at place `at` of `lines` goes, when the lines before it were
/// routed first.
pub open spec fn routed_at(pending: Map<u64, Sender<Value>>, lines: Seq<Seq<char>>, at: int) -> Routed {
    routed(pending_after_all(pending, lines.take(at)), lines[at])
}

/// The identifier that the `count`-th call gets when the counter stands at
/// `start`.
pub open spec fn issued_id(start: u64, count: nat) -> u64
    decreases count,
{
    if count == 0 {
        start
    } else {
        bump(issued_id(start, (count - 1) as nat))
    }
}

/// Routing lines that answer calls in flight takes exactly those calls out of
/// the table and leaves every other call in place.
proof fn lemma_pending_after_responses(pending: Map<u64, Sender<Value>>, lines: Seq<Seq<char>>)
    requires
        forall|i: int|
            0 <= i < lines.len() ==> (#[trigger] line_id(lines[i])) is Some && pending.contains_key(
                line_id(lines[i]).unwrap(),
            ),
        forall|i: int, j: int|
            0 <= i < j < lines.len() ==> line_id(lines[i]) != line_id(lines[j]),
    ensures
        forall|id: u64| #[trigger]
            pending_after_all(pending, lines).contains_key(id) <==> pending.contains_key(id) && forall|
                i: int,
            |
                0 <= i < lines.len() ==> line_id(lines[i]) != Some(id),
        forall|id: u64| #[trigger]
            pending_after_all(pending, lines).contains_key(id) ==> pending_after_all(
                pending,
                lines,
            )[id] == pending[id],
    decreases lines.len(),
{
    if lines.len() > 0 {
        let before = lines.drop_last();
        assert forall|i: int| 0 <= i < before.len() implies (#[trigger] line_id(before[i])) is Some
            && pending.contains_key(line_id(before[i]).unwrap()) by {
            assert(before[i] == lines[i]);
        }
        assert forall|i: int, j: int| 0 <= i < j < before.len() implies line_id(before[i])
            != line_id(before[j]) by {
            assert(before[i] == lines[i]);
            assert(before[j] == lines[j]);
        }
        lemma_pending_after_responses(pending, before);
        let last = lines.len() - 1;
        let mid = pending_after_all(pending, before);
        let answered = line_id(lines[last]).unwrap();
        assert(mid.contains_key(answered)) by {
            assert forall|i: int| 0 <= i < before.len() implies line_id(before[i]) != Some(
                answered,
            ) by {
                assert(before[i] == lines[i]);
            }
        }
        assert(pending_after_all(pending, lines) == mid.remove(answered));
        assert forall|id: u64| #[trigger]
            pending_after_all(pending, lines).contains_key(id) <==> pending.contains_key(id)
                && forall|i: int| 0 <= i < lines.len() ==> line_id(lines[i]) != Some(id) by {
            if pending_after_all(pending, lines).contains_key(id) {
                assert(mid.contains_key(id));
                assert forall|i: int| 0 <= i < lines.len() implies line_id(lines[i]) != Some(id) by {
                    if i < last {
                        assert(before[i] == lines[i]);
                    }
                }
            }
            if pending.contains_key(id) && forall|i: int|
                0 <= i < lines.len() ==> line_id(lines[i]) != Some(id) {
                assert forall|i: int| 0 <= i < before.len() implies line_id(before[i]) != Some(
                    id,
                ) by {
                    assert(before[i] == lines[i]);
                }
                assert(mid.contains_key(id));
                assert(line_id(lines[last]) != Some(id));
            }
        }
    }
}

/// Every caller gets the response that carries its own identifier, in whatever
/// order the responses arrive. When each line of `lines` answers a call in
/// flight and no two answer the same call, the line at each place is handed to
/// the slot that was entered under the identifier it carries, and afterwards
/// exactly the calls that were answered have left the table.
pub proof fn law_responses_reach_their_callers(
    pending: Map<u64, Sender<Value>>,
    lines: Seq<Seq<char>>,
)
    requires
        forall|i: int|
            0 <= i < lines.len() ==> (#[trigger] line_id(lines[i])) is Some && pending.contains_key(
                line_id(lines[i]).unwrap(),
            ),
        forall|i: int, j: int|
            0 <= i < j < lines.len() ==> line_id(lines[i]) != line_id(lines[j]),
    ensures
        forall|i: int|
            0 <= i < lines.len() ==> #[trigger] routed_at(pending, lines, i) == (Routed::Response {
                id: line_id(lines[i]).unwrap(),
                slot: pending[line_id(lines[i]).unwrap()],
                frame: parsed_json(lines[i]).unwrap(),
            }),
        forall|id: u64| #[trigger]
            pending_after_all(pending, lines).contains_key(id) <==> pending.contains_key(id) && forall|
                i: int,
            |
                0 <= i < lines.len() ==> line_id(lines[i]) != Some(id),
{
    lemma_pending_after_responses(pending, lines);
    assert forall|i: int| 0 <= i < lines.len() implies #[trigger] routed_at(pending, lines, i) == (
    Routed::Response {
        id: line_id(lines[i]).unwrap(),
        slot: pending[line_id(lines[i]).unwrap()],
        frame: parsed_json(lines[i]).unwrap(),
    }) by {
        let before = lines.take(i);
        assert forall|k: int| 0 <= k < before.len() implies (#[trigger] line_id(before[k])) is Some
            && pending.contains_key(line_id(before[k]).unwrap()) by {
            assert(before[k] == lines[k]);
        }
        assert forall|k: int, j: int| 0 <= k < j < before.len() implies line_id(before[k])
            != line_id(before[j]) by {
            assert(before[k] == lines[k]);
            assert(before[j] == lines[j]);
        }
        lemma_pending_after_responses(pending, before);
        let id = line_id(lines[i]).unwrap();
        assert forall|k: int| 0 <= k < before.len() implies line_id(before[k]) != Some(id) by {
            assert(before[k] == lines[k]);
        }
        assert(pending_after_all(pending, before).contains_key(id));
    }
}

/// A call that timed out is gone for good: the caller that waited has the
/// timeout as its outcome, and once its entry has left the table, a response
/// that carries its identifier reaches no caller and completes no slot. It
/// goes to the subscribers as an event and leaves the table as it was.
pub proof fn law_late_response_reaches_no_caller(
    pending: Map<u64, Sender<Value>>,
    id: u64,
    line: Seq<char>,
)
    requires
        line_id(line) == Some(id),
    ensures
        outcome_is_timeout(call_outcome(Awaited::TimedOut)),
        routed(pending_after_wait(pending, id, Awaited::TimedOut), line) == Routed::Event,
        pending_after(pending_after_wait(pending, id, Awaited::TimedOut), line)
            == pending_after_wait(pending, id, Awaited::TimedOut),
{
}

/// A call is answered at most once: of two lines that carry the same
/// identifier the second reaches no caller, whether the first did or not, and
/// is an event.
pub proof fn law_call_is_answered_at_most_once(
    pending: Map<u64, Sender<Value>>,
    first: Seq<char>,
    second: Seq<char>,
    id: u64,
)
    requires
        line_id(first) == Some(id),
        line_id(second) == Some(id),
    ensures
        routed(pending_after(pending, first), second) == Routed::Event,
        !pending_after(pending, first).contains_key(id),
{
}

/// Whether an outcome is the timeout error.
pub open spec fn outcome_is_timeout(outcome: Result<Value, Failure>) -> bool {
    outcome == Err::<Value, Failure>(Failure::Timeout)
}

/// Identifiers are not reused: two calls that are issued fewer than 2^64 calls
/// apart get different identifiers.
pub proof fn law_issued_ids_differ(start: u64, first: nat, second: nat)
    requires
        first < second,
        second - first < 0x1_0000_0000_0000_0000,
    ensures
        issued_id(start, first) != issued_id(start, second),
{
    lemma_issued_id(start, first);
    lemma_issued_id(start, second);
}

/// The identifier of the `count`-th call is the counter's start plus `count`,
/// taken in the range of the counter.
proof fn lemma_issued_id(start: u64, count: nat)
    ensures
        issued_id(start, count) == (start + count) % 0x1_0000_0000_0000_0000,
    decreases count,
{
    if count > 0 {
        lemma_issued_id(start, (count - 1) as nat);
    }
}

} // verus!
