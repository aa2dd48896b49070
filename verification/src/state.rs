use vstd::prelude::*;
use vstd::string::StringExecFns;
use dashmap::DashMap;
use serde_json::Value;
use crate::events::{
    channel_of, law_published_line_reaches_every_subscriber, open_channel, poll_model, published,
    retained, ring_size, round_up, subscribe, unread, Subscription,
};
use crate::jsonrpc::{
    on_line_unheard, reached, abandon_call, begin_call, call_outcome, fail_all, finish_call, on_line, outcome_fits, outcome_view,
    pending_after, pending_after_wait, request_text, routed, Awaited, CallTicket, Failure,
    LineOutcome, RpcError, metrics_after, published_after,
};
use crate::pending::{new_table, no_slots, pending_slots, slot_of};
use crate::text::{decimal, push_decimal, same_text};
use crate::webhooks::{
    deregister, event_label, fresh_stamp, id_in_use, ids_distinct, list, plan_deliveries, planned,
    posts_of, register, webhook_id, without, Delivery,
};

verus! {

/// Counters of the gateway. Four of them only ever grow; `ws_clients` follows
/// the push-feed clients as they come and go.
#[derive(Clone, Copy, Debug)]
pub struct Metrics {
    pub messages_sent: u64,
    pub messages_received: u64,
    pub rpc_calls: u64,
    pub rpc_errors: u64,
    pub ws_clients: u64,
}

/// The value of a counter after one more count: one higher, and back at zero
/// after the highest value that a counter can hold.
pub open spec fn bump(n: u64) -> u64 {
    if n == u64::MAX {
        0u64
    } else {
        (n + 1) as u64
    }
}

/// The value of a gauge after one holder has left: one lower, never below zero.
pub open spec fn release(n: u64) -> u64 {
    if n == 0 {
        0u64
    } else {
        (n - 1) as u64
    }
}

/// The text of the metrics page for the counters `m`: for each counter a help
/// line, a type line and a line with its name and its value in decimal.
pub open spec fn prometheus_text(m: Metrics) -> Seq<char> {
    "# HELP signal_messages_sent_total Total messages sent\n# TYPE signal_messages_sent_total counter\nsignal_messages_sent_total "@
        + decimal(m.messages_sent as nat)
        + "\n# HELP signal_messages_received_total Total messages received\n# TYPE signal_messages_received_total counter\nsignal_messages_received_total "@
        + decimal(m.messages_received as nat)
        + "\n# HELP signal_rpc_calls_total Total JSON-RPC calls to signal-cli\n# TYPE signal_rpc_calls_total counter\nsignal_rpc_calls_total "@
        + decimal(m.rpc_calls as nat)
        + "\n# HELP signal_rpc_errors_total Total JSON-RPC errors\n# TYPE signal_rpc_errors_total counter\nsignal_rpc_errors_total "@
        + decimal(m.rpc_errors as nat)
        + "\n# HELP signal_ws_clients_active Active WebSocket clients\n# TYPE signal_ws_clients_active gauge\nsignal_ws_clients_active "@
        + decimal(m.ws_clients as nat) + "\n"@
}

impl Metrics {
    /// The counters of a gateway that has done nothing yet.
    pub open spec fn zero() -> Metrics {
        Metrics { messages_sent: 0, messages_received: 0, rpc_calls: 0, rpc_errors: 0, ws_clients: 0 }
    }

    /// Counters that all stand at zero.
    pub fn new() -> (m: Metrics)
        ensures
            m == Metrics::zero(),
    {
        Metrics { messages_sent: 0, messages_received: 0, rpc_calls: 0, rpc_errors: 0, ws_clients: 0 }
    }

    /// Counts one message that the daemon accepted for sending.
    pub fn inc_sent(&mut self)
        ensures
            *final(self) == (Metrics { messages_sent: bump(old(self).messages_sent), ..*old(self) }),
    {
        self.messages_sent = self.messages_sent.wrapping_add(1);
    }

    /// Counts one event that came from the daemon.
    pub fn inc_received(&mut self)
        ensures
            *final(self) == (Metrics {
                messages_received: bump(old(self).messages_received),
                ..*old(self)
            }),
    {
        self.messages_received = self.messages_received.wrapping_add(1);
    }

    /// Counts one call issued to the daemon.
    pub fn inc_rpc(&mut self)
        ensures
            *final(self) == (Metrics { rpc_calls: bump(old(self).rpc_calls), ..*old(self) }),
    {
        self.rpc_calls = self.rpc_calls.wrapping_add(1);
    }

    /// Counts one call that ended in an error.
    pub fn inc_rpc_error(&mut self)
        ensures
            *final(self) == (Metrics { rpc_errors: bump(old(self).rpc_errors), ..*old(self) }),
    {
        self.rpc_errors = self.rpc_errors.wrapping_add(1);
    }

    /// Counts one push-feed client that has connected.
    pub fn client_connected(&mut self)
        ensures
            *final(self) == (Metrics { ws_clients: bump(old(self).ws_clients), ..*old(self) }),
    {
        self.ws_clients = self.ws_clients.wrapping_add(1);
    }

    /// Takes one push-feed client off the count. The count never goes below
    /// zero.
    pub fn client_disconnected(&mut self)
        ensures
            *final(self) == (Metrics { ws_clients: release(old(self).ws_clients), ..*old(self) }),
    {
        if self.ws_clients > 0 {
            self.ws_clients = self.ws_clients - 1;
        }
    }

    /// The metrics page in the Prometheus text format.
    pub fn to_prometheus(&self) -> (page: String)
        ensures
            page@ == prometheus_text(*self),
    {
        let mut page = String::new();
        page.append(
            "# HELP signal_messages_sent_total Total messages sent\n# TYPE signal_messages_sent_total counter\nsignal_messages_sent_total ",
        );
        push_decimal(&mut page, self.messages_sent);
        page.append(
            "\n# HELP signal_messages_received_total Total messages received\n# TYPE signal_messages_received_total counter\nsignal_messages_received_total ",
        );
        push_decimal(&mut page, self.messages_received);
        page.append(
            "\n# HELP signal_rpc_calls_total Total JSON-RPC calls to signal-cli\n# TYPE signal_rpc_calls_total counter\nsignal_rpc_calls_total ",
        );
        push_decimal(&mut page, self.rpc_calls);
        page.append(
            "\n# HELP signal_rpc_errors_total Total JSON-RPC errors\n# TYPE signal_rpc_errors_total counter\nsignal_rpc_errors_total ",
        );
        push_decimal(&mut page, self.rpc_errors);
        page.append(
            "\n# HELP signal_ws_clients_active Active WebSocket clients\n# TYPE signal_ws_clients_active gauge\nsignal_ws_clients_active ",
        );
        push_decimal(&mut page, self.ws_clients);
        page.append("\n");
        assert(page@ =~= prometheus_text(*self));
        page
    }
}

impl Default for Metrics {
    fn default() -> (m: Metrics)
        ensures
            m == Metrics::zero(),
    {
        Metrics::new()
    }
}

/// One registered webhook: where events are posted, and which of them.
#[derive(Debug)]
pub struct WebhookConfig {
    /// The identifier that the registry gave it.
    pub id: String,
    /// Where events are posted.
    pub url: String,
    /// The labels of the events it wants; none stands for all events.
    pub events: Vec<String>,
}

/// A webhook as a plain value.
pub struct Hook {
    pub id: Seq<char>,
    pub url: Seq<char>,
    pub events: Seq<Seq<char>>,
}

/// The texts of a sequence of strings.
pub open spec fn texts(strings: Seq<String>) -> Seq<Seq<char>> {
    Seq::new(strings.len(), |i: int| strings[i]@)
}

impl View for WebhookConfig {
    type V = Hook;

    open spec fn view(&self) -> Hook {
        Hook { id: self.id@, url: self.url@, events: texts(self.events@) }
    }
}

/// The webhooks of a registry as plain values.
pub open spec fn hooks_of(registry: Seq<WebhookConfig>) -> Seq<Hook> {
    Seq::new(registry.len(), |i: int| registry[i]@)
}

/// A copy of a list of strings.
pub fn clone_texts(strings: &Vec<String>) -> (copy: Vec<String>)
    ensures
        copy@ == strings@,
{
    let mut copy: Vec<String> = Vec::new();
    let mut at: usize = 0;
    while at < strings.len()
        invariant
            at <= strings.len(),
            copy@ == strings@.take(at as int),
        decreases strings.len() - at,
    {
        copy.push(strings[at].clone());
        at = at + 1;
        assert(copy@ =~= strings@.take(at as int));
    }
    assert(strings@.take(at as int) =~= strings@);
    copy
}

impl Clone for WebhookConfig {
    fn clone(&self) -> (copy: WebhookConfig)
        ensures
            copy@ == self@,
    {
        WebhookConfig {
            id: self.id.clone(),
            url: self.url.clone(),
            events: clone_texts(&self.events),
        }
    }
}

/// The error text that stands for "no response within the deadline".
pub const RPC_TIMEOUT_ERROR: &'static str = "RPC_TIMEOUT";

/// The HTTP status that an error text of a call maps to.
pub open spec fn status_of(err: Seq<char>) -> u16 {
    if err == RPC_TIMEOUT_ERROR@ {
        504
    } else {
        400
    }
}

/// The HTTP status for the error text of a call: 504 (gateway timeout) for the
/// text that stands for a missed deadline, 400 (bad request) for any other.
pub fn rpc_error_status(err: &str) -> (status: u16)
    ensures
        status == status_of(err@),
{
    if same_text(err, RPC_TIMEOUT_ERROR) {
        504
    } else {
        400
    }
}

/// How many events the gateway keeps for subscribers that fall behind.
pub const EVENT_BUFFER: usize = 256;

/// How long a call may wait for its response, in milliseconds, unless the
/// gateway is told otherwise.
pub const DEFAULT_RPC_TIMEOUT_MS: u64 = 30000;

/// The identifier of the first call.
pub const FIRST_CALL_ID: u64 = 1;

/// The one context of a gateway: the calls in flight, the counter that numbers
/// them, the channel of the subscribers, the registry of webhooks and the
/// counters.
pub struct AppState {
    /// The channel on which events go out to the subscribers, until the
    /// connection to the daemon is gone: with its sender given up the channel
    /// closes, and every subscriber learns of it when it has read what is kept.
    pub broadcast_tx: Option<tokio::sync::broadcast::Sender<String>>,
    /// The calls in flight, each with the slot where its caller waits.
    pub pending: DashMap<u64, tokio::sync::oneshot::Sender<Value>>,
    /// The identifier of the next call.
    pub next_id: u64,
    /// The counters.
    pub metrics: Metrics,
    /// The webhooks that are registered, in the order of registration.
    pub webhooks: Vec<WebhookConfig>,
    /// How long a call may wait for its response, in milliseconds.
    pub rpc_timeout_ms: u64,
    /// Whether the connection to the daemon is gone.
    pub closed: bool,
}

/// Whether `after` is the subscribers' channel `before` once a line was
/// handled with the outcome `done`. A channel that is there stays the same
/// channel and keeps as many lines; an event joins its lines, unless nobody is
/// subscribed; and a channel that has taken an event keeps at least one line.
/// Where the channel is gone it stays gone, and an event reaches nobody.
pub open spec fn channel_after(
    before: Option<tokio::sync::broadcast::Sender<String>>,
    after: Option<tokio::sync::broadcast::Sender<String>>,
    line: Seq<char>,
    done: LineOutcome,
) -> bool {
    match before {
        Some(hub) => match after {
            Some(then) => {
                &&& published(then) == published_after(published(hub), line, done)
                &&& channel_of(then) == channel_of(hub)
                &&& retained(then) == retained(hub)
                &&& done is Published ==> retained(then) >= 1
            },
            None => false,
        },
        None => after is None && reached(done) == 0,
    }
}

/// One event reaches every subscriber of a gateway. When a line was handled as
/// an event and anyone was subscribed, each subscription of the channel,
/// however many there are and wherever they stand, has that line as the last of
/// its unread lines, and one that had read everything finds it at its next
/// look. When nobody was subscribed the channel is as it was.
pub proof fn law_event_reaches_every_subscriber(
    before: tokio::sync::broadcast::Sender<String>,
    after: tokio::sync::broadcast::Sender<String>,
    line: Seq<char>,
    done: LineOutcome,
    subs: Seq<Subscription>,
)
    requires
        channel_after(Some(before), Some(after), line, done),
        done is Published,
        forall|i: int|
            0 <= i < subs.len() ==> subs[i].listens_to(before) && subs[i].place() <= published(
                before,
            ).len(),
    ensures
        reached(done) == 0 ==> published(after) == published(before),
        reached(done) > 0 ==> forall|i: int|
            0 <= i < subs.len() ==> subs[i].listens_to(after) && (#[trigger] unread(
                published(after),
                retained(after),
                subs[i].place(),
            )).len() > 0 && unread(published(after), retained(after), subs[i].place()).last()
                == line,
        reached(done) > 0 ==> forall|i: int|
            0 <= i < subs.len() && subs[i].place() == published(before).len() ==> #[trigger] poll_model(
                published(after),
                retained(after),
                subs[i].place(),
            ) == (Some(line), 0nat, subs[i].place() + 1),
{
    if reached(done) > 0 {
        law_published_line_reaches_every_subscriber(before, after, line, subs);
    }
}

/// What a call that is being started comes to.
pub open spec fn ticket_fits(
    started: Result<CallTicket, RpcError>,
    closed: bool,
    next_id: u64,
    method: Seq<char>,
    params: Value,
) -> bool {
    match started {
        Ok(ticket) => !closed && ticket.id == next_id && ticket.line@ == request_text(
            method,
            params,
            next_id,
        ),
        Err(error) => closed && error@ == Failure::ConnectionClosed,
    }
}

/// The error text of an outcome, where it is an error.
pub open spec fn outcome_text(outcome: Result<Value, Failure>) -> Result<Value, Seq<char>> {
    match outcome {
        Ok(result) => Ok(result),
        Err(failure) => Err(failure.text()),
    }
}

/// An outcome whose error is a `String`, with the error as its text.
pub open spec fn text_view(outcome: Result<Value, String>) -> Result<Value, Seq<char>> {
    match outcome {
        Ok(result) => Ok(result),
        Err(text) => Err(text@),
    }
}

impl AppState {
    /// The calls in flight.
    pub open spec fn in_flight(self) -> Map<u64, tokio::sync::oneshot::Sender<Value>> {
        pending_slots(self.pending)
    }

    /// The events published so far; none once the channel is gone.
    pub open spec fn events(self) -> Seq<Seq<char>> {
        match self.broadcast_tx {
            Some(hub) => published(hub),
            None => Seq::empty(),
        }
    }

    /// The context of a gateway that has just connected: no call in flight, the
    /// first call to be numbered 1, nothing published, no webhook, all counters
    /// at zero.
    pub fn new() -> (state: AppState)
        ensures
            state.in_flight() == no_slots(),
            state.next_id == FIRST_CALL_ID,
            state.broadcast_tx is Some,
            state.events() == Seq::<Seq<char>>::empty(),
            retained(state.broadcast_tx.unwrap()) == EVENT_BUFFER,
            state.metrics == Metrics::zero(),
            state.webhooks@.len() == 0,
            state.rpc_timeout_ms == DEFAULT_RPC_TIMEOUT_MS,
            !state.closed,
    {
        assert(ring_size(256) == 256) by {
            reveal_with_fuel(round_up, 10);
        }
        AppState {
            broadcast_tx: Some(open_channel(EVENT_BUFFER)),
            pending: new_table(),
            next_id: FIRST_CALL_ID,
            metrics: Metrics::new(),
            webhooks: Vec::new(),
            rpc_timeout_ms: DEFAULT_RPC_TIMEOUT_MS,
            closed: false,
        }
    }

    /// Starts a call to the daemon and counts it. While the connection stands
    /// the call gets the next identifier and enters the table; the ticket holds
    /// the frame for the writer and the place where the response will arrive.
    /// Once the connection is gone every call fails at once, and is counted as
    /// an error too.
    pub fn begin_rpc(&mut self, method: &str, params: Value) -> (started: Result<CallTicket, RpcError>)
        ensures
            ticket_fits(started, old(self).closed, old(self).next_id, method@, params),
            final(self).closed == old(self).closed,
            final(self).rpc_timeout_ms == old(self).rpc_timeout_ms,
            final(self).webhooks == old(self).webhooks,
            final(self).broadcast_tx == old(self).broadcast_tx,
            started matches Ok(ticket) ==> final(self).in_flight() == old(self).in_flight().insert(
                ticket.id,
                slot_of(ticket.response),
            ) && final(self).next_id == bump(old(self).next_id) && final(self).metrics == (Metrics {
                rpc_calls: bump(old(self).metrics.rpc_calls),
                ..old(self).metrics
            }),
            started is Err ==> final(self).in_flight() == old(self).in_flight() && final(self).next_id
                == old(self).next_id && final(self).metrics == (Metrics {
                rpc_calls: bump(old(self).metrics.rpc_calls),
                rpc_errors: bump(old(self).metrics.rpc_errors),
                ..old(self).metrics
            }),
    {
        self.metrics.inc_rpc();
        if self.closed {
            self.metrics.inc_rpc_error();
            return Err(RpcError::ConnectionClosed);
        }
        Ok(begin_call(&mut self.pending, &mut self.next_id, method, params))
    }

    /// Ends the call `id` with what came of waiting for its response: the
    /// result, or the error as the text that the layers above see. An error is
    /// counted, and no entry of the call stays in the table.
    pub fn finish_rpc(&mut self, id: u64, awaited: Awaited) -> (outcome: Result<Value, String>)
        ensures
            text_view(outcome) == outcome_text(call_outcome(awaited)),
            final(self).in_flight() == pending_after_wait(old(self).in_flight(), id, awaited),
            final(self).metrics == (if outcome is Err {
                Metrics { rpc_errors: bump(old(self).metrics.rpc_errors), ..old(self).metrics }
            } else {
                old(self).metrics
            }),
            final(self).next_id == old(self).next_id,
            final(self).closed == old(self).closed,
            final(self).rpc_timeout_ms == old(self).rpc_timeout_ms,
            final(self).webhooks == old(self).webhooks,
            final(self).broadcast_tx == old(self).broadcast_tx,
    {
        match finish_call(&mut self.pending, id, awaited) {
            Ok(result) => Ok(result),
            Err(error) => {
                self.metrics.inc_rpc_error();
                Err(error.to_error_string())
            },
        }
    }

    /// Gives up the call `id` for a caller that has gone away while it waited:
    /// the call leaves the table and nothing is counted.
    pub fn abandon_rpc(&mut self, id: u64)
        ensures
            final(self).in_flight() == old(self).in_flight().remove(id),
            final(self).metrics == old(self).metrics,
            final(self).next_id == old(self).next_id,
            final(self).closed == old(self).closed,
            final(self).rpc_timeout_ms == old(self).rpc_timeout_ms,
            final(self).webhooks == old(self).webhooks,
            final(self).broadcast_tx == old(self).broadcast_tx,
    {
        abandon_call(&mut self.pending, id);
    }

    /// Handles one line that the daemon sent: see `jsonrpc::on_line`.
    pub fn on_line(&mut self, line: &str) -> (done: LineOutcome)
        ensures
            outcome_fits(done, routed(old(self).in_flight(), line@)),
            final(self).in_flight() == pending_after(old(self).in_flight(), line@),
            final(self).metrics == metrics_after(old(self).metrics, done),
            channel_after(old(self).broadcast_tx, final(self).broadcast_tx, line@, done),
            final(self).next_id == old(self).next_id,
            final(self).closed == old(self).closed,
            final(self).rpc_timeout_ms == old(self).rpc_timeout_ms,
            final(self).webhooks == old(self).webhooks,
    {
        match self.broadcast_tx.take() {
            Some(hub) => {
                let mut hub = hub;
                let done = on_line(&mut hub, &mut self.pending, &mut self.metrics, line);
                self.broadcast_tx = Some(hub);
                done
            },
            None => on_line_unheard(&mut self.pending, &mut self.metrics, line),
        }
    }

    /// Takes note that the connection to the daemon is gone. Every call in
    /// flight is given up, so that its caller fails at once, and every later
    /// call fails when it is started. The sender of the subscribers' channel is
    /// given up too, which closes the channel: each subscriber reads what is
    /// still kept for it and then finds the channel closed.
    pub fn on_close(&mut self)
        ensures
            final(self).closed,
            final(self).in_flight() == no_slots(),
            final(self).broadcast_tx is None,
            final(self).metrics == old(self).metrics,
            final(self).next_id == old(self).next_id,
            final(self).rpc_timeout_ms == old(self).rpc_timeout_ms,
            final(self).webhooks == old(self).webhooks,
    {
        self.closed = true;
        self.broadcast_tx = None;
        fail_all(&mut self.pending);
    }

    /// Takes out a subscription to the events that are published from now on.
    /// There is none to be had once the channel is gone.
    pub fn subscribe(&self) -> (sub: Option<Subscription>)
        ensures
            sub is Some == self.broadcast_tx is Some,
            sub is Some ==> sub.unwrap().listens_to(self.broadcast_tx.unwrap()) && sub.unwrap().place()
                == self.events().len(),
    {
        match &self.broadcast_tx {
            Some(hub) => Some(subscribe(hub)),
            None => None,
        }
    }

    /// The webhooks that are registered.
    pub open spec fn hooks(self) -> Seq<Hook> {
        hooks_of(self.webhooks@)
    }

    /// Registers a webhook for the events that `events` names, or for all
    /// events where it names none: see `webhooks::register`.
    pub fn register_webhook(&mut self, stamp: u128, url: String, events: Vec<String>) -> (entry:
        WebhookConfig)
        ensures
            entry@ == (Hook {
                id: webhook_id(fresh_stamp(old(self).hooks(), stamp) as nat),
                url: url@,
                events: texts(events@),
            }),
            final(self).hooks() == old(self).hooks().push(entry@),
            !id_in_use(old(self).hooks(), entry@.id),
            ids_distinct(old(self).hooks()) ==> ids_distinct(final(self).hooks()),
            final(self).pending == old(self).pending,
            final(self).broadcast_tx == old(self).broadcast_tx,
            final(self).metrics == old(self).metrics,
            final(self).next_id == old(self).next_id,
            final(self).closed == old(self).closed,
            final(self).rpc_timeout_ms == old(self).rpc_timeout_ms,
    {
        register(&mut self.webhooks, stamp, url, events)
    }

    /// A copy of every webhook that is registered, in the order of
    /// registration.
    pub fn list_webhooks(&self) -> (copy: Vec<WebhookConfig>)
        ensures
            hooks_of(copy@) == self.hooks(),
    {
        list(&self.webhooks)
    }

    /// Takes the webhook with the identifier `id` out of the registry, and
    /// tells whether there was one.
    pub fn deregister_webhook(&mut self, id: &str) -> (found: bool)
        ensures
            found == id_in_use(old(self).hooks(), id@),
            final(self).hooks() == without(old(self).hooks(), id@),
            !id_in_use(final(self).hooks(), id@),
            ids_distinct(old(self).hooks()) ==> ids_distinct(final(self).hooks()),
            final(self).pending == old(self).pending,
            final(self).broadcast_tx == old(self).broadcast_tx,
            final(self).metrics == old(self).metrics,
            final(self).next_id == old(self).next_id,
            final(self).closed == old(self).closed,
            final(self).rpc_timeout_ms == old(self).rpc_timeout_ms,
    {
        deregister(&mut self.webhooks, id)
    }

    /// Plans the deliveries of one event to the webhooks that are registered:
    /// one to each webhook whose filter admits the event's label.
    pub fn plan_deliveries(&self, msg: &str) -> (deliveries: Vec<Delivery>)
        ensures
            posts_of(deliveries@) == planned(self.hooks(), event_label(msg@), msg@),
    {
        plan_deliveries(&self.webhooks, msg)
    }
}

} // verus!
