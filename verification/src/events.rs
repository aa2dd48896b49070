use vstd::prelude::*;
use tokio::sync::broadcast::error::TryRecvError;
use tokio::sync::broadcast::{Receiver, Sender};

verus! {

/// The sending half of tokio's broadcast channel. The library holds one sender
/// per channel and publishes through an exclusive reference, so that the lines
/// published are a function of the sender's value.
#[verifier::external_type_specification]
#[verifier::external_body]
#[verifier::reject_recursive_types(T)]
pub struct ExHub<T>(Sender<T>);

/// The receiving half of tokio's broadcast channel.
#[verifier::external_type_specification]
#[verifier::external_body]
#[verifier::reject_recursive_types(T)]
pub struct ExFeed<T>(Receiver<T>);

/// The lines that the channel has accepted so far, oldest first.
pub uninterp spec fn published(hub: Sender<String>) -> Seq<Seq<char>>;

/// How many of the newest lines the channel keeps for its receivers.
pub uninterp spec fn retained(hub: Sender<String>) -> nat;

/// The channel that a sender feeds.
pub uninterp spec fn channel_of(hub: Sender<String>) -> int;

/// The channel that a receiver listens to.
pub uninterp spec fn feed_of(feed: Receiver<String>) -> int;

/// The place in the channel's sequence of lines that a receiver reads next.
pub uninterp spec fn cursor(feed: Receiver<String>) -> nat;

/// The least power of two, counted up from `power`, that reaches `wanted`.
pub open spec fn round_up(wanted: nat, power: nat) -> nat
    decreases
        (if wanted > power {
            wanted - power
        } else {
            0
        }),
{
    if power == 0 || power >= wanted {
        power
    } else {
        round_up(wanted, 2 * power)
    }
}

/// The least power of two that is at least `wanted`.
pub open spec fn ring_size(wanted: nat) -> nat {
    round_up(wanted, 1)
}

/// What one look into a subscription finds.
pub enum Polled {
    /// The next line, in the order of publication.
    Event(String),
    /// Nothing is waiting.
    Empty,
    /// So many lines were overwritten before they were read; reading goes on
    /// with the oldest line that is still kept.
    Lagged(u64),
    /// The channel has no sender left.
    Closed,
}

/// The first place that the channel still keeps, given how many lines it has
/// accepted and how many it retains.
pub open spec fn oldest_kept(accepted: nat, kept: nat) -> nat {
    if accepted > kept {
        (accepted - kept) as nat
    } else {
        0
    }
}

/// What a receiver at place `at` finds in a channel with the lines `log`, of
/// which the newest `kept` are retained, and the place it reads next.
pub open spec fn poll_model(log: Seq<Seq<char>>, kept: nat, at: nat) -> (Option<Seq<char>>, nat, nat) {
    if at >= log.len() {
        (None, 0, at)
    } else if at < oldest_kept(log.len(), kept) {
        (None, (oldest_kept(log.len(), kept) - at) as nat, oldest_kept(log.len(), kept))
    } else {
        (Some(log[at as int]), 0, at + 1)
    }
}

/// Whether `found` is what `poll_model` gives as line and as loss.
pub open spec fn polled_as(found: Polled, line: Option<Seq<char>>, lost: nat) -> bool {
    match found {
        Polled::Event(text) => line == Some(text@) && lost == 0,
        Polled::Empty => line is None && lost == 0,
        Polled::Lagged(count) => line is None && lost > 0 && count == lost,
        Polled::Closed => false,
    }
}

/// Calls tokio's `broadcast::channel` and keeps the sender. The channel starts
/// without lines, and retains the capacity rounded up to a power of two.
#[verifier::external_body]
pub(crate) fn open_channel(capacity: usize) -> (hub: Sender<String>)
    requires
        0 < capacity <= usize::MAX / 2,
    ensures
        published(hub) == Seq::<Seq<char>>::empty(),
        retained(hub) == ring_size(capacity as nat),
{
    tokio::sync::broadcast::channel(capacity).0
}

/// Calls `Sender::send` of tokio's broadcast channel. With at least one
/// receiver the line joins the channel's sequence and the number of receivers
/// comes back; with none the line is dropped. Which of the two happens depends
/// on the receivers that are alive. A channel of tokio keeps at least one line:
/// it cannot be made with room for none.
#[verifier::external_body]
pub(crate) fn send_line(hub: &mut Sender<String>, line: String) -> (reached: Option<usize>)
    ensures
        channel_of(*final(hub)) == channel_of(*old(hub)),
        retained(*final(hub)) == retained(*old(hub)),
        retained(*final(hub)) >= 1,
        match reached {
            Some(count) => count >= 1 && published(*final(hub)) == published(*old(hub)).push(
                line@,
            ),
            None => published(*final(hub)) == published(*old(hub)),
        },
{
    hub.send(line).ok()
}

/// Calls `Sender::subscribe`: a receiver of this channel that starts after the
/// lines published so far. tokio refuses more than `usize::MAX / 4` receivers
/// at a time, which no machine can hold.
#[verifier::external_body]
pub(crate) fn join(hub: &Sender<String>) -> (feed: Receiver<String>)
    ensures
        feed_of(feed) == channel_of(*hub),
        cursor(feed) == published(*hub).len(),
{
    hub.subscribe()
}

/// Calls `Receiver::try_recv`. For a receiver of `hub`'s channel the outcome
/// follows from the lines published and the receiver's place alone: the line at
/// that place, nothing where it has read them all, or the count of lines that
/// were overwritten, after which it stands at the oldest line kept. The sender
/// is taken along for the contract to speak of, and so that the channel is open.
#[verifier::external_body]
pub(crate) fn take_next(feed: &mut Receiver<String>, hub: &Sender<String>) -> (found: Polled)
    ensures
        feed_of(*final(feed)) == feed_of(*old(feed)),
        feed_of(*old(feed)) == channel_of(*hub) ==> polled_as(
            found,
            poll_model(published(*hub), retained(*hub), cursor(*old(feed))).0,
            poll_model(published(*hub), retained(*hub), cursor(*old(feed))).1,
        ) && cursor(*final(feed)) == poll_model(
            published(*hub),
            retained(*hub),
            cursor(*old(feed)),
        ).2,
{
    match feed.try_recv() {
        Ok(line) => Polled::Event(line),
        Err(TryRecvError::Empty) => Polled::Empty,
        Err(TryRecvError::Lagged(count)) => Polled::Lagged(count),
        Err(TryRecvError::Closed) => Polled::Closed,
    }
}

/// How many lines are overwritten before a receiver at place `at` gets to
/// them.
pub open spec fn lost_before(log: Seq<Seq<char>>, kept: nat, at: nat) -> nat {
    if at < oldest_kept(log.len(), kept) {
        (oldest_kept(log.len(), kept) - at) as nat
    } else {
        0
    }
}

/// The first place that a receiver at place `at` can still read.
pub open spec fn first_readable(log: Seq<Seq<char>>, kept: nat, at: nat) -> nat {
    if at < oldest_kept(log.len(), kept) {
        oldest_kept(log.len(), kept)
    } else {
        at
    }
}

/// The lines that a receiver at place `at` has still to read: what the channel
/// keeps of the lines from its place on, in the order of publication.
pub open spec fn unread(log: Seq<Seq<char>>, kept: nat, at: nat) -> Seq<Seq<char>> {
    if first_readable(log, kept, at) >= log.len() {
        Seq::empty()
    } else {
        log.subrange(first_readable(log, kept, at) as int, log.len() as int)
    }
}

/// A consumer's handle on the events: it reads them at its own pace.
pub struct Subscription {
    pub feed: Receiver<String>,
}

impl Subscription {
    /// Whether this subscription was taken out on the channel of `hub`.
    pub open spec fn listens_to(self, hub: Sender<String>) -> bool {
        feed_of(self.feed) == channel_of(hub)
    }

    /// The place that this subscription reads next.
    pub open spec fn place(self) -> nat {
        cursor(self.feed)
    }
}

/// Takes out a subscription: it will see the lines published from now on.
pub fn subscribe(hub: &Sender<String>) -> (sub: Subscription)
    ensures
        sub.listens_to(*hub),
        sub.place() == published(*hub).len(),
{
    Subscription { feed: join(hub) }
}

/// What a consumer took out of its subscription in one go.
pub struct Drained {
    /// The lines read, in the order of publication.
    pub lines: Vec<String>,
    /// How many lines were overwritten before they could be read.
    pub missed: u64,
    /// Whether the subscription was read to its end.
    pub complete: bool,
}

/// The texts of the lines of a list.
pub open spec fn line_texts(lines: Seq<String>) -> Seq<Seq<char>> {
    Seq::new(lines.len(), |i: int| lines[i]@)
}

/// Whether `done` is what a receiver that stood at `at` reads from the lines
/// `log`, and `now` the place where it stands afterwards. Read to the end, it
/// has every line that was unread and stands behind the last one; stopped
/// early, it has the first of them.
pub open spec fn drained_as(done: Drained, log: Seq<Seq<char>>, kept: nat, at: nat, now: nat) -> bool {
    let lines = line_texts(done.lines@);
    &&& lines == unread(log, kept, at).take(lines.len() as int)
    &&& lines.len() <= unread(log, kept, at).len()
    &&& done.missed == 0 || done.missed == lost_before(log, kept, at)
    &&& done.missed == 0 && lost_before(log, kept, at) > 0 ==> lines.len() == 0
    &&& now == (if done.missed == 0 && lost_before(log, kept, at) > 0 {
        at
    } else {
        first_readable(log, kept, at) + lines.len()
    })
    &&& done.complete ==> lines == unread(log, kept, at) && done.missed == lost_before(
        log,
        kept,
        at,
    )
    &&& at <= log.len() ==> now <= log.len()
}

/// How many looks it takes to read a subscription at place `at` to its end:
/// one for each unread line, one for the notice of lost lines where there is
/// one, and the one that finds nothing more.
pub open spec fn looks_needed(log: Seq<Seq<char>>, kept: nat, at: nat) -> nat {
    unread(log, kept, at).len() + (if lost_before(log, kept, at) > 0 {
        1nat
    } else {
        0nat
    }) + 1
}

/// Whether `done` is as much as `polls` looks take out of a subscription at
/// place `at`: with looks enough it is read to its end, else every look has
/// brought the notice of lost lines or one line; and the first look tells of
/// the lines lost.
pub open spec fn drained_in(done: Drained, log: Seq<Seq<char>>, kept: nat, at: nat, polls: nat) -> bool {
    &&& done.complete == (polls >= looks_needed(log, kept, at))
    &&& !done.complete ==> line_texts(done.lines@).len() + (if lost_before(log, kept, at) > 0
        && polls >= 1 {
        1nat
    } else {
        0nat
    }) == polls
    &&& polls >= 1 ==> done.missed == lost_before(log, kept, at)
}

/// Reads what is waiting in a subscription, looking into it at most `polls`
/// times. A notice of lost lines is counted and reading goes on behind the gap.
pub fn drain(sub: &mut Subscription, hub: &Sender<String>, polls: usize) -> (done: Drained)
    ensures
        feed_of(final(sub).feed) == feed_of(old(sub).feed),
        old(sub).listens_to(*hub) ==> drained_as(
            done,
            published(*hub),
            retained(*hub),
            old(sub).place(),
            final(sub).place(),
        ),
        old(sub).listens_to(*hub) ==> drained_in(
            done,
            published(*hub),
            retained(*hub),
            old(sub).place(),
            polls as nat,
        ),
{
    let mut lines: Vec<String> = Vec::new();
    let mut missed: u64 = 0;
    let mut complete = false;
    let mut left: usize = polls;
    let ghost log = published(*hub);
    let ghost kept = retained(*hub);
    let ghost at = sub.place();
    let ghost listens = sub.listens_to(*hub);
    assert(unread(log, kept, at).take(0) =~= line_texts(lines@));
    while left > 0 && !complete
        invariant
            feed_of(sub.feed) == feed_of(old(sub).feed),
            log == published(*hub),
            kept == retained(*hub),
            at == old(sub).place(),
            listens == old(sub).listens_to(*hub),
            listens ==> drained_as(Drained { lines, missed, complete }, log, kept, at, sub.place()),
            left <= polls,
            listens ==> polls - left == lines@.len() + (if missed > 0 {
                1nat
            } else {
                0nat
            }) + (if complete {
                1nat
            } else {
                0nat
            }),
        decreases left,
    {
        let ghost before = line_texts(lines@);
        let ghost here = sub.place();
        match take_next(&mut sub.feed, hub) {
            Polled::Event(line) => {
                lines.push(line);
                proof {
                    if listens {
                        assert(here == first_readable(log, kept, at) + before.len());
                        assert(line_texts(lines@) =~= before.push(log[here as int]));
                        assert(line_texts(lines@) =~= unread(log, kept, at).take(
                            lines@.len() as int,
                        ));
                    }
                }
            },
            Polled::Lagged(count) => {
                missed = if count > u64::MAX - missed {
                    u64::MAX
                } else {
                    missed + count
                };
            },
            Polled::Empty => {
                complete = true;
                proof {
                    if listens {
                        assert(line_texts(lines@) =~= unread(log, kept, at));
                    }
                }
            },
            Polled::Closed => {
                complete = true;
            },
        }
        left = left - 1;
    }
    Drained { lines, missed, complete }
}

/// What the task that serves one push-feed client learns.
pub enum FeedEvent {
    /// A look into its subscription.
    Channel(Polled),
    /// The client could not be written to.
    WriteFailed,
    /// The client sent a close frame, or its connection ended.
    ClientLeft,
    /// The client sent any other frame.
    ClientSpoke,
}

/// What that task does next.
#[derive(Debug, PartialEq, Eq)]
pub enum FeedAction {
    /// Send this line to the client.
    Forward(String),
    /// Nothing to do: wait for what comes next.
    Wait,
    /// End the feed.
    Stop,
}

/// What serving a push-feed client calls for on `event`: a line goes on to the
/// client, a notice of lost lines is passed over, frames from the client are
/// ignored, and the feed ends when the channel closes, the client leaves or
/// cannot be written to.
pub open spec fn feed_model(event: FeedEvent) -> Option<Option<Seq<char>>> {
    match event {
        FeedEvent::Channel(Polled::Event(line)) => Some(Some(line@)),
        FeedEvent::Channel(Polled::Empty) => Some(None),
        FeedEvent::Channel(Polled::Lagged(_)) => Some(None),
        FeedEvent::Channel(Polled::Closed) => None,
        FeedEvent::WriteFailed => None,
        FeedEvent::ClientLeft => None,
        FeedEvent::ClientSpoke => Some(None),
    }
}

/// Whether `action` is what `feed_model` asks for.
pub open spec fn action_fits(action: FeedAction, model: Option<Option<Seq<char>>>) -> bool {
    match action {
        FeedAction::Forward(line) => model == Some(Some(line@)),
        FeedAction::Wait => model == Some(None::<Seq<char>>),
        FeedAction::Stop => model is None,
    }
}

/// Decides the next step of the task that serves one push-feed client.
pub fn feed_step(event: FeedEvent) -> (action: FeedAction)
    ensures
        action_fits(action, feed_model(event)),
{
    match event {
        FeedEvent::Channel(Polled::Event(line)) => FeedAction::Forward(line),
        FeedEvent::Channel(Polled::Empty) => FeedAction::Wait,
        FeedEvent::Channel(Polled::Lagged(_)) => FeedAction::Wait,
        FeedEvent::Channel(Polled::Closed) => FeedAction::Stop,
        FeedEvent::WriteFailed => FeedAction::Stop,
        FeedEvent::ClientLeft => FeedAction::Stop,
        FeedEvent::ClientSpoke => FeedAction::Wait,
    }
}

/// Whether `after` is the channel `before` once it has accepted `line`: the
/// same channel, which keeps as many lines as before and at least one, with the
/// line added behind the others.
pub open spec fn accepted(before: Sender<String>, after: Sender<String>, line: Seq<char>) -> bool {
    &&& channel_of(after) == channel_of(before)
    &&& retained(after) == retained(before)
    &&& retained(after) >= 1
    &&& published(after) == published(before).push(line)
}

/// One published line reaches every subscriber. Once the channel has accepted
/// a line, each of its subscriptions, however many there are and wherever they
/// stand, has that line as the last of its unread lines; one that had read
/// everything finds it at its next look, with nothing lost.
pub proof fn law_published_line_reaches_every_subscriber(
    before: Sender<String>,
    after: Sender<String>,
    line: Seq<char>,
    subs: Seq<Subscription>,
)
    requires
        accepted(before, after, line),
        forall|i: int|
            0 <= i < subs.len() ==> subs[i].listens_to(before) && subs[i].place() <= published(
                before,
            ).len(),
    ensures
        forall|i: int|
            0 <= i < subs.len() ==> subs[i].listens_to(after) && (#[trigger] unread(
                published(after),
                retained(after),
                subs[i].place(),
            )).len() > 0 && unread(published(after), retained(after), subs[i].place()).last()
                == line,
        forall|i: int|
            0 <= i < subs.len() && subs[i].place() == published(before).len() ==> #[trigger] poll_model(
                published(after),
                retained(after),
                subs[i].place(),
            ) == (Some(line), 0nat, subs[i].place() + 1),
{
}

/// A subscriber that has stopped reading holds nobody back. What a subscriber
/// reads depends on the lines published and on its own place alone: wherever
/// the other subscribers of the channel stand, the one at `places[me]` gets, in
/// order and without a gap, every line published since its place, the new one
/// last, as long as it falls no further behind than the channel keeps lines.
pub proof fn law_stalled_subscriber_holds_nobody_back(
    log: Seq<Seq<char>>,
    kept: nat,
    line: Seq<char>,
    places: Seq<nat>,
    me: int,
)
    requires
        0 <= me < places.len(),
        places[me] <= log.len(),
        log.len() + 1 - places[me] <= kept,
    ensures
        lost_before(log.push(line), kept, places[me]) == 0,
        unread(log.push(line), kept, places[me]) == log.subrange(
            places[me] as int,
            log.len() as int,
        ).push(line),
{
    assert(unread(log.push(line), kept, places[me]) =~= log.subrange(
        places[me] as int,
        log.len() as int,
    ).push(line));
}

} // verus!
