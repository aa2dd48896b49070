use vstd::prelude::*;
use crate::json::{member, parse, parsed_json, value_member};
use crate::state::{clone_texts, hooks_of, texts, Hook, WebhookConfig};
use crate::text::{hex_padded, lemma_hex_padded_differs, push_hex_padded, same_text};

verus! {

/// The label of an event, as far as one can be told from the text `msg`: the
/// text has to be JSON with a member `envelope`, and the first of the members
/// `dataMessage`, `receiptMessage`, `typingMessage` and `syncMessage` that the
/// envelope has decides. An event without any of them has no label.
pub open spec fn event_label(msg: Seq<char>) -> Option<Seq<char>> {
    match parsed_json(msg) {
        None => None,
        Some(doc) => match value_member(doc, "envelope"@) {
            None => None,
            Some(envelope) => label_from(
                value_member(envelope, "dataMessage"@) is Some,
                value_member(envelope, "receiptMessage"@) is Some,
                value_member(envelope, "typingMessage"@) is Some,
                value_member(envelope, "syncMessage"@) is Some,
            ),
        },
    }
}

/// The label of an event whose envelope has, or has not, each of the four
/// members that tell its kind: a chat message is a `message`, a delivery
/// acknowledgement a `receipt`, a presence notice is `typing`, an event that
/// this account caused elsewhere a `sync`. The first of them decides.
pub open spec fn label_from(message: bool, receipt: bool, typing: bool, sync: bool) -> Option<
    Seq<char>,
> {
    if message {
        Some("message"@)
    } else if receipt {
        Some("receipt"@)
    } else if typing {
        Some("typing"@)
    } else if sync {
        Some("sync"@)
    } else {
        None
    }
}

/// The label of an event whose envelope has, or has not, each of the four
/// members that tell its kind.
pub fn label_of(message: bool, receipt: bool, typing: bool, sync: bool) -> (label: Option<
    &'static str,
>)
    ensures
        label_text(label) == label_from(message, receipt, typing, sync),
{
    if message {
        Some("message")
    } else if receipt {
        Some("receipt")
    } else if typing {
        Some("typing")
    } else if sync {
        Some("sync")
    } else {
        None
    }
}

/// The characters of a label that may be missing.
pub open spec fn label_text(label: Option<&str>) -> Option<Seq<char>> {
    match label {
        Some(text) => Some(text@),
        None => None,
    }
}

/// Tells what kind of event a notification is: `message`, `receipt`, `typing`
/// or `sync`, or `None` where its kind is unknown.
pub fn extract_event_type(msg: &str) -> (label: Option<&'static str>)
    ensures
        label_text(label) == event_label(msg@),
{
    match parse(msg) {
        None => None,
        Some(doc) => match member(&doc, "envelope") {
            None => None,
            Some(envelope) => label_of(
                member(envelope, "dataMessage").is_some(),
                member(envelope, "receiptMessage").is_some(),
                member(envelope, "typingMessage").is_some(),
                member(envelope, "syncMessage").is_some(),
            ),
        },
    }
}

/// Whether a webhook with the filter `events` is to get an event with the label
/// `label`: one without a filter gets every event, one with a filter gets the
/// events whose label the filter names, and never one of unknown kind.
pub open spec fn filter_admits(events: Seq<Seq<char>>, label: Option<Seq<char>>) -> bool {
    events.len() == 0 || (label matches Some(name) && events.contains(name))
}

/// Whether `hook` is to get an event with the label `label`.
pub fn hook_wants(hook: &WebhookConfig, label: Option<&str>) -> (wanted: bool)
    ensures
        wanted == filter_admits(hook@.events, label_text(label)),
{
    if hook.events.len() == 0 {
        return true;
    }
    match label {
        None => false,
        Some(name) => {
            let mut at: usize = 0;
            while at < hook.events.len()
                invariant
                    at <= hook.events.len(),
                    label == Some(name),
                    forall|k: int| 0 <= k < at ==> hook.events@[k]@ != name@,
                decreases hook.events.len() - at,
            {
                if same_text(hook.events[at].as_str(), name) {
                    assert(texts(hook.events@)[at as int] == name@);
                    assert(texts(hook.events@).contains(name@));
                    return true;
                }
                at = at + 1;
            }
            assert(!texts(hook.events@).contains(name@)) by {
                if texts(hook.events@).contains(name@) {
                    let k = choose|k: int|
                        0 <= k < texts(hook.events@).len() && texts(hook.events@)[k] == name@;
                    assert(hook.events@[k]@ == name@);
                }
            }
            false
        },
    }
}

/// One HTTP POST to make: the event `body`, as it came, to `url`.
#[derive(Debug)]
pub struct Delivery {
    pub url: String,
    pub body: String,
}

/// A delivery as a plain value.
pub struct Post {
    pub url: Seq<char>,
    pub body: Seq<char>,
}

impl View for Delivery {
    type V = Post;

    open spec fn view(&self) -> Post {
        Post { url: self.url@, body: self.body@ }
    }
}

/// The deliveries of a list as plain values.
pub open spec fn posts_of(deliveries: Seq<Delivery>) -> Seq<Post> {
    Seq::new(deliveries.len(), |i: int| deliveries[i]@)
}

/// The deliveries that the event `msg` with the label `label` calls for: one to
/// each webhook whose filter admits the label, in the order of the registry.
pub open spec fn planned(hooks: Seq<Hook>, label: Option<Seq<char>>, msg: Seq<char>) -> Seq<Post>
    decreases hooks.len(),
{
    if hooks.len() == 0 {
        Seq::empty()
    } else if filter_admits(hooks.last().events, label) {
        planned(hooks.drop_last(), label, msg).push(Post { url: hooks.last().url, body: msg })
    } else {
        planned(hooks.drop_last(), label, msg)
    }
}

/// Plans the deliveries of one event to the webhooks that are registered.
pub fn plan_deliveries(hooks: &Vec<WebhookConfig>, msg: &str) -> (deliveries: Vec<Delivery>)
    ensures
        posts_of(deliveries@) == planned(hooks_of(hooks@), event_label(msg@), msg@),
{
    plan_for_label(hooks, extract_event_type(msg), msg)
}

/// Plans the deliveries of the event `msg`, whose label is `label`, to the
/// webhooks that are registered.
pub fn plan_for_label(hooks: &Vec<WebhookConfig>, label: Option<&str>, msg: &str) -> (deliveries:
    Vec<Delivery>)
    ensures
        posts_of(deliveries@) == planned(hooks_of(hooks@), label_text(label), msg@),
{
    let mut deliveries: Vec<Delivery> = Vec::new();
    let mut at: usize = 0;
    while at < hooks.len()
        invariant
            at <= hooks.len(),
            posts_of(deliveries@) == planned(
                hooks_of(hooks@).take(at as int),
                label_text(label),
                msg@,
            ),
        decreases hooks.len() - at,
    {
        let ghost before = posts_of(deliveries@);
        assert(hooks_of(hooks@).take(at + 1).drop_last() =~= hooks_of(hooks@).take(at as int));
        assert(hooks_of(hooks@).take(at + 1).last() == hooks@[at as int]@);
        if hook_wants(&hooks[at], label) {
            deliveries.push(Delivery { url: hooks[at].url.clone(), body: msg.to_owned() });
            assert(posts_of(deliveries@) =~= before.push(
                Post { url: hooks@[at as int]@.url, body: msg@ },
            ));
        }
        at = at + 1;
    }
    assert(hooks_of(hooks@).take(at as int) =~= hooks_of(hooks@));
    deliveries
}

/// A webhook without a filter gets every event, whatever its label, and one
/// of unknown kind too.
pub proof fn law_empty_filter_gets_every_event(hook: Hook, label: Option<Seq<char>>)
    requires
        hook.events.len() == 0,
    ensures
        filter_admits(hook.events, label),
{
}

/// A webhook whose filter names `message` alone gets the events labelled
/// `message` and no others: none labelled `receipt`, `typing` or `sync`, and
/// none of unknown kind.
pub proof fn law_message_filter_gets_messages_only(hook: Hook, label: Option<Seq<char>>)
    requires
        hook.events == seq!["message"@],
    ensures
        filter_admits(hook.events, label) <==> label == Some("message"@),
        !filter_admits(hook.events, Some("receipt"@)),
        !filter_admits(hook.events, Some("typing"@)),
        !filter_admits(hook.events, Some("sync"@)),
        !filter_admits(hook.events, None),
{
    reveal_strlit("message");
    reveal_strlit("receipt");
    reveal_strlit("typing");
    reveal_strlit("sync");
    assert(hook.events[0] == "message"@);
    assert("message"@.len() == 7);
    assert("receipt"@[0] == 'r');
    assert("message"@[0] == 'm');
    assert("typing"@.len() == 6);
    assert("sync"@.len() == 4);
}

/// An event goes to exactly the webhooks whose filter admits its label, once
/// each and unchanged: what one webhook asks for, and whether it is there at
/// all, makes no difference to what any other one gets.
pub proof fn law_each_willing_webhook_gets_the_event(
    hooks: Seq<Hook>,
    label: Option<Seq<char>>,
    msg: Seq<char>,
    others: Seq<Hook>,
)
    ensures
        planned(hooks + others, label, msg) == planned(hooks, label, msg) + planned(
            others,
            label,
            msg,
        ),
        forall|hook: Hook|
            planned(seq![hook], label, msg) == (if filter_admits(hook.events, label) {
                seq![Post { url: hook.url, body: msg }]
            } else {
                Seq::<Post>::empty()
            }),
    decreases others.len(),
{
    assert forall|hook: Hook|
        planned(seq![hook], label, msg) == (if filter_admits(hook.events, label) {
            seq![Post { url: hook.url, body: msg }]
        } else {
            Seq::<Post>::empty()
        }) by {
        assert(seq![hook].drop_last() =~= Seq::<Hook>::empty());
        assert(planned(seq![hook].drop_last(), label, msg) =~= Seq::<Post>::empty());
        assert(Seq::<Post>::empty().push(Post { url: hook.url, body: msg }) =~= seq![
            Post { url: hook.url, body: msg },
        ]);
    }
    if others.len() == 0 {
        assert(hooks + others =~= hooks);
        assert(planned(hooks, label, msg) + planned(others, label, msg) =~= planned(
            hooks,
            label,
            msg,
        ));
    } else {
        law_each_willing_webhook_gets_the_event(hooks, label, msg, others.drop_last());
        assert((hooks + others).drop_last() =~= hooks + others.drop_last());
        assert((hooks + others).last() == others.last());
        let head = planned(hooks, label, msg);
        let tail = planned(others.drop_last(), label, msg);
        if filter_admits(others.last().events, label) {
            let post = Post { url: others.last().url, body: msg };
            assert((head + tail).push(post) =~= head + tail.push(post));
        }
    }
}

/// How wide the identifier of a webhook is at least.
pub const WEBHOOK_ID_WIDTH: usize = 16;

/// The identifier that the stamp `stamp` gives: the stamp in lower-case
/// hexadecimal, at least sixteen characters wide.
pub open spec fn webhook_id(stamp: nat) -> Seq<char> {
    hex_padded(stamp, 16)
}

/// Whether a webhook of the registry has the identifier `id`.
pub open spec fn id_in_use(hooks: Seq<Hook>, id: Seq<char>) -> bool {
    exists|k: int| 0 <= k < hooks.len() && (#[trigger] hooks[k]).id == id
}

/// Whether no two webhooks of the registry have the same identifier.
pub open spec fn ids_distinct(hooks: Seq<Hook>) -> bool {
    forall|i: int, j: int| 0 <= i < j < hooks.len() ==> hooks[i].id != hooks[j].id
}

/// Tells whether a webhook of the registry has the identifier `id`.
pub fn has_id(hooks: &Vec<WebhookConfig>, id: &str) -> (used: bool)
    ensures
        used == id_in_use(hooks_of(hooks@), id@),
{
    let mut at: usize = 0;
    while at < hooks.len()
        invariant
            at <= hooks.len(),
            forall|k: int| 0 <= k < at ==> hooks_of(hooks@)[k].id != id@,
        decreases hooks.len() - at,
    {
        if same_text(hooks[at].id.as_str(), id) {
            assert(hooks_of(hooks@)[at as int].id == id@);
            return true;
        }
        at = at + 1;
    }
    false
}

/// The stamp `count` steps after `stamp`, in the range of a stamp.
pub open spec fn stamp_after(stamp: u128, count: nat) -> u128 {
    ((stamp + count) % (u128::MAX + 1)) as u128
}

/// The first of the stamps `stamp`, `stamp + 1`, ... up to `tries` steps on
/// whose identifier no webhook of the registry has, if there is one.
pub open spec fn free_stamp(hooks: Seq<Hook>, stamp: u128, tries: nat) -> Option<u128>
    decreases tries,
{
    if !id_in_use(hooks, webhook_id(stamp as nat)) {
        Some(stamp)
    } else if tries == 0 {
        None
    } else {
        free_stamp(hooks, stamp_after(stamp, 1), (tries - 1) as nat)
    }
}

/// The stamp that a registration at `stamp` gets: `stamp` itself where its
/// identifier is free, else the first later one whose identifier is.
pub open spec fn fresh_stamp(hooks: Seq<Hook>, stamp: u128) -> u128 {
    free_stamp(hooks, stamp, hooks.len()).unwrap()
}

/// Of more identifiers than there are webhooks, all different, one is free.
proof fn lemma_one_id_is_free(hooks: Seq<Hook>, ids: Seq<Seq<char>>)
    requires
        ids.no_duplicates(),
        ids.len() > hooks.len(),
    ensures
        exists|i: int| 0 <= i < ids.len() && !id_in_use(hooks, #[trigger] ids[i]),
    decreases hooks.len(),
{
    if hooks.len() == 0 {
        assert(!id_in_use(hooks, ids[0]));
    } else {
        let taken = hooks.last().id;
        let at = if exists|k: int| 0 <= k < ids.len() && ids[k] == taken {
            choose|k: int| 0 <= k < ids.len() && ids[k] == taken
        } else {
            0
        };
        let fewer = ids.remove(at);
        assert forall|i: int, j: int| 0 <= i < fewer.len() && 0 <= j < fewer.len() && i != j implies fewer[i]
            != fewer[j] by {
            let from_i = if i < at {
                i
            } else {
                i + 1
            };
            let from_j = if j < at {
                j
            } else {
                j + 1
            };
            assert(fewer[i] == ids[from_i]);
            assert(fewer[j] == ids[from_j]);
        }
        lemma_one_id_is_free(hooks.drop_last(), fewer);
        let i = choose|i: int| 0 <= i < fewer.len() && !id_in_use(hooks.drop_last(), #[trigger] fewer[i]);
        let from_i = if i < at {
            i
        } else {
            i + 1
        };
        assert(fewer[i] == ids[from_i]);
        assert(ids[from_i] != taken) by {
            if ids[from_i] == taken {
                assert(ids[at] == taken);
                assert(from_i != at);
            }
        }
        assert(!id_in_use(hooks, ids[from_i])) by {
            if id_in_use(hooks, ids[from_i]) {
                let k = choose|k: int| 0 <= k < hooks.len() && (#[trigger] hooks[k]).id == ids[from_i];
                assert(k < hooks.len() - 1);
                assert(hooks.drop_last()[k].id == ids[from_i]);
            }
        }
    }
}

/// A search that finds no free stamp has found every one it looked at taken.
proof fn lemma_no_free_stamp(hooks: Seq<Hook>, stamp: u128, tries: nat)
    requires
        free_stamp(hooks, stamp, tries) is None,
    ensures
        forall|i: nat|
            i <= tries ==> id_in_use(hooks, webhook_id(#[trigger] stamp_after(stamp, i) as nat)),
    decreases tries,
{
    assert(stamp_after(stamp, 0) == stamp);
    if tries > 0 {
        lemma_no_free_stamp(hooks, stamp_after(stamp, 1), (tries - 1) as nat);
        assert forall|i: nat| i <= tries implies id_in_use(
            hooks,
            webhook_id(#[trigger] stamp_after(stamp, i) as nat),
        ) by {
            if i > 0 {
                assert(stamp_after(stamp_after(stamp, 1), (i - 1) as nat) == stamp_after(stamp, i));
            }
        }
    }
}

/// A registration always finds a free identifier: of the stamp it is given and
/// as many later ones as there are webhooks, one has an identifier that no
/// webhook of the registry has.
pub proof fn law_registration_finds_a_free_identifier(hooks: Seq<Hook>, stamp: u128)
    requires
        hooks.len() <= usize::MAX,
    ensures
        free_stamp(hooks, stamp, hooks.len()) is Some,
        !id_in_use(hooks, webhook_id(fresh_stamp(hooks, stamp) as nat)),
        !id_in_use(hooks, webhook_id(stamp as nat)) ==> fresh_stamp(hooks, stamp) == stamp,
{
    if free_stamp(hooks, stamp, hooks.len()) is None {
        lemma_no_free_stamp(hooks, stamp, hooks.len());
        let ids = Seq::new(hooks.len() + 1, |i: int| webhook_id(stamp_after(stamp, i as nat) as nat));
        assert forall|i: int, j: int| 0 <= i < ids.len() && 0 <= j < ids.len() && i != j implies ids[i]
            != ids[j] by {
            if ids[i] == ids[j] {
                lemma_hex_padded_differs(
                    stamp_after(stamp, i as nat) as nat,
                    stamp_after(stamp, j as nat) as nat,
                    16,
                );
            }
        }
        lemma_one_id_is_free(hooks, ids);
        let i = choose|i: int| 0 <= i < ids.len() && !id_in_use(hooks, #[trigger] ids[i]);
        assert(id_in_use(hooks, webhook_id(stamp_after(stamp, i as nat) as nat)));
    } else {
        lemma_free_stamp_is_free(hooks, stamp, hooks.len());
    }
}

/// The stamp that a search finds has a free identifier.
proof fn lemma_free_stamp_is_free(hooks: Seq<Hook>, stamp: u128, tries: nat)
    requires
        free_stamp(hooks, stamp, tries) is Some,
    ensures
        !id_in_use(hooks, webhook_id(free_stamp(hooks, stamp, tries).unwrap() as nat)),
    decreases tries,
{
    if id_in_use(hooks, webhook_id(stamp as nat)) && tries > 0 {
        lemma_free_stamp_is_free(hooks, stamp_after(stamp, 1), (tries - 1) as nat);
    }
}

/// Registers a webhook and hands back the new entry. Its identifier is made
/// from `stamp`, the time of the registration in nanoseconds; where a webhook
/// of the registry has that identifier already, from the first later stamp
/// whose identifier is free. So no two webhooks of a registry ever have the
/// same identifier.
pub fn register(hooks: &mut Vec<WebhookConfig>, stamp: u128, url: String, events: Vec<String>) -> (
    entry: WebhookConfig)
    ensures
        entry@ == (Hook {
            id: webhook_id(fresh_stamp(hooks_of(old(hooks)@), stamp) as nat),
            url: url@,
            events: texts(events@),
        }),
        hooks_of(final(hooks)@) == hooks_of(old(hooks)@).push(entry@),
        !id_in_use(hooks_of(old(hooks)@), entry@.id),
        ids_distinct(hooks_of(old(hooks)@)) ==> ids_distinct(hooks_of(final(hooks)@)),
{
    let mut candidate: u128 = stamp;
    let mut id = String::new();
    push_hex_padded(&mut id, candidate, WEBHOOK_ID_WIDTH);
    let count: usize = hooks.len();
    let ghost mut tries: nat = count as nat;
    proof {
        law_registration_finds_a_free_identifier(hooks_of(hooks@), stamp);
        assert(id@ =~= webhook_id(candidate as nat));
    }
    while has_id(hooks, id.as_str())
        invariant
            hooks@ == old(hooks)@,
            id@ == webhook_id(candidate as nat),
            free_stamp(hooks_of(hooks@), stamp, hooks@.len()) is Some,
            free_stamp(hooks_of(hooks@), stamp, hooks@.len()) == free_stamp(
                hooks_of(hooks@),
                candidate,
                tries,
            ),
        decreases tries,
    {
        proof {
            assert(tries > 0);
            tries = (tries - 1) as nat;
        }
        candidate = candidate.wrapping_add(1);
        id = String::new();
        push_hex_padded(&mut id, candidate, WEBHOOK_ID_WIDTH);
        assert(id@ =~= webhook_id(candidate as nat));
    }
    let entry = WebhookConfig { id, url, events };
    let copy = entry.clone();
    let ghost before = hooks_of(hooks@);
    hooks.push(entry);
    assert(hooks_of(hooks@) =~= before.push(copy@));
    assert(ids_distinct(before) ==> ids_distinct(hooks_of(hooks@))) by {
        if ids_distinct(before) {
            assert forall|i: int, j: int| 0 <= i < j < hooks_of(hooks@).len() implies hooks_of(
                hooks@,
            )[i].id != hooks_of(hooks@)[j].id by {
                assert(before[i] == hooks_of(hooks@)[i]);
                if j < before.len() {
                    assert(before[j] == hooks_of(hooks@)[j]);
                }
            }
        }
    }
    copy
}

/// A copy of every webhook of the registry, in the order of registration.
pub fn list(hooks: &Vec<WebhookConfig>) -> (copy: Vec<WebhookConfig>)
    ensures
        hooks_of(copy@) == hooks_of(hooks@),
{
    let mut copy: Vec<WebhookConfig> = Vec::new();
    let mut at: usize = 0;
    while at < hooks.len()
        invariant
            at <= hooks.len(),
            hooks_of(copy@) == hooks_of(hooks@).take(at as int),
        decreases hooks.len() - at,
    {
        let ghost before = hooks_of(copy@);
        copy.push(hooks[at].clone());
        at = at + 1;
        assert(hooks_of(copy@) =~= before.push(hooks@[at - 1]@));
        assert(hooks_of(copy@) =~= hooks_of(hooks@).take(at as int));
    }
    assert(hooks_of(hooks@).take(at as int) =~= hooks_of(hooks@));
    copy
}

/// The registry without the webhooks that have the identifier `id`.
pub open spec fn without(hooks: Seq<Hook>, id: Seq<char>) -> Seq<Hook>
    decreases hooks.len(),
{
    if hooks.len() == 0 {
        Seq::empty()
    } else if hooks.last().id == id {
        without(hooks.drop_last(), id)
    } else {
        without(hooks.drop_last(), id).push(hooks.last())
    }
}

/// What is left of a registry after a webhook was taken out stood in the
/// registry before, and nothing of it has the identifier that was taken out.
proof fn lemma_without_keeps_what_was_there(hooks: Seq<Hook>, id: Seq<char>)
    ensures
        forall|k: int|
            0 <= k < without(hooks, id).len() ==> hooks.contains(#[trigger] without(hooks, id)[k])
                && without(hooks, id)[k].id != id,
    decreases hooks.len(),
{
    if hooks.len() > 0 {
        lemma_without_keeps_what_was_there(hooks.drop_last(), id);
        let rest = without(hooks.drop_last(), id);
        assert forall|k: int| 0 <= k < without(hooks, id).len() implies hooks.contains(
            #[trigger] without(hooks, id)[k],
        ) && without(hooks, id)[k].id != id by {
            if k < rest.len() {
                assert(without(hooks, id)[k] == rest[k]);
                assert(hooks.drop_last().contains(rest[k]));
                let at = choose|at: int| 0 <= at < hooks.drop_last().len() && hooks.drop_last()[at] == rest[k];
                assert(hooks[at] == rest[k]);
            } else {
                assert(without(hooks, id)[k] == hooks.last());
                assert(hooks[hooks.len() - 1] == hooks.last());
            }
        }
    }
}

/// Taking a webhook out keeps the registry in order: the identifier that was
/// taken out is free afterwards, and where no two webhooks had the same
/// identifier before, none have afterwards.
pub proof fn law_deregistration_keeps_identifiers_apart(hooks: Seq<Hook>, id: Seq<char>)
    ensures
        !id_in_use(without(hooks, id), id),
        ids_distinct(hooks) ==> ids_distinct(without(hooks, id)),
    decreases hooks.len(),
{
    lemma_without_keeps_what_was_there(hooks, id);
    if hooks.len() > 0 {
        law_deregistration_keeps_identifiers_apart(hooks.drop_last(), id);
        lemma_without_keeps_what_was_there(hooks.drop_last(), id);
        let rest = without(hooks.drop_last(), id);
        if ids_distinct(hooks) {
            assert(ids_distinct(hooks.drop_last())) by {
                assert forall|i: int, j: int| 0 <= i < j < hooks.drop_last().len() implies hooks.drop_last()[i].id
                    != hooks.drop_last()[j].id by {
                    assert(hooks.drop_last()[i] == hooks[i]);
                    assert(hooks.drop_last()[j] == hooks[j]);
                }
            }
            assert forall|i: int, j: int| 0 <= i < j < without(hooks, id).len() implies without(
                hooks,
                id,
            )[i].id != without(hooks, id)[j].id by {
                if j < rest.len() {
                    assert(without(hooks, id)[i] == rest[i]);
                    assert(without(hooks, id)[j] == rest[j]);
                } else {
                    assert(without(hooks, id)[i] == rest[i]);
                    assert(without(hooks, id)[j] == hooks.last());
                    assert(hooks.drop_last().contains(rest[i]));
                    let at = choose|at: int|
                        0 <= at < hooks.drop_last().len() && hooks.drop_last()[at] == rest[i];
                    assert(hooks[at] == rest[i]);
                    assert(hooks[at].id != hooks[hooks.len() - 1].id);
                }
            }
        }
    }
}

/// Takes the webhook with the identifier `id` out of the registry, and tells
/// whether there was one.
pub fn deregister(hooks: &mut Vec<WebhookConfig>, id: &str) -> (found: bool)
    ensures
        found == id_in_use(hooks_of(old(hooks)@), id@),
        hooks_of(final(hooks)@) == without(hooks_of(old(hooks)@), id@),
        !id_in_use(hooks_of(final(hooks)@), id@),
        ids_distinct(hooks_of(old(hooks)@)) ==> ids_distinct(hooks_of(final(hooks)@)),
{
    proof {
        law_deregistration_keeps_identifiers_apart(hooks_of(hooks@), id@);
    }
    let mut kept: Vec<WebhookConfig> = Vec::new();
    let mut found = false;
    let mut at: usize = 0;
    while at < hooks.len()
        invariant
            at <= hooks.len(),
            hooks@ == old(hooks)@,
            hooks_of(kept@) == without(hooks_of(hooks@).take(at as int), id@),
            found == id_in_use(hooks_of(hooks@).take(at as int), id@),
        decreases hooks.len() - at,
    {
        let ghost before = hooks_of(kept@);
        let ghost seen = hooks_of(hooks@).take(at as int);
        assert(hooks_of(hooks@).take(at + 1).drop_last() =~= seen);
        assert(hooks_of(hooks@).take(at + 1).last() == hooks@[at as int]@);
        if same_text(hooks[at].id.as_str(), id) {
            found = true;
            assert(hooks_of(hooks@).take(at + 1)[at as int].id == id@);
        } else {
            kept.push(hooks[at].clone());
            assert(hooks_of(kept@) =~= before.push(hooks@[at as int]@));
            assert(id_in_use(hooks_of(hooks@).take(at + 1), id@) == id_in_use(seen, id@)) by {
                if id_in_use(hooks_of(hooks@).take(at + 1), id@) {
                    let k = choose|k: int|
                        0 <= k < at + 1 && (#[trigger] hooks_of(hooks@).take(at + 1)[k]).id == id@;
                    assert(seen[k].id == id@);
                }
                if id_in_use(seen, id@) {
                    let k = choose|k: int| 0 <= k < at && (#[trigger] seen[k]).id == id@;
                    assert(hooks_of(hooks@).take(at + 1)[k].id == id@);
                }
            }
        }
        at = at + 1;
    }
    assert(hooks_of(hooks@).take(at as int) =~= hooks_of(hooks@));
    *hooks = kept;
    found
}

} // verus!
