use signal_cli_api::events::{drain, feed_step, subscribe, FeedAction, FeedEvent, Polled};
use signal_cli_api::jsonrpc::LineOutcome;
use signal_cli_api::state::AppState;

fn hub(state: &AppState) -> &tokio::sync::broadcast::Sender<String> {
    state.broadcast_tx.as_ref().unwrap()
}

fn event(n: usize) -> String {
    format!("{{\"envelope\":{{\"dataMessage\":{{\"message\":\"m{}\"}}}}}}", n)
}

#[test]
fn one_event_reaches_every_subscriber() {
    let mut state = AppState::new();
    let mut subs = Vec::new();
    for _ in 0..5 {
        subs.push(state.subscribe().unwrap());
    }
    assert_eq!(state.on_line(&event(1)), LineOutcome::Published { receivers: 5 });
    for sub in subs.iter_mut() {
        let drained = drain(sub, hub(&state), 10);
        assert_eq!(drained.lines, vec![event(1)]);
        assert_eq!(drained.missed, 0);
        assert!(drained.complete);
    }
}

#[test]
fn events_arrive_in_the_order_of_publication() {
    let mut state = AppState::new();
    let mut sub = state.subscribe().unwrap();
    for n in 0..10 {
        state.on_line(&event(n));
    }
    let drained = drain(&mut sub, hub(&state), 100);
    let expected: Vec<String> = (0..10).map(event).collect();
    assert_eq!(drained.lines, expected);
    assert_eq!(drained.missed, 0);
    assert!(drained.complete);
}

#[test]
fn subscription_sees_only_what_is_published_after_it() {
    let mut state = AppState::new();
    let mut early = state.subscribe().unwrap();
    state.on_line(&event(1));
    let mut late = state.subscribe().unwrap();
    state.on_line(&event(2));
    assert_eq!(drain(&mut early, hub(&state), 10).lines, vec![event(1), event(2)]);
    assert_eq!(drain(&mut late, hub(&state), 10).lines, vec![event(2)]);
}

#[test]
fn stalled_subscriber_does_not_hold_the_others_back() {
    let mut state = AppState::new();
    let mut stalled = state.subscribe().unwrap();
    let mut reader = state.subscribe().unwrap();
    let mut seen = Vec::new();
    for n in 0..1000 {
        assert_eq!(state.on_line(&event(n)), LineOutcome::Published { receivers: 2 });
        let drained = drain(&mut reader, hub(&state), 10);
        assert_eq!(drained.missed, 0);
        seen.extend(drained.lines);
    }
    let expected: Vec<String> = (0..1000).map(event).collect();
    assert_eq!(seen, expected);
    assert_eq!(state.metrics.messages_received, 1000);

    // The one that did not read has lost the oldest events and is told so.
    let drained = drain(&mut stalled, hub(&state), 2000);
    assert_eq!(drained.missed, 1000 - 256);
    let kept: Vec<String> = (1000 - 256..1000).map(event).collect();
    assert_eq!(drained.lines, kept);
    assert!(drained.complete);
}

#[test]
fn the_channel_keeps_exactly_256_events() {
    let mut state = AppState::new();
    let mut exact = state.subscribe().unwrap();
    for n in 0..256 {
        state.on_line(&event(n));
    }
    let mut over = state.subscribe().unwrap();
    let drained = drain(&mut exact, hub(&state), 1000);
    assert_eq!(drained.missed, 0);
    assert_eq!(drained.lines.len(), 256);

    for n in 0..257 {
        state.on_line(&event(n));
    }
    let drained = drain(&mut over, hub(&state), 1000);
    assert_eq!(drained.missed, 1);
    assert_eq!(drained.lines.len(), 256);
    assert_eq!(drained.lines[0], event(1));
}

#[test]
fn drain_stops_after_the_given_number_of_looks() {
    let mut state = AppState::new();
    let mut sub = state.subscribe().unwrap();
    for n in 0..5 {
        state.on_line(&event(n));
    }
    let first = drain(&mut sub, hub(&state), 2);
    assert_eq!(first.lines, vec![event(0), event(1)]);
    assert!(!first.complete);
    let none = drain(&mut sub, hub(&state), 0);
    assert!(none.lines.is_empty());
    assert!(!none.complete);
    let rest = drain(&mut sub, hub(&state), 10);
    assert_eq!(rest.lines, vec![event(2), event(3), event(4)]);
    assert!(rest.complete);
    let again = drain(&mut sub, hub(&state), 10);
    assert!(again.lines.is_empty());
    assert!(again.complete);
}

#[test]
fn subscribe_on_the_channel_directly() {
    let mut state = AppState::new();
    let mut sub = subscribe(hub(&state));
    state.on_line(&event(7));
    assert_eq!(drain(&mut sub, hub(&state), 3).lines, vec![event(7)]);
}

#[test]
fn dropped_subscription_does_not_disturb_the_rest() {
    let mut state = AppState::new();
    let gone = state.subscribe().unwrap();
    let mut stays = state.subscribe().unwrap();
    drop(gone);
    assert_eq!(state.on_line(&event(1)), LineOutcome::Published { receivers: 1 });
    assert_eq!(drain(&mut stays, hub(&state), 3).lines, vec![event(1)]);
}

#[test]
fn feed_forwards_lines_and_passes_over_gaps() {
    assert_eq!(
        feed_step(FeedEvent::Channel(Polled::Event("x".to_string()))),
        FeedAction::Forward("x".to_string())
    );
    assert_eq!(feed_step(FeedEvent::Channel(Polled::Lagged(12))), FeedAction::Wait);
    assert_eq!(feed_step(FeedEvent::Channel(Polled::Empty)), FeedAction::Wait);
    assert_eq!(feed_step(FeedEvent::ClientSpoke), FeedAction::Wait);
}

#[test]
fn feed_ends_when_channel_or_client_is_gone() {
    assert_eq!(feed_step(FeedEvent::Channel(Polled::Closed)), FeedAction::Stop);
    assert_eq!(feed_step(FeedEvent::WriteFailed), FeedAction::Stop);
    assert_eq!(feed_step(FeedEvent::ClientLeft), FeedAction::Stop);
}

#[test]
fn drain_reads_to_the_end_with_exactly_the_looks_needed() {
    let mut state = AppState::new();
    let mut sub = state.subscribe().unwrap();
    for n in 0..3 {
        state.on_line(&event(n));
    }
    // Three lines take four looks: the last one finds nothing more.
    let short = drain(&mut sub, hub(&state), 3);
    assert_eq!(short.lines.len(), 3);
    assert!(!short.complete);
    let last = drain(&mut sub, hub(&state), 1);
    assert!(last.lines.is_empty());
    assert!(last.complete);

    let mut whole = state.subscribe().unwrap();
    for n in 0..3 {
        state.on_line(&event(n));
    }
    let done = drain(&mut whole, hub(&state), 4);
    assert_eq!(done.lines, vec![event(0), event(1), event(2)]);
    assert!(done.complete);
}

#[test]
fn drain_counts_the_notice_of_lost_lines_as_one_look() {
    let mut state = AppState::new();
    let mut sub = state.subscribe().unwrap();
    for n in 0..260 {
        state.on_line(&event(n));
    }
    let first = drain(&mut sub, hub(&state), 1);
    assert_eq!(first.missed, 4);
    assert!(first.lines.is_empty());
    assert!(!first.complete);
    let next = drain(&mut sub, hub(&state), 2);
    assert_eq!(next.missed, 0);
    assert_eq!(next.lines, vec![event(4), event(5)]);

    let mut other = state.subscribe().unwrap();
    for n in 0..260 {
        state.on_line(&event(n));
    }
    // 256 lines, one notice and the look that finds nothing: 258 looks.
    let almost = drain(&mut other, hub(&state), 257);
    assert_eq!(almost.missed, 4);
    assert_eq!(almost.lines.len(), 256);
    assert!(!almost.complete);
}

#[test]
fn one_line_is_read_with_ten_looks() {
    let mut state = AppState::new();
    let mut sub = state.subscribe().unwrap();
    state.on_line(&event(1));
    let done = drain(&mut sub, hub(&state), 10);
    assert_eq!(done.lines.len(), 1);
    assert!(done.complete);
    assert_eq!(done.missed, 0);
}
