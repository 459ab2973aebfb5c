//! The event streams: the global post topic and the per-owner reaction
//! topics.

use echo_backend::entities::ReactionType;
use echo_backend::events::PostEvent;
use echo_backend::streams::{PostStreamManager, ReactionStreamManager};
use echo_backend::topics::RecvOutcome;

fn id_text(id: u128) -> String {
    uuid::Uuid::from_u128(id).to_string()
}

#[test]
fn post_stream_test_subscribe_and_broadcast() {
    let mut manager = PostStreamManager::new();
    let post_id: u128 = 11;
    let user_id: u128 = 22;

    let receiver = manager.subscribe();

    let event = PostEvent::new_post(
        post_id,
        user_id,
        "Test content".to_string(),
        None,
        0,
        1_700_000_000,
        "TestUser".to_string(),
        "https://example.com/avatar.png".to_string(),
    );
    manager.broadcast(event).unwrap();

    let received = manager.recv(receiver);
    match received {
        RecvOutcome::Event(PostEvent::NewPost { post_id: id, .. }) => {
            assert_eq!(id, id_text(post_id));
        }
        _ => panic!("Expected NewPost event"),
    }
}

#[test]
fn post_stream_test_multiple_subscribers() {
    let mut manager = PostStreamManager::new();
    let post_id: u128 = 33;

    let receiver1 = manager.subscribe();
    let receiver2 = manager.subscribe();

    let event = PostEvent::post_deleted(post_id);
    manager.broadcast(event).unwrap();

    let event1 = manager.recv(receiver1);
    let event2 = manager.recv(receiver2);

    match (event1, event2) {
        (
            RecvOutcome::Event(PostEvent::PostDeleted { post_id: id1 }),
            RecvOutcome::Event(PostEvent::PostDeleted { post_id: id2 }),
        ) => {
            assert_eq!(id1, id2);
            assert_eq!(id1, id_text(post_id));
        }
        _ => panic!("Expected PostDeleted events"),
    }
}

#[test]
fn post_stream_late_subscriber_sees_nothing() {
    let mut manager = PostStreamManager::new();
    manager.broadcast(PostEvent::post_deleted(1)).unwrap();
    let late = manager.subscribe();
    assert!(matches!(manager.recv(late), RecvOutcome::Empty));
}

#[test]
fn post_stream_subscriber_before_publish_receives_exactly_once() {
    let mut manager = PostStreamManager::new();
    let early = manager.subscribe();
    manager.broadcast(PostEvent::post_deleted(5)).unwrap();
    assert!(matches!(
        manager.recv(early),
        RecvOutcome::Event(PostEvent::PostDeleted { .. })
    ));
    // Exactly one matching event: nothing further is pending.
    assert!(matches!(manager.recv(early), RecvOutcome::Empty));
}

#[test]
fn reaction_stream_test_subscribe_and_broadcast() {
    let mut manager = ReactionStreamManager::new();
    let user_id: u128 = 44;
    let post_id: u128 = 55;
    let reactor_id: u128 = 66;

    let receiver = manager.subscribe(user_id);

    manager
        .broadcast_reaction(user_id, post_id, reactor_id, ReactionType::Laugh)
        .unwrap();

    match manager.recv(user_id, receiver) {
        RecvOutcome::Event(event) => {
            assert_eq!(event.post_id, id_text(post_id));
            assert_eq!(event.reaction_type, "laugh");
        }
        _ => panic!("expected a reaction event"),
    }
}

#[test]
fn reaction_stream_test_multiple_subscribers() {
    let mut manager = ReactionStreamManager::new();
    let user_id: u128 = 77;
    let post_id: u128 = 88;
    let reactor_id: u128 = 99;

    let receiver1 = manager.subscribe(user_id);
    let receiver2 = manager.subscribe(user_id);

    manager
        .broadcast_reaction(user_id, post_id, reactor_id, ReactionType::Surprise)
        .unwrap();

    let event1 = match manager.recv(user_id, receiver1) {
        RecvOutcome::Event(e) => e,
        _ => panic!("expected a reaction event"),
    };
    let event2 = match manager.recv(user_id, receiver2) {
        RecvOutcome::Event(e) => e,
        _ => panic!("expected a reaction event"),
    };
    assert_eq!(event1.post_id, event2.post_id);
    assert_eq!(event1.reaction_type, "surprise");
}

#[test]
fn reaction_stream_is_isolated_per_owner() {
    let mut manager = ReactionStreamManager::new();
    let owner: u128 = 1;
    let other: u128 = 2;

    let own_receiver = manager.subscribe(owner);
    let other_receiver = manager.subscribe(other);

    manager
        .broadcast_reaction(owner, 10, 20, ReactionType::Sad)
        .unwrap();

    // Only the owner's subscriber receives the event.
    assert!(matches!(
        manager.recv(owner, own_receiver),
        RecvOutcome::Event(_)
    ));
    assert!(matches!(
        manager.recv(other, other_receiver),
        RecvOutcome::Empty
    ));
}

#[test]
fn reaction_stream_publish_without_subscribers_is_silent() {
    let mut manager = ReactionStreamManager::new();
    // Nobody ever subscribed under this owner: the publish succeeds and is
    // discarded.
    assert!(manager
        .broadcast_reaction(123, 10, 20, ReactionType::Laugh)
        .is_ok());
}

#[test]
fn dropped_subscriber_does_not_stop_the_others() {
    let mut manager = PostStreamManager::new();
    let dropped = manager.subscribe();
    let kept = manager.subscribe();
    manager.unsubscribe(dropped);

    manager.broadcast(PostEvent::post_deleted(2)).unwrap();
    assert!(matches!(
        manager.recv(kept),
        RecvOutcome::Event(PostEvent::PostDeleted { .. })
    ));
}

#[test]
fn reaction_stream_slow_subscriber_sees_gap_marker() {
    let mut manager = ReactionStreamManager::new();
    let owner: u128 = 9;
    let receiver = manager.subscribe(owner);

    // The per-owner buffer retains one hundred events; publish a few more.
    for i in 0..105u128 {
        manager
            .broadcast_reaction(owner, i, 20, ReactionType::Laugh)
            .unwrap();
    }
    match manager.recv(owner, receiver) {
        RecvOutcome::Lagged(n) => assert_eq!(n, 5),
        _ => panic!("expected a gap marker"),
    }
    // After the gap the subscriber keeps consuming what is retained.
    assert!(matches!(
        manager.recv(owner, receiver),
        RecvOutcome::Event(_)
    ));
}
