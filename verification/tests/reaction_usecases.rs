//! Reaction use cases: upsert-replace semantics, counts, the latest
//! reaction, and the derived expression state.

use echo_backend::entities::ReactionType;
use echo_backend::memory::MemoryStore;
use echo_backend::repos::{PostRepository, UserRepository};
use echo_backend::streams::{PostStreamManager, ReactionStreamManager};
use echo_backend::topics::RecvOutcome;
use echo_backend::usecases::posts::CreatePostUseCase;
use echo_backend::usecases::reactions::{
    AddReactionUseCase, GetPostReactionsUseCase, GetUserExpressionStateUseCase,
    GetUserLatestReactionUseCase, RemoveReactionUseCase,
};

const THRESHOLD: i32 = 100;

/// A store holding one owner and one of their posts.
fn store_with_post() -> (MemoryStore, u128, u128) {
    let mut store = MemoryStore::new(THRESHOLD);
    let owner = store.create_user("Owner".to_string(), None).unwrap();
    let mut create = CreatePostUseCase::new(store, PostStreamManager::new());
    create
        .execute("A post".to_string(), None, owner.id)
        .unwrap();
    let post_id = create.store.find_by_user_id(owner.id)[0].id;
    (create.store, owner.id, post_id)
}

#[test]
fn test_expression_state_calculation() {
    let reaction_counts = vec![
        (ReactionType::Laugh, 15),
        (ReactionType::Empathy, 8),
        (ReactionType::Surprise, 3),
    ];

    let total: i64 = reaction_counts.iter().map(|(_, count)| count).sum();
    assert_eq!(total, 26);

    let dominant = reaction_counts
        .iter()
        .max_by_key(|(_, count)| count)
        .map(|(rt, _)| *rt);
    assert_eq!(dominant, Some(ReactionType::Laugh));

    let intensity = (total as f32 / 100.0).min(1.0);
    assert_eq!(intensity, 0.26);
}

#[test]
fn test_expression_state_through_store() {
    // 15 laughs, 8 empathies, 3 surprises from distinct reactors.
    let (store, owner, post_id) = store_with_post();
    let mut add = AddReactionUseCase::new(store, ReactionStreamManager::new());
    let mut reactor: u128 = 1000;
    for _ in 0..15 {
        add.execute(post_id, reactor, ReactionType::Laugh).unwrap();
        reactor += 1;
    }
    for _ in 0..8 {
        add.execute(post_id, reactor, ReactionType::Empathy).unwrap();
        reactor += 1;
    }
    for _ in 0..3 {
        add.execute(post_id, reactor, ReactionType::Surprise)
            .unwrap();
        reactor += 1;
    }

    let state_use_case = GetUserExpressionStateUseCase::new(add.store);
    let state = state_use_case.execute(owner).unwrap();
    assert_eq!(state.total_reactions, 26);
    assert_eq!(state.dominant_expression, Some(ReactionType::Laugh));
    assert_eq!(state.intensity_percent, 26);
    assert_eq!(state.intensity_percent as f32 / 100.0, 0.26);
}

#[test]
fn test_reacting_twice_replaces() {
    // The same (post, user) pair reacting first Laugh then Sad ends with
    // exactly one stored reaction, of the later kind.
    let (store, owner, post_id) = store_with_post();
    let reactor: u128 = 7;
    let mut add = AddReactionUseCase::new(store, ReactionStreamManager::new());

    add.execute(post_id, reactor, ReactionType::Laugh).unwrap();
    add.execute(post_id, reactor, ReactionType::Sad).unwrap();

    let counts_use_case = GetPostReactionsUseCase::new(add.store);
    let counts = counts_use_case.execute(post_id).unwrap();
    assert_eq!(counts.len(), 1);
    assert_eq!(counts[0].reaction_type, ReactionType::Sad);
    assert_eq!(counts[0].count, 1);

    let latest = GetUserLatestReactionUseCase::new(counts_use_case.store);
    assert_eq!(latest.execute(owner).unwrap(), Some(ReactionType::Sad));
}

#[test]
fn test_reaction_counts_exact() {
    let (store, _owner, post_id) = store_with_post();
    let mut add = AddReactionUseCase::new(store, ReactionStreamManager::new());
    add.execute(post_id, 1, ReactionType::Laugh).unwrap();
    add.execute(post_id, 2, ReactionType::Laugh).unwrap();
    add.execute(post_id, 3, ReactionType::Sad).unwrap();

    let counts_use_case = GetPostReactionsUseCase::new(add.store);
    let mut counts = counts_use_case.execute(post_id).unwrap();
    counts.sort_by_key(|c| c.count);
    assert_eq!(counts.len(), 2);
    assert_eq!(counts[0].reaction_type, ReactionType::Sad);
    assert_eq!(counts[0].count, 1);
    assert_eq!(counts[1].reaction_type, ReactionType::Laugh);
    assert_eq!(counts[1].count, 2);
}

#[test]
fn test_remove_reaction_is_idempotent() {
    let (store, _owner, post_id) = store_with_post();
    let mut add = AddReactionUseCase::new(store, ReactionStreamManager::new());
    add.execute(post_id, 1, ReactionType::Laugh).unwrap();

    let mut remove = RemoveReactionUseCase::new(add.store);
    assert!(remove.execute(post_id, 1).unwrap());
    // Removing again is not an error.
    assert!(remove.execute(post_id, 1).unwrap());

    let counts_use_case = GetPostReactionsUseCase::new(remove.store);
    assert_eq!(counts_use_case.execute(post_id).unwrap().len(), 0);
}

#[test]
fn test_reaction_event_reaches_only_owner() {
    // The reaction lands on the post owner's stream and on nobody
    // else's.
    let (mut store, owner, post_id) = store_with_post();
    let bystander = store.create_user("Bystander".to_string(), None).unwrap();

    let mut streams = ReactionStreamManager::new();
    let owner_receiver = streams.subscribe(owner);
    let bystander_receiver = streams.subscribe(bystander.id);

    let mut add = AddReactionUseCase::new(store, streams);
    add.execute(post_id, 5, ReactionType::Confused).unwrap();

    match add.stream_manager.recv(owner, owner_receiver) {
        RecvOutcome::Event(event) => {
            assert_eq!(event.reaction_type, "confused");
            assert_eq!(event.latest_reaction_for_author, "confused");
        }
        _ => panic!("expected the owner to receive the reaction event"),
    }
    assert!(matches!(
        add.stream_manager.recv(bystander.id, bystander_receiver),
        RecvOutcome::Empty
    ));
}

#[test]
fn test_latest_reaction_empty() {
    let store = MemoryStore::new(THRESHOLD);
    let latest = GetUserLatestReactionUseCase::new(store);
    assert_eq!(latest.execute(1).unwrap(), None);
}
