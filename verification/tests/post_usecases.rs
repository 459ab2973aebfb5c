//! Post lifecycle use cases over the in-memory store.

use echo_backend::errors::AppError;
use echo_backend::memory::MemoryStore;
use echo_backend::repos::{PostRepository, UserRepository};
use echo_backend::streams::PostStreamManager;
use echo_backend::topics::RecvOutcome;
use echo_backend::usecases::posts::{
    CreatePostUseCase, EchoPostUseCase, GetMyPostsUseCase, GetTimelineUseCase,
    IncrementDisplayCountUseCase,
};

const THRESHOLD: i32 = 100;

fn store_with_user(name: &str) -> (MemoryStore, u128) {
    let mut store = MemoryStore::new(THRESHOLD);
    let user = store.create_user(name.to_string(), None).unwrap();
    (store, user.id)
}

#[test]
fn test_create_post_success() {
    let (store, user_id) = store_with_user("TestUser");
    let mut use_case = CreatePostUseCase::new(store, PostStreamManager::new());

    let result = use_case.execute("Test post content".to_string(), None, user_id);

    assert!(result.is_ok());
    assert!(result.unwrap());

    let posts = use_case.store.find_by_user_id(user_id);
    assert_eq!(posts.len(), 1);
    assert_eq!(posts[0].content.value(), "Test post content");
}

#[test]
fn test_create_post_with_image() {
    let (store, user_id) = store_with_user("TestUser");
    let mut use_case = CreatePostUseCase::new(store, PostStreamManager::new());

    let result = use_case.execute(
        "Test post with image".to_string(),
        Some("https://example.com/image.jpg".to_string()),
        user_id,
    );

    assert!(result.is_ok());

    let posts = use_case.store.find_by_user_id(user_id);
    assert_eq!(posts.len(), 1);
    assert_eq!(
        posts[0].image_url,
        Some("https://example.com/image.jpg".to_string())
    );
}

#[test]
fn test_create_post_with_empty_content() {
    let (store, user_id) = store_with_user("TestUser");
    let mut use_case = CreatePostUseCase::new(store, PostStreamManager::new());

    let result = use_case.execute("".to_string(), None, user_id);

    assert!(result.is_err());
}

#[test]
fn test_create_post_with_too_long_content() {
    let (store, user_id) = store_with_user("TestUser");
    let mut use_case = CreatePostUseCase::new(store, PostStreamManager::new());

    let long_content = "a".repeat(1001);
    let result = use_case.execute(long_content, None, user_id);

    assert!(result.is_err());
}

#[test]
fn test_create_post_boundary_lengths() {
    // A thousand-character body is accepted; one character more is a
    // validation error, no row is persisted, and no event is published.
    let (store, user_id) = store_with_user("TestUser");
    let mut use_case = CreatePostUseCase::new(store, PostStreamManager::new());

    let ok = use_case.execute("a".repeat(1000), None, user_id);
    assert!(ok.is_ok());

    let watcher = use_case.post_stream_manager.subscribe();
    let rejected = use_case.execute("a".repeat(1001), None, user_id);
    match rejected {
        Err(AppError::Validation(_)) => {}
        _ => panic!("expected a validation error"),
    }
    assert_eq!(use_case.store.find_by_user_id(user_id).len(), 1);
    assert!(matches!(
        use_case.post_stream_manager.recv(watcher),
        RecvOutcome::Empty
    ));
}

#[test]
fn test_create_post_publishes_new_post_event() {
    let (store, user_id) = store_with_user("TestUser");
    let mut use_case = CreatePostUseCase::new(store, PostStreamManager::new());

    let watcher = use_case.post_stream_manager.subscribe();
    use_case
        .execute("Hello".to_string(), None, user_id)
        .unwrap();

    match use_case.post_stream_manager.recv(watcher) {
        RecvOutcome::Event(echo_backend::events::PostEvent::NewPost { content, .. }) => {
            assert_eq!(content, "Hello");
        }
        _ => panic!("expected a NewPost event"),
    }
}

#[test]
fn test_get_timeline_empty() {
    let store = MemoryStore::new(THRESHOLD);
    let mut use_case = GetTimelineUseCase::new(store);

    let result = use_case.execute(10, None);

    assert!(result.is_ok());
    let timeline = result.unwrap();
    assert_eq!(timeline.len(), 0);
}

#[test]
fn test_get_timeline_with_posts() {
    let (store, user_id) = store_with_user("TestUser");
    let mut create = CreatePostUseCase::new(store, PostStreamManager::new());

    create.execute("Post 1".to_string(), None, user_id).unwrap();
    create.execute("Post 2".to_string(), None, user_id).unwrap();
    create.execute("Post 3".to_string(), None, user_id).unwrap();

    let mut timeline_use_case = GetTimelineUseCase::new(create.store);
    let result = timeline_use_case.execute(10, None);

    assert!(result.is_ok());
    let timeline = result.unwrap();
    assert_eq!(timeline.len(), 3);
}

#[test]
fn test_get_timeline_respects_limit() {
    let (store, user_id) = store_with_user("TestUser");
    let mut create = CreatePostUseCase::new(store, PostStreamManager::new());

    for i in 0..5 {
        create
            .execute(format!("Post {}", i), None, user_id)
            .unwrap();
    }

    let mut timeline_use_case = GetTimelineUseCase::new(create.store);
    let result = timeline_use_case.execute(3, None);

    assert!(result.is_ok());
    let timeline = result.unwrap();
    assert_eq!(timeline.len(), 3);
}

#[test]
fn test_get_timeline_excludes_own_posts() {
    let (store, author) = store_with_user("Author");
    let mut create = CreatePostUseCase::new(store, PostStreamManager::new());
    create.execute("Mine".to_string(), None, author).unwrap();

    let mut timeline_use_case = GetTimelineUseCase::new(create.store);
    let own_view = timeline_use_case.execute(10, Some(author)).unwrap();
    assert_eq!(own_view.len(), 0);
    let other_view = timeline_use_case.execute(10, Some(author + 1)).unwrap();
    assert_eq!(other_view.len(), 1);
}

#[test]
fn test_get_timeline_counts_views() {
    let (store, user_id) = store_with_user("TestUser");
    let mut create = CreatePostUseCase::new(store, PostStreamManager::new());
    create.execute("Once".to_string(), None, user_id).unwrap();
    let post_id = create.store.find_by_user_id(user_id)[0].id;

    let mut timeline_use_case = GetTimelineUseCase::new(create.store);
    timeline_use_case.execute(10, None).unwrap();

    let post = PostRepository::find_by_id(&timeline_use_case.store, post_id).unwrap();
    assert_eq!(post.display_count.value(), 1);
}

#[test]
fn test_increment_display_count_success() {
    let (store, user_id) = store_with_user("TestUser");
    let mut create = CreatePostUseCase::new(store, PostStreamManager::new());
    create
        .execute("Test post".to_string(), None, user_id)
        .unwrap();

    let posts = create.store.find_by_user_id(user_id);
    let post_id = posts[0].id;

    let mut increment_use_case = IncrementDisplayCountUseCase::new(create.store);
    let result = increment_use_case.execute(post_id);

    assert!(result.is_ok());
    assert!(result.unwrap());

    let post = PostRepository::find_by_id(&increment_use_case.store, post_id).unwrap();
    assert_eq!(post.display_count.value(), 1);
}

#[test]
fn test_increment_display_count_deletes_after_100() {
    let (store, user_id) = store_with_user("TestUser");
    let mut create = CreatePostUseCase::new(store, PostStreamManager::new());
    create
        .execute("Test post".to_string(), None, user_id)
        .unwrap();

    let posts = create.store.find_by_user_id(user_id);
    let post_id = posts[0].id;

    let mut increment_use_case = IncrementDisplayCountUseCase::new(create.store);
    for _ in 0..100 {
        increment_use_case.execute(post_id).unwrap();
    }

    // The post left circulation: it is marked invalid and no longer
    // served anywhere.
    let post = PostRepository::find_by_id(&increment_use_case.store, post_id).unwrap();
    assert!(!post.valid);
    assert_eq!(
        increment_use_case.store.find_available(10, None).len(),
        0
    );
}

#[test]
fn test_increment_display_count_not_found() {
    let store = MemoryStore::new(THRESHOLD);
    let mut increment_use_case = IncrementDisplayCountUseCase::new(store);

    let result = increment_use_case.execute(0xdead_beef);

    assert!(result.is_ok());
    assert_eq!(result.unwrap(), false);
}

#[test]
fn test_post_expires_at_threshold_ten() {
    // With a threshold of ten: nine views leave the post eligible and
    // retrievable; the tenth marks it invalid, and the timeline never
    // returns it again.
    let mut store = MemoryStore::new(10);
    let user = store.create_user("TestUser".to_string(), None).unwrap();
    let mut create = CreatePostUseCase::new(store, PostStreamManager::new());
    create.execute("Short-lived".to_string(), None, user.id).unwrap();
    let post_id = create.store.find_by_user_id(user.id)[0].id;

    let mut increment = IncrementDisplayCountUseCase::new(create.store);
    for _ in 0..9 {
        increment.execute(post_id).unwrap();
    }
    let after_nine = PostRepository::find_by_id(&increment.store, post_id).unwrap();
    assert!(after_nine.valid);
    assert_eq!(increment.store.find_available(10, None).len(), 1);

    increment.execute(post_id).unwrap();
    let after_ten = PostRepository::find_by_id(&increment.store, post_id).unwrap();
    assert!(!after_ten.valid);

    let mut timeline = GetTimelineUseCase::new(increment.store);
    assert_eq!(timeline.execute(10, None).unwrap().len(), 0);
    assert_eq!(timeline.execute(10, None).unwrap().len(), 0);
}

#[test]
fn test_timeline_returns_every_post_under_limit() {
    // The shuffle reorders but never drops or duplicates.
    let (store, user_id) = store_with_user("TestUser");
    let mut create = CreatePostUseCase::new(store, PostStreamManager::new());
    for i in 0..5 {
        create
            .execute(format!("Post {}", i), None, user_id)
            .unwrap();
    }
    let mut ids: Vec<u128> = create
        .store
        .find_by_user_id(user_id)
        .iter()
        .map(|p| p.id)
        .collect();
    ids.sort();

    let mut timeline = GetTimelineUseCase::new(create.store);
    let mut served: Vec<u128> = timeline
        .execute(10, None)
        .unwrap()
        .iter()
        .map(|d| d.id)
        .collect();
    served.sort();
    assert_eq!(ids, served);
}

#[test]
fn test_echo_post() {
    let (store, user_id) = store_with_user("TestUser");
    let mut create = CreatePostUseCase::new(store, PostStreamManager::new());
    create.execute("Echoed".to_string(), None, user_id).unwrap();
    let post_id = create.store.find_by_user_id(user_id)[0].id;

    let mut echo = EchoPostUseCase::new(create.store);
    assert!(echo.execute(post_id).unwrap());
    assert!(echo.execute(post_id).unwrap());
    // Echoing a missing post is an error; echoes never touch the post.
    assert!(echo.execute(0xdead_beef).is_err());
    let post = PostRepository::find_by_id(&echo.store, post_id).unwrap();
    assert_eq!(post.display_count.value(), 0);
    assert!(post.valid);
}

#[test]
fn test_get_my_posts() {
    let (store, user_id) = store_with_user("TestUser");
    let mut create = CreatePostUseCase::new(store, PostStreamManager::new());
    create.execute("Mine".to_string(), None, user_id).unwrap();

    let use_case = GetMyPostsUseCase::new(create.store);
    let dtos = use_case.execute(user_id).unwrap();
    assert_eq!(dtos.len(), 1);
    assert_eq!(dtos[0].content, "Mine");
    assert_eq!(dtos[0].author_name, "TestUser");

    let missing = use_case.execute(0xdead_beef);
    assert!(matches!(missing, Err(AppError::NotFound(_))));
}
