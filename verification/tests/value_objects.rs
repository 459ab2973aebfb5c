//! Value objects and entities: reaction kinds, counters, names, bodies.

use echo_backend::entities::{Reaction, ReactionType};
use echo_backend::errors::ValidationError;
use echo_backend::values::{DisplayCount, DisplayName, PostContent};

#[test]
fn test_reaction_type_as_str() {
    assert_eq!(ReactionType::Surprise.as_str(), "surprise");
    assert_eq!(ReactionType::Empathy.as_str(), "empathy");
    assert_eq!(ReactionType::Laugh.as_str(), "laugh");
    assert_eq!(ReactionType::Sad.as_str(), "sad");
    assert_eq!(ReactionType::Confused.as_str(), "confused");
}

#[test]
fn test_reaction_type_from_str() {
    assert_eq!(
        "surprise".parse::<ReactionType>().unwrap(),
        ReactionType::Surprise
    );
    assert_eq!(
        "empathy".parse::<ReactionType>().unwrap(),
        ReactionType::Empathy
    );
    assert_eq!("laugh".parse::<ReactionType>().unwrap(), ReactionType::Laugh);
    assert_eq!("sad".parse::<ReactionType>().unwrap(), ReactionType::Sad);
    assert_eq!(
        "confused".parse::<ReactionType>().unwrap(),
        ReactionType::Confused
    );
    assert!("invalid".parse::<ReactionType>().is_err());
}

#[test]
fn test_reaction_type_parse_error_message() {
    let err = "invalid".parse::<ReactionType>().unwrap_err();
    assert_eq!(err, "Invalid reaction type: invalid");
}

#[test]
fn test_reaction_type_all() {
    let all = ReactionType::all();
    assert_eq!(all.len(), 5);
    assert_eq!(all[0], ReactionType::Surprise);
    assert_eq!(all[4], ReactionType::Confused);
}

#[test]
fn test_new_reaction() {
    let post_id: u128 = 0x1111_2222_3333_4444_5555_6666_7777_8888;
    let user_id: u128 = 0x9999_aaaa_bbbb_cccc_dddd_eeee_ffff_0000;
    let reaction = Reaction::new(post_id, user_id, ReactionType::Laugh);

    assert_eq!(reaction.post_id, post_id);
    assert_eq!(reaction.user_id, user_id);
    assert_eq!(reaction.reaction_type, ReactionType::Laugh);
}

#[test]
fn test_new_display_count() {
    let count = DisplayCount::new();
    assert_eq!(count.value(), 0);
}

#[test]
fn test_default_display_count() {
    let count = DisplayCount::default();
    assert_eq!(count.value(), 0);
}

#[test]
fn test_from_value() {
    for value in [0, 5, 10, 100] {
        let count = DisplayCount::from_value(value);
        assert_eq!(count.value(), value);
    }
}

#[test]
fn test_increment() {
    let mut count = DisplayCount::new();
    count.increment();
    assert_eq!(count.value(), 1);
    count.increment();
    assert_eq!(count.value(), 2);
}

#[test]
fn test_is_expired() {
    for (value, expected) in [
        (0, false),
        (5, false),
        (9, false),
        (10, false),
        (50, false),
        (99, false),
        (100, true),
        (101, true),
    ] {
        let count = DisplayCount::from_value(value);
        assert_eq!(count.is_expired(), expected);
    }
}

#[test]
fn test_increment_until_expired() {
    let mut count = DisplayCount::new();
    assert!(!count.is_expired());
    for _ in 0..100 {
        count.increment();
    }
    assert!(count.is_expired());
}

#[test]
fn test_new_display_name() {
    for input in ["TestUser", "Anonymous", "User123"] {
        let name = DisplayName::new(input.to_string());
        assert_eq!(name.value(), input);
    }
}

#[test]
fn test_new_valid_content() {
    for input in ["Valid content", "a", "Short"] {
        let content = PostContent::new(input.to_string());
        assert!(content.is_ok());
        assert_eq!(content.unwrap().value(), input);
    }
}

#[test]
fn test_new_valid_max_length_content() {
    let input = "A".repeat(1000);
    let content = PostContent::new(input.clone());
    assert!(content.is_ok());
    assert_eq!(content.unwrap().value(), input);
}

#[test]
fn test_new_empty_content() {
    let content = PostContent::new("".to_string());
    assert!(matches!(content, Err(ValidationError::EmptyContent)));
}

#[test]
fn test_new_too_long_content() {
    for length in [1001usize, 1500, 2000] {
        let long_content = "a".repeat(length);
        let content = PostContent::new(long_content);
        assert!(matches!(
            content,
            Err(ValidationError::ContentTooLong { .. })
        ));
    }
}

#[test]
fn test_content_length_counts_characters() {
    // One thousand multi-byte characters are within the limit even though
    // the byte length is far above it.
    let input: String = std::iter::repeat('\u{3042}').take(1000).collect();
    assert!(PostContent::new(input).is_ok());
    let over: String = std::iter::repeat('\u{3042}').take(1001).collect();
    assert!(PostContent::new(over).is_err());
}
