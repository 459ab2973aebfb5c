//! Data-transfer shapes handed across the library boundary: the post view
//! with author data, the request/response shapes of the API layer, and the
//! API-facing copy of the reaction kind.

use vstd::prelude::*;

verus! {

use crate::entities::{clone_opt_string, Post, ReactionType};

/// A post as handed to clients: identity, body and author presentation.
#[derive(Debug)]
pub struct PostDto {
    pub id: u128,
    pub user_id: u128,
    pub content: String,
    pub image_url: Option<String>,
    pub author_name: String,
    pub author_avatar: String,
}

impl Clone for PostDto {
    fn clone(&self) -> (r: Self)
        ensures
            r == *self,
    {
        PostDto {
            id: self.id,
            user_id: self.user_id,
            content: self.content.clone(),
            image_url: clone_opt_string(&self.image_url),
            author_name: self.author_name.clone(),
            author_avatar: self.author_avatar.clone(),
        }
    }
}

impl PostDto {
    /// A post view carrying its author's presentation.
    pub fn new(post: Post, author_name: String, author_avatar: String) -> (r: PostDto)
        ensures
            r.id == post.id,
            r.user_id == post.user_id,
            r.content@ == post.content@,
            r.image_url == post.image_url,
            r.author_name == author_name,
            r.author_avatar == author_avatar,
    {
        PostDto {
            id: post.id,
            user_id: post.user_id,
            content: post.content.value().to_owned(),
            image_url: post.image_url,
            author_name,
            author_avatar,
        }
    }

    /// A post view without author data (the fallback when the author row
    /// is gone).
    pub fn from(post: Post) -> (r: PostDto)
        ensures
            r.id == post.id,
            r.user_id == post.user_id,
            r.content@ == post.content@,
            r.image_url == post.image_url,
            r.author_name@ == Seq::<char>::empty(),
            r.author_avatar@ == Seq::<char>::empty(),
    {
        PostDto {
            id: post.id,
            user_id: post.user_id,
            content: post.content.value().to_owned(),
            image_url: post.image_url,
            author_name: String::new(),
            author_avatar: String::new(),
        }
    }
}

/// The request shape of a post creation.
#[derive(Debug)]
pub struct CreatePostInput {
    pub content: String,
    pub image_url: Option<String>,
}

/// The response shape of signup, login and user creation.
#[derive(Debug)]
pub struct AuthResponse {
    pub access_token: String,
    pub user_id: String,
}

/// The response shape of a token refresh.
#[derive(Debug)]
pub struct RefreshResponse {
    pub access_token: String,
}

/// The reaction kind as the API layer spells it.
#[derive(Debug, Clone, Copy, PartialEq, Eq, Structural)]
pub enum ReactionTypeGql {
    Surprise,
    Empathy,
    Laugh,
    Sad,
    Confused,
}

impl From<ReactionTypeGql> for ReactionType {
    fn from(gql: ReactionTypeGql) -> (r: ReactionType) {
        match gql {
            ReactionTypeGql::Surprise => ReactionType::Surprise,
            ReactionTypeGql::Empathy => ReactionType::Empathy,
            ReactionTypeGql::Laugh => ReactionType::Laugh,
            ReactionTypeGql::Sad => ReactionType::Sad,
            ReactionTypeGql::Confused => ReactionType::Confused,
        }
    }
}

impl vstd::std_specs::convert::FromSpecImpl<ReactionTypeGql> for ReactionType {
    open spec fn obeys_from_spec() -> bool {
        true
    }

    open spec fn from_spec(gql: ReactionTypeGql) -> ReactionType {
        match gql {
            ReactionTypeGql::Surprise => ReactionType::Surprise,
            ReactionTypeGql::Empathy => ReactionType::Empathy,
            ReactionTypeGql::Laugh => ReactionType::Laugh,
            ReactionTypeGql::Sad => ReactionType::Sad,
            ReactionTypeGql::Confused => ReactionType::Confused,
        }
    }
}

impl From<ReactionType> for ReactionTypeGql {
    fn from(kind: ReactionType) -> (r: ReactionTypeGql) {
        match kind {
            ReactionType::Surprise => ReactionTypeGql::Surprise,
            ReactionType::Empathy => ReactionTypeGql::Empathy,
            ReactionType::Laugh => ReactionTypeGql::Laugh,
            ReactionType::Sad => ReactionTypeGql::Sad,
            ReactionType::Confused => ReactionTypeGql::Confused,
        }
    }
}

impl vstd::std_specs::convert::FromSpecImpl<ReactionType> for ReactionTypeGql {
    open spec fn obeys_from_spec() -> bool {
        true
    }

    open spec fn from_spec(kind: ReactionType) -> ReactionTypeGql {
        match kind {
            ReactionType::Surprise => ReactionTypeGql::Surprise,
            ReactionType::Empathy => ReactionTypeGql::Empathy,
            ReactionType::Laugh => ReactionTypeGql::Laugh,
            ReactionType::Sad => ReactionTypeGql::Sad,
            ReactionType::Confused => ReactionTypeGql::Confused,
        }
    }
}

} // verus!
