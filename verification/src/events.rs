//! Transient wire events: post-lifecycle events on the global stream and
//! reaction events on per-owner streams.  Never persisted.

use vstd::prelude::*;

verus! {

use crate::clock::now_ts;
use crate::entities::{clone_opt_string, ReactionType};
use crate::ident::{uuid_str_of, uuid_to_string};

/// A post-lifecycle event, broadcast to every connected client.
#[derive(Debug)]
pub enum PostEvent {
    NewPost {
        post_id: String,
        user_id: String,
        content: String,
        image_url: Option<String>,
        display_count: i32,
        created_at: i64,
        author_name: String,
        author_avatar: String,
    },
    DisplayCountUpdated { post_id: String, display_count: i32 },
    PostDeleted { post_id: String },
}

impl Clone for PostEvent {
    fn clone(&self) -> (r: Self)
        ensures
            r == *self,
    {
        match self {
            PostEvent::NewPost {
                post_id,
                user_id,
                content,
                image_url,
                display_count,
                created_at,
                author_name,
                author_avatar,
            } => PostEvent::NewPost {
                post_id: post_id.clone(),
                user_id: user_id.clone(),
                content: content.clone(),
                image_url: clone_opt_string(image_url),
                display_count: *display_count,
                created_at: *created_at,
                author_name: author_name.clone(),
                author_avatar: author_avatar.clone(),
            },
            PostEvent::DisplayCountUpdated { post_id, display_count } => {
                PostEvent::DisplayCountUpdated {
                    post_id: post_id.clone(),
                    display_count: *display_count,
                }
            },
            PostEvent::PostDeleted { post_id } => {
                PostEvent::PostDeleted { post_id: post_id.clone() }
            },
        }
    }
}

impl PostEvent {
    /// The announcement of a freshly persisted post.
    pub fn new_post(
        post_id: u128,
        user_id: u128,
        content: String,
        image_url: Option<String>,
        display_count: i32,
        created_at: i64,
        author_name: String,
        author_avatar: String,
    ) -> (r: PostEvent)
        ensures
            (r matches PostEvent::NewPost {
                post_id: pid,
                user_id: uid,
                content: c,
                image_url: iu,
                display_count: dc,
                created_at: ca,
                author_name: an,
                author_avatar: aa,
            } && pid@ == uuid_str_of(post_id) && uid@ == uuid_str_of(user_id) && c == content
                && iu == image_url && dc == display_count && ca == created_at
                && an == author_name && aa == author_avatar),
    {
        PostEvent::NewPost {
            post_id: uuid_to_string(post_id),
            user_id: uuid_to_string(user_id),
            content,
            image_url,
            display_count,
            created_at,
            author_name,
            author_avatar,
        }
    }

    /// The announcement that a post's view counter moved.
    pub fn display_count_updated(post_id: u128, display_count: i32) -> (r: PostEvent)
        ensures
            (r matches PostEvent::DisplayCountUpdated { post_id: pid, display_count: dc }
                && pid@ == uuid_str_of(post_id) && dc == display_count),
    {
        PostEvent::DisplayCountUpdated { post_id: uuid_to_string(post_id), display_count }
    }

    /// The announcement that a post expired and left circulation.
    pub fn post_deleted(post_id: u128) -> (r: PostEvent)
        ensures
            (r matches PostEvent::PostDeleted { post_id: pid } && pid@ == uuid_str_of(post_id)),
    {
        PostEvent::PostDeleted { post_id: uuid_to_string(post_id) }
    }
}

/// A reaction event, delivered on the stream of the reacted-to post's owner.
#[derive(Debug)]
pub struct ReactionEvent {
    pub post_id: String,
    pub reactor_user_id: String,
    pub reaction_type: String,
    pub timestamp: i64,
    /// The reaction to show on the owner's avatar: this event's own kind.
    pub latest_reaction_for_author: String,
}

impl Clone for ReactionEvent {
    fn clone(&self) -> (r: Self)
        ensures
            r == *self,
    {
        ReactionEvent {
            post_id: self.post_id.clone(),
            reactor_user_id: self.reactor_user_id.clone(),
            reaction_type: self.reaction_type.clone(),
            timestamp: self.timestamp,
            latest_reaction_for_author: self.latest_reaction_for_author.clone(),
        }
    }
}

impl ReactionEvent {
    /// A fresh reaction event, stamped with the current time.
    pub fn new(post_id: u128, reactor_user_id: u128, reaction_type: ReactionType) -> (r:
        ReactionEvent)
        ensures
            r.post_id@ == uuid_str_of(post_id),
            r.reactor_user_id@ == uuid_str_of(reactor_user_id),
            r.reaction_type@ == reaction_type.spec_as_str(),
            r.latest_reaction_for_author@ == reaction_type.spec_as_str(),
    {
        let kind: String = reaction_type.as_str().to_owned();
        let latest: String = kind.clone();
        ReactionEvent {
            post_id: uuid_to_string(post_id),
            reactor_user_id: uuid_to_string(reactor_user_id),
            reaction_type: kind,
            timestamp: now_ts(),
            latest_reaction_for_author: latest,
        }
    }
}

} // verus!
