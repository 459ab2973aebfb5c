//! Domain entities: posts, users and reactions.

use vstd::prelude::*;

verus! {

use vstd::string::StringExecFns;
use crate::clock::now_ts;
use crate::ident::fresh_id;
use crate::values::{DisplayCount, DisplayName, PostContent};

/// The closed set of reaction kinds.
#[derive(Debug, PartialEq, Eq, Hash, Copy, Clone, Structural)]
pub enum ReactionType {
    Surprise,
    Empathy,
    Laugh,
    Sad,
    Confused,
}

impl ReactionType {
    /// The wire name of each kind.
    pub open spec fn spec_as_str(self) -> Seq<char> {
        match self {
            ReactionType::Surprise => "surprise"@,
            ReactionType::Empathy => "empathy"@,
            ReactionType::Laugh => "laugh"@,
            ReactionType::Sad => "sad"@,
            ReactionType::Confused => "confused"@,
        }
    }

    pub fn as_str(&self) -> (r: &str)
        ensures
            r@ == self.spec_as_str(),
    {
        match self {
            ReactionType::Surprise => "surprise",
            ReactionType::Empathy => "empathy",
            ReactionType::Laugh => "laugh",
            ReactionType::Sad => "sad",
            ReactionType::Confused => "confused",
        }
    }

    /// The kinds in their fixed order.
    pub open spec fn all_spec() -> Seq<ReactionType> {
        seq![
            ReactionType::Surprise,
            ReactionType::Empathy,
            ReactionType::Laugh,
            ReactionType::Sad,
            ReactionType::Confused,
        ]
    }

    /// Every reaction kind, each exactly once.
    pub fn all() -> (r: Vec<ReactionType>)
        ensures
            r@ == ReactionType::all_spec(),
    {
        let mut v: Vec<ReactionType> = Vec::new();
        v.push(ReactionType::Surprise);
        v.push(ReactionType::Empathy);
        v.push(ReactionType::Laugh);
        v.push(ReactionType::Sad);
        v.push(ReactionType::Confused);
        proof {
            assert(v@ =~= ReactionType::all_spec());
        }
        v
    }

    /// The kind a wire name denotes, if any.
    pub open spec fn spec_of_str(s: Seq<char>) -> Option<ReactionType> {
        if s == "surprise"@ {
            Some(ReactionType::Surprise)
        } else if s == "empathy"@ {
            Some(ReactionType::Empathy)
        } else if s == "laugh"@ {
            Some(ReactionType::Laugh)
        } else if s == "sad"@ {
            Some(ReactionType::Sad)
        } else if s == "confused"@ {
            Some(ReactionType::Confused)
        } else {
            None
        }
    }

    /// Parses a wire name; inverse of `as_str` on the five kinds.
    pub fn parse(s: &str) -> (r: Result<ReactionType, String>)
        ensures
            ReactionType::spec_of_str(s@) matches Some(k) ==> r == Ok::<ReactionType, String>(k),
            ReactionType::spec_of_str(s@) is None ==> (r matches Err(m) && m@ == "Invalid reaction type: "@ + s@),
    {
        if str_eq(s, "surprise") {
            Ok(ReactionType::Surprise)
        } else if str_eq(s, "empathy") {
            Ok(ReactionType::Empathy)
        } else if str_eq(s, "laugh") {
            Ok(ReactionType::Laugh)
        } else if str_eq(s, "sad") {
            Ok(ReactionType::Sad)
        } else if str_eq(s, "confused") {
            Ok(ReactionType::Confused)
        } else {
            let msg: String = "Invalid reaction type: ".to_owned().concat(s);
            Err(msg)
        }
    }
}

/// Where each kind sits in `all_spec`.
pub open spec fn kind_index(k: ReactionType) -> int {
    match k {
        ReactionType::Surprise => 0,
        ReactionType::Empathy => 1,
        ReactionType::Laugh => 2,
        ReactionType::Sad => 3,
        ReactionType::Confused => 4,
    }
}

/// `all_spec` lists the five kinds exactly once each, at their indices.
pub proof fn lemma_all_kinds_distinct()
    ensures
        ReactionType::all_spec().len() == 5,
        forall|i: int, j: int|
            0 <= i < j < 5 ==> ReactionType::all_spec()[i] != ReactionType::all_spec()[j],
        forall|k: ReactionType|
            0 <= #[trigger] kind_index(k) < 5 && ReactionType::all_spec()[kind_index(k)] == k,
{
}

impl core::str::FromStr for ReactionType {
    type Err = String;

    fn from_str(s: &str) -> Result<ReactionType, String> {
        ReactionType::parse(s)
    }
}

/// Character-for-character equality of two string slices.
pub fn str_eq(a: &str, b: &str) -> (r: bool)
    ensures
        r == (a@ == b@),
{
    let sa: String = a.to_owned();
    let sb: String = b.to_owned();
    sa == sb
}

/// A post: body text, owner, view counter and validity flag.  The body is
/// immutable after construction; the counter only grows; validity starts
/// true and is cleared at most once, by the storage layer, when the counter
/// reaches the configured threshold.
#[derive(Debug)]
pub struct Post {
    pub id: u128,
    pub user_id: u128,
    pub content: PostContent,
    pub image_url: Option<String>,
    pub display_count: DisplayCount,
    pub created_at: i64,
    pub valid: bool,
}

impl Clone for Post {
    fn clone(&self) -> (r: Self)
        ensures
            r == *self,
    {
        Post {
            id: self.id,
            user_id: self.user_id,
            content: self.content.clone(),
            image_url: clone_opt_string(&self.image_url),
            display_count: self.display_count,
            created_at: self.created_at,
            valid: self.valid,
        }
    }
}

impl Post {
    pub open spec fn wf(&self) -> bool {
        self.content.wf()
    }

    /// A fresh post: random identity, zero views, valid, stamped now.
    pub fn new(user_id: u128, content: PostContent, image_url: Option<String>) -> (r: Post)
        ensures
            r.user_id == user_id,
            r.content == content,
            r.image_url == image_url,
            r.display_count.spec_value() == 0,
            r.valid,
            content.wf() ==> r.wf(),
    {
        Post {
            id: fresh_id(),
            user_id,
            content,
            image_url,
            display_count: DisplayCount::new(),
            created_at: now_ts(),
            valid: true,
        }
    }
}

/// Clones an optional string, preserving the value.
pub fn clone_opt_string(s: &Option<String>) -> (r: Option<String>)
    ensures
        r == *s,
{
    match s {
        Some(v) => Some(v.clone()),
        None => None,
    }
}

/// A registered user.
#[derive(Debug)]
pub struct User {
    pub id: u128,
    pub display_name: DisplayName,
    pub avatar_url: String,
    pub password_hash: Option<String>,
    pub refresh_token: Option<String>,
    pub created_at: i64,
}

impl Clone for User {
    fn clone(&self) -> (r: Self)
        ensures
            r == *self,
    {
        User {
            id: self.id,
            display_name: self.display_name.clone(),
            avatar_url: self.avatar_url.clone(),
            password_hash: clone_opt_string(&self.password_hash),
            refresh_token: clone_opt_string(&self.refresh_token),
            created_at: self.created_at,
        }
    }
}

impl User {
    /// A fresh user without credentials.
    pub fn new(display_name: DisplayName, avatar_url: String) -> (r: User)
        ensures
            r.display_name == display_name,
            r.avatar_url == avatar_url,
            r.password_hash is None,
            r.refresh_token is None,
    {
        User {
            id: fresh_id(),
            display_name,
            avatar_url,
            password_hash: None,
            refresh_token: None,
            created_at: now_ts(),
        }
    }

    /// A fresh user with a password credential.
    pub fn new_with_credentials(
        display_name: DisplayName,
        avatar_url: String,
        password_hash: String,
    ) -> (r: User)
        ensures
            r.display_name == display_name,
            r.avatar_url == avatar_url,
            r.password_hash == Some(password_hash),
            r.refresh_token is None,
    {
        User {
            id: fresh_id(),
            display_name,
            avatar_url,
            password_hash: Some(password_hash),
            refresh_token: None,
            created_at: now_ts(),
        }
    }
}

/// One user's reaction to one post; at most one is stored per (post, user)
/// pair.
#[derive(Debug, Clone, Copy, PartialEq, Eq, Structural)]
pub struct Reaction {
    pub id: u128,
    pub post_id: u128,
    pub user_id: u128,
    pub reaction_type: ReactionType,
    pub created_at: i64,
}

impl Reaction {
    /// A fresh reaction: random identity, stamped now.
    pub fn new(post_id: u128, user_id: u128, reaction_type: ReactionType) -> (r: Reaction)
        ensures
            r.post_id == post_id,
            r.user_id == user_id,
            r.reaction_type == reaction_type,
    {
        Reaction { id: fresh_id(), post_id, user_id, reaction_type, created_at: now_ts() }
    }
}

} // verus!
