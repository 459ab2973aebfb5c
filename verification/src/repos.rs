//! The record-store interface: posts, users and reactions, each a keyed
//! table.  Contracts are stated over the maps the tables denote; the
//! verified in-memory store implements them, and a database-backed store
//! outside the library may implement them too.
//!
//! `RecordState` carries the abstract state all three table interfaces
//! share, so that each operation can also say which tables it leaves
//! untouched.

use vstd::prelude::*;

verus! {

use crate::entities::{Post, Reaction, ReactionType, User};
use crate::errors::DomainError;
use crate::policy::{step_view, PostState};

/// The policy-relevant part of a stored post.
pub open spec fn post_state(p: Post) -> PostState {
    PostState { count: p.display_count.spec_value(), valid: p.valid }
}

/// Whether a stored post may be served: valid, under the view threshold,
/// and not authored by the excluded user.
pub open spec fn post_available(p: Post, threshold: int, exclude_user_id: Option<u128>) -> bool {
    &&& p.valid
    &&& p.display_count.spec_value() < threshold
    &&& match exclude_user_id {
        Some(u) => p.user_id != u,
        None => true,
    }
}

/// The abstract state of one record store.
pub trait RecordState: Sized {
    spec fn posts(&self) -> Map<u128, Post>;

    spec fn users(&self) -> Map<u128, User>;

    spec fn reactions(&self) -> Map<(u128, u128), Reaction>;

    /// The configured expiration threshold.
    spec fn threshold(&self) -> int;

    /// The owner of a post, as this store knows it.
    spec fn post_owner(&self, post_id: u128) -> Option<u128>;

    /// Silent echoes counted per post.
    spec fn echoes(&self) -> Map<u128, u64>;

    spec fn inv(&self) -> bool;

    /// The threshold is a positive value a view counter can reach.
    proof fn lemma_threshold_bounds(&self)
        requires
            self.inv(),
        ensures
            1 <= self.threshold() <= i32::MAX,
    ;

    /// `post_owner` is exactly the owner field of the stored post.
    proof fn lemma_post_owner_coupled(&self, post_id: u128)
        requires
            self.inv(),
        ensures
            self.post_owner(post_id) == (if self.posts().dom().contains(post_id) {
                Some(self.posts()[post_id].user_id)
            } else {
                None::<u128>
            }),
    ;
}

/// Storage of posts, keyed by post id.
pub trait PostRepository: RecordState {
    fn find_by_id(&self, id: u128) -> (r: Option<Post>)
        requires
            self.inv(),
        ensures
            r == (if self.posts().dom().contains(id) {
                Some(self.posts()[id])
            } else {
                None::<Post>
            }),
            r matches Some(p) ==> p.id == id,
    ;

    /// Persists a fresh post.  May fail as any storage does; on success the
    /// post's id was free and the post is stored unchanged.  No other
    /// table moves.
    fn create(&mut self, post: &Post) -> (r: Result<Post, DomainError>)
        requires
            old(self).inv(),
            post.wf(),
        ensures
            final(self).inv(),
            final(self).threshold() == old(self).threshold(),
            final(self).users() == old(self).users(),
            final(self).reactions() == old(self).reactions(),
            final(self).echoes() == old(self).echoes(),
            r matches Ok(p) ==> p == *post && !old(self).posts().dom().contains(post.id)
                && final(self).posts() == old(self).posts().insert(post.id, *post),
            r is Err ==> final(self).posts() == old(self).posts(),
    ;

    /// Posts that may be served right now, at most `limit` of them: all
    /// stored, all available, pairwise distinct, and nothing available is
    /// left out unless the limit cut the list short.
    fn find_available(&self, limit: usize, exclude_user_id: Option<u128>) -> (r: Vec<Post>)
        requires
            self.inv(),
        ensures
            r@.len() <= limit,
            forall|k: int|
                0 <= k < r@.len() ==> {
                    let p = #[trigger] r@[k];
                    &&& self.posts().dom().contains(p.id)
                    &&& self.posts()[p.id] == p
                    &&& post_available(p, self.threshold(), exclude_user_id)
                },
            forall|k1: int, k2: int| 0 <= k1 < k2 < r@.len() ==> r@[k1].id != r@[k2].id,
            r@.len() < limit ==> forall|id: u128|
                self.posts().dom().contains(id) && post_available(
                    #[trigger] self.posts()[id],
                    self.threshold(),
                    exclude_user_id,
                ) ==> exists|k: int| 0 <= k < r@.len() && r@[k].id == id,
    ;

    /// All stored valid posts of one author.
    fn find_by_user_id(&self, user_id: u128) -> (r: Vec<Post>)
        requires
            self.inv(),
        ensures
            forall|k: int|
                0 <= k < r@.len() ==> {
                    let p = #[trigger] r@[k];
                    &&& self.posts().dom().contains(p.id)
                    &&& self.posts()[p.id] == p
                    &&& p.user_id == user_id
                    &&& p.valid
                },
            forall|k1: int, k2: int| 0 <= k1 < k2 < r@.len() ==> r@[k1].id != r@[k2].id,
            forall|id: u128|
                self.posts().dom().contains(id) && (#[trigger] self.posts()[id]).user_id == user_id
                    && self.posts()[id].valid ==> exists|k: int|
                    0 <= k < r@.len() && r@[k].id == id,
    ;

    /// Counts one silent echo of a stored post; the counter saturates at
    /// its type's limit.  A missing post is a not-found error; no other
    /// table moves either way.
    fn increment_echo_count(&mut self, post_id: u128) -> (r: Result<(), DomainError>)
        requires
            old(self).inv(),
        ensures
            final(self).inv(),
            final(self).threshold() == old(self).threshold(),
            final(self).posts() == old(self).posts(),
            final(self).users() == old(self).users(),
            final(self).reactions() == old(self).reactions(),
            forall|p: u128| final(self).post_owner(p) == old(self).post_owner(p),
            !old(self).posts().dom().contains(post_id) ==> final(self).echoes() == old(
                self,
            ).echoes() && (r matches Err(e) && e matches DomainError::NotFound(_)),
            old(self).posts().dom().contains(post_id) && r is Ok ==> final(self).echoes() == old(
                self,
            ).echoes().insert(
                post_id,
                ({
                    let c0 = if old(self).echoes().dom().contains(post_id) {
                        old(self).echoes()[post_id]
                    } else {
                        0u64
                    };
                    if c0 < u64::MAX {
                        (c0 + 1) as u64
                    } else {
                        c0
                    }
                }),
            ),
            r is Err ==> final(self).echoes() == old(self).echoes(),
    ;

    /// Atomically counts one view: the counter moves up by one and validity
    /// is cleared in the same update when the counter reaches the
    /// threshold.  A missing post is a not-found error; everything else is
    /// untouched either way.
    fn increment_display_count(&mut self, id: u128) -> (r: Result<Post, DomainError>)
        requires
            old(self).inv(),
        ensures
            final(self).inv(),
            final(self).threshold() == old(self).threshold(),
            final(self).users() == old(self).users(),
            final(self).reactions() == old(self).reactions(),
            final(self).echoes() == old(self).echoes(),
            final(self).posts().dom() == old(self).posts().dom(),
            forall|p: u128| final(self).post_owner(p) == old(self).post_owner(p),
            !old(self).posts().dom().contains(id) ==> final(self).posts() == old(self).posts() && (
            r matches Err(e) && e matches DomainError::NotFound(_)),
            old(self).posts().dom().contains(id) && old(self).posts()[id].display_count.spec_value()
                == i32::MAX ==> final(self).posts() == old(self).posts() && r is Err,
            old(self).posts().dom().contains(id) && old(self).posts()[id].display_count.spec_value()
                < i32::MAX ==> ({
                let p0 = old(self).posts()[id];
                &&& r matches Ok(p1)
                &&& final(self).posts() == old(self).posts().insert(id, p1)
                &&& p1.id == p0.id
                &&& p1.user_id == p0.user_id
                &&& p1.content == p0.content
                &&& p1.image_url == p0.image_url
                &&& p1.created_at == p0.created_at
                &&& post_state(p1) == step_view(post_state(p0), old(self).threshold())
            }),
    ;
}

/// Storage of users, keyed by user id.
pub trait UserRepository: RecordState {
    fn find_by_id(&self, id: u128) -> (r: Option<User>)
        requires
            self.inv(),
        ensures
            r == (if self.users().dom().contains(id) {
                Some(self.users()[id])
            } else {
                None::<User>
            }),
            r matches Some(u) ==> u.id == id,
    ;

    /// Finds some user carrying this display name; nothing is found exactly
    /// when no user carries it.
    fn find_by_username(&self, username: &str) -> (r: Option<User>)
        requires
            self.inv(),
        ensures
            r matches Some(u) ==> self.users().dom().contains(u.id) && self.users()[u.id] == u
                && u.display_name@ == username@,
            r is None ==> forall|id: u128|
                self.users().dom().contains(id) ==> (#[trigger] self.users()[id]).display_name@
                    != username@,
    ;

    /// Creates a user without credentials; a missing avatar gets the
    /// default one.  No other table moves.
    fn create_user(&mut self, display_name: String, avatar_url: Option<String>) -> (r: Result<
        User,
        DomainError,
    >)
        requires
            old(self).inv(),
        ensures
            final(self).inv(),
            final(self).threshold() == old(self).threshold(),
            final(self).posts() == old(self).posts(),
            final(self).reactions() == old(self).reactions(),
            final(self).echoes() == old(self).echoes(),
            forall|p: u128| final(self).post_owner(p) == old(self).post_owner(p),
            r matches Ok(u) ==> ({
                &&& !old(self).users().dom().contains(u.id)
                &&& final(self).users() == old(self).users().insert(u.id, u)
                &&& u.display_name@ == display_name@
                &&& match avatar_url {
                    Some(a) => u.avatar_url == a,
                    None => u.avatar_url@ == "https://example.com/default-avatar.jpg"@,
                }
                &&& u.password_hash is None
                &&& u.refresh_token is None
            }),
            r is Err ==> final(self).users() == old(self).users(),
    ;

    /// Creates a user with a password hash on file.  No other table moves.
    fn create_user_with_credentials(
        &mut self,
        display_name: String,
        avatar_url: Option<String>,
        password_hash: String,
    ) -> (r: Result<User, DomainError>)
        requires
            old(self).inv(),
        ensures
            final(self).inv(),
            final(self).threshold() == old(self).threshold(),
            final(self).posts() == old(self).posts(),
            final(self).reactions() == old(self).reactions(),
            final(self).echoes() == old(self).echoes(),
            forall|p: u128| final(self).post_owner(p) == old(self).post_owner(p),
            r matches Ok(u) ==> ({
                &&& !old(self).users().dom().contains(u.id)
                &&& final(self).users() == old(self).users().insert(u.id, u)
                &&& u.display_name@ == display_name@
                &&& match avatar_url {
                    Some(a) => u.avatar_url == a,
                    None => u.avatar_url@ == "https://example.com/default-avatar.jpg"@,
                }
                &&& u.password_hash == Some(password_hash)
                &&& u.refresh_token is None
            }),
            r is Err ==> final(self).users() == old(self).users(),
    ;

    /// Stores, replaces or clears the single refresh token on file for a
    /// user; last write wins.  Only that field of that user moves.
    fn update_refresh_token(&mut self, user_id: u128, refresh_token: Option<String>) -> (r: Result<
        (),
        DomainError,
    >)
        requires
            old(self).inv(),
        ensures
            final(self).inv(),
            final(self).threshold() == old(self).threshold(),
            final(self).posts() == old(self).posts(),
            final(self).reactions() == old(self).reactions(),
            final(self).echoes() == old(self).echoes(),
            forall|p: u128| final(self).post_owner(p) == old(self).post_owner(p),
            !old(self).users().dom().contains(user_id) ==> final(self).users() == old(self).users()
                && (r matches Err(e) && e matches DomainError::NotFound(_)),
            old(self).users().dom().contains(user_id) ==> ({
                let u0 = old(self).users()[user_id];
                let u1 = final(self).users()[user_id];
                &&& r is Ok
                &&& final(self).users().dom() == old(self).users().dom()
                &&& forall|v: u128|
                    v != user_id && old(self).users().dom().contains(v) ==> final(self).users()[v]
                        == old(self).users()[v]
                &&& u1.id == u0.id
                &&& u1.display_name == u0.display_name
                &&& u1.avatar_url == u0.avatar_url
                &&& u1.password_hash == u0.password_hash
                &&& u1.created_at == u0.created_at
                &&& u1.refresh_token == refresh_token
            }),
    ;

    /// Deletes a user; deleting an absent user is not an error.  No other
    /// table moves.
    fn delete(&mut self, id: u128) -> (r: Result<(), DomainError>)
        requires
            old(self).inv(),
        ensures
            final(self).inv(),
            final(self).threshold() == old(self).threshold(),
            final(self).posts() == old(self).posts(),
            final(self).reactions() == old(self).reactions(),
            final(self).echoes() == old(self).echoes(),
            forall|p: u128| final(self).post_owner(p) == old(self).post_owner(p),
            r is Ok ==> final(self).users() == old(self).users().remove(id),
            r is Err ==> final(self).users() == old(self).users(),
    ;
}

/// How many stored reactions a post carries of one kind.
pub open spec fn reaction_count_for_post(
    reactions: Map<(u128, u128), Reaction>,
    post_id: u128,
    kind: ReactionType,
) -> nat {
    reactions.dom().filter(
        |k: (u128, u128)| k.0 == post_id && reactions[k].reaction_type == kind,
    ).len()
}

/// How many stored reactions of one kind sit on posts owned by `owner`,
/// under an ownership view.
pub open spec fn reaction_count_received(
    reactions: Map<(u128, u128), Reaction>,
    owner_of: spec_fn(u128) -> Option<u128>,
    owner: u128,
    kind: ReactionType,
) -> nat {
    reactions.dom().filter(
        |k: (u128, u128)| owner_of(k.0) == Some(owner) && reactions[k].reaction_type == kind,
    ).len()
}

/// The clamp a count is reported through: exact up to `i64::MAX`.
pub open spec fn count_as_i64(c: nat) -> int {
    if c <= i64::MAX {
        c as int
    } else {
        i64::MAX as int
    }
}

/// Storage of reactions, keyed by (post, reacting user): at most one
/// reaction is ever stored per pair.
pub trait ReactionRepository: RecordState {
    /// Stores a reaction, replacing whatever reaction the same user had on
    /// the same post: last write wins, reactions never accumulate per
    /// pair.  No other table moves.
    fn add_reaction(&mut self, post_id: u128, user_id: u128, reaction_type: ReactionType) -> (r:
        Result<Reaction, DomainError>)
        requires
            old(self).inv(),
        ensures
            final(self).inv(),
            final(self).threshold() == old(self).threshold(),
            final(self).posts() == old(self).posts(),
            final(self).users() == old(self).users(),
            final(self).echoes() == old(self).echoes(),
            forall|p: u128| final(self).post_owner(p) == old(self).post_owner(p),
            r matches Ok(rx) ==> ({
                &&& rx.post_id == post_id
                &&& rx.user_id == user_id
                &&& rx.reaction_type == reaction_type
                &&& final(self).reactions() == old(self).reactions().insert((post_id, user_id), rx)
            }),
            r is Err ==> final(self).reactions() == old(self).reactions(),
    ;

    /// Removes the reaction of one user on one post; removing an absent
    /// reaction is not an error.  No other table moves.
    fn remove_reaction(&mut self, post_id: u128, user_id: u128) -> (r: Result<(), DomainError>)
        requires
            old(self).inv(),
        ensures
            final(self).inv(),
            final(self).threshold() == old(self).threshold(),
            final(self).posts() == old(self).posts(),
            final(self).users() == old(self).users(),
            final(self).echoes() == old(self).echoes(),
            forall|p: u128| final(self).post_owner(p) == old(self).post_owner(p),
            r is Ok ==> final(self).reactions() == old(self).reactions().remove((post_id, user_id)),
            r is Err ==> final(self).reactions() == old(self).reactions(),
    ;

    /// The most recent reaction on any post owned by `user_id`, if one
    /// exists.
    fn get_latest_reaction_for_user(&self, user_id: u128) -> (r: Option<Reaction>)
        requires
            self.inv(),
        ensures
            r matches Some(rx) ==> ({
                &&& self.reactions().dom().contains((rx.post_id, rx.user_id))
                &&& self.reactions()[(rx.post_id, rx.user_id)] == rx
                &&& self.post_owner(rx.post_id) == Some(user_id)
                &&& forall|k: (u128, u128)|
                    self.reactions().dom().contains(k) && self.post_owner(k.0) == Some(user_id)
                        ==> (#[trigger] self.reactions()[k]).created_at <= rx.created_at
            }),
            r is None ==> forall|k: (u128, u128)|
                self.reactions().dom().contains(k) ==> #[trigger] self.post_owner(k.0) != Some(
                    user_id,
                ),
    ;

    /// Reaction counts on one post, grouped by kind: every kind that
    /// occurs, each exactly once, with its exact count.
    fn get_reaction_counts(&self, post_id: u128) -> (r: Vec<(ReactionType, i64)>)
        requires
            self.inv(),
        ensures
            forall|j: int|
                0 <= j < r@.len() ==> (#[trigger] r@[j]).1 > 0 && r@[j].1 as int == count_as_i64(
                    reaction_count_for_post(self.reactions(), post_id, r@[j].0),
                ),
            forall|j1: int, j2: int| 0 <= j1 < j2 < r@.len() ==> r@[j1].0 != r@[j2].0,
            forall|kind: ReactionType|
                reaction_count_for_post(self.reactions(), post_id, kind) > 0 ==> exists|j: int|
                    0 <= j < r@.len() && (#[trigger] r@[j]).0 == kind,
    ;

    /// Reaction counts over all posts owned by `user_id`, grouped by kind.
    fn get_user_received_reaction_counts(&self, user_id: u128) -> (r: Vec<(ReactionType, i64)>)
        requires
            self.inv(),
        ensures
            forall|j: int|
                0 <= j < r@.len() ==> (#[trigger] r@[j]).1 > 0 && r@[j].1 as int == count_as_i64(
                    reaction_count_received(self.reactions(), |p: u128| self.post_owner(p), user_id, r@[j].0),
                ),
            forall|j1: int, j2: int| 0 <= j1 < j2 < r@.len() ==> r@[j1].0 != r@[j2].0,
            forall|k: (u128, u128)|
                self.reactions().dom().contains(k) && self.post_owner(k.0) == Some(user_id)
                    ==> exists|j: int|
                    0 <= j < r@.len() && r@[j].0 == (#[trigger] self.reactions()[k]).reaction_type,
    ;
}

} // verus!
