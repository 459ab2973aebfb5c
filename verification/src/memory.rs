//! The in-memory record store: each table a vector of rows with unique
//! keys, fully verified against the repository contracts.  It backs the
//! tests and any single-process deployment; a database-backed store can
//! implement the same traits outside the library.

use vstd::prelude::*;

verus! {

use crate::assoc::{
    keys_unique,
    lemma_map_of_dom,
    lemma_map_of_filter_card,
    lemma_map_of_finite,
    lemma_map_of_index,
    lemma_map_of_push,
    lemma_map_of_remove,
    lemma_map_of_update,
    map_of,
};
use crate::entities::{Post, Reaction, ReactionType, User};
use crate::errors::DomainError;
use crate::policy::step_view;
use crate::repos::{
    post_available,
    post_state,
    PostRepository,
    ReactionRepository,
    RecordState,
    UserRepository,
};
use vstd::pervasive::VecAdditionalExecFns;

/// Key projection of the post table.
pub open spec fn post_key() -> spec_fn(Post) -> u128 {
    |p: Post| p.id
}

/// Key projection of the user table.
pub open spec fn user_key() -> spec_fn(User) -> u128 {
    |u: User| u.id
}

/// Key projection of the reaction table: one row per (post, user) pair.
pub open spec fn reaction_key() -> spec_fn(Reaction) -> (u128, u128) {
    |r: Reaction| (r.post_id, r.user_id)
}

/// Key projection of the echo table.
pub open spec fn echo_key() -> spec_fn((u128, u64)) -> u128 {
    |e: (u128, u64)| e.0
}

/// The in-memory record store.
pub struct MemoryStore {
    threshold: i32,
    posts: Vec<Post>,
    users: Vec<User>,
    reactions: Vec<Reaction>,
    echoes: Vec<(u128, u64)>,
}

impl MemoryStore {
    /// A fresh, empty store expiring posts at `threshold` views.
    pub fn new(threshold: i32) -> (r: MemoryStore)
        requires
            threshold >= 1,
        ensures
            r.inv(),
            r.threshold() == threshold,
            r.posts() == Map::<u128, Post>::empty(),
            r.users() == Map::<u128, User>::empty(),
            r.reactions() == Map::<(u128, u128), Reaction>::empty(),
            r.echoes() == Map::<u128, u64>::empty(),
    {
        let r = MemoryStore {
            threshold,
            posts: Vec::new(),
            users: Vec::new(),
            reactions: Vec::new(),
            echoes: Vec::new(),
        };
        proof {
            assert(r.echoes() =~= Map::<u128, u64>::empty());
        }
        r
    }

    /// The index of the post carrying `id`, if one is stored.
    fn find_post_index(&self, id: u128) -> (r: Option<usize>)
        ensures
            r matches Some(i) ==> i < self.posts@.len() && self.posts@[i as int].id == id,
            r is None ==> forall|j: int| 0 <= j < self.posts@.len() ==> self.posts@[j].id != id,
    {
        let n = self.posts.len();
        let mut i: usize = 0;
        while i < n
            invariant
                i <= n,
                n == self.posts@.len(),
                forall|j: int| 0 <= j < i ==> self.posts@[j].id != id,
            decreases n - i,
        {
            if self.posts[i].id == id {
                return Some(i);
            }
            i = i + 1;
        }
        None
    }

    /// The index of the user carrying `id`, if one is stored.
    fn find_user_index(&self, id: u128) -> (r: Option<usize>)
        ensures
            r matches Some(i) ==> i < self.users@.len() && self.users@[i as int].id == id,
            r is None ==> forall|j: int| 0 <= j < self.users@.len() ==> self.users@[j].id != id,
    {
        let n = self.users.len();
        let mut i: usize = 0;
        while i < n
            invariant
                i <= n,
                n == self.users@.len(),
                forall|j: int| 0 <= j < i ==> self.users@[j].id != id,
            decreases n - i,
        {
            if self.users[i].id == id {
                return Some(i);
            }
            i = i + 1;
        }
        None
    }

    /// The index of the reaction of `user_id` on `post_id`, if one is
    /// stored.
    fn find_reaction_index(&self, post_id: u128, user_id: u128) -> (r: Option<usize>)
        ensures
            r matches Some(i) ==> i < self.reactions@.len() && self.reactions@[i as int].post_id
                == post_id && self.reactions@[i as int].user_id == user_id,
            r is None ==> forall|j: int|
                0 <= j < self.reactions@.len() ==> !(self.reactions@[j].post_id == post_id
                    && self.reactions@[j].user_id == user_id),
    {
        let n = self.reactions.len();
        let mut i: usize = 0;
        while i < n
            invariant
                i <= n,
                n == self.reactions@.len(),
                forall|j: int|
                    0 <= j < i ==> !(self.reactions@[j].post_id == post_id
                        && self.reactions@[j].user_id == user_id),
            decreases n - i,
        {
            if self.reactions[i].post_id == post_id && self.reactions[i].user_id == user_id {
                return Some(i);
            }
            i = i + 1;
        }
        None
    }

    /// The index of the echo counter of `post_id`, if one is stored.
    fn find_echo_index(&self, post_id: u128) -> (r: Option<usize>)
        ensures
            r matches Some(i) ==> i < self.echoes@.len() && self.echoes@[i as int].0 == post_id,
            r is None ==> forall|j: int| 0 <= j < self.echoes@.len() ==> self.echoes@[j].0
                != post_id,
    {
        let n = self.echoes.len();
        let mut i: usize = 0;
        while i < n
            invariant
                i <= n,
                n == self.echoes@.len(),
                forall|j: int| 0 <= j < i ==> self.echoes@[j].0 != post_id,
            decreases n - i,
        {
            if self.echoes[i].0 == post_id {
                return Some(i);
            }
            i = i + 1;
        }
        None
    }
}

impl RecordState for MemoryStore {
    closed spec fn posts(&self) -> Map<u128, Post> {
        map_of(self.posts@, post_key())
    }

    closed spec fn users(&self) -> Map<u128, User> {
        map_of(self.users@, user_key())
    }

    closed spec fn reactions(&self) -> Map<(u128, u128), Reaction> {
        map_of(self.reactions@, reaction_key())
    }

    closed spec fn threshold(&self) -> int {
        self.threshold as int
    }

    closed spec fn post_owner(&self, post_id: u128) -> Option<u128> {
        if map_of(self.posts@, post_key()).dom().contains(post_id) {
            Some(map_of(self.posts@, post_key())[post_id].user_id)
        } else {
            None
        }
    }

    closed spec fn echoes(&self) -> Map<u128, u64> {
        map_of(self.echoes@, echo_key()).map_values(|e: (u128, u64)| e.1)
    }

    closed spec fn inv(&self) -> bool {
        &&& keys_unique(self.posts@, post_key())
        &&& keys_unique(self.users@, user_key())
        &&& keys_unique(self.reactions@, reaction_key())
        &&& keys_unique(self.echoes@, echo_key())
        &&& self.threshold >= 1
    }

    proof fn lemma_threshold_bounds(&self) {
    }

    proof fn lemma_post_owner_coupled(&self, post_id: u128) {
    }
}

impl PostRepository for MemoryStore {
    fn find_by_id(&self, id: u128) -> (r: Option<Post>) {
        proof {
            lemma_map_of_dom(self.posts@, post_key());
        }
        match self.find_post_index(id) {
            Some(i) => {
                proof {
                    lemma_map_of_index(self.posts@, post_key(), i as int);
                }
                Some(self.posts[i].clone())
            },
            None => None,
        }
    }

    fn create(&mut self, post: &Post) -> (r: Result<Post, DomainError>) {
        proof {
            lemma_map_of_dom(self.posts@, post_key());
        }
        match self.find_post_index(post.id) {
            Some(_) => Err(
                DomainError::Database("a post with this id is already stored".to_owned()),
            ),
            None => {
                let stored = post.clone();
                let returned = post.clone();
                proof {
                    lemma_map_of_push(self.posts@, post_key(), stored);
                }
                self.posts.push(stored);
                Ok(returned)
            },
        }
    }

    fn find_available(&self, limit: usize, exclude_user_id: Option<u128>) -> (r: Vec<Post>) {
        proof {
            lemma_map_of_dom(self.posts@, post_key());
        }
        let mut out: Vec<Post> = Vec::new();
        let n = self.posts.len();
        let mut i: usize = 0;
        while i < n
            invariant
                i <= n,
                n == self.posts@.len(),
                self.inv(),
                out@.len() <= limit,
                forall|k: int|
                    0 <= k < out@.len() ==> {
                        let p = #[trigger] out@[k];
                        &&& self.posts().dom().contains(p.id)
                        &&& self.posts()[p.id] == p
                        &&& post_available(p, self.threshold(), exclude_user_id)
                        &&& exists|j: int| 0 <= j < i && self.posts@[j].id == p.id
                    },
                forall|k1: int, k2: int| 0 <= k1 < k2 < out@.len() ==> out@[k1].id != out@[k2].id,
                out@.len() < limit ==> forall|j: int|
                    0 <= j < i && post_available(
                        #[trigger] self.posts@[j],
                        self.threshold(),
                        exclude_user_id,
                    ) ==> exists|k: int| 0 <= k < out@.len() && out@[k].id == self.posts@[j].id,
            decreases n - i,
        {
            let ghost out0 = out@;
            let room = out.len() < limit;
            let available = self.posts[i].valid && self.posts[i].display_count.value()
                < self.threshold && (match exclude_user_id {
                Some(u) => self.posts[i].user_id != u,
                None => true,
            });
            if room && available {
                proof {
                    lemma_map_of_index(self.posts@, post_key(), i as int);
                    assert forall|k: int| 0 <= k < out@.len() implies out@[k].id
                        != self.posts@[i as int].id by {
                        let j = choose|j: int| 0 <= j < i && self.posts@[j].id == out@[k].id;
                        assert(post_key()(self.posts@[j]) != post_key()(self.posts@[i as int]));
                    }
                }
                out.push(self.posts[i].clone());
            }
            proof {
                if out@.len() < limit {
                    assert forall|j: int|
                        0 <= j < i + 1 && post_available(
                            #[trigger] self.posts@[j],
                            self.threshold(),
                            exclude_user_id,
                        ) implies exists|k: int|
                        0 <= k < out@.len() && out@[k].id == self.posts@[j].id by {
                        if j == i as int {
                            assert(room && available);
                            assert(out@[out@.len() - 1].id == self.posts@[j].id);
                        } else {
                            assert(out0.len() < limit);
                            let k = choose|k: int|
                                0 <= k < out0.len() && out0[k].id == self.posts@[j].id;
                            assert(out@[k].id == self.posts@[j].id);
                        }
                    }
                }
            }
            i = i + 1;
        }
        proof {
            if out@.len() < limit {
                assert forall|id: u128|
                    self.posts().dom().contains(id) && post_available(
                        #[trigger] self.posts()[id],
                        self.threshold(),
                        exclude_user_id,
                    ) implies exists|k: int| 0 <= k < out@.len() && out@[k].id == id by {
                    let j = choose|j: int| 0 <= j < self.posts@.len() && post_key()(
                        #[trigger] self.posts@[j],
                    ) == id;
                    lemma_map_of_index(self.posts@, post_key(), j);
                    assert(post_available(self.posts@[j], self.threshold(), exclude_user_id));
                }
            }
        }
        out
    }

    fn find_by_user_id(&self, user_id: u128) -> (r: Vec<Post>) {
        proof {
            lemma_map_of_dom(self.posts@, post_key());
        }
        let mut out: Vec<Post> = Vec::new();
        let n = self.posts.len();
        let mut i: usize = 0;
        while i < n
            invariant
                i <= n,
                n == self.posts@.len(),
                self.inv(),
                forall|k: int|
                    0 <= k < out@.len() ==> {
                        let p = #[trigger] out@[k];
                        &&& self.posts().dom().contains(p.id)
                        &&& self.posts()[p.id] == p
                        &&& p.user_id == user_id
                        &&& p.valid
                        &&& exists|j: int| 0 <= j < i && self.posts@[j].id == p.id
                    },
                forall|k1: int, k2: int| 0 <= k1 < k2 < out@.len() ==> out@[k1].id != out@[k2].id,
                forall|j: int|
                    0 <= j < i && (#[trigger] self.posts@[j]).user_id == user_id
                        && self.posts@[j].valid ==> exists|k: int|
                        0 <= k < out@.len() && out@[k].id == self.posts@[j].id,
            decreases n - i,
        {
            let ghost out0 = out@;
            let matched = self.posts[i].user_id == user_id && self.posts[i].valid;
            if matched {
                proof {
                    lemma_map_of_index(self.posts@, post_key(), i as int);
                    assert forall|k: int| 0 <= k < out@.len() implies out@[k].id
                        != self.posts@[i as int].id by {
                        let j = choose|j: int| 0 <= j < i && self.posts@[j].id == out@[k].id;
                        assert(post_key()(self.posts@[j]) != post_key()(self.posts@[i as int]));
                    }
                }
                out.push(self.posts[i].clone());
            }
            proof {
                assert forall|j: int|
                    0 <= j < i + 1 && (#[trigger] self.posts@[j]).user_id == user_id
                        && self.posts@[j].valid implies exists|k: int|
                    0 <= k < out@.len() && out@[k].id == self.posts@[j].id by {
                    if j == i as int {
                        assert(out@[out@.len() - 1].id == self.posts@[j].id);
                    } else {
                        let k = choose|k: int|
                            0 <= k < out0.len() && out0[k].id == self.posts@[j].id;
                        assert(out@[k].id == self.posts@[j].id);
                    }
                }
            }
            i = i + 1;
        }
        proof {
            assert forall|id: u128|
                self.posts().dom().contains(id) && (#[trigger] self.posts()[id]).user_id == user_id
                    && self.posts()[id].valid implies exists|k: int|
                0 <= k < out@.len() && out@[k].id == id by {
                let j = choose|j: int| 0 <= j < self.posts@.len() && post_key()(
                    #[trigger] self.posts@[j],
                ) == id;
                lemma_map_of_index(self.posts@, post_key(), j);
            }
        }
        out
    }

    fn increment_echo_count(&mut self, post_id: u128) -> (r: Result<(), DomainError>) {
        proof {
            lemma_map_of_dom(self.posts@, post_key());
            lemma_map_of_dom(self.echoes@, echo_key());
        }
        match self.find_post_index(post_id) {
            None => Err(DomainError::NotFound("Post not found".to_owned())),
            Some(_) => {
                match self.find_echo_index(post_id) {
                    Some(i) => {
                        proof {
                            lemma_map_of_index(self.echoes@, echo_key(), i as int);
                        }
                        let row = self.echoes[i];
                        let bumped: u64 = if row.1 < u64::MAX {
                            row.1 + 1
                        } else {
                            row.1
                        };
                        proof {
                            lemma_map_of_update(self.echoes@, echo_key(), i as int, (post_id, bumped));
                        }
                        self.echoes.set(i, (post_id, bumped));
                        proof {
                            assert(self.echoes() =~= old(self).echoes().insert(post_id, bumped));
                        }
                        Ok(())
                    },
                    None => {
                        proof {
                            lemma_map_of_push(self.echoes@, echo_key(), (post_id, 1u64));
                        }
                        self.echoes.push((post_id, 1));
                        proof {
                            assert(self.echoes() =~= old(self).echoes().insert(post_id, 1u64));
                            assert(!old(self).echoes().dom().contains(post_id));
                        }
                        Ok(())
                    },
                }
            },
        }
    }

    fn increment_display_count(&mut self, id: u128) -> (r: Result<Post, DomainError>) {
        proof {
            lemma_map_of_dom(self.posts@, post_key());
        }
        match self.find_post_index(id) {
            None => Err(DomainError::NotFound("Post not found".to_owned())),
            Some(i) => {
                proof {
                    lemma_map_of_index(self.posts@, post_key(), i as int);
                }
                if self.posts[i].display_count.value() == i32::MAX {
                    return Err(
                        DomainError::Database("the view counter cannot move further".to_owned()),
                    );
                }
                let mut p = self.posts[i].clone();
                p.display_count.increment();
                if !(p.display_count.value() < self.threshold) {
                    p.valid = false;
                }
                let returned = p.clone();
                proof {
                    lemma_map_of_update(self.posts@, post_key(), i as int, p);
                    assert(post_state(p) =~= step_view(
                        post_state(old(self).posts()[id]),
                        old(self).threshold(),
                    ));
                }
                self.posts.set(i, p);
                Ok(returned)
            },
        }
    }
}

impl UserRepository for MemoryStore {
    fn find_by_id(&self, id: u128) -> (r: Option<User>) {
        proof {
            lemma_map_of_dom(self.users@, user_key());
        }
        match self.find_user_index(id) {
            Some(i) => {
                proof {
                    lemma_map_of_index(self.users@, user_key(), i as int);
                }
                Some(self.users[i].clone())
            },
            None => None,
        }
    }

    fn find_by_username(&self, username: &str) -> (r: Option<User>) {
        proof {
            lemma_map_of_dom(self.users@, user_key());
        }
        let n = self.users.len();
        let mut i: usize = 0;
        while i < n
            invariant
                i <= n,
                n == self.users@.len(),
                self.inv(),
                forall|j: int| 0 <= j < i ==> (#[trigger] self.users@[j]).display_name@
                    != username@,
            decreases n - i,
        {
            if crate::entities::str_eq(self.users[i].display_name.value(), username) {
                proof {
                    lemma_map_of_index(self.users@, user_key(), i as int);
                }
                return Some(self.users[i].clone());
            }
            i = i + 1;
        }
        proof {
            assert forall|id: u128| self.users().dom().contains(id) implies (
            #[trigger] self.users()[id]).display_name@ != username@ by {
                let j = choose|j: int| 0 <= j < self.users@.len() && user_key()(
                    #[trigger] self.users@[j],
                ) == id;
                lemma_map_of_index(self.users@, user_key(), j);
            }
        }
        None
    }

    fn create_user(&mut self, display_name: String, avatar_url: Option<String>) -> (r: Result<
        User,
        DomainError,
    >) {
        let name = crate::values::DisplayName::new(display_name);
        let avatar: String = match avatar_url {
            Some(a) => a,
            None => "https://example.com/default-avatar.jpg".to_owned(),
        };
        let user = User::new(name, avatar);
        proof {
            lemma_map_of_dom(self.users@, user_key());
        }
        match self.find_user_index(user.id) {
            Some(_) => Err(
                DomainError::Database("a user with this id is already stored".to_owned()),
            ),
            None => {
                let returned = user.clone();
                proof {
                    lemma_map_of_push(self.users@, user_key(), user);
                }
                self.users.push(user);
                Ok(returned)
            },
        }
    }

    fn create_user_with_credentials(
        &mut self,
        display_name: String,
        avatar_url: Option<String>,
        password_hash: String,
    ) -> (r: Result<User, DomainError>) {
        let name = crate::values::DisplayName::new(display_name);
        let avatar: String = match avatar_url {
            Some(a) => a,
            None => "https://example.com/default-avatar.jpg".to_owned(),
        };
        let user = User::new_with_credentials(name, avatar, password_hash);
        proof {
            lemma_map_of_dom(self.users@, user_key());
        }
        match self.find_user_index(user.id) {
            Some(_) => Err(
                DomainError::Database("a user with this id is already stored".to_owned()),
            ),
            None => {
                let returned = user.clone();
                proof {
                    lemma_map_of_push(self.users@, user_key(), user);
                }
                self.users.push(user);
                Ok(returned)
            },
        }
    }

    fn update_refresh_token(&mut self, user_id: u128, refresh_token: Option<String>) -> (r: Result<
        (),
        DomainError,
    >) {
        proof {
            lemma_map_of_dom(self.users@, user_key());
        }
        match self.find_user_index(user_id) {
            None => Err(DomainError::NotFound("User not found".to_owned())),
            Some(i) => {
                proof {
                    lemma_map_of_index(self.users@, user_key(), i as int);
                }
                let mut u = self.users[i].clone();
                u.refresh_token = refresh_token;
                proof {
                    lemma_map_of_update(self.users@, user_key(), i as int, u);
                }
                self.users.set(i, u);
                proof {
                    assert(self.users().dom() =~= old(self).users().dom());
                }
                Ok(())
            },
        }
    }

    fn delete(&mut self, id: u128) -> (r: Result<(), DomainError>) {
        proof {
            lemma_map_of_dom(self.users@, user_key());
        }
        match self.find_user_index(id) {
            None => {
                proof {
                    assert(self.users().remove(id) =~= self.users());
                }
                Ok(())
            },
            Some(i) => {
                proof {
                    lemma_map_of_remove(self.users@, user_key(), i as int);
                }
                let _ = self.users.remove(i);
                Ok(())
            },
        }
    }
}

/// The row predicate behind `reaction_count_for_post`, over rows instead of
/// map keys.
spec fn row_matches_post(post_id: u128, kind: ReactionType) -> spec_fn(Reaction) -> bool {
    |x: Reaction| x.post_id == post_id && x.reaction_type == kind
}

/// Counting matching rows equals the map-level count, for any row
/// predicate that only reads the row.
proof fn lemma_row_count(s: Seq<Reaction>, pred: spec_fn(Reaction) -> bool)
    requires
        keys_unique(s, reaction_key()),
    ensures
        map_of(s, reaction_key()).dom().filter(
            |k: (u128, u128)| pred(map_of(s, reaction_key())[k]),
        ).len() == s.filter(pred).len(),
{
    lemma_map_of_filter_card(s, reaction_key(), pred);
}

impl MemoryStore {
    /// Whether the store knows `post_id` to be owned by `user_id`.
    fn owner_is(&self, post_id: u128, user_id: u128) -> (r: bool)
        requires
            keys_unique(self.posts@, post_key()),
        ensures
            r == (RecordState::post_owner(self, post_id) == Some(user_id)),
    {
        proof {
            lemma_map_of_dom(self.posts@, post_key());
        }
        match self.find_post_index(post_id) {
            Some(pi) => {
                proof {
                    lemma_map_of_index(self.posts@, post_key(), pi as int);
                }
                self.posts[pi].user_id == user_id
            },
            None => false,
        }
    }

    /// Counts the stored reactions satisfying `pred`, where the ghost
    /// predicate mirrors the exec test made by the caller through
    /// `row_pred`-style loops; this helper takes the already-evaluated
    /// per-row answers.
    fn count_rows_for_post(&self, post_id: u128, kind: ReactionType) -> (c: usize)
        requires
            keys_unique(self.reactions@, reaction_key()),
        ensures
            c as nat == self.reactions@.filter(row_matches_post(post_id, kind)).len(),
    {
        let ghost pred = row_matches_post(post_id, kind);
        proof {
            reveal(Seq::filter);
        }
        let n = self.reactions.len();
        let mut c: usize = 0;
        let mut i: usize = 0;
        while i < n
            invariant
                i <= n,
                n == self.reactions@.len(),
                pred == row_matches_post(post_id, kind),
                c as nat == self.reactions@.take(i as int).filter(pred).len(),
            decreases n - i,
        {
            proof {
                reveal(Seq::filter);
                self.reactions@.take(i as int).lemma_filter_len(pred);
                assert(self.reactions@.take(i as int + 1).drop_last() =~= self.reactions@.take(
                    i as int,
                ));
                assert(self.reactions@.take(i as int + 1).last() == self.reactions@[i as int]);
            }
            let row = self.reactions[i];
            if row.post_id == post_id && kind_eq(row.reaction_type, kind) {
                c = c + 1;
            }
            i = i + 1;
        }
        proof {
            assert(self.reactions@.take(n as int) =~= self.reactions@);
        }
        c
    }

    /// Counts the stored reactions of one kind on posts owned by `owner`.
    fn count_rows_received(&self, owner: u128, kind: ReactionType) -> (c: usize)
        requires
            keys_unique(self.reactions@, reaction_key()),
            keys_unique(self.posts@, post_key()),
        ensures
            c as nat == self.reactions@.filter(
                |x: Reaction| RecordState::post_owner(self, x.post_id) == Some(owner)
                    && x.reaction_type == kind,
            ).len(),
    {
        let ghost pred = |x: Reaction|
            RecordState::post_owner(self, x.post_id) == Some(owner) && x.reaction_type
                == kind;
        proof {
            reveal(Seq::filter);
        }
        let n = self.reactions.len();
        let mut c: usize = 0;
        let mut i: usize = 0;
        while i < n
            invariant
                i <= n,
                n == self.reactions@.len(),
                keys_unique(self.posts@, post_key()),
                c as nat == self.reactions@.take(i as int).filter(pred).len(),
                pred == (|x: Reaction|
                    RecordState::post_owner(self, x.post_id) == Some(owner)
                        && x.reaction_type == kind),
            decreases n - i,
        {
            proof {
                reveal(Seq::filter);
                self.reactions@.take(i as int).lemma_filter_len(pred);
                assert(self.reactions@.take(i as int + 1).drop_last() =~= self.reactions@.take(
                    i as int,
                ));
                assert(self.reactions@.take(i as int + 1).last() == self.reactions@[i as int]);
            }
            let row = self.reactions[i];
            if self.owner_is(row.post_id, owner) && kind_eq(row.reaction_type, kind) {
                c = c + 1;
            }
            i = i + 1;
        }
        proof {
            assert(self.reactions@.take(n as int) =~= self.reactions@);
        }
        c
    }
}

/// Kind equality as an executable test.
fn kind_eq(a: ReactionType, b: ReactionType) -> (r: bool)
    ensures
        r == (a == b),
{
    a == b
}

/// Clamps a row count into the reported `i64` range.
fn clamp_count(c: usize) -> (r: i64)
    ensures
        r as int == crate::repos::count_as_i64(c as nat),
        c > 0 ==> r > 0,
{
    let c64: u64 = c as u64;
    if c64 > 0x7fff_ffff_ffff_ffffu64 {
        i64::MAX
    } else {
        c64 as i64
    }
}

impl ReactionRepository for MemoryStore {
    fn add_reaction(&mut self, post_id: u128, user_id: u128, reaction_type: ReactionType) -> (r:
        Result<Reaction, DomainError>) {
        let rx = Reaction::new(post_id, user_id, reaction_type);
        proof {
            lemma_map_of_dom(self.reactions@, reaction_key());
        }
        match self.find_reaction_index(post_id, user_id) {
            Some(i) => {
                proof {
                    lemma_map_of_index(self.reactions@, reaction_key(), i as int);
                    lemma_map_of_update(self.reactions@, reaction_key(), i as int, rx);
                }
                self.reactions.set(i, rx);
                Ok(rx)
            },
            None => {
                proof {
                    lemma_map_of_push(self.reactions@, reaction_key(), rx);
                }
                self.reactions.push(rx);
                Ok(rx)
            },
        }
    }

    fn remove_reaction(&mut self, post_id: u128, user_id: u128) -> (r: Result<(), DomainError>) {
        proof {
            lemma_map_of_dom(self.reactions@, reaction_key());
        }
        match self.find_reaction_index(post_id, user_id) {
            None => {
                proof {
                    assert(self.reactions().remove((post_id, user_id)) =~= self.reactions());
                }
                Ok(())
            },
            Some(i) => {
                proof {
                    lemma_map_of_remove(self.reactions@, reaction_key(), i as int);
                }
                let _ = self.reactions.remove(i);
                Ok(())
            },
        }
    }

    fn get_latest_reaction_for_user(&self, user_id: u128) -> (r: Option<Reaction>) {
        proof {
            lemma_map_of_dom(self.reactions@, reaction_key());
        }
        let n = self.reactions.len();
        let mut best: Option<Reaction> = None;
        let mut i: usize = 0;
        while i < n
            invariant
                i <= n,
                n == self.reactions@.len(),
                self.inv(),
                match best {
                    Some(b) => {
                        &&& exists|j: int| 0 <= j < i && self.reactions@[j] == b
                        &&& self.post_owner(b.post_id) == Some(user_id)
                        &&& forall|j: int|
                            0 <= j < i && self.post_owner(
                                (#[trigger] self.reactions@[j]).post_id,
                            ) == Some(user_id) ==> self.reactions@[j].created_at <= b.created_at
                    },
                    None => forall|j: int|
                        0 <= j < i ==> self.post_owner((#[trigger] self.reactions@[j]).post_id)
                            != Some(user_id),
                },
            decreases n - i,
        {
            let row = self.reactions[i];
            if self.owner_is(row.post_id, user_id) {
                match best {
                    Some(b) => {
                        if row.created_at > b.created_at {
                            best = Some(row);
                        }
                    },
                    None => {
                        best = Some(row);
                    },
                }
            }
            i = i + 1;
        }
        proof {
            match best {
                Some(b) => {
                    let j = choose|j: int| 0 <= j < n && self.reactions@[j] == b;
                    lemma_map_of_index(self.reactions@, reaction_key(), j);
                    assert(self.reactions().dom().contains((b.post_id, b.user_id)));
                    assert(self.reactions()[(b.post_id, b.user_id)] == b);
                    assert forall|k: (u128, u128)|
                        self.reactions().dom().contains(k) && self.post_owner(k.0) == Some(
                            user_id,
                        ) implies (#[trigger] self.reactions()[k]).created_at <= b.created_at by {
                        let j2 = choose|j2: int|
                            0 <= j2 < self.reactions@.len() && reaction_key()(
                                #[trigger] self.reactions@[j2],
                            ) == k;
                        lemma_map_of_index(self.reactions@, reaction_key(), j2);
                    }
                },
                None => {
                    assert forall|k: (u128, u128)|
                        self.reactions().dom().contains(k) implies #[trigger] self.post_owner(k.0)
                        != Some(user_id) by {
                        let j2 = choose|j2: int|
                            0 <= j2 < self.reactions@.len() && reaction_key()(
                                #[trigger] self.reactions@[j2],
                            ) == k;
                        lemma_map_of_index(self.reactions@, reaction_key(), j2);
                    }
                },
            }
        }
        best
    }

    fn get_reaction_counts(&self, post_id: u128) -> (r: Vec<(ReactionType, i64)>) {
        let mut out: Vec<(ReactionType, i64)> = Vec::new();
        let kinds = ReactionType::all();
        let ghost m = self.reactions();
        let mut ki: usize = 0;
        while ki < kinds.len()
            invariant
                self.inv(),
                m == self.reactions(),
                kinds@ == ReactionType::all_spec(),
                ki <= kinds@.len(),
                forall|j: int|
                    0 <= j < out@.len() ==> (#[trigger] out@[j]).1 > 0 && out@[j].1 as int
                        == crate::repos::count_as_i64(
                        crate::repos::reaction_count_for_post(m, post_id, out@[j].0),
                    ),
                forall|j1: int, j2: int| 0 <= j1 < j2 < out@.len() ==> out@[j1].0 != out@[j2].0,
                forall|j: int| 0 <= j < out@.len() ==> exists|k2: int|
                    0 <= k2 < ki && (#[trigger] out@[j]).0 == kinds@[k2],
                forall|k2: int|
                    0 <= k2 < ki && crate::repos::reaction_count_for_post(
                        m,
                        post_id,
                        #[trigger] kinds@[k2],
                    ) > 0 ==> exists|j: int| 0 <= j < out@.len() && out@[j].0 == kinds@[k2],
            decreases kinds@.len() - ki,
        {
            let kind = kinds[ki];
            let c = self.count_rows_for_post(post_id, kind);
            proof {
                lemma_row_count(self.reactions@, row_matches_post(post_id, kind));
                assert(m.dom().filter(
                    |k: (u128, u128)| row_matches_post(post_id, kind)(m[k]),
                ) =~= m.dom().filter(
                    |k: (u128, u128)| k.0 == post_id && m[k].reaction_type == kind,
                )) by {
                    lemma_map_of_dom(self.reactions@, reaction_key());
                    assert forall|k: (u128, u128)| m.dom().contains(k) implies m[k].post_id == k.0
                        && m[k].user_id == k.1 by {
                        let j2 = choose|j2: int|
                            0 <= j2 < self.reactions@.len() && reaction_key()(
                                #[trigger] self.reactions@[j2],
                            ) == k;
                        lemma_map_of_index(self.reactions@, reaction_key(), j2);
                    }
                }
            }
            let ghost out_prev = out@;
            if c > 0 {
                proof {
                    assert forall|j: int| 0 <= j < out@.len() implies out@[j].0 != kind by {
                        let k2 = choose|k2: int| 0 <= k2 < ki && out@[j].0 == kinds@[k2];
                        assert(kinds@[k2] != kinds@[ki as int]) by {
                            crate::entities::lemma_all_kinds_distinct();
                        }
                    }
                }
                let entry = (kind, clamp_count(c));
                out.push(entry);
            }
            proof {
                assert(kinds@[ki as int] == kind);
                assert forall|j: int| 0 <= j < out@.len() implies exists|k2: int|
                    0 <= k2 < ki + 1 && (#[trigger] out@[j]).0 == kinds@[k2] by {
                    if j < out_prev.len() {
                        let k2 = choose|k2: int| 0 <= k2 < ki && out_prev[j].0 == kinds@[k2];
                        assert(out@[j] == out_prev[j]);
                        assert(0 <= k2 < ki + 1 && out@[j].0 == kinds@[k2]);
                    } else {
                        assert(out@[j].0 == kinds@[ki as int]);
                    }
                }
                assert forall|k2: int|
                    0 <= k2 < ki + 1 && crate::repos::reaction_count_for_post(
                        m,
                        post_id,
                        #[trigger] kinds@[k2],
                    ) > 0 implies exists|j: int| 0 <= j < out@.len() && out@[j].0 == kinds@[k2] by {
                    if k2 < ki {
                        let j = choose|j: int|
                            0 <= j < out_prev.len() && out_prev[j].0 == kinds@[k2];
                        assert(out@[j] == out_prev[j]);
                        assert(out@[j].0 == kinds@[k2]);
                    } else {
                        assert(c > 0);
                        assert(out@[out@.len() - 1].0 == kinds@[k2]);
                    }
                }
            }
            ki = ki + 1;
        }
        proof {
            assert forall|kind: ReactionType|
                crate::repos::reaction_count_for_post(m, post_id, kind) > 0 implies exists|j: int|
                0 <= j < out@.len() && (#[trigger] out@[j]).0 == kind by {
                crate::entities::lemma_all_kinds_distinct();
                assert(kinds@[crate::entities::kind_index(kind)] == kind);
            }
        }
        out
    }

    fn get_user_received_reaction_counts(&self, user_id: u128) -> (r: Vec<(ReactionType, i64)>) {
        let mut out: Vec<(ReactionType, i64)> = Vec::new();
        let kinds = ReactionType::all();
        let ghost m = self.reactions();
        let ghost owner_of = |p: u128| RecordState::post_owner(self, p);
        let mut ki: usize = 0;
        while ki < kinds.len()
            invariant
                self.inv(),
                m == self.reactions(),
                owner_of == (|p: u128| RecordState::post_owner(self, p)),
                kinds@ == ReactionType::all_spec(),
                ki <= kinds@.len(),
                forall|j: int|
                    0 <= j < out@.len() ==> (#[trigger] out@[j]).1 > 0 && out@[j].1 as int
                        == crate::repos::count_as_i64(
                        crate::repos::reaction_count_received(m, owner_of, user_id, out@[j].0),
                    ),
                forall|j1: int, j2: int| 0 <= j1 < j2 < out@.len() ==> out@[j1].0 != out@[j2].0,
                forall|j: int| 0 <= j < out@.len() ==> exists|k2: int|
                    0 <= k2 < ki && (#[trigger] out@[j]).0 == kinds@[k2],
                forall|k2: int|
                    0 <= k2 < ki && crate::repos::reaction_count_received(
                        m,
                        owner_of,
                        user_id,
                        #[trigger] kinds@[k2],
                    ) > 0 ==> exists|j: int| 0 <= j < out@.len() && out@[j].0 == kinds@[k2],
            decreases kinds@.len() - ki,
        {
            let kind = kinds[ki];
            let c = self.count_rows_received(user_id, kind);
            proof {
                lemma_row_count(
                    self.reactions@,
                    |x: Reaction| RecordState::post_owner(self, x.post_id) == Some(user_id)
                        && x.reaction_type == kind,
                );
                assert(m.dom().filter(
                    |k: (u128, u128)| owner_of(k.0) == Some(user_id) && m[k].reaction_type == kind,
                ) =~= m.dom().filter(
                    |k: (u128, u128)| (|x: Reaction| RecordState::post_owner(self, x.post_id)
                        == Some(user_id) && x.reaction_type == kind)(m[k]),
                )) by {
                    lemma_map_of_dom(self.reactions@, reaction_key());
                    assert forall|k: (u128, u128)| m.dom().contains(k) implies m[k].post_id == k.0
                        && m[k].user_id == k.1 by {
                        let j2 = choose|j2: int|
                            0 <= j2 < self.reactions@.len() && reaction_key()(
                                #[trigger] self.reactions@[j2],
                            ) == k;
                        lemma_map_of_index(self.reactions@, reaction_key(), j2);
                    }
                }
            }
            let ghost out_prev = out@;
            if c > 0 {
                proof {
                    assert forall|j: int| 0 <= j < out@.len() implies out@[j].0 != kind by {
                        let k2 = choose|k2: int| 0 <= k2 < ki && out@[j].0 == kinds@[k2];
                        assert(kinds@[k2] != kinds@[ki as int]) by {
                            crate::entities::lemma_all_kinds_distinct();
                        }
                    }
                }
                let entry = (kind, clamp_count(c));
                out.push(entry);
            }
            proof {
                assert(kinds@[ki as int] == kind);
                assert forall|j: int| 0 <= j < out@.len() implies exists|k2: int|
                    0 <= k2 < ki + 1 && (#[trigger] out@[j]).0 == kinds@[k2] by {
                    if j < out_prev.len() {
                        let k2 = choose|k2: int| 0 <= k2 < ki && out_prev[j].0 == kinds@[k2];
                        assert(out@[j] == out_prev[j]);
                        assert(0 <= k2 < ki + 1 && out@[j].0 == kinds@[k2]);
                    } else {
                        assert(out@[j].0 == kinds@[ki as int]);
                    }
                }
                assert forall|k2: int|
                    0 <= k2 < ki + 1 && crate::repos::reaction_count_received(
                        m,
                        owner_of,
                        user_id,
                        #[trigger] kinds@[k2],
                    ) > 0 implies exists|j: int| 0 <= j < out@.len() && out@[j].0 == kinds@[k2] by {
                    if k2 < ki {
                        let j = choose|j: int|
                            0 <= j < out_prev.len() && out_prev[j].0 == kinds@[k2];
                        assert(out@[j] == out_prev[j]);
                        assert(out@[j].0 == kinds@[k2]);
                    } else {
                        assert(c > 0);
                        assert(out@[out@.len() - 1].0 == kinds@[k2]);
                    }
                }
            }
            ki = ki + 1;
        }
        proof {
            assert forall|k: (u128, u128)|
                self.reactions().dom().contains(k) && self.post_owner(k.0) == Some(user_id) implies
                exists|j: int|
                0 <= j < out@.len() && out@[j].0 == (#[trigger] self.reactions()[k]).reaction_type
                by {
                crate::entities::lemma_all_kinds_distinct();
                let kind = self.reactions()[k].reaction_type;
                assert(crate::repos::reaction_count_received(m, owner_of, user_id, kind) > 0) by {
                    let fs = m.dom().filter(
                        |k2: (u128, u128)| owner_of(k2.0) == Some(user_id) && m[k2].reaction_type
                            == kind,
                    );
                    assert(fs.contains(k));
                    lemma_map_of_finite(self.reactions@, reaction_key());
                    if fs.len() == 0 {
                        assert(fs =~= Set::<(u128, u128)>::empty());
                    }
                }
                assert(kinds@[crate::entities::kind_index(kind)] == kind);
            }
        }
        out
    }
}

} // verus!
