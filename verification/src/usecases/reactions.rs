//! Reactions: adding (last write wins), removing (idempotent), counting,
//! and the expression state derived from received reactions.

use vstd::prelude::*;

verus! {

use crate::entities::{Reaction, ReactionType};
use crate::errors::AppError;
use crate::events::ReactionEvent;
use crate::ident::uuid_str_of;
use crate::repos::{
    count_as_i64,
    reaction_count_received,
    PostRepository,
    ReactionRepository,
    RecordState,
};
use crate::streams::ReactionStreamManager;

/// Stores a reaction — replacing the same user's previous reaction on the
/// same post — and announces it on the post owner's stream.
pub struct AddReactionUseCase<S: ReactionRepository + PostRepository> {
    pub store: S,
    pub stream_manager: ReactionStreamManager,
}

impl<S: ReactionRepository + PostRepository> AddReactionUseCase<S> {
    pub fn new(store: S, stream_manager: ReactionStreamManager) -> (r: AddReactionUseCase<S>)
        ensures
            r.store == store,
            r.stream_manager == stream_manager,
    {
        AddReactionUseCase { store, stream_manager }
    }

    pub open spec fn inv(&self) -> bool {
        self.store.inv() && self.stream_manager.inv()
    }

    /// Upserts the (post, user) reaction: afterwards exactly one reaction
    /// is stored for the pair, carrying this call's kind.  The event is
    /// announced only on the post owner's stream; every other owner's
    /// subscribers see nothing of it.
    pub fn execute(&mut self, post_id: u128, user_id: u128, reaction_type: ReactionType) -> (r:
        Result<bool, AppError>)
        requires
            old(self).inv(),
        ensures
            final(self).inv(),
            final(self).store.posts() == old(self).store.posts(),
            final(self).store.users() == old(self).store.users(),
            final(self).store.threshold() == old(self).store.threshold(),
            r matches Ok(b) ==> b == true && (exists|rx: Reaction|
                {
                    &&& #[trigger] final(self).store.reactions() == old(self).store.reactions().insert((post_id, user_id), rx)
                    &&& rx.post_id == post_id
                    &&& rx.user_id == user_id
                    &&& rx.reaction_type == reaction_type
                }),
            r is Err ==> final(self).store.reactions() == old(self).store.reactions() && final(self).stream_manager == old(self).stream_manager,
            forall|v: u128|
                #[trigger] final(self).stream_manager.has_topic(v) == old(self).stream_manager.has_topic(v),
            // The owner's stream alone can move, and when it does it gets
            // exactly one event carrying this reaction.
            old(self).store.posts().dom().contains(post_id) ==> ({
                let owner = old(self).store.posts()[post_id].user_id;
                &&& forall|v: u128|
                    v != owner && old(self).stream_manager.has_topic(v) ==> #[trigger] final(self).stream_manager.topic_of(v) == old(self).stream_manager.topic_of(v)
                &&& (r is Ok && old(self).stream_manager.has_topic(owner)) ==> (exists|
                    ev: ReactionEvent,
                |
                    {
                        &&& #[trigger] final(self).stream_manager.topic_of(owner) == old(self).stream_manager.topic_of(owner).do_publish(ev)
                        &&& ev.post_id@ == uuid_str_of(post_id)
                        &&& ev.reactor_user_id@ == uuid_str_of(user_id)
                        &&& ev.reaction_type@ == reaction_type.spec_as_str()
                    })
            }),
            !old(self).store.posts().dom().contains(post_id) ==> final(self).stream_manager == old(self).stream_manager,
    {
        match ReactionRepository::add_reaction(&mut self.store, post_id, user_id, reaction_type) {
            Ok(_) => {},
            Err(e) => {
                return Err(AppError::Domain(e));
            },
        }
        match PostRepository::find_by_id(&self.store, post_id) {
            Some(post) => {
                let _ = self.stream_manager.broadcast_reaction(
                    post.user_id,
                    post_id,
                    user_id,
                    reaction_type,
                );
            },
            None => {},
        }
        Ok(true)
    }
}

/// Law: last write wins.  Storing a second reaction for the same
/// (post, user) pair — whatever its kind — leaves exactly the one entry
/// for that pair, carrying the later kind; reactions never accumulate.
pub proof fn lemma_reaction_last_write_wins(
    m: Map<(u128, u128), Reaction>,
    post_id: u128,
    user_id: u128,
    first: Reaction,
    second: Reaction,
)
    ensures
        m.insert((post_id, user_id), first).insert((post_id, user_id), second) == m.insert(
            (post_id, user_id),
            second,
        ),
        m.insert((post_id, user_id), second)[(post_id, user_id)] == second,
{
    assert(m.insert((post_id, user_id), first).insert((post_id, user_id), second) =~= m.insert(
        (post_id, user_id),
        second,
    ));
}

/// Removes one user's reaction from one post; idempotent.
pub struct RemoveReactionUseCase<S: ReactionRepository> {
    pub store: S,
}

impl<S: ReactionRepository> RemoveReactionUseCase<S> {
    pub fn new(store: S) -> (r: RemoveReactionUseCase<S>)
        ensures
            r.store == store,
    {
        RemoveReactionUseCase { store }
    }

    /// Removes the (post, user) reaction; removing an absent one succeeds
    /// the same way.
    pub fn execute(&mut self, post_id: u128, user_id: u128) -> (r: Result<bool, AppError>)
        requires
            old(self).store.inv(),
        ensures
            final(self).store.inv(),
            final(self).store.posts() == old(self).store.posts(),
            final(self).store.users() == old(self).store.users(),
            final(self).store.threshold() == old(self).store.threshold(),
            r matches Ok(b) ==> b == true && final(self).store.reactions() == old(self).store.reactions().remove((post_id, user_id)),
            r is Err ==> final(self).store.reactions() == old(self).store.reactions(),
    {
        match ReactionRepository::remove_reaction(&mut self.store, post_id, user_id) {
            Ok(_) => Ok(true),
            Err(e) => Err(AppError::Domain(e)),
        }
    }
}

/// One kind with the number of reactions of that kind on a post.
#[derive(Debug, Clone, Copy, PartialEq, Eq, Structural)]
pub struct ReactionCount {
    pub reaction_type: ReactionType,
    pub count: i64,
}

/// Reaction counts of one post, grouped by kind.
pub struct GetPostReactionsUseCase<S: ReactionRepository> {
    pub store: S,
}

impl<S: ReactionRepository> GetPostReactionsUseCase<S> {
    pub fn new(store: S) -> (r: GetPostReactionsUseCase<S>)
        ensures
            r.store == store,
    {
        GetPostReactionsUseCase { store }
    }

    /// Every kind that occurs on the post, each exactly once, with its
    /// exact stored count.
    pub fn execute(&self, post_id: u128) -> (r: Result<Vec<ReactionCount>, AppError>)
        requires
            self.store.inv(),
        ensures
            r matches Ok(counts) ==> ({
                &&& forall|j: int|
                    0 <= j < counts@.len() ==> (#[trigger] counts@[j]).count > 0
                        && counts@[j].count as int == count_as_i64(
                        crate::repos::reaction_count_for_post(
                            self.store.reactions(),
                            post_id,
                            counts@[j].reaction_type,
                        ),
                    )
                &&& forall|j1: int, j2: int|
                    0 <= j1 < j2 < counts@.len() ==> counts@[j1].reaction_type
                        != counts@[j2].reaction_type
                &&& forall|kind: ReactionType|
                    crate::repos::reaction_count_for_post(self.store.reactions(), post_id, kind)
                        > 0 ==> exists|j: int|
                        0 <= j < counts@.len() && (#[trigger] counts@[j]).reaction_type == kind
            }),
            r is Ok,
    {
        let raw = ReactionRepository::get_reaction_counts(&self.store, post_id);
        let mut out: Vec<ReactionCount> = Vec::new();
        let n = raw.len();
        let mut i: usize = 0;
        while i < n
            invariant
                i <= n,
                n == raw@.len(),
                out@.len() == i,
                forall|j: int|
                    0 <= j < i ==> (#[trigger] out@[j]).reaction_type == raw@[j].0
                        && out@[j].count == raw@[j].1,
            decreases n - i,
        {
            let (kind, count) = raw[i];
            out.push(ReactionCount { reaction_type: kind, count });
            i = i + 1;
        }
        proof {
            assert forall|kind: ReactionType|
                crate::repos::reaction_count_for_post(self.store.reactions(), post_id, kind) > 0
                implies exists|j: int|
                0 <= j < out@.len() && (#[trigger] out@[j]).reaction_type == kind by {
                let j = choose|j: int| 0 <= j < raw@.len() && (#[trigger] raw@[j]).0 == kind;
                assert(out@[j].reaction_type == kind);
            }
        }
        Ok(out)
    }
}

/// The most recent reaction received by a user, for their avatar.
pub struct GetUserLatestReactionUseCase<S: ReactionRepository> {
    pub store: S,
}

impl<S: ReactionRepository> GetUserLatestReactionUseCase<S> {
    pub fn new(store: S) -> (r: GetUserLatestReactionUseCase<S>)
        ensures
            r.store == store,
    {
        GetUserLatestReactionUseCase { store }
    }

    /// The kind of the most recent reaction on any post owned by
    /// `user_id`, or nothing when no such reaction is stored.
    pub fn execute(&self, user_id: u128) -> (r: Result<Option<ReactionType>, AppError>)
        requires
            self.store.inv(),
        ensures
            r is Ok,
            r matches Ok(o) ==> match o {
                Some(kind) => exists|rx: Reaction|
                    {
                        &&& #[trigger] self.store.reactions().dom().contains(
                            (rx.post_id, rx.user_id),
                        )
                        &&& self.store.reactions()[(rx.post_id, rx.user_id)] == rx
                        &&& self.store.post_owner(rx.post_id) == Some(user_id)
                        &&& rx.reaction_type == kind
                        &&& forall|k: (u128, u128)|
                            self.store.reactions().dom().contains(k) && self.store.post_owner(k.0)
                                == Some(user_id) ==> (#[trigger] self.store.reactions()[k]).created_at
                                <= rx.created_at
                    },
                None => forall|k: (u128, u128)|
                    self.store.reactions().dom().contains(k) ==> #[trigger] self.store.post_owner(
                        k.0,
                    ) != Some(user_id),
            },
    {
        let found = ReactionRepository::get_latest_reaction_for_user(&self.store, user_id);
        match found {
            Some(rx) => Ok(Some(rx.reaction_type)),
            None => Ok(None),
        }
    }
}

/// The sum of the per-kind counts.
pub open spec fn sum_counts(s: Seq<(ReactionType, i64)>) -> int
    decreases s.len(),
{
    if s.len() == 0 {
        0
    } else {
        sum_counts(s.drop_last()) + s.last().1
    }
}

/// A user's expression state, derived from the reactions their posts have
/// received.  The intensity is reported in whole percent: the total
/// reaction count, capped at one hundred.
#[derive(Debug)]
pub struct ExpressionState {
    pub dominant_expression: Option<ReactionType>,
    pub intensity_percent: i64,
    pub reaction_counts: Vec<(ReactionType, i64)>,
    pub total_reactions: i64,
}

/// Derives a user's expression state from the received-reaction counts.
pub struct GetUserExpressionStateUseCase<S: ReactionRepository> {
    pub store: S,
}

impl<S: ReactionRepository> GetUserExpressionStateUseCase<S> {
    pub fn new(store: S) -> (r: GetUserExpressionStateUseCase<S>)
        ensures
            r.store == store,
    {
        GetUserExpressionStateUseCase { store }
    }

    /// The total of all received reactions, the dominant kind — one whose
    /// count no other kind exceeds — and the intensity: the total capped
    /// at one hundred percent.  Never fails; a total beyond the counter's
    /// range saturates at `i64::MAX` (the intensity cap makes the excess
    /// irrelevant).
    #[verifier::rlimit(50)]
    pub fn execute(&self, user_id: u128) -> (r: Result<ExpressionState, AppError>)
        requires
            self.store.inv(),
        ensures
            r is Ok,
            r matches Ok(st) ==> ({
                let entries = st.reaction_counts@;
                &&& st.total_reactions as int == (if sum_counts(entries) <= i64::MAX {
                    sum_counts(entries)
                } else {
                    i64::MAX as int
                })
                &&& st.total_reactions >= 0
                &&& (st.total_reactions <= 100 ==> st.intensity_percent == st.total_reactions)
                &&& (st.total_reactions > 100 ==> st.intensity_percent == 100)
                &&& forall|j: int|
                    0 <= j < entries.len() ==> (#[trigger] entries[j]).1 > 0 && entries[j].1 as int
                        == count_as_i64(
                        reaction_count_received(
                            self.store.reactions(),
                            |p: u128| self.store.post_owner(p),
                            user_id,
                            entries[j].0,
                        ),
                    )
                &&& forall|j1: int, j2: int|
                    0 <= j1 < j2 < entries.len() ==> entries[j1].0 != entries[j2].0
                &&& match st.dominant_expression {
                    Some(kind) => exists|j: int|
                        0 <= j < entries.len() && (#[trigger] entries[j]).0 == kind && (forall|
                            j2: int,
                        |
                            0 <= j2 < entries.len() ==> (#[trigger] entries[j2]).1
                                <= entries[j].1),
                    None => entries.len() == 0,
                }
            }),
    {
        let counts = ReactionRepository::get_user_received_reaction_counts(&self.store, user_id);
        let n = counts.len();
        let mut total: i64 = 0;
        let mut best: Option<(ReactionType, i64, usize)> = None;
        let mut i: usize = 0;
        while i < n
            invariant
                i <= n,
                n == counts@.len(),
                forall|j: int| 0 <= j < counts@.len() ==> (#[trigger] counts@[j]).1 > 0,
                total as int == (if sum_counts(counts@.take(i as int)) <= i64::MAX {
                    sum_counts(counts@.take(i as int))
                } else {
                    i64::MAX as int
                }),
                total >= 0,
                match best {
                    Some(b) => {
                        &&& b.2 < i
                        &&& counts@[b.2 as int].0 == b.0
                        &&& counts@[b.2 as int].1 == b.1
                        &&& forall|j: int| 0 <= j < i ==> (#[trigger] counts@[j]).1 <= b.1
                    },
                    None => i == 0,
                },
            decreases n - i,
        {
            proof {
                assert(counts@.take(i as int + 1).drop_last() =~= counts@.take(i as int));
                assert(counts@.take(i as int + 1).last() == counts@[i as int]);
            }
            let (kind, count) = counts[i];
            total = match total.checked_add(count) {
                Some(t) => t,
                None => i64::MAX,
            };
            let replace = match best {
                Some(b) => count >= b.1,
                None => true,
            };
            if replace {
                best = Some((kind, count, i));
            }
            i = i + 1;
        }
        proof {
            assert(counts@.take(n as int) =~= counts@);
        }
        proof {
            match best {
                Some(b) => {
                    assert(counts@[b.2 as int].0 == b.0);
                    assert(forall|j2: int|
                        0 <= j2 < counts@.len() ==> (#[trigger] counts@[j2]).1 <= b.1);
                },
                None => {},
            }
        }
        let intensity_percent: i64 = if total >= 100 {
            100
        } else {
            total
        };
        let dominant_expression = match best {
            Some(b) => Some(b.0),
            None => None,
        };
        let state = ExpressionState {
            dominant_expression,
            intensity_percent,
            reaction_counts: counts,
            total_reactions: total,
        };
        proof {
            let entries = state.reaction_counts@;
            assert(state.total_reactions as int == (if sum_counts(entries) <= i64::MAX {
                sum_counts(entries)
            } else {
                i64::MAX as int
            }));
        }
        Ok(state)
    }
}

} // verus!
