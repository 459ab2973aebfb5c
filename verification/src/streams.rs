//! The two event-stream managers: one global topic for post-lifecycle
//! events, and a per-owner family of reaction topics created lazily on
//! first subscription.

use vstd::prelude::*;

verus! {

use vstd::pervasive::cloned;
use crate::entities::ReactionType;
use crate::events::{PostEvent, ReactionEvent};
use crate::ident::uuid_str_of;
use crate::topics::{
    RecvOutcome,
    Topic,
    TopicModel,
    POST_STREAM_CAPACITY,
    REACTION_STREAM_CAPACITY,
};

/// The single global topic carrying post-lifecycle events to every
/// connected client.
pub struct PostStreamManager {
    topic: Topic<PostEvent>,
}

impl PostStreamManager {
    pub closed spec fn model(&self) -> TopicModel<PostEvent> {
        self.topic.model()
    }

    pub open spec fn inv(&self) -> bool {
        self.model().inv() && self.model().cap == POST_STREAM_CAPACITY
    }

    pub fn new() -> (r: PostStreamManager)
        ensures
            r.inv(),
            r.model().num_handles() == 0,
            r.model().total() == 0,
            r.model().base == 0,
    {
        PostStreamManager { topic: Topic::new(POST_STREAM_CAPACITY) }
    }

    /// Subscribes to the global stream; the new subscriber sees only what
    /// is published after this call.
    pub fn subscribe(&mut self) -> (h: usize)
        requires
            old(self).inv(),
        ensures
            final(self).inv(),
            h as int == old(self).model().num_handles(),
            final(self).model() == old(self).model().do_subscribe(),
    {
        self.topic.subscribe()
    }

    /// Publishes a post event to every current subscriber.  Best-effort:
    /// with no subscribers the event is simply dropped, and the publisher
    /// never sees an error.
    pub fn broadcast(&mut self, event: PostEvent) -> (r: Result<(), String>)
        requires
            old(self).inv(),
        ensures
            final(self).inv(),
            final(self).model() == old(self).model().do_publish(event),
            r is Ok,
    {
        self.topic.publish(event);
        Ok(())
    }

    /// One receive attempt: the next pending event exactly, a gap marker,
    /// or nothing.
    pub fn recv(&mut self, h: usize) -> (r: RecvOutcome<PostEvent>)
        requires
            old(self).inv(),
            old(self).model().is_live(h as int),
        ensures
            final(self).inv(),
            final(self).model().cap == old(self).model().cap,
            final(self).model().base == old(self).model().base,
            final(self).model().buf == old(self).model().buf,
            final(self).model().num_handles() == old(self).model().num_handles(),
            forall|g: int|
                0 <= g < old(self).model().num_handles() && g != h as int
                    ==> final(self).model().cursors[g] == old(self).model().cursors[g],
            final(self).model().is_live(h as int),
            ({
                let m = old(self).model();
                let m2 = final(self).model();
                if m.lag(h as int) > 0 {
                    &&& (r matches RecvOutcome::Lagged(n) && n as int == m.lag(h as int))
                    &&& m2.pending(h as int) == m.pending(h as int)
                    &&& m2.lag(h as int) == 0
                } else if m.pending(h as int).len() > 0 {
                    &&& (r matches RecvOutcome::Event(ev) && ev == m.pending(h as int)[0])
                    &&& m2.pending(h as int) == m.pending(h as int).drop_first()
                    &&& m2.lag(h as int) == 0
                } else {
                    &&& r matches RecvOutcome::Empty
                    &&& m2 == m
                }
            }),
    {
        let r = self.topic.recv(h);
        proof {
            let m = old(self).model();
            if m.lag(h as int) == 0 && m.pending(h as int).len() > 0 {
                assert(r matches RecvOutcome::Event(ev) ==> cloned::<PostEvent>(
                    m.pending(h as int)[0],
                    ev,
                ));
                assert(r matches RecvOutcome::Event(ev) ==> ev == m.pending(h as int)[0]);
            }
        }
        r
    }

    /// Drops a subscriber promptly, so the buffer no longer serves it.
    pub fn unsubscribe(&mut self, h: usize)
        requires
            old(self).inv(),
            old(self).model().is_live(h as int),
        ensures
            final(self).inv(),
            final(self).model() == old(self).model().do_unsubscribe(h as int),
    {
        self.topic.unsubscribe(h)
    }
}

impl Default for PostStreamManager {
    fn default() -> (r: PostStreamManager)
        ensures
            r.inv(),
            r.model().num_handles() == 0,
            r.model().total() == 0,
    {
        PostStreamManager::new()
    }
}

/// Per-owner reaction topics: a map from a post owner's id to the topic
/// its reaction events are delivered on, created lazily on first
/// subscription.
pub struct ReactionStreamManager {
    keys: Vec<u128>,
    topics: Vec<Topic<ReactionEvent>>,
}

impl ReactionStreamManager {
    pub closed spec fn spec_keys(&self) -> Seq<u128> {
        self.keys@
    }

    pub closed spec fn topic_models(&self) -> Seq<TopicModel<ReactionEvent>> {
        Seq::new(self.topics@.len(), |i: int| self.topics@[i].model())
    }

    pub open spec fn inv(&self) -> bool {
        &&& self.spec_keys().len() == self.topic_models().len()
        &&& forall|i: int, j: int|
            0 <= i < j < self.spec_keys().len() ==> self.spec_keys()[i] != self.spec_keys()[j]
        &&& forall|i: int|
            0 <= i < self.topic_models().len() ==> (#[trigger] self.topic_models()[i]).inv()
                && self.topic_models()[i].cap == REACTION_STREAM_CAPACITY
    }

    /// Whether anyone has ever subscribed under this owner id.
    pub open spec fn has_topic(&self, user_id: u128) -> bool {
        self.spec_keys().contains(user_id)
    }

    pub open spec fn idx_of(&self, user_id: u128) -> int {
        self.spec_keys().index_of(user_id)
    }

    /// The topic of one owner.
    pub open spec fn topic_of(&self, user_id: u128) -> TopicModel<ReactionEvent>
        recommends
            self.has_topic(user_id),
    {
        self.topic_models()[self.idx_of(user_id)]
    }

    /// The events subscriber `h` under owner `user_id` has yet to receive.
    pub open spec fn pending(&self, user_id: u128, h: int) -> Seq<ReactionEvent> {
        self.topic_of(user_id).pending(h)
    }

    pub fn new() -> (r: ReactionStreamManager)
        ensures
            r.inv(),
            forall|u: u128| !r.has_topic(u),
    {
        let r = ReactionStreamManager { keys: Vec::new(), topics: Vec::new() };
        proof {
            assert(r.spec_keys().len() == 0);
            assert(r.topic_models().len() == 0);
        }
        r
    }

    /// The position of an owner's topic, if it exists.
    fn find_index(&self, user_id: u128) -> (r: Option<usize>)
        requires
            self.inv(),
        ensures
            r matches Some(i) ==> self.has_topic(user_id) && i as int == self.idx_of(user_id)
                && i < self.spec_keys().len() && self.spec_keys()[i as int] == user_id,
            r is None ==> !self.has_topic(user_id),
    {
        let n = self.keys.len();
        let mut i: usize = 0;
        while i < n
            invariant
                self.inv(),
                n == self.spec_keys().len(),
                i <= n,
                forall|j: int| 0 <= j < i ==> self.spec_keys()[j] != user_id,
            decreases n - i,
        {
            if self.keys[i] == user_id {
                proof {
                    assert(self.spec_keys()[i as int] == user_id);
                    assert(self.has_topic(user_id));
                    let k = self.idx_of(user_id);
                    assert(0 <= k < self.spec_keys().len() && self.spec_keys()[k] == user_id);
                    assert(k == i as int);
                }
                return Some(i);
            }
            i = i + 1;
        }
        proof {
            if self.has_topic(user_id) {
                let k = choose|k: int|
                    0 <= k < self.spec_keys().len() && self.spec_keys()[k] == user_id;
                assert(self.spec_keys()[k] != user_id);
            }
        }
        None
    }

    /// Subscribes under an owner id, creating the topic on first use; the
    /// check-and-create is one atomic step of this structure.  Topics of
    /// every other owner are untouched.
    pub fn subscribe(&mut self, user_id: u128) -> (h: usize)
        requires
            old(self).inv(),
        ensures
            final(self).inv(),
            final(self).has_topic(user_id),
            forall|v: u128|
                #[trigger] old(self).has_topic(v) ==> final(self).has_topic(v),
            forall|v: u128|
                v != user_id && old(self).has_topic(v) ==> #[trigger] final(self).topic_of(v)
                    == old(self).topic_of(v),
            forall|v: u128|
                #[trigger] final(self).has_topic(v) ==> v == user_id || old(self).has_topic(v),
            old(self).has_topic(user_id) ==> h as int == old(self).topic_of(user_id).num_handles()
                && final(self).topic_of(user_id) == old(self).topic_of(user_id).do_subscribe(),
            // A freshly created topic starts empty: nothing was ever
            // published on it, so its first subscriber can be delivered
            // everything published afterwards.
            !old(self).has_topic(user_id) ==> h == 0 && final(self).topic_of(user_id).total() == 0
                && final(self).topic_of(user_id).base == 0 && final(self).topic_of(
                user_id,
            ).num_handles() == 1,
            final(self).topic_of(user_id).is_live(h as int),
            final(self).pending(user_id, h as int) == Seq::<ReactionEvent>::empty(),
            final(self).topic_of(user_id).lag(h as int) == 0,
    {
        let found = self.find_index(user_id);
        match found {
            Some(i) => {
                let ghost m0 = old(self).topic_of(user_id);
                let mut t = self.topics.remove(i);
                proof {
                    t.model().lemma_subscribe_inv();
                }
                let h = t.subscribe();
                self.topics.insert(i, t);
                proof {
                    assert(self.keys@ == old(self).keys@);
                    assert(self.topic_models() =~= old(self).topic_models().update(
                        i as int,
                        m0.do_subscribe(),
                    ));
                    m0.lemma_subscribe_inv();
                    assert forall|v: u128|
                        v != user_id && old(self).has_topic(v) implies #[trigger] self.topic_of(v)
                        == old(self).topic_of(v) by {
                        assert(old(self).idx_of(v) != i as int);
                        assert(self.idx_of(v) == old(self).idx_of(v));
                    }
                    assert(self.topic_of(user_id) == m0.do_subscribe());
                }
                h
            },
            None => {
                let ghost k0 = old(self).spec_keys();
                self.keys.push(user_id);
                let mut t: Topic<ReactionEvent> = Topic::new(REACTION_STREAM_CAPACITY);
                proof {
                    t.model().lemma_subscribe_inv();
                }
                let h = t.subscribe();
                self.topics.push(t);
                proof {
                    assert(self.spec_keys() =~= k0.push(user_id));
                    assert(self.topic_models() =~= old(self).topic_models().push(t.model()));
                    assert(self.spec_keys()[k0.len() as int] == user_id);
                    assert(self.has_topic(user_id));
                    assert forall|v: u128| #[trigger] old(self).has_topic(v) implies self.has_topic(
                        v,
                    ) by {
                        let j = choose|j: int| 0 <= j < k0.len() && k0[j] == v;
                        assert(self.spec_keys()[j] == v);
                    }
                    assert forall|v: u128| #[trigger] self.has_topic(v) implies v == user_id
                        || old(self).has_topic(v) by {
                        let j = choose|j: int|
                            0 <= j < self.spec_keys().len() && self.spec_keys()[j] == v;
                        if j < k0.len() {
                            assert(k0[j] == v);
                        }
                    }
                    // The new key is fresh, so uniqueness is kept.
                    assert forall|i2: int, j2: int|
                        0 <= i2 < j2 < self.spec_keys().len() implies self.spec_keys()[i2]
                        != self.spec_keys()[j2] by {
                        if j2 == k0.len() as int {
                            assert(k0[i2] == self.spec_keys()[i2]);
                            if self.spec_keys()[i2] == user_id {
                                assert(old(self).has_topic(user_id));
                            }
                        }
                    }
                    assert(self.idx_of(user_id) == k0.len() as int) by {
                        let k = self.idx_of(user_id);
                        assert(0 <= k < self.spec_keys().len() && self.spec_keys()[k] == user_id);
                        if k < k0.len() {
                            assert(k0[k] == user_id);
                            assert(old(self).has_topic(user_id));
                        }
                    }
                    assert forall|v: u128|
                        v != user_id && old(self).has_topic(v) implies #[trigger] self.topic_of(v)
                        == old(self).topic_of(v) by {
                        let k = old(self).idx_of(v);
                        assert(0 <= k < k0.len() && k0[k] == v);
                        assert(self.spec_keys()[k] == v);
                        assert(self.idx_of(v) == k) by {
                            let k2 = self.idx_of(v);
                            assert(0 <= k2 < self.spec_keys().len() && self.spec_keys()[k2] == v);
                            if k2 == k0.len() as int {
                                assert(self.spec_keys()[k2] == user_id);
                            }
                            if k2 != k {
                                assert(self.spec_keys()[k2] != self.spec_keys()[k]);
                            }
                        }
                    }
                    assert(self.topic_of(user_id) == t.model());
                }
                h
            },
        }
    }

    /// Delivers a reaction event onto the reacted-to post owner's topic.
    /// A no-op when nobody has ever subscribed under that owner; topics of
    /// every other owner are untouched, so only subscribers under
    /// `post_author_id` can ever receive the event.
    pub fn broadcast_reaction(
        &mut self,
        post_author_id: u128,
        post_id: u128,
        reactor_user_id: u128,
        reaction_type: ReactionType,
    ) -> (r: Result<(), String>)
        requires
            old(self).inv(),
        ensures
            final(self).inv(),
            r is Ok,
            forall|v: u128| #[trigger] final(self).has_topic(v) == old(self).has_topic(v),
            forall|v: u128|
                v != post_author_id && old(self).has_topic(v) ==> #[trigger] final(self).topic_of(v) == old(self).topic_of(v),
            !old(self).has_topic(post_author_id) ==> final(self).topic_models() == old(self).topic_models() && final(self).spec_keys() == old(self).spec_keys(),
            old(self).has_topic(post_author_id) ==> (exists|ev: ReactionEvent|
                {
                    &&& #[trigger] final(self).topic_of(post_author_id) == old(self).topic_of(
                        post_author_id,
                    ).do_publish(ev)
                    &&& ev.post_id@ == uuid_str_of(post_id)
                    &&& ev.reactor_user_id@ == uuid_str_of(reactor_user_id)
                    &&& ev.reaction_type@ == reaction_type.spec_as_str()
                    &&& ev.latest_reaction_for_author@ == reaction_type.spec_as_str()
                }),
    {
        let found = self.find_index(post_author_id);
        match found {
            Some(i) => {
                let ghost m0 = old(self).topic_of(post_author_id);
                let event = ReactionEvent::new(post_id, reactor_user_id, reaction_type);
                let ghost ev = event;
                let mut t = self.topics.remove(i);
                proof {
                    t.model().lemma_publish_inv(ev);
                }
                t.publish(event);
                self.topics.insert(i, t);
                proof {
                    assert(self.keys@ == old(self).keys@);
                    assert(self.topic_models() =~= old(self).topic_models().update(
                        i as int,
                        m0.do_publish(ev),
                    ));
                    m0.lemma_publish_inv(ev);
                    assert forall|v: u128|
                        v != post_author_id && old(self).has_topic(v) implies #[trigger] self
                        .topic_of(v) == old(self).topic_of(v) by {
                        assert(old(self).idx_of(v) != i as int);
                        assert(self.idx_of(v) == old(self).idx_of(v));
                    }
                    assert(self.topic_of(post_author_id) == m0.do_publish(ev));
                }
                Ok(())
            },
            None => Ok(()),
        }
    }

    /// Drops subscriber `h` under owner `user_id` promptly, so the buffer
    /// no longer serves it; every other owner's topic is untouched.
    pub fn unsubscribe(&mut self, user_id: u128, h: usize)
        requires
            old(self).inv(),
            old(self).has_topic(user_id),
            old(self).topic_of(user_id).is_live(h as int),
        ensures
            final(self).inv(),
            forall|v: u128| #[trigger] final(self).has_topic(v) == old(self).has_topic(v),
            forall|v: u128|
                v != user_id && old(self).has_topic(v) ==> #[trigger] final(self).topic_of(v)
                    == old(self).topic_of(v),
            final(self).topic_of(user_id) == old(self).topic_of(user_id).do_unsubscribe(h as int),
    {
        let found = self.find_index(user_id);
        match found {
            Some(i) => {
                let mut t = self.topics.remove(i);
                t.unsubscribe(h);
                self.topics.insert(i, t);
                proof {
                    assert(self.keys@ == old(self).keys@);
                    assert(self.topic_models() =~= old(self).topic_models().update(
                        i as int,
                        t.model(),
                    ));
                    assert forall|v: u128|
                        v != user_id && old(self).has_topic(v) implies #[trigger] self.topic_of(v)
                        == old(self).topic_of(v) by {
                        assert(old(self).idx_of(v) != i as int);
                        assert(self.idx_of(v) == old(self).idx_of(v));
                    }
                    assert(self.topic_of(user_id) == t.model());
                    let m1 = old(self).topic_of(user_id).do_unsubscribe(h as int);
                    assert forall|g: int| m1.is_live(g) implies 0 <= #[trigger] m1.pos(g)
                        <= m1.total() by {
                        assert(m1.cursors[g] == old(self).topic_of(user_id).cursors[g]);
                        assert(old(self).topic_of(user_id).is_live(g));
                        assert(old(self).topic_of(user_id).pos(g) <= old(self).topic_of(
                            user_id,
                        ).total());
                    }
                }
            },
            None => {
                // Unreachable: the topic exists by precondition.
                proof {
                    assert(false);
                }
            },
        }
    }

    /// One receive attempt for subscriber `h` under owner `user_id`.
    pub fn recv(&mut self, user_id: u128, h: usize) -> (r: RecvOutcome<ReactionEvent>)
        requires
            old(self).inv(),
            old(self).has_topic(user_id),
            old(self).topic_of(user_id).is_live(h as int),
        ensures
            final(self).inv(),
            forall|v: u128| #[trigger] final(self).has_topic(v) == old(self).has_topic(v),
            forall|v: u128|
                v != user_id && old(self).has_topic(v) ==> #[trigger] final(self).topic_of(v)
                    == old(self).topic_of(v),
            final(self).topic_of(user_id).is_live(h as int),
            final(self).topic_of(user_id).num_handles() == old(self).topic_of(
                user_id,
            ).num_handles(),
            ({
                let m = old(self).topic_of(user_id);
                let m2 = final(self).topic_of(user_id);
                if m.lag(h as int) > 0 {
                    &&& (r matches RecvOutcome::Lagged(n) && n as int == m.lag(h as int))
                    &&& m2.pending(h as int) == m.pending(h as int)
                    &&& m2.lag(h as int) == 0
                } else if m.pending(h as int).len() > 0 {
                    &&& (r matches RecvOutcome::Event(ev) && ev == m.pending(h as int)[0])
                    &&& m2.pending(h as int) == m.pending(h as int).drop_first()
                    &&& m2.lag(h as int) == 0
                } else {
                    &&& r matches RecvOutcome::Empty
                    &&& m2 == m
                }
            }),
    {
        let found = self.find_index(user_id);
        match found {
            Some(i) => {
                let ghost m0 = old(self).topic_of(user_id);
                let mut t = self.topics.remove(i);
                let r = t.recv(h);
                self.topics.insert(i, t);
                proof {
                    assert(self.keys@ == old(self).keys@);
                    assert(self.topic_models() =~= old(self).topic_models().update(
                        i as int,
                        t.model(),
                    ));
                    assert forall|v: u128|
                        v != user_id && old(self).has_topic(v) implies #[trigger] self.topic_of(v)
                        == old(self).topic_of(v) by {
                        assert(old(self).idx_of(v) != i as int);
                        assert(self.idx_of(v) == old(self).idx_of(v));
                    }
                    assert(self.topic_of(user_id) == t.model());
                    if m0.lag(h as int) == 0 && m0.pending(h as int).len() > 0 {
                        assert(r matches RecvOutcome::Event(ev) ==> cloned::<ReactionEvent>(
                            m0.pending(h as int)[0],
                            ev,
                        ));
                        assert(r matches RecvOutcome::Event(ev) ==> ev == m0.pending(
                            h as int,
                        )[0]);
                    }
                }
                r
            },
            None => {
                // Unreachable: the topic exists by precondition.
                proof {
                    assert(false);
                }
                RecvOutcome::Empty
            },
        }
    }
}

impl Default for ReactionStreamManager {
    fn default() -> (r: ReactionStreamManager)
        ensures
            r.inv(),
            forall|u: u128| !r.has_topic(u),
    {
        ReactionStreamManager::new()
    }
}

} // verus!
