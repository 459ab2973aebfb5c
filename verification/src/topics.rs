//! In-process broadcast topics with a bounded replay buffer.
//!
//! A topic keeps an append-only history of published events, of which only
//! the last `cap` are retained, and one cursor per subscriber.  Publishing
//! never blocks and never fails towards the publisher; a subscriber that
//! falls behind the retained window observes a gap marker with the number
//! of events it missed and then continues with what is still retained.
//!
//! Two managers are built on it: a single global topic for post-lifecycle
//! events, and a per-owner family of topics for reaction events, created
//! lazily on first subscription.

use vstd::prelude::*;

verus! {

use vstd::pervasive::cloned;
use vstd::pervasive::VecAdditionalExecFns;

/// Replay buffer of the global post-event topic.
pub const POST_STREAM_CAPACITY: usize = 1000;

/// Replay buffer of each per-owner reaction topic.
pub const REACTION_STREAM_CAPACITY: usize = 100;

/// The abstract state of a topic: capacity, number of evicted events, the
/// retained events, and one absolute position per subscriber handle (a
/// dropped subscriber holds `None`).
#[verifier::ext_equal]
pub struct TopicModel<E> {
    pub cap: int,
    pub base: int,
    pub buf: Seq<E>,
    pub cursors: Seq<Option<int>>,
}

impl<E> TopicModel<E> {
    /// How many events were ever published (and accepted).
    pub open spec fn total(self) -> int {
        self.base + self.buf.len()
    }

    pub open spec fn num_handles(self) -> int {
        self.cursors.len() as int
    }

    pub open spec fn is_live(self, h: int) -> bool {
        0 <= h < self.cursors.len() && self.cursors[h] is Some
    }

    pub open spec fn pos(self, h: int) -> int
        recommends
            self.is_live(h),
    {
        match self.cursors[h] {
            Some(p) => p,
            None => 0,
        }
    }

    pub open spec fn inv(self) -> bool {
        &&& 1 <= self.cap
        &&& 0 <= self.base
        &&& self.buf.len() <= self.cap
        &&& self.total() <= u64::MAX
        &&& forall|h: int| self.is_live(h) ==> 0 <= #[trigger] self.pos(h) <= self.total()
    }

    /// How many events subscriber `h` has missed by falling behind the
    /// retained window.
    pub open spec fn lag(self, h: int) -> int {
        if self.pos(h) < self.base {
            self.base - self.pos(h)
        } else {
            0
        }
    }

    /// The events subscriber `h` has yet to receive, after any gap.
    pub open spec fn pending(self, h: int) -> Seq<E> {
        let start = if self.pos(h) < self.base {
            self.base
        } else {
            self.pos(h)
        };
        self.buf.subrange(start - self.base, self.buf.len() as int)
    }

    /// A new subscriber: its cursor starts at the end of the history, so it
    /// sees only what is published afterwards.
    pub open spec fn do_subscribe(self) -> TopicModel<E> {
        TopicModel { cursors: self.cursors.push(Some(self.total())), ..self }
    }

    /// Publishing appends to the history and evicts the oldest retained
    /// event when the buffer is full.  At the (unreachable in practice)
    /// counter limit the event is dropped: publish is best-effort.
    pub open spec fn do_publish(self, e: E) -> TopicModel<E> {
        if self.total() == u64::MAX {
            self
        } else if self.buf.len() == self.cap {
            TopicModel { base: self.base + 1, buf: self.buf.drop_first().push(e), ..self }
        } else {
            TopicModel { buf: self.buf.push(e), ..self }
        }
    }

    /// Dropping a subscriber frees its cursor; nothing else changes.
    pub open spec fn do_unsubscribe(self, h: int) -> TopicModel<E> {
        TopicModel { cursors: self.cursors.update(h, None), ..self }
    }

    pub proof fn lemma_subscribe_inv(self)
        requires
            self.inv(),
        ensures
            self.do_subscribe().inv(),
            self.do_subscribe().is_live(self.num_handles()),
            self.do_subscribe().pending(self.num_handles()) == Seq::<E>::empty(),
            self.do_subscribe().lag(self.num_handles()) == 0,
            forall|h: int| self.is_live(h) ==> self.do_subscribe().is_live(h)
                && #[trigger] self.do_subscribe().pending(h) == self.pending(h)
                && self.do_subscribe().lag(h) == self.lag(h),
    {
        let m = self.do_subscribe();
        assert(m.pending(self.num_handles()) =~= Seq::<E>::empty());
        assert forall|h: int| m.is_live(h) implies 0 <= #[trigger] m.pos(h) <= m.total() by {
            if h < self.num_handles() {
                assert(m.cursors[h] == self.cursors[h]);
                assert(self.is_live(h));
                assert(m.pos(h) == self.pos(h));
                assert(self.pos(h) <= self.total());
            } else {
                assert(m.pos(h) == self.total());
            }
        }
        assert forall|h: int| self.is_live(h) implies m.is_live(h) && #[trigger] m.pending(h)
            == self.pending(h) && m.lag(h) == self.lag(h) by {
            assert(m.cursors[h] == self.cursors[h]);
            assert(m.pending(h) =~= self.pending(h));
        }
    }

    pub proof fn lemma_publish_inv(self, e: E)
        requires
            self.inv(),
        ensures
            self.do_publish(e).inv(),
            self.do_publish(e).num_handles() == self.num_handles(),
            forall|h: int| self.is_live(h) <==> #[trigger] self.do_publish(e).is_live(h),
            self.total() < u64::MAX ==> self.do_publish(e).total() == self.total() + 1,
            // A subscriber that is keeping up sees exactly the new event
            // appended to what it had pending.
            forall|h: int|
                self.is_live(h) && self.lag(h) == 0 && self.pending(h).len() < self.cap
                    && self.total() < u64::MAX ==> #[trigger] self.do_publish(e).pending(h)
                    == self.pending(h).push(e) && self.do_publish(e).lag(h) == 0,
    {
        let m = self.do_publish(e);
        assert forall|h: int| m.is_live(h) implies 0 <= #[trigger] m.pos(h) <= m.total() by {
            assert(m.cursors[h] == self.cursors[h]);
            assert(self.is_live(h));
            assert(m.pos(h) == self.pos(h));
            assert(self.pos(h) <= self.total());
            assert(m.total() >= self.total());
        }
        if self.total() < u64::MAX && self.buf.len() == self.cap {
            assert(m.buf.len() == self.cap);
        }
        assert forall|h: int|
            self.is_live(h) && self.lag(h) == 0 && self.pending(h).len() < self.cap
                && self.total() < u64::MAX implies #[trigger] m.pending(h) == self.pending(h).push(
            e,
        ) && m.lag(h) == 0 by {
            assert(m.cursors[h] == self.cursors[h]);
            if self.buf.len() == self.cap {
                assert(self.pending(h).len() == self.total() - self.pos(h));
                assert(self.pos(h) > self.base);
                assert(m.pending(h) =~= self.pending(h).push(e));
            } else {
                assert(m.pending(h) =~= self.pending(h).push(e));
            }
        }
    }
}

/// Law: a subscriber that connects before a publish has exactly that one
/// event pending (and so receives exactly one matching event).
pub proof fn lemma_subscribe_before_publish<E>(m: TopicModel<E>, e: E)
    requires
        m.inv(),
        m.total() < u64::MAX,
    ensures
        m.do_subscribe().do_publish(e).pending(m.num_handles()) == seq![e],
        m.do_subscribe().do_publish(e).lag(m.num_handles()) == 0,
{
    let h = m.num_handles();
    m.lemma_subscribe_inv();
    m.do_subscribe().lemma_publish_inv(e);
    assert(m.do_subscribe().pending(h).push(e) =~= seq![e]);
}

/// Law: a subscriber that connects after a publish has nothing of it
/// pending (and so receives no event for it).
pub proof fn lemma_subscribe_after_publish<E>(m: TopicModel<E>, e: E)
    requires
        m.inv(),
    ensures
        m.do_publish(e).do_subscribe().pending(m.do_publish(e).num_handles()) == Seq::<
            E,
        >::empty(),
{
    m.lemma_publish_inv(e);
    m.do_publish(e).lemma_subscribe_inv();
}

/// What one receive attempt yields: the next event, a gap marker counting
/// the missed events, or nothing new.
#[derive(Debug, Clone, PartialEq, Eq)]
pub enum RecvOutcome<E> {
    Event(E),
    Lagged(u64),
    Empty,
}

/// A broadcast topic with a bounded replay buffer; see the module text.
pub struct Topic<E> {
    cap: usize,
    base: u64,
    buf: Vec<E>,
    cursors: Vec<Option<u64>>,
}

impl<E> Topic<E> {
    pub closed spec fn model(&self) -> TopicModel<E> {
        TopicModel {
            cap: self.cap as int,
            base: self.base as int,
            buf: self.buf@,
            cursors: Seq::new(
                self.cursors@.len(),
                |i: int|
                    match self.cursors@[i] {
                        Some(p) => Some(p as int),
                        None => None,
                    },
            ),
        }
    }

    pub open spec fn inv(&self) -> bool {
        self.model().inv()
    }

    pub fn new(cap: usize) -> (r: Topic<E>)
        requires
            1 <= cap,
        ensures
            r.inv(),
            r.model() == (TopicModel::<E> {
                cap: cap as int,
                base: 0,
                buf: Seq::empty(),
                cursors: Seq::empty(),
            }),
    {
        let r = Topic { cap, base: 0u64, buf: Vec::new(), cursors: Vec::new() };
        proof {
            assert(r.model() =~= TopicModel::<E> {
                cap: cap as int,
                base: 0,
                buf: Seq::empty(),
                cursors: Seq::empty(),
            });
        }
        r
    }

    /// Registers a new subscriber and hands back its handle.
    pub fn subscribe(&mut self) -> (h: usize)
        requires
            old(self).inv(),
        ensures
            final(self).inv(),
            h as int == old(self).model().num_handles(),
            final(self).model() == old(self).model().do_subscribe(),
    {
        proof {
            old(self).model().lemma_subscribe_inv();
        }
        let h = self.cursors.len();
        let cursor: u64 = self.base + self.buf.len() as u64;
        self.cursors.push(Some(cursor));
        proof {
            assert(self.model() =~= old(self).model().do_subscribe());
        }
        h
    }

    /// Publishes an event: appended to the history, evicting the oldest
    /// retained event when the buffer is full.  Never blocks, never fails.
    pub fn publish(&mut self, e: E)
        requires
            old(self).inv(),
        ensures
            final(self).inv(),
            final(self).model() == old(self).model().do_publish(e),
    {
        proof {
            old(self).model().lemma_publish_inv(e);
        }
        let len64: u64 = self.buf.len() as u64;
        if self.base >= u64::MAX - len64 {
            // History counter exhausted: drop the event (publish is
            // best-effort).
            proof {
                assert(self.model() =~= old(self).model().do_publish(e));
            }
            return ;
        }
        self.buf.push(e);
        if self.buf.len() > self.cap {
            let _ = self.buf.remove(0);
            self.base = self.base + 1;
        }
        proof {
            assert(self.model() =~= old(self).model().do_publish(e));
        }
    }

    /// Drops a subscriber, freeing its cursor.
    pub fn unsubscribe(&mut self, h: usize)
        requires
            old(self).inv(),
            old(self).model().is_live(h as int),
        ensures
            final(self).inv(),
            final(self).model() == old(self).model().do_unsubscribe(h as int),
    {
        self.cursors.set(h, None);
        proof {
            let ghost m = old(self).model();
            assert(self.model() =~= m.do_unsubscribe(h as int));
            assert forall|g: int| self.model().is_live(g) implies 0 <= #[trigger] self.model().pos(
                g,
            ) <= self.model().total() by {
                assert(self.model().cursors[g] == m.cursors[g]);
                assert(m.is_live(g));
                assert(m.pos(g) <= m.total());
            }
        }
    }
}

impl<E: Clone> Topic<E> {
    /// One receive attempt for subscriber `h`.  Yields the gap size first
    /// if the subscriber lagged, then the retained events in order, then
    /// nothing when it has caught up.
    pub fn recv(&mut self, h: usize) -> (r: RecvOutcome<E>)
        requires
            old(self).inv(),
            old(self).model().is_live(h as int),
        ensures
            final(self).inv(),
            final(self).model().cap == old(self).model().cap,
            final(self).model().base == old(self).model().base,
            final(self).model().buf == old(self).model().buf,
            final(self).model().num_handles() == old(self).model().num_handles(),
            forall|g: int|
                0 <= g < old(self).model().num_handles() && g != h as int
                    ==> final(self).model().cursors[g] == old(self).model().cursors[g],
            final(self).model().is_live(h as int),
            ({
                let m = old(self).model();
                let m2 = final(self).model();
                if m.lag(h as int) > 0 {
                    &&& (r matches RecvOutcome::Lagged(n) && n as int == m.lag(h as int))
                    &&& m2.pos(h as int) == m.base
                    &&& m2.pending(h as int) == m.pending(h as int)
                    &&& m2.lag(h as int) == 0
                } else if m.pending(h as int).len() > 0 {
                    &&& (r matches RecvOutcome::Event(ev) && cloned::<E>(
                        m.pending(h as int)[0],
                        ev,
                    ))
                    &&& m2.pos(h as int) == m.pos(h as int) + 1
                    &&& m2.pending(h as int) == m.pending(h as int).drop_first()
                    &&& m2.lag(h as int) == 0
                } else {
                    &&& r matches RecvOutcome::Empty
                    &&& m2 == m
                }
            }),
    {
        let ghost m = old(self).model();
        let cursor: u64 = match self.cursors[h] {
            Some(c) => c,
            None => 0,  // unreachable: the handle is live
        };
        proof {
            assert(m.pos(h as int) == cursor as int);
            assert(cursor as int <= m.total());
        }
        if cursor < self.base {
            let n = self.base - cursor;
            self.cursors.set(h, Some(self.base));
            proof {
                assert(self.model().cursors =~= m.cursors.update(h as int, Some(m.base)));
                assert(self.model() =~= (TopicModel {
                    cursors: m.cursors.update(h as int, Some(m.base)),
                    ..m
                }));
                assert(self.model().pending(h as int) =~= m.pending(h as int));
                assert forall|g: int| self.model().is_live(g) implies 0 <= #[trigger] self.model().pos(g)
                    <= self.model().total() by {
                    if g == h as int {
                        assert(self.model().pos(g) == m.base);
                    } else {
                        assert(self.model().cursors[g] == m.cursors[g]);
                        assert(m.is_live(g));
                        assert(m.pos(g) <= m.total());
                    }
                }
            }
            RecvOutcome::Lagged(n)
        } else {
            proof {
                assert(cursor as int - self.base as int <= self.buf@.len());
            }
            let idx = (cursor - self.base) as usize;
            if idx < self.buf.len() {
                let ev = self.buf[idx].clone();
                self.cursors.set(h, Some(cursor + 1));
                proof {
                    assert(self.model().cursors =~= m.cursors.update(
                        h as int,
                        Some(cursor as int + 1),
                    ));
                    assert(self.model() =~= (TopicModel {
                        cursors: m.cursors.update(h as int, Some(cursor as int + 1)),
                        ..m
                    }));
                    assert(self.model().pending(h as int) =~= m.pending(h as int).drop_first());
                    assert(m.pending(h as int)[0] == m.buf[idx as int]);
                    assert forall|g: int| self.model().is_live(g) implies 0 <= #[trigger] self.model().pos(g)
                        <= self.model().total() by {
                        if g == h as int {
                            assert(self.model().pos(g) == cursor as int + 1);
                            assert(cursor as int + 1 <= m.total());
                        } else {
                            assert(self.model().cursors[g] == m.cursors[g]);
                            assert(m.is_live(g));
                            assert(m.pos(g) <= m.total());
                        }
                    }
                }
                RecvOutcome::Event(ev)
            } else {
                proof {
                    assert(self.model() =~= m);
                    assert(m.pending(h as int) =~= Seq::<E>::empty());
                }
                RecvOutcome::Empty
            }
        }
    }
}

} // verus!
