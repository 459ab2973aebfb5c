//! Post lifecycle: creation, view counting, the timeline, and a user's own
//! posts.

use vstd::prelude::*;

verus! {

use crate::dto::PostDto;
use crate::entities::{clone_opt_string, Post};
use crate::errors::AppError;
use crate::events::PostEvent;
use crate::ident::uuid_str_of;
use crate::repos::{post_available, post_state, PostRepository, UserRepository};
use crate::policy::step_view;
use crate::streams::PostStreamManager;
use crate::values::{PostContent, MAX_CONTENT_CHARS};

/// Validates, persists and announces a new post.
pub struct CreatePostUseCase<S: PostRepository + UserRepository> {
    pub store: S,
    pub post_stream_manager: PostStreamManager,
}

impl<S: PostRepository + UserRepository> CreatePostUseCase<S> {
    pub fn new(store: S, post_stream_manager: PostStreamManager) -> (r: CreatePostUseCase<S>)
        ensures
            r.store == store,
            r.post_stream_manager == post_stream_manager,
    {
        CreatePostUseCase { store, post_stream_manager }
    }

    pub open spec fn inv(&self) -> bool {
        self.store.inv() && self.post_stream_manager.inv()
    }

    /// Creates a post for `user_id`: the body is validated first, the
    /// author must exist, the post is persisted, and only then is a
    /// `NewPost` event announced — a publish failure never fails the
    /// mutation, and nothing is announced that was not persisted.
    pub fn execute(&mut self, content: String, image_url: Option<String>, user_id: u128) -> (r:
        Result<bool, AppError>)
        requires
            old(self).inv(),
        ensures
            final(self).inv(),
            final(self).store.threshold() == old(self).store.threshold(),
            final(self).store.users() == old(self).store.users(),
            final(self).store.reactions() == old(self).store.reactions(),
            // Rejected body: the exact validation error, no row persisted,
            // no event published.
            content@.len() == 0 || content@.len() > MAX_CONTENT_CHARS ==> ({
                &&& (r matches Err(e) && e matches AppError::Validation(_))
                &&& final(self).store == old(self).store
                &&& final(self).post_stream_manager == old(self).post_stream_manager
            }),
            // Unknown author: a not-found error, nothing changed.
            (1 <= content@.len() <= MAX_CONTENT_CHARS && !old(self).store.users().dom().contains(
                user_id,
            )) ==> ({
                &&& (r matches Err(e) && e matches AppError::NotFound(_))
                &&& final(self).store == old(self).store
                &&& final(self).post_stream_manager == old(self).post_stream_manager
            }),
            // Any failure leaves the stream untouched: persistence comes
            // first, so no phantom event is ever announced.
            r is Err ==> final(self).post_stream_manager == old(self).post_stream_manager && final(self).store.posts() == old(self).store.posts(),
            // And each error kind names its cause: a validation error is
            // an over- or under-long body, a not-found error a missing
            // author, and anything else comes from the store.
            (r matches Err(e) && e matches AppError::Validation(_)) ==> (content@.len() == 0
                || content@.len() > MAX_CONTENT_CHARS),
            (r matches Err(e) && e matches AppError::NotFound(_)) ==> !old(self).store.users().dom().contains(user_id),
            r matches Err(e) ==> (e matches AppError::Validation(_) || e matches AppError::NotFound(
                _,
            ) || e matches AppError::Domain(_)),
            // Success: a fresh, valid, zero-view post of this author was
            // persisted, and exactly one matching NewPost announcement was
            // published after it.
            r matches Ok(b) ==> ({
                let author = old(self).store.users()[user_id];
                &&& b == true
                &&& 1 <= content@.len() <= MAX_CONTENT_CHARS
                &&& old(self).store.users().dom().contains(user_id)
                &&& exists|p: Post, ev: PostEvent|
                    {
                        &&& !old(self).store.posts().dom().contains(p.id)
                        &&& #[trigger] final(self).store.posts() == old(self).store.posts().insert(
                            p.id,
                            p,
                        )
                        &&& p.user_id == user_id
                        &&& p.content@ == content@
                        &&& p.image_url == image_url
                        &&& p.display_count.spec_value() == 0
                        &&& p.valid
                        &&& #[trigger] final(self).post_stream_manager.model() == old(self).post_stream_manager.model().do_publish(ev)
                        &&& ev matches PostEvent::NewPost {
                            post_id: pid,
                            user_id: uid,
                            content: c,
                            image_url: iu,
                            display_count: dc,
                            created_at: _,
                            author_name: an,
                            author_avatar: aa,
                        } && pid@ == uuid_str_of(p.id) && uid@ == uuid_str_of(user_id) && c@
                            == content@ && iu == image_url && dc == 0 && an@
                            == author.display_name@ && aa == author.avatar_url
                    }
            }),
    {
        let post_content = match PostContent::new(content) {
            Ok(pc) => pc,
            Err(e) => {
                return Err(AppError::Validation(e));
            },
        };
        let user = match UserRepository::find_by_id(&self.store, user_id) {
            Some(u) => u,
            None => {
                return Err(AppError::not_found("User not found".to_owned()));
            },
        };
        let body_text: String = post_content.value().to_owned();
        let event_image = clone_opt_string(&image_url);
        let post = Post::new(user.id, post_content, image_url);
        let created = PostRepository::create(&mut self.store, &post);
        match created {
            Ok(_) => {},
            Err(e) => {
                return Err(AppError::Domain(e));
            },
        }
        let event = PostEvent::new_post(
            post.id,
            post.user_id,
            body_text,
            event_image,
            post.display_count.value(),
            post.created_at,
            user.display_name.value().to_owned(),
            user.avatar_url,
        );
        let ghost ev = event;
        let _ = self.post_stream_manager.broadcast(event);
        proof {
            assert(final(self).store.posts() == old(self).store.posts().insert(post.id, post));
        }
        Ok(true)
    }
}

/// Counts one view of a post; expiry is applied atomically by the store.
pub struct IncrementDisplayCountUseCase<S: PostRepository> {
    pub store: S,
}

impl<S: PostRepository> IncrementDisplayCountUseCase<S> {
    pub fn new(store: S) -> (r: IncrementDisplayCountUseCase<S>)
        ensures
            r.store == store,
    {
        IncrementDisplayCountUseCase { store }
    }

    /// Counts one view.  A missing post is a benign `false`, not an error;
    /// on success the counter moved up by one and validity was cleared in
    /// the same step exactly when the counter reached the threshold.
    pub fn execute(&mut self, post_id: u128) -> (r: Result<bool, AppError>)
        requires
            old(self).store.inv(),
        ensures
            final(self).store.inv(),
            final(self).store.threshold() == old(self).store.threshold(),
            final(self).store.users() == old(self).store.users(),
            final(self).store.reactions() == old(self).store.reactions(),
            final(self).store.posts().dom() == old(self).store.posts().dom(),
            !old(self).store.posts().dom().contains(post_id) ==> r == Ok::<bool, AppError>(false)
                && final(self).store.posts() == old(self).store.posts(),
            old(self).store.posts().dom().contains(post_id) && old(self).store.posts()[
                post_id
            ].display_count.spec_value() < i32::MAX ==> ({
                let p0 = old(self).store.posts()[post_id];
                let p1 = final(self).store.posts()[post_id];
                &&& r == Ok::<bool, AppError>(true)
                &&& final(self).store.posts() == old(self).store.posts().insert(post_id, p1)
                &&& post_state(p1) == step_view(post_state(p0), old(self).store.threshold())
                &&& p1.id == p0.id
                &&& p1.user_id == p0.user_id
                &&& p1.content == p0.content
            }),
            old(self).store.posts().dom().contains(post_id) && old(self).store.posts()[
                post_id
            ].display_count.spec_value() == i32::MAX ==> r is Err && final(self).store.posts()
                == old(self).store.posts(),
    {
        match PostRepository::find_by_id(&self.store, post_id) {
            Some(_) => {
                match PostRepository::increment_display_count(&mut self.store, post_id) {
                    Ok(_) => Ok(true),
                    Err(e) => Err(AppError::Domain(e)),
                }
            },
            None => Ok(false),
        }
    }
}

/// Counts one silent echo of a post: a resonance that is never announced.
pub struct EchoPostUseCase<S: PostRepository> {
    pub store: S,
}

impl<S: PostRepository> EchoPostUseCase<S> {
    pub fn new(store: S) -> (r: EchoPostUseCase<S>)
        ensures
            r.store == store,
    {
        EchoPostUseCase { store }
    }

    /// Moves the post's echo counter up by one (saturating); a missing
    /// post is a not-found error, and nothing else ever moves.
    pub fn execute(&mut self, post_id: u128) -> (r: Result<bool, AppError>)
        requires
            old(self).store.inv(),
        ensures
            final(self).store.inv(),
            final(self).store.threshold() == old(self).store.threshold(),
            final(self).store.posts() == old(self).store.posts(),
            final(self).store.users() == old(self).store.users(),
            final(self).store.reactions() == old(self).store.reactions(),
            !old(self).store.posts().dom().contains(post_id) ==> (r matches Err(e)
                && e matches AppError::Domain(_)) && final(self).store.echoes() == old(self).store.echoes(),
            r matches Ok(b) ==> b == true && old(self).store.posts().dom().contains(post_id)
                && final(self).store.echoes() == old(self).store.echoes().insert(
                post_id,
                ({
                    let c0 = if old(self).store.echoes().dom().contains(post_id) {
                        old(self).store.echoes()[post_id]
                    } else {
                        0u64
                    };
                    if c0 < u64::MAX {
                        (c0 + 1) as u64
                    } else {
                        c0
                    }
                }),
            ),
            r is Err ==> final(self).store.echoes() == old(self).store.echoes(),
    {
        match PostRepository::increment_echo_count(&mut self.store, post_id) {
            Ok(_) => Ok(true),
            Err(e) => Err(AppError::Domain(e)),
        }
    }
}

/// A permutation keeps the rows, their number and the distinctness of
/// their ids, and drops none.
proof fn lemma_shuffle_keeps_rows(a: Seq<Post>, b: Seq<Post>)
    requires
        a.to_multiset() == b.to_multiset(),
        forall|i: int, j: int| 0 <= i < j < a.len() ==> a[i].id != a[j].id,
    ensures
        b.len() == a.len(),
        forall|i: int, j: int| 0 <= i < j < b.len() ==> b[i].id != b[j].id,
        forall|i: int| 0 <= i < b.len() ==> a.contains(#[trigger] b[i]),
        forall|i: int| 0 <= i < a.len() ==> b.contains(#[trigger] a[i]),
{
    broadcast use vstd::seq_lib::group_to_multiset_ensures;

    assert(a.to_multiset().len() == a.len());
    assert(b.to_multiset().len() == b.len());
    assert(a.no_duplicates()) by {
        assert forall|i: int, j: int| 0 <= i < a.len() && 0 <= j < a.len() && i != j implies a[i]
            != a[j] by {
            if i < j {
                assert(a[i].id != a[j].id);
            } else {
                assert(a[j].id != a[i].id);
            }
        }
    }
    a.lemma_multiset_has_no_duplicates();
    b.lemma_multiset_has_no_duplicates_conv();
    assert forall|i: int| 0 <= i < b.len() implies a.contains(#[trigger] b[i]) by {
        assert(b.to_multiset().count(b[i]) > 0);
    }
    assert forall|i: int| 0 <= i < a.len() implies b.contains(#[trigger] a[i]) by {
        assert(a.to_multiset().count(a[i]) > 0);
    }
    assert forall|i: int, j: int| 0 <= i < j < b.len() implies b[i].id != b[j].id by {
        assert(b[i] != b[j]);
        if b[i].id == b[j].id {
            assert(a.contains(b[i]));
            assert(a.contains(b[j]));
            let i1 = choose|i1: int| 0 <= i1 < a.len() && a[i1] == b[i];
            let i2 = choose|i2: int| 0 <= i2 < a.len() && a[i2] == b[j];
            if i1 < i2 {
                assert(a[i1].id != a[i2].id);
            } else {
                assert(a[i2].id != a[i1].id);
            }
        }
    }
}

/// Serves the timeline: the available posts in a fresh random order, each
/// counted as viewed.
pub struct GetTimelineUseCase<S: PostRepository + UserRepository> {
    pub store: S,
}

impl<S: PostRepository + UserRepository> GetTimelineUseCase<S> {
    pub fn new(store: S) -> (r: GetTimelineUseCase<S>)
        ensures
            r.store == store,
    {
        GetTimelineUseCase { store }
    }

    /// At most `limit` posts that were available before the call, in an
    /// order nothing constrains, each counted as viewed exactly once by
    /// this call; when fewer than `limit` come back, nothing available was
    /// left out.  Expired or invalid posts are never served.
    pub fn execute(&mut self, limit: usize, exclude_user_id: Option<u128>) -> (r: Result<
        Vec<PostDto>,
        AppError,
    >)
        requires
            old(self).store.inv(),
        ensures
            final(self).store.inv(),
            final(self).store.threshold() == old(self).store.threshold(),
            final(self).store.users() == old(self).store.users(),
            final(self).store.reactions() == old(self).store.reactions(),
            final(self).store.posts().dom() == old(self).store.posts().dom(),
            r is Ok,
            r matches Ok(dtos) ==> ({
                let t = old(self).store.threshold();
                &&& dtos@.len() <= limit
                &&& forall|i: int|
                    0 <= i < dtos@.len() ==> {
                        let d = #[trigger] dtos@[i];
                        &&& old(self).store.posts().dom().contains(d.id)
                        &&& post_available(old(self).store.posts()[d.id], t, exclude_user_id)
                        &&& d.user_id == old(self).store.posts()[d.id].user_id
                        &&& d.content@ == old(self).store.posts()[d.id].content@
                        &&& post_state(final(self).store.posts()[d.id]) == step_view(
                            post_state(old(self).store.posts()[d.id]),
                            t,
                        )
                        &&& (old(self).store.users().dom().contains(d.user_id) ==> d.author_name@
                            == old(self).store.users()[d.user_id].display_name@
                            && d.author_avatar == old(self).store.users()[d.user_id].avatar_url)
                    }
                &&& forall|i1: int, i2: int|
                    0 <= i1 < i2 < dtos@.len() ==> dtos@[i1].id != dtos@[i2].id
                &&& forall|id: u128|
                    old(self).store.posts().dom().contains(id) && !(exists|i: int|
                        0 <= i < dtos@.len() && dtos@[i].id == id) ==> final(self).store.posts()[id]
                        == old(self).store.posts()[id]
                &&& dtos@.len() < limit ==> forall|id: u128|
                    old(self).store.posts().dom().contains(id) && post_available(
                        #[trigger] old(self).store.posts()[id],
                        t,
                        exclude_user_id,
                    ) ==> exists|i: int| 0 <= i < dtos@.len() && dtos@[i].id == id
            }),
    {
        let mut posts = PostRepository::find_available(&self.store, limit, exclude_user_id);
        let ghost found = posts@;
        crate::rng::shuffle(&mut posts);
        proof {
            lemma_shuffle_keeps_rows(found, posts@);
            assert forall|k: int| 0 <= k < posts@.len() implies {
                let p = #[trigger] posts@[k];
                &&& old(self).store.posts().dom().contains(p.id)
                &&& old(self).store.posts()[p.id] == p
                &&& post_available(p, old(self).store.threshold(), exclude_user_id)
            } by {
                let j = choose|j: int| 0 <= j < found.len() && found[j] == posts@[k];
                assert(found[j] == posts@[k]);
            }
        }
        let ghost shuffled = posts@;
        let ghost t = old(self).store.threshold();
        let mut dtos: Vec<PostDto> = Vec::new();
        let n = posts.len();
        let mut ji: usize = 0;
        while ji < n
            invariant
                old(self).store.inv(),
                self.store.inv(),
                n == shuffled.len(),
                ji <= n,
                posts@ == shuffled,
                t == old(self).store.threshold(),
                self.store.threshold() == old(self).store.threshold(),
                self.store.users() == old(self).store.users(),
                self.store.reactions() == old(self).store.reactions(),
                self.store.posts().dom() == old(self).store.posts().dom(),
                forall|k: int|
                    0 <= k < shuffled.len() ==> {
                        let p = #[trigger] shuffled[k];
                        &&& old(self).store.posts().dom().contains(p.id)
                        &&& old(self).store.posts()[p.id] == p
                        &&& post_available(p, t, exclude_user_id)
                    },
                forall|k1: int, k2: int|
                    0 <= k1 < k2 < shuffled.len() ==> shuffled[k1].id != shuffled[k2].id,
                dtos@.len() == ji,
                forall|k: int|
                    0 <= k < ji ==> {
                        let d = #[trigger] dtos@[k];
                        &&& d.id == shuffled[k].id
                        &&& d.user_id == shuffled[k].user_id
                        &&& d.content@ == shuffled[k].content@
                        &&& post_state(self.store.posts()[d.id]) == step_view(
                            post_state(old(self).store.posts()[d.id]),
                            t,
                        )
                        &&& (old(self).store.users().dom().contains(d.user_id) ==> d.author_name@
                            == old(self).store.users()[d.user_id].display_name@
                            && d.author_avatar == old(self).store.users()[d.user_id].avatar_url)
                    },
                forall|id: u128|
                    old(self).store.posts().dom().contains(id) && !(exists|k: int|
                        0 <= k < ji && shuffled[k].id == id) ==> self.store.posts()[id] == old(self).store.posts()[id],
            decreases n - ji,
        {
            let post_id = posts[ji].id;
            proof {
                assert(shuffled[ji as int].id == post_id);
                assert(!(exists|k: int| 0 <= k < ji && shuffled[k].id == post_id));
                assert(self.store.posts()[post_id] == old(self).store.posts()[post_id]);
            }
            let ghost prev = self.store.posts();
            proof {
                self.store.lemma_threshold_bounds();
                assert(old(self).store.posts()[post_id].display_count.spec_value() < i32::MAX);
            }
            let updated = match PostRepository::increment_display_count(&mut self.store, post_id) {
                Ok(u) => u,
                Err(e) => {
                    proof {
                        assert(false);
                    }
                    return Err(AppError::Domain(e));
                },
            };
            let author = UserRepository::find_by_id(&self.store, updated.user_id);
            let dto = match author {
                Some(u) => PostDto::new(updated, u.display_name.value().to_owned(), u.avatar_url),
                None => PostDto::from(updated),
            };
            dtos.push(dto);
            proof {
                assert forall|id: u128|
                    old(self).store.posts().dom().contains(id) && !(exists|k: int|
                        0 <= k < ji + 1 && shuffled[k].id == id) implies self.store.posts()[id]
                    == old(self).store.posts()[id] by {
                    assert(!(exists|k: int| 0 <= k < ji && shuffled[k].id == id));
                    assert(id != post_id);
                    assert(self.store.posts()[id] == prev[id]);
                }
            }
            ji = ji + 1;
        }
        proof {
            assert forall|id: u128|
                old(self).store.posts().dom().contains(id) && !(exists|i: int|
                    0 <= i < dtos@.len() && dtos@[i].id == id) implies self.store.posts()[id]
                == old(self).store.posts()[id] by {
                assert(!(exists|k: int| 0 <= k < shuffled.len() && shuffled[k].id == id)) by {
                    if exists|k: int| 0 <= k < shuffled.len() && shuffled[k].id == id {
                        let k = choose|k: int| 0 <= k < shuffled.len() && shuffled[k].id == id;
                        assert(dtos@[k].id == id);
                    }
                }
            }
            if dtos@.len() < limit {
                assert forall|id: u128|
                    old(self).store.posts().dom().contains(id) && post_available(
                        #[trigger] old(self).store.posts()[id],
                        t,
                        exclude_user_id,
                    ) implies exists|i: int| 0 <= i < dtos@.len() && dtos@[i].id == id by {
                    assert(found.len() < limit);
                    let k = choose|k: int| 0 <= k < found.len() && found[k].id == id;
                    assert(shuffled.contains(found[k]));
                    let k2 = choose|k2: int| 0 <= k2 < shuffled.len() && shuffled[k2] == found[k];
                    assert(dtos@[k2].id == id);
                }
            }
        }
        Ok(dtos)
    }
}

/// A user's own valid posts, with the user's presentation attached.
pub struct GetMyPostsUseCase<S: PostRepository + UserRepository> {
    pub store: S,
}

impl<S: PostRepository + UserRepository> GetMyPostsUseCase<S> {
    pub fn new(store: S) -> (r: GetMyPostsUseCase<S>)
        ensures
            r.store == store,
    {
        GetMyPostsUseCase { store }
    }

    /// Every stored valid post of `user_id`, each exactly once, carrying
    /// that user's name and avatar; a missing user is a not-found error.
    pub fn execute(&self, user_id: u128) -> (r: Result<Vec<PostDto>, AppError>)
        requires
            self.store.inv(),
        ensures
            !self.store.users().dom().contains(user_id) ==> (r matches Err(e) && e matches AppError::NotFound(_)),
            self.store.users().dom().contains(user_id) ==> (r matches Ok(dtos) && {
                let u = self.store.users()[user_id];
                &&& forall|i: int|
                    0 <= i < dtos@.len() ==> {
                        let d = #[trigger] dtos@[i];
                        &&& self.store.posts().dom().contains(d.id)
                        &&& d.user_id == user_id
                        &&& self.store.posts()[d.id].user_id == user_id
                        &&& self.store.posts()[d.id].valid
                        &&& d.content@ == self.store.posts()[d.id].content@
                        &&& d.author_name@ == u.display_name@
                        &&& d.author_avatar == u.avatar_url
                    }
                &&& forall|i1: int, i2: int|
                    0 <= i1 < i2 < dtos@.len() ==> dtos@[i1].id != dtos@[i2].id
                &&& forall|id: u128|
                    self.store.posts().dom().contains(id) && (#[trigger] self.store.posts()[id]).user_id
                        == user_id && self.store.posts()[id].valid ==> exists|i: int|
                        0 <= i < dtos@.len() && dtos@[i].id == id
            }),
    {
        let posts = PostRepository::find_by_user_id(&self.store, user_id);
        let user = match UserRepository::find_by_id(&self.store, user_id) {
            Some(u) => u,
            None => {
                return Err(AppError::not_found("User not found".to_owned()));
            },
        };
        let mut dtos: Vec<PostDto> = Vec::new();
        let n = posts.len();
        let mut i: usize = 0;
        while i < n
            invariant
                self.store.inv(),
                n == posts@.len(),
                i <= n,
                self.store.users().dom().contains(user_id),
                user == self.store.users()[user_id],
                forall|k: int|
                    0 <= k < posts@.len() ==> {
                        let p = #[trigger] posts@[k];
                        &&& self.store.posts().dom().contains(p.id)
                        &&& self.store.posts()[p.id] == p
                        &&& p.user_id == user_id
                        &&& p.valid
                    },
                forall|k1: int, k2: int|
                    0 <= k1 < k2 < posts@.len() ==> posts@[k1].id != posts@[k2].id,
                forall|id: u128|
                    self.store.posts().dom().contains(id) && (#[trigger] self.store.posts()[id]).user_id
                        == user_id && self.store.posts()[id].valid ==> exists|k: int|
                        0 <= k < posts@.len() && posts@[k].id == id,
                dtos@.len() == i,
                forall|k: int|
                    0 <= k < i ==> {
                        let d = #[trigger] dtos@[k];
                        &&& d.id == posts@[k].id
                        &&& d.user_id == posts@[k].user_id
                        &&& d.content@ == posts@[k].content@
                        &&& d.author_name@ == user.display_name@
                        &&& d.author_avatar == user.avatar_url
                    },
            decreases n - i,
        {
            let dto = PostDto::new(
                posts[i].clone(),
                user.display_name.value().to_owned(),
                user.avatar_url.clone(),
            );
            dtos.push(dto);
            i = i + 1;
        }
        proof {
            assert forall|id: u128|
                self.store.posts().dom().contains(id) && (#[trigger] self.store.posts()[id]).user_id
                    == user_id && self.store.posts()[id].valid implies exists|i2: int|
                0 <= i2 < dtos@.len() && dtos@[i2].id == id by {
                let k = choose|k: int| 0 <= k < posts@.len() && posts@[k].id == id;
                assert(dtos@[k].id == id);
            }
        }
        Ok(dtos)
    }
}

} // verus!
