use vstd::prelude::*;

use crate::records::ActorId;
use crate::records::Comment;
use crate::records::Like;
use crate::records::Post;
use crate::records::User;

verus! {

/// Whether some user in `users` carries the identity `user_id`.
pub open spec fn seq_has_user(users: Seq<User>, user_id: ActorId) -> bool {
    exists|i: int| 0 <= i < users.len() && users[i].user_id == user_id
}

/// Whether some post in `posts` carries the id `post_id`.
pub open spec fn seq_has_post(posts: Seq<Post>, post_id: u64) -> bool {
    exists|i: int| 0 <= i < posts.len() && posts[i].post_id == post_id
}

/// The predicate selecting comments that sit on post `post_id`.
pub open spec fn comment_on(post_id: u64) -> spec_fn(Comment) -> bool {
    |c: Comment| c.post_id == post_id
}

/// The predicate selecting likes that sit on post `post_id`.
pub open spec fn like_on(post_id: u64) -> spec_fn(Like) -> bool {
    |l: Like| l.post_id == post_id
}

/// The predicate selecting posts owned by `user_id`.
pub open spec fn post_by(user_id: ActorId) -> spec_fn(Post) -> bool {
    |p: Post| p.user_id == user_id
}

/// The in-memory social-graph store: all records, in creation order, together
/// with the counters that assign the next post, comment and like ids.
pub struct SocialMedia {
    pub users: Vec<User>,
    pub posts: Vec<Post>,
    pub comments: Vec<Comment>,
    pub likes: Vec<Like>,
    pub next_post_id: u64,
    pub next_comment_id: u64,
    pub next_like_id: u64,
}

impl SocialMedia {
    /// A user with identity `user_id` is registered.
    pub open spec fn has_user(self, user_id: ActorId) -> bool {
        seq_has_user(self.users@, user_id)
    }

    /// A post with id `post_id` exists.
    pub open spec fn has_post(self, post_id: u64) -> bool {
        seq_has_post(self.posts@, post_id)
    }

    /// No two users share an identity.
    pub open spec fn users_distinct(self) -> bool {
        forall|i: int, j: int|
            0 <= i < j < self.users@.len() ==> (#[trigger] self.users@[i]).user_id != (
            #[trigger] self.users@[j]).user_id
    }

    /// Well-formedness: identities are unique; ids of each record kind run
    /// 0, 1, 2, ... in creation order, so each id equals its record's position
    /// and each counter equals its record count; and every record refers only
    /// to a user, and where applicable a post, that exists.
    pub open spec fn wf(self) -> bool {
        &&& self.users_distinct()
        &&& self.posts@.len() == self.next_post_id
        &&& forall|i: int|
            0 <= i < self.posts@.len() ==> (#[trigger] self.posts@[i]).post_id == i
                && self.has_user(self.posts@[i].user_id)
        &&& self.comments@.len() == self.next_comment_id
        &&& forall|i: int|
            0 <= i < self.comments@.len() ==> (#[trigger] self.comments@[i]).comment_id == i
                && self.has_user(self.comments@[i].user_id) && self.has_post(
                self.comments@[i].post_id,
            )
        &&& self.likes@.len() == self.next_like_id
        &&& forall|i: int|
            0 <= i < self.likes@.len() ==> (#[trigger] self.likes@[i]).like_id == i
                && self.has_user(self.likes@[i].user_id) && self.has_post(self.likes@[i].post_id)
    }

    /// An empty store: no records, every counter at zero.
    pub fn new() -> (store: Self)
        ensures
            store.wf(),
            store.users@ == Seq::<User>::empty(),
            store.posts@ == Seq::<Post>::empty(),
            store.comments@ == Seq::<Comment>::empty(),
            store.likes@ == Seq::<Like>::empty(),
            store.next_post_id == 0,
            store.next_comment_id == 0,
            store.next_like_id == 0,
    {
        SocialMedia {
            users: Vec::new(),
            posts: Vec::new(),
            comments: Vec::new(),
            likes: Vec::new(),
            next_post_id: 0,
            next_comment_id: 0,
            next_like_id: 0,
        }
    }

    /// Register a new user. Fails, changing nothing, when the identity is
    /// already registered; otherwise appends exactly one user record.
    pub fn create_user(&mut self, user_id: ActorId, username: String) -> (created: bool)
        requires
            old(self).wf(),
        ensures
            final(self).wf(),
            created == !old(self).has_user(user_id),
            created ==> final(self).users@ == old(self).users@.push(
                (User { user_id, username }),
            ),
            !created ==> final(self).users@ == old(self).users@,
            final(self).posts@ == old(self).posts@,
            final(self).comments@ == old(self).comments@,
            final(self).likes@ == old(self).likes@,
            final(self).next_post_id == old(self).next_post_id,
            final(self).next_comment_id == old(self).next_comment_id,
            final(self).next_like_id == old(self).next_like_id,
    {
        if self.contains_user(user_id) {
            return false;
        }
        proof {
            lemma_user_push_keeps_presence(self.users@, User { user_id, username });
        }
        self.users.push(User { user_id, username });
        true
    }

    /// Create a post owned by `user_id`. Fails, changing nothing, when that
    /// identity is not registered; otherwise appends one post carrying the
    /// current value of the post counter as its id and advances the counter.
    pub fn create_post(
        &mut self,
        user_id: ActorId,
        title: String,
        body: String,
        image_url: Option<String>,
        caption: Option<String>,
    ) -> (created: bool)
        requires
            old(self).wf(),
        ensures
            final(self).wf(),
            created == old(self).has_user(user_id),
            created ==> final(self).posts@ == old(self).posts@.push(
                (Post {
                    post_id: old(self).next_post_id,
                    user_id,
                    title,
                    body,
                    image_url,
                    caption,
                }),
            ),
            created ==> final(self).next_post_id == old(self).next_post_id + 1,
            !created ==> final(self).posts@ == old(self).posts@,
            !created ==> final(self).next_post_id == old(self).next_post_id,
            final(self).users@ == old(self).users@,
            final(self).comments@ == old(self).comments@,
            final(self).likes@ == old(self).likes@,
            final(self).next_comment_id == old(self).next_comment_id,
            final(self).next_like_id == old(self).next_like_id,
    {
        if !self.contains_user(user_id) {
            return false;
        }
        let new_post = Post { post_id: self.next_post_id, user_id, title, body, image_url, caption };
        proof {
            lemma_post_push_keeps_presence(self.posts@, new_post);
        }
        self.posts.push(new_post);
        // The new length fits in usize, so the counter it equals fits too and
        // advancing it cannot overflow.
        let new_len: usize = self.posts.len();
        assert(self.next_post_id + 1 == new_len);
        self.next_post_id = self.next_post_id + 1;
        true
    }

    /// Comment on a post. Fails, changing nothing, when the identity is not
    /// registered or the post id does not exist; otherwise appends one comment
    /// carrying the current value of the comment counter as its id and
    /// advances that counter.
    pub fn create_comment(&mut self, user_id: ActorId, post_id: u64, content: String) -> (created:
        bool)
        requires
            old(self).wf(),
        ensures
            final(self).wf(),
            created == (old(self).has_user(user_id) && old(self).has_post(post_id)),
            created ==> final(self).comments@ == old(self).comments@.push(
                (Comment { comment_id: old(self).next_comment_id, post_id, user_id, content }),
            ),
            created ==> final(self).next_comment_id == old(self).next_comment_id + 1,
            !created ==> final(self).comments@ == old(self).comments@,
            !created ==> final(self).next_comment_id == old(self).next_comment_id,
            final(self).users@ == old(self).users@,
            final(self).posts@ == old(self).posts@,
            final(self).likes@ == old(self).likes@,
            final(self).next_post_id == old(self).next_post_id,
            final(self).next_like_id == old(self).next_like_id,
    {
        if !self.contains_user(user_id) {
            return false;
        }
        if !self.contains_post(post_id) {
            return false;
        }
        let new_comment = Comment { comment_id: self.next_comment_id, post_id, user_id, content };
        self.comments.push(new_comment);
        // The new length fits in usize, so the counter it equals fits too and
        // advancing it cannot overflow.
        let new_len: usize = self.comments.len();
        assert(self.next_comment_id + 1 == new_len);
        self.next_comment_id = self.next_comment_id + 1;
        true
    }

    /// Like a post. Fails, changing nothing, when the identity is not
    /// registered or the post id does not exist; otherwise appends one like
    /// carrying the current value of the like counter as its id and advances
    /// that counter. Repeated likes by the same user on the same post are
    /// deliberately not deduplicated.
    pub fn create_like(&mut self, user_id: ActorId, post_id: u64) -> (created: bool)
        requires
            old(self).wf(),
        ensures
            final(self).wf(),
            created == (old(self).has_user(user_id) && old(self).has_post(post_id)),
            created ==> final(self).likes@ == old(self).likes@.push(
                (Like { like_id: old(self).next_like_id, post_id, user_id }),
            ),
            created ==> final(self).next_like_id == old(self).next_like_id + 1,
            !created ==> final(self).likes@ == old(self).likes@,
            !created ==> final(self).next_like_id == old(self).next_like_id,
            final(self).users@ == old(self).users@,
            final(self).posts@ == old(self).posts@,
            final(self).comments@ == old(self).comments@,
            final(self).next_post_id == old(self).next_post_id,
            final(self).next_comment_id == old(self).next_comment_id,
    {
        if !self.contains_user(user_id) {
            return false;
        }
        if !self.contains_post(post_id) {
            return false;
        }
        let new_like = Like { like_id: self.next_like_id, post_id, user_id };
        self.likes.push(new_like);
        // The new length fits in usize, so the counter it equals fits too and
        // advancing it cannot overflow.
        let new_len: usize = self.likes.len();
        assert(self.next_like_id + 1 == new_len);
        self.next_like_id = self.next_like_id + 1;
        true
    }

    /// All comments on post `post_id`, in creation order.
    pub open spec fn comments_on(self, post_id: u64) -> Seq<Comment> {
        self.comments@.filter(comment_on(post_id))
    }

    /// All likes on post `post_id`, in creation order.
    pub open spec fn likes_on(self, post_id: u64) -> Seq<Like> {
        self.likes@.filter(like_on(post_id))
    }

    /// All posts owned by `user_id`, in creation order.
    pub open spec fn posts_by(self, user_id: ActorId) -> Seq<Post> {
        self.posts@.filter(post_by(user_id))
    }

    /// Every comment on post `post_id`, in creation order; empty when the post
    /// is unknown or uncommented. Read-only and never failing.
    pub fn get_comments(&self, post_id: u64) -> (found: Vec<Comment>)
        ensures
            found@ == self.comments_on(post_id),
    {
        let mut found: Vec<Comment> = Vec::new();
        let mut i: usize = 0;
        while i < self.comments.len()
            invariant
                i <= self.comments@.len(),
                found@ == self.comments@.subrange(0, i as int).filter(comment_on(post_id)),
            decreases self.comments@.len() - i,
        {
            proof {
                assert(self.comments@.subrange(0, i as int + 1) =~= self.comments@.subrange(
                    0,
                    i as int,
                ).push(self.comments@[i as int]));
                lemma_filter_push(
                    self.comments@.subrange(0, i as int),
                    comment_on(post_id),
                    self.comments@[i as int],
                );
            }
            if self.comments[i].post_id == post_id {
                found.push(self.comments[i].clone());
            }
            i += 1;
        }
        proof {
            assert(self.comments@.subrange(0, self.comments@.len() as int) =~= self.comments@);
        }
        found
    }

    /// Every like on post `post_id`, in creation order; empty when the post is
    /// unknown or unliked. Read-only and never failing.
    pub fn get_likes(&self, post_id: u64) -> (found: Vec<Like>)
        ensures
            found@ == self.likes_on(post_id),
    {
        let mut found: Vec<Like> = Vec::new();
        let mut i: usize = 0;
        while i < self.likes.len()
            invariant
                i <= self.likes@.len(),
                found@ == self.likes@.subrange(0, i as int).filter(like_on(post_id)),
            decreases self.likes@.len() - i,
        {
            proof {
                assert(self.likes@.subrange(0, i as int + 1) =~= self.likes@.subrange(
                    0,
                    i as int,
                ).push(self.likes@[i as int]));
                lemma_filter_push(
                    self.likes@.subrange(0, i as int),
                    like_on(post_id),
                    self.likes@[i as int],
                );
            }
            if self.likes[i].post_id == post_id {
                found.push(self.likes[i].clone());
            }
            i += 1;
        }
        proof {
            assert(self.likes@.subrange(0, self.likes@.len() as int) =~= self.likes@);
        }
        found
    }

    /// Every post owned by `user_id`, in creation order; empty when the
    /// identity is unknown or has no posts. Read-only and never failing.
    pub fn get_posts_by_user(&self, user_id: ActorId) -> (found: Vec<Post>)
        ensures
            found@ == self.posts_by(user_id),
    {
        let mut found: Vec<Post> = Vec::new();
        let mut i: usize = 0;
        while i < self.posts.len()
            invariant
                i <= self.posts@.len(),
                found@ == self.posts@.subrange(0, i as int).filter(post_by(user_id)),
            decreases self.posts@.len() - i,
        {
            proof {
                assert(self.posts@.subrange(0, i as int + 1) =~= self.posts@.subrange(
                    0,
                    i as int,
                ).push(self.posts@[i as int]));
                lemma_filter_push(
                    self.posts@.subrange(0, i as int),
                    post_by(user_id),
                    self.posts@[i as int],
                );
            }
            if self.posts[i].user_id == user_id {
                found.push(self.posts[i].clone());
            }
            i += 1;
        }
        proof {
            assert(self.posts@.subrange(0, self.posts@.len() as int) =~= self.posts@);
        }
        found
    }

    /// Linear scan for a user with the given identity.
    fn contains_user(&self, user_id: ActorId) -> (found: bool)
        ensures
            found == self.has_user(user_id),
    {
        let mut i: usize = 0;
        while i < self.users.len()
            invariant
                i <= self.users@.len(),
                forall|j: int| 0 <= j < i ==> (#[trigger] self.users@[j]).user_id != user_id,
            decreases self.users@.len() - i,
        {
            if self.users[i].user_id == user_id {
                return true;
            }
            i += 1;
        }
        false
    }

    /// Linear scan for a post with the given id.
    fn contains_post(&self, post_id: u64) -> (found: bool)
        ensures
            found == self.has_post(post_id),
    {
        let mut i: usize = 0;
        while i < self.posts.len()
            invariant
                i <= self.posts@.len(),
                forall|j: int| 0 <= j < i ==> (#[trigger] self.posts@[j]).post_id != post_id,
            decreases self.posts@.len() - i,
        {
            if self.posts[i].post_id == post_id {
                return true;
            }
            i += 1;
        }
        false
    }
}

/// One step of `Seq::filter`: filtering an extended sequence extends the
/// filtered sequence exactly when the new element satisfies the predicate.
proof fn lemma_filter_push<A>(s: Seq<A>, pred: spec_fn(A) -> bool, x: A)
    ensures
        pred(x) ==> s.push(x).filter(pred) == s.filter(pred).push(x),
        !pred(x) ==> s.push(x).filter(pred) == s.filter(pred),
{
    reveal(Seq::filter);
    assert(s.push(x).drop_last() =~= s);
    assert(s.push(x).last() == x);
}

/// Appending a user leaves every previously registered identity registered.
proof fn lemma_user_push_keeps_presence(users: Seq<User>, new_user: User)
    ensures
        forall|id: ActorId|
            seq_has_user(users, id) ==> #[trigger] seq_has_user(users.push(new_user), id),
{
    assert forall|id: ActorId|
        seq_has_user(users, id) implies #[trigger] seq_has_user(users.push(new_user), id) by {
        let w: int = choose|i: int| 0 <= i < users.len() && users[i].user_id == id;
        assert(users.push(new_user)[w] == users[w]);
    }
}

/// Appending a post leaves every existing post id present.
proof fn lemma_post_push_keeps_presence(posts: Seq<Post>, new_post: Post)
    ensures
        forall|id: u64|
            seq_has_post(posts, id) ==> #[trigger] seq_has_post(posts.push(new_post), id),
{
    assert forall|id: u64|
        seq_has_post(posts, id) implies #[trigger] seq_has_post(posts.push(new_post), id) by {
        let w: int = choose|i: int| 0 <= i < posts.len() && posts[i].post_id == id;
        assert(posts.push(new_post)[w] == posts[w]);
    }
}

/// A filter over a sequence none of whose elements satisfy the predicate is
/// empty.
proof fn lemma_filter_none<A>(s: Seq<A>, pred: spec_fn(A) -> bool)
    requires
        forall|i: int| 0 <= i < s.len() ==> !pred(#[trigger] s[i]),
    ensures
        s.filter(pred) == Seq::<A>::empty(),
    decreases s.len(),
{
    reveal(Seq::filter);
    if s.len() > 0 {
        assert(forall|i: int| 0 <= i < s.drop_last().len() ==> s.drop_last()[i] == s[i]);
        lemma_filter_none(s.drop_last(), pred);
    }
    assert(s.filter(pred) =~= Seq::<A>::empty());
}

/// Law: a successful registration makes its identity present, so a second
/// `create_user` with the same identity fails whatever name it carries, and
/// by `create_user`'s contract leaves the store unchanged.
pub proof fn lemma_second_registration_fails(
    before: SocialMedia,
    after: SocialMedia,
    user_id: ActorId,
    username: String,
)
    requires
        !before.has_user(user_id),
        after.users@ == before.users@.push((User { user_id, username })),
    ensures
        after.has_user(user_id),
{
    let n: int = before.users@.len() as int;
    assert(after.users@[n].user_id == user_id);
}

/// Law: in a well-formed store the ids of each record kind are strictly
/// increasing in creation order, each id exceeding the one before it by
/// exactly one.
pub proof fn lemma_ids_strictly_increasing(store: SocialMedia)
    requires
        store.wf(),
    ensures
        forall|i: int, j: int|
            0 <= i < j < store.posts@.len() ==> (#[trigger] store.posts@[i]).post_id < (
            #[trigger] store.posts@[j]).post_id,
        forall|i: int|
            0 <= i < store.posts@.len() - 1 ==> (#[trigger] store.posts@[i + 1]).post_id == store.posts@[i].post_id
                + 1,
        forall|i: int, j: int|
            0 <= i < j < store.comments@.len() ==> (#[trigger] store.comments@[i]).comment_id < (
            #[trigger] store.comments@[j]).comment_id,
        forall|i: int|
            0 <= i < store.comments@.len() - 1 ==> (#[trigger] store.comments@[i
                + 1]).comment_id == store.comments@[i].comment_id + 1,
        forall|i: int, j: int|
            0 <= i < j < store.likes@.len() ==> (#[trigger] store.likes@[i]).like_id < (
            #[trigger] store.likes@[j]).like_id,
        forall|i: int|
            0 <= i < store.likes@.len() - 1 ==> (#[trigger] store.likes@[i + 1]).like_id == store.likes@[i].like_id
                + 1,
{
}

/// Law: a comment refers only to an existing post, so a post id that does not
/// exist has no comments at all — `get_comments` returns the empty sequence
/// for it.
pub proof fn lemma_unknown_post_has_no_comments(store: SocialMedia, post_id: u64)
    requires
        store.wf(),
        !store.has_post(post_id),
    ensures
        store.comments_on(post_id) == Seq::<Comment>::empty(),
{
    assert forall|i: int| 0 <= i < store.comments@.len() implies !comment_on(post_id)(
        #[trigger] store.comments@[i],
    ) by {
        assert(store.has_post(store.comments@[i].post_id));
    }
    lemma_filter_none(store.comments@, comment_on(post_id));
}

/// Law: a like refers only to an existing post, so a post id that does not
/// exist has no likes at all — `get_likes` returns the empty sequence for it.
pub proof fn lemma_unknown_post_has_no_likes(store: SocialMedia, post_id: u64)
    requires
        store.wf(),
        !store.has_post(post_id),
    ensures
        store.likes_on(post_id) == Seq::<Like>::empty(),
{
    assert forall|i: int| 0 <= i < store.likes@.len() implies !like_on(post_id)(
        #[trigger] store.likes@[i],
    ) by {
        assert(store.has_post(store.likes@[i].post_id));
    }
    lemma_filter_none(store.likes@, like_on(post_id));
}

impl Default for SocialMedia {
    fn default() -> (store: Self)
        ensures
            store.wf(),
            store.users@ == Seq::<User>::empty(),
            store.posts@ == Seq::<Post>::empty(),
            store.comments@ == Seq::<Comment>::empty(),
            store.likes@ == Seq::<Like>::empty(),
            store.next_post_id == 0,
            store.next_comment_id == 0,
            store.next_like_id == 0,
    {
        SocialMedia::new()
    }
}

} // verus!
