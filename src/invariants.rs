use vstd::prelude::*;
use crate::count::{
    count, indicator, lemma_count_agree, lemma_count_le_len, lemma_count_push, lemma_count_remove,
    lemma_count_update, lemma_count_zero,
};
use crate::model::{differs, in_blog, live_of_kind, on_post, BlogUpdateView, ModuleView, PostUpdateView};
use crate::types::{AccountId, BlogId, CommentId, PostId, Reaction, ReactionKind};

verus! {

/// The reaction part of the invariant looks only at reactions, their lists and how many
/// posts and comments there are.
proof fn lemma_reactions_bound_frame(s: ModuleView, t: ModuleView)
    requires
        s.reactions_bound(),
        t.reactions == s.reactions,
        t.reaction_ids_by_post == s.reaction_ids_by_post,
        t.reaction_ids_by_comment == s.reaction_ids_by_comment,
        t.posts.len() == s.posts.len(),
        t.comments.len() == s.comments.len(),
    ensures
        t.reactions_bound(),
{
    assert forall|id: u64| #[trigger] t.has_reaction(id) implies (exists|p: int|
        0 <= p < t.posts.len() && #[trigger] t.reaction_ids_by_post[p].contains(id)) || (exists|c: int|
        0 <= c < t.comments.len() && #[trigger] t.reaction_ids_by_comment[c].contains(id)) by {
        assert(s.has_reaction(id));
    }
}

/// The clock takes no part in the invariant.
pub proof fn lemma_set_clock_keeps_valid(s: ModuleView, block: u64, time: u64)
    requires
        s.valid(),
    ensures
        (ModuleView { block, time, ..s }).valid(),
{
    let t = ModuleView { block, time, ..s };
    assert forall|a: AccountId| #[trigger] t.owner_blogs(a).no_duplicates() by {
        assert(t.owner_blogs(a) == s.owner_blogs(a));
    }
    assert forall|a: AccountId, bid: BlogId| #[trigger] t.owner_blogs(a).contains(bid) <==> (
    t.has_blog(bid) && t.blog(bid).created.account == a) by {
        assert(t.owner_blogs(a) == s.owner_blogs(a));
    }
    lemma_reactions_bound_frame(s, t);
}

/// A store that satisfies its invariant stays valid through a successful `create_blog`.
pub proof fn lemma_create_blog_keeps_valid(s: ModuleView, owner: AccountId, slug: Seq<u8>, json: Seq<u8>)
    requires
        s.valid(),
        s.blogs.len() < u64::MAX,
    ensures
        s.create_blog(owner, slug, json).1.valid(),
{
    let (r, t) = s.create_blog(owner, slug, json);
    if r is Ok {
        let id = s.next_blog_id() as u64;
        let n = s.blogs.len() as int;
        assert forall|i: int| 0 <= i < s.posts.len() implies (#[trigger] s.posts[i]).blog_id != id by {
            assert(s.has_blog(s.posts[i].blog_id));
        }
        assert forall|i: int| 0 <= i < t.blogs.len() implies (#[trigger] t.blogs[i]).posts_count == count(
            t.posts,
            in_blog((i + 1) as u64),
        ) by {
            if i == n {
                lemma_count_zero(s.posts, in_blog(id));
            } else {
                assert(t.blogs[i] == s.blogs[i]);
            }
        }
        assert forall|i: int|
            0 <= i < t.blogs.len() implies t.blog_slugs.contains_key(#[trigger] t.blogs[i].slug)
            && t.blog_slugs[t.blogs[i].slug] == i + 1 by {
            if i < n {
                assert(s.blog_slugs.contains_key(s.blogs[i].slug));
            }
        }
        assert forall|sl: Seq<u8>| #[trigger] t.blog_slugs.contains_key(sl) implies t.has_blog(
            t.blog_slugs[sl],
        ) && t.blog(t.blog_slugs[sl]).slug == sl by {
            if sl != slug {
                assert(s.blog_slugs.contains_key(sl));
            }
        }
        assert forall|b: int| 0 <= b < t.blogs.len() implies (
        #[trigger] t.post_ids_by_blog[b]).no_duplicates() by {
            if b < n {
                assert(t.post_ids_by_blog[b] == s.post_ids_by_blog[b]);
            }
        }
        assert forall|b: int, pid: PostId| 0 <= b < t.blogs.len() implies (
        #[trigger] t.post_ids_by_blog[b].contains(pid) <==> (t.has_post(pid) && t.post(pid).blog_id
            == b + 1)) by {
            if b < n {
                assert(t.post_ids_by_blog[b] == s.post_ids_by_blog[b]);
                assert(s.post_ids_by_blog[b].contains(pid) <==> (s.has_post(pid) && s.post(pid).blog_id
                    == b + 1));
            } else {
                if t.has_post(pid) {
                    assert(s.posts[pid - 1].blog_id != id);
                }
                assert(!t.post_ids_by_blog[b].contains(pid));
            }
        }
        assert forall|a: AccountId| #[trigger] t.owner_blogs(a).no_duplicates() by {
            if a == owner {
                assert(t.owner_blogs(a) == s.owner_blogs(a).push(id));
                assert(!s.owner_blogs(a).contains(id));
                assert forall|x: int, y: int|
                    0 <= x < y < t.owner_blogs(a).len() implies t.owner_blogs(a)[x] != t.owner_blogs(
                        a,
                    )[y] by {
                    if y == t.owner_blogs(a).len() - 1 {
                        assert(s.owner_blogs(a)[x] == t.owner_blogs(a)[x]);
                    } else {
                        assert(s.owner_blogs(a).no_duplicates());
                    }
                }
            } else {
                assert(t.owner_blogs(a) == s.owner_blogs(a));
            }
        }
        assert forall|a: AccountId, bid: BlogId| #[trigger] t.owner_blogs(a).contains(bid) <==> (
        t.has_blog(bid) && t.blog(bid).created.account == a) by {
            assert(s.owner_blogs(a).contains(bid) <==> (s.has_blog(bid) && s.blog(bid).created.account
                == a));
            if a == owner {
                assert(t.owner_blogs(a) == s.owner_blogs(a).push(id));
                if bid != id {
                    if t.owner_blogs(a).contains(bid) {
                        let k = choose|k: int| 0 <= k < t.owner_blogs(a).len() && t.owner_blogs(a)[k] == bid;
                        assert(s.owner_blogs(a)[k] == bid);
                    }
                    if s.owner_blogs(a).contains(bid) {
                        let k = choose|k: int| 0 <= k < s.owner_blogs(a).len() && s.owner_blogs(a)[k] == bid;
                        assert(t.owner_blogs(a)[k] == bid);
                    }
                } else {
                    assert(t.owner_blogs(a)[s.owner_blogs(a).len() as int] == bid);
                }
            } else {
                assert(t.owner_blogs(a) == s.owner_blogs(a));
            }
        }
        assert(t.post_lists_agree());
        assert(t.owner_lists_agree());
        assert(t.blog_slugs_indexed());
        assert(t.counters_agree());
        assert(t.references_exist());
        lemma_reactions_bound_frame(s, t);
    }
}

proof fn lemma_blog_slugs_frame(s: ModuleView, t: ModuleView)
    requires
        s.blog_slugs_indexed(),
        t.blog_slugs == s.blog_slugs,
        t.blogs.len() == s.blogs.len(),
        forall|i: int| 0 <= i < s.blogs.len() ==> (#[trigger] t.blogs[i]).slug == s.blogs[i].slug,
    ensures
        t.blog_slugs_indexed(),
{
    assert forall|i: int| 0 <= i < t.blogs.len() implies t.blog_slugs.contains_key(
        #[trigger] t.blogs[i].slug,
    ) && t.blog_slugs[t.blogs[i].slug] == i + 1 by {
        assert(t.blogs[i].slug == s.blogs[i].slug);
    }
}

proof fn lemma_post_slugs_frame(s: ModuleView, t: ModuleView)
    requires
        s.post_slugs_indexed(),
        t.post_slugs == s.post_slugs,
        t.posts.len() == s.posts.len(),
        forall|i: int| 0 <= i < s.posts.len() ==> (#[trigger] t.posts[i]).slug == s.posts[i].slug,
    ensures
        t.post_slugs_indexed(),
{
    assert forall|i: int| 0 <= i < t.posts.len() implies t.post_slugs.contains_key(
        #[trigger] t.posts[i].slug,
    ) && t.post_slugs[t.posts[i].slug] == i + 1 by {
        assert(t.posts[i].slug == s.posts[i].slug);
    }
}

proof fn lemma_owner_lists_frame(s: ModuleView, t: ModuleView)
    requires
        s.owner_lists_agree(),
        t.blog_ids_by_owner == s.blog_ids_by_owner,
        t.blogs.len() == s.blogs.len(),
        forall|i: int|
            0 <= i < s.blogs.len() ==> (#[trigger] t.blogs[i]).created == s.blogs[i].created,
    ensures
        t.owner_lists_agree(),
{
    assert forall|a: AccountId| #[trigger] t.owner_blogs(a).no_duplicates() by {
        assert(t.owner_blogs(a) == s.owner_blogs(a));
    }
    assert forall|a: AccountId, bid: BlogId| #[trigger] t.owner_blogs(a).contains(bid) <==> (
    t.has_blog(bid) && t.blog(bid).created.account == a) by {
        assert(t.owner_blogs(a) == s.owner_blogs(a));
        assert(s.owner_blogs(a).contains(bid) <==> (s.has_blog(bid) && s.blog(bid).created.account
            == a));
        if t.has_blog(bid) {
            assert(t.blogs[bid - 1].created == s.blogs[bid - 1].created);
        }
    }
}

proof fn lemma_post_lists_frame(s: ModuleView, t: ModuleView)
    requires
        s.post_lists_agree(),
        t.post_ids_by_blog == s.post_ids_by_blog,
        t.blogs.len() == s.blogs.len(),
        t.posts.len() == s.posts.len(),
        forall|i: int|
            0 <= i < s.posts.len() ==> (#[trigger] t.posts[i]).blog_id == s.posts[i].blog_id,
    ensures
        t.post_lists_agree(),
{
    assert forall|b: int, pid: PostId| 0 <= b < t.blogs.len() implies (
    #[trigger] t.post_ids_by_blog[b].contains(pid) <==> (t.has_post(pid) && t.post(pid).blog_id == b
        + 1)) by {
        assert(s.post_ids_by_blog[b].contains(pid) <==> (s.has_post(pid) && s.post(pid).blog_id == b
            + 1));
        if t.has_post(pid) {
            assert(t.posts[pid - 1].blog_id == s.posts[pid - 1].blog_id);
        }
    }
}

proof fn lemma_comment_lists_frame(s: ModuleView, t: ModuleView)
    requires
        s.comment_lists_agree(),
        t.comment_ids_by_post == s.comment_ids_by_post,
        t.posts.len() == s.posts.len(),
        t.comments.len() == s.comments.len(),
        forall|i: int|
            0 <= i < s.comments.len() ==> (#[trigger] t.comments[i]).post_id == s.comments[i].post_id,
    ensures
        t.comment_lists_agree(),
{
    assert forall|p: int, cid: CommentId| 0 <= p < t.posts.len() implies (
    #[trigger] t.comment_ids_by_post[p].contains(cid) <==> (t.has_comment(cid) && t.comment(
        cid,
    ).post_id == p + 1)) by {
        assert(s.comment_ids_by_post[p].contains(cid) <==> (s.has_comment(cid) && s.comment(
            cid,
        ).post_id == p + 1));
        if t.has_comment(cid) {
            assert(t.comments[cid - 1].post_id == s.comments[cid - 1].post_id);
        }
    }
}

/// Pushing `x`, which was not there, onto a list without duplicates keeps it so.
proof fn lemma_push_fresh(l: Seq<u64>, x: u64)
    requires
        l.no_duplicates(),
        !l.contains(x),
    ensures
        l.push(x).no_duplicates(),
        forall|y: u64| #[trigger] l.push(x).contains(y) <==> (l.contains(y) || y == x),
{
    let m = l.push(x);
    assert forall|i: int, j: int| 0 <= i < j < m.len() implies m[i] != m[j] by {
        if j == l.len() {
            assert(m[i] == l[i]);
        } else {
            assert(m[i] == l[i] && m[j] == l[j]);
        }
    }
    assert forall|y: u64| #[trigger] m.contains(y) <==> (l.contains(y) || y == x) by {
        if m.contains(y) && y != x {
            let k = choose|k: int| 0 <= k < m.len() && m[k] == y;
            assert(l[k] == y);
        }
        if l.contains(y) {
            let k = choose|k: int| 0 <= k < l.len() && l[k] == y;
            assert(m[k] == y);
        }
        if y == x {
            assert(m[l.len() as int] == y);
        }
    }
}

/// Removing the one occurrence of `x` from a list without duplicates.
pub proof fn lemma_remove_unique(l: Seq<u64>, x: u64)
    requires
        l.no_duplicates(),
        l.contains(x),
    ensures
        0 <= l.index_of(x) < l.len(),
        l[l.index_of(x)] == x,
        l.remove(l.index_of(x)).no_duplicates(),
        forall|y: u64| #[trigger] l.remove(l.index_of(x)).contains(y) <==> (l.contains(y) && y != x),
{
    let i = l.index_of(x);
    let m = l.remove(i);
    assert forall|a: int, b: int| 0 <= a < b < m.len() implies m[a] != m[b] by {
        let a0 = if a < i { a } else { a + 1 };
        let b0 = if b < i { b } else { b + 1 };
        assert(m[a] == l[a0] && m[b] == l[b0]);
    }
    assert forall|y: u64| #[trigger] m.contains(y) <==> (l.contains(y) && y != x) by {
        if m.contains(y) {
            let k = choose|k: int| 0 <= k < m.len() && m[k] == y;
            let k0 = if k < i { k } else { k + 1 };
            assert(l[k0] == y);
            assert(k0 != i);
        }
        if l.contains(y) && y != x {
            let k = choose|k: int| 0 <= k < l.len() && l[k] == y;
            assert(k != i);
            if k < i {
                assert(m[k] == y);
            } else {
                assert(m[k - 1] == y);
            }
        }
    }
}

/// A post can be added at the end: the new post has no comments and no reactions.
pub proof fn lemma_create_post_keeps_valid(
    s: ModuleView,
    owner: AccountId,
    blog_id: BlogId,
    slug: Seq<u8>,
    json: Seq<u8>,
)
    requires
        s.valid(),
        s.posts.len() < u64::MAX,
    ensures
        s.create_post(owner, blog_id, slug, json).1.valid(),
{
    let (r, t) = s.create_post(owner, blog_id, slug, json);
    if r is Ok {
        let id = s.next_post_id() as u64;
        let n = s.posts.len() as int;
        let b = blog_id - 1;
        let post = t.posts[n];
        lemma_blog_slugs_frame(s, t);
        lemma_owner_lists_frame(s, t);
        assert forall|i: int| 0 <= i < s.comments.len() implies (
        #[trigger] s.comments[i]).post_id != id by {
            assert(s.has_post(s.comments[i].post_id));
        }
        // counters
        assert forall|i: int| 0 <= i < t.blogs.len() implies (#[trigger] t.blogs[i]).posts_count
            == count(t.posts, in_blog((i + 1) as u64)) by {
            assert(s.blogs[i].id == i + 1);
            lemma_count_push(s.posts, post, in_blog((i + 1) as u64));
            if i == b {
                lemma_count_le_len(s.posts, in_blog(blog_id));
                assert(post.blog_id == (i + 1) as u64);
            } else {
                assert(t.blogs[i] == s.blogs[i]);
                assert(post.blog_id != (i + 1) as u64);
            }
        }
        assert forall|i: int| 0 <= i < t.posts.len() implies (#[trigger] t.posts[i]).comments_count
            == count(t.comments, on_post((i + 1) as u64)) by {
            if i == n {
                lemma_count_zero(s.comments, on_post(id));
            }
        }
        assert forall|i: int| 0 <= i < t.posts.len() implies (#[trigger] t.posts[i]).upvotes_count
            == count(t.reaction_ids_by_post[i], live_of_kind(t.reactions, ReactionKind::Upvote))
            && t.posts[i].downvotes_count == count(
            t.reaction_ids_by_post[i],
            live_of_kind(t.reactions, ReactionKind::Downvote),
        ) by {
            if i == n {
                lemma_count_zero(t.reaction_ids_by_post[i], live_of_kind(t.reactions, ReactionKind::Upvote));
                lemma_count_zero(t.reaction_ids_by_post[i], live_of_kind(t.reactions, ReactionKind::Downvote));
            }
        }
        assert(t.counters_agree());
        // slugs
        assert forall|i: int|
            0 <= i < t.posts.len() implies t.post_slugs.contains_key(#[trigger] t.posts[i].slug)
            && t.post_slugs[t.posts[i].slug] == i + 1 by {
            if i < n {
                assert(s.post_slugs.contains_key(s.posts[i].slug));
            }
        }
        assert forall|sl: Seq<u8>| #[trigger] t.post_slugs.contains_key(sl) implies t.has_post(
            t.post_slugs[sl],
        ) && t.post(t.post_slugs[sl]).slug == sl by {
            if sl != slug {
                assert(s.post_slugs.contains_key(sl));
            }
        }
        assert(t.post_slugs_indexed());
        // post lists
        assert(!s.post_ids_by_blog[b].contains(id));
        lemma_push_fresh(s.post_ids_by_blog[b], id);
        assert forall|bb: int| 0 <= bb < t.blogs.len() implies (
        #[trigger] t.post_ids_by_blog[bb]).no_duplicates() by {}
        assert forall|bb: int, pid: PostId| 0 <= bb < t.blogs.len() implies (
        #[trigger] t.post_ids_by_blog[bb].contains(pid) <==> (t.has_post(pid) && t.post(pid).blog_id
            == bb + 1)) by {
            assert(s.post_ids_by_blog[bb].contains(pid) <==> (s.has_post(pid) && s.post(pid).blog_id
                == bb + 1));
        }
        assert(t.post_lists_agree());
        // comment lists
        assert forall|p: int| 0 <= p < t.posts.len() implies (
        #[trigger] t.comment_ids_by_post[p]).no_duplicates() by {
            if p < n {
                assert(t.comment_ids_by_post[p] == s.comment_ids_by_post[p]);
            }
        }
        assert forall|p: int, cid: CommentId| 0 <= p < t.posts.len() implies (
        #[trigger] t.comment_ids_by_post[p].contains(cid) <==> (t.has_comment(cid) && t.comment(
            cid,
        ).post_id == p + 1)) by {
            if p < n {
                assert(t.comment_ids_by_post[p] == s.comment_ids_by_post[p]);
                assert(s.comment_ids_by_post[p].contains(cid) <==> (s.has_comment(cid) && s.comment(
                    cid,
                ).post_id == p + 1));
            } else {
                if t.has_comment(cid) {
                    assert(s.comments[cid - 1].post_id != id);
                }
                assert(!t.comment_ids_by_post[p].contains(cid));
            }
        }
        assert(t.comment_lists_agree());
        lemma_reactions_bound_new_post(s, t);
        assert(t.references_exist());
    }
}

/// Adding a post with an empty reaction list keeps the reaction part of the invariant.
proof fn lemma_reactions_bound_new_post(s: ModuleView, t: ModuleView)
    requires
        s.reactions_bound(),
        s.reaction_ids_by_post.len() == s.posts.len(),
        t.reactions == s.reactions,
        t.reaction_ids_by_post == s.reaction_ids_by_post.push(Seq::empty()),
        t.reaction_ids_by_comment == s.reaction_ids_by_comment,
        t.posts.len() == s.posts.len() + 1,
        t.comments.len() == s.comments.len(),
    ensures
        t.reactions_bound(),
{
    let n = s.posts.len() as int;
    assert forall|p: int, id: u64| 0 <= p < t.posts.len() && #[trigger] t.reaction_ids_by_post[p].contains(id)
        implies p < n by {
        if p == n {
            assert(t.reaction_ids_by_post[p] =~= Seq::<u64>::empty());
        }
    }
    assert forall|p: int| 0 <= p < t.posts.len() implies (#[trigger] t.reaction_ids_by_post[p]).no_duplicates() by {
        if p < n {
            assert(t.reaction_ids_by_post[p] == s.reaction_ids_by_post[p]);
        }
    }
    assert forall|p: int, id: u64| 0 <= p < t.posts.len() && #[trigger] t.reaction_ids_by_post[p].contains(id)
        implies t.has_reaction(id) by {
        assert(t.reaction_ids_by_post[p] == s.reaction_ids_by_post[p]);
    }
    assert forall|p: int, q: int, id: u64|
        0 <= p < t.posts.len() && 0 <= q < t.posts.len()
            && #[trigger] t.reaction_ids_by_post[p].contains(id)
            && #[trigger] t.reaction_ids_by_post[q].contains(id) implies p == q by {
        assert(t.reaction_ids_by_post[p] == s.reaction_ids_by_post[p]);
        assert(t.reaction_ids_by_post[q] == s.reaction_ids_by_post[q]);
    }
    assert forall|p: int, c: int, id: u64|
        0 <= p < t.posts.len() && 0 <= c < t.comments.len()
            && #[trigger] t.reaction_ids_by_post[p].contains(id)
            && #[trigger] t.reaction_ids_by_comment[c].contains(id) implies false by {
        assert(t.reaction_ids_by_post[p] == s.reaction_ids_by_post[p]);
    }
    assert forall|id: u64| #[trigger] t.has_reaction(id) implies (exists|p: int|
        0 <= p < t.posts.len() && #[trigger] t.reaction_ids_by_post[p].contains(id)) || (exists|c: int|
        0 <= c < t.comments.len() && #[trigger] t.reaction_ids_by_comment[c].contains(id)) by {
        assert(s.has_reaction(id));
        if exists|p: int| 0 <= p < s.posts.len() && #[trigger] s.reaction_ids_by_post[p].contains(id) {
            let p = choose|p: int| 0 <= p < s.posts.len() && #[trigger] s.reaction_ids_by_post[p].contains(id);
            assert(t.reaction_ids_by_post[p] == s.reaction_ids_by_post[p]);
        }
    }
}

/// Adding a comment with an empty reaction list keeps the reaction part of the invariant.
proof fn lemma_reactions_bound_new_comment(s: ModuleView, t: ModuleView)
    requires
        s.reactions_bound(),
        s.reaction_ids_by_comment.len() == s.comments.len(),
        t.reactions == s.reactions,
        t.reaction_ids_by_post == s.reaction_ids_by_post,
        t.reaction_ids_by_comment == s.reaction_ids_by_comment.push(Seq::empty()),
        t.posts.len() == s.posts.len(),
        t.comments.len() == s.comments.len() + 1,
    ensures
        t.reactions_bound(),
{
    let n = s.comments.len() as int;
    assert forall|c: int, id: u64| 0 <= c < t.comments.len() && #[trigger] t.reaction_ids_by_comment[c].contains(id)
        implies c < n by {
        if c == n {
            assert(t.reaction_ids_by_comment[c] =~= Seq::<u64>::empty());
        }
    }
    assert forall|c: int| 0 <= c < t.comments.len() implies (#[trigger] t.reaction_ids_by_comment[c]).no_duplicates() by {
        if c < n {
            assert(t.reaction_ids_by_comment[c] == s.reaction_ids_by_comment[c]);
        }
    }
    assert forall|c: int, id: u64| 0 <= c < t.comments.len() && #[trigger] t.reaction_ids_by_comment[c].contains(id)
        implies t.has_reaction(id) by {
        assert(t.reaction_ids_by_comment[c] == s.reaction_ids_by_comment[c]);
    }
    assert forall|c: int, d: int, id: u64|
        0 <= c < t.comments.len() && 0 <= d < t.comments.len()
            && #[trigger] t.reaction_ids_by_comment[c].contains(id)
            && #[trigger] t.reaction_ids_by_comment[d].contains(id) implies c == d by {
        assert(t.reaction_ids_by_comment[c] == s.reaction_ids_by_comment[c]);
        assert(t.reaction_ids_by_comment[d] == s.reaction_ids_by_comment[d]);
    }
    assert forall|p: int, c: int, id: u64|
        0 <= p < t.posts.len() && 0 <= c < t.comments.len()
            && #[trigger] t.reaction_ids_by_post[p].contains(id)
            && #[trigger] t.reaction_ids_by_comment[c].contains(id) implies false by {
        assert(t.reaction_ids_by_comment[c] == s.reaction_ids_by_comment[c]);
    }
    assert forall|id: u64| #[trigger] t.has_reaction(id) implies (exists|p: int|
        0 <= p < t.posts.len() && #[trigger] t.reaction_ids_by_post[p].contains(id)) || (exists|c: int|
        0 <= c < t.comments.len() && #[trigger] t.reaction_ids_by_comment[c].contains(id)) by {
        assert(s.has_reaction(id));
        if exists|c: int| 0 <= c < s.comments.len() && #[trigger] s.reaction_ids_by_comment[c].contains(id) {
            let c = choose|c: int| 0 <= c < s.comments.len() && #[trigger] s.reaction_ids_by_comment[c].contains(id);
            assert(t.reaction_ids_by_comment[c] == s.reaction_ids_by_comment[c]);
        }
    }
}

/// A comment can be added at the end: it has no reactions, and its post counts one more.
pub proof fn lemma_create_comment_keeps_valid(
    s: ModuleView,
    owner: AccountId,
    post_id: PostId,
    parent_id: Option<CommentId>,
    json: Seq<u8>,
)
    requires
        s.valid(),
        s.comments.len() < u64::MAX,
    ensures
        s.create_comment(owner, post_id, parent_id, json).1.valid(),
{
    let (r, t) = s.create_comment(owner, post_id, parent_id, json);
    if r is Ok {
        let id = s.next_comment_id() as u64;
        let n = s.comments.len() as int;
        let p = post_id - 1;
        let comment = t.comments[n];
        lemma_blog_slugs_frame(s, t);
        lemma_owner_lists_frame(s, t);
        lemma_post_slugs_frame(s, t);
        lemma_post_lists_frame(s, t);
        // counters
        assert forall|i: int| 0 <= i < t.blogs.len() implies (#[trigger] t.blogs[i]).posts_count
            == count(t.posts, in_blog((i + 1) as u64)) by {
            assert(s.blogs[i].id == i + 1);
            lemma_count_update(s.posts, p, t.posts[p], in_blog((i + 1) as u64));
            assert(t.posts =~= s.posts.update(p, t.posts[p]));
        }
        assert forall|i: int| 0 <= i < t.posts.len() implies (#[trigger] t.posts[i]).comments_count
            == count(t.comments, on_post((i + 1) as u64)) by {
            assert(s.posts[i].id == i + 1);
            lemma_count_push(s.comments, comment, on_post((i + 1) as u64));
            if i == p {
                lemma_count_le_len(s.comments, on_post(post_id));
                assert(comment.post_id == (i + 1) as u64);
            } else {
                assert(t.posts[i] == s.posts[i]);
                assert(comment.post_id != (i + 1) as u64);
            }
        }
        assert forall|i: int| 0 <= i < t.comments.len() implies (#[trigger] t.comments[i]).upvotes_count
            == count(t.reaction_ids_by_comment[i], live_of_kind(t.reactions, ReactionKind::Upvote))
            && t.comments[i].downvotes_count == count(
            t.reaction_ids_by_comment[i],
            live_of_kind(t.reactions, ReactionKind::Downvote),
        ) by {
            if i == n {
                lemma_count_zero(t.reaction_ids_by_comment[i], live_of_kind(t.reactions, ReactionKind::Upvote));
                lemma_count_zero(t.reaction_ids_by_comment[i], live_of_kind(t.reactions, ReactionKind::Downvote));
            } else {
                assert(t.comments[i] == s.comments[i]);
                assert(t.reaction_ids_by_comment[i] == s.reaction_ids_by_comment[i]);
            }
        }
        assert(t.counters_agree());
        // comment lists
        assert(!s.comment_ids_by_post[p].contains(id));
        lemma_push_fresh(s.comment_ids_by_post[p], id);
        assert forall|pp: int| 0 <= pp < t.posts.len() implies (
        #[trigger] t.comment_ids_by_post[pp]).no_duplicates() by {}
        assert forall|pp: int, cid: CommentId| 0 <= pp < t.posts.len() implies (
        #[trigger] t.comment_ids_by_post[pp].contains(cid) <==> (t.has_comment(cid) && t.comment(
            cid,
        ).post_id == pp + 1)) by {
            assert(s.comment_ids_by_post[pp].contains(cid) <==> (s.has_comment(cid) && s.comment(
                cid,
            ).post_id == pp + 1));
        }
        assert(t.comment_lists_agree());
        lemma_reactions_bound_new_comment(s, t);
        assert(t.references_exist());
    }
}

/// A list without duplicates whose ids all lie in `1..=n` has at most `n` entries.
proof fn lemma_distinct_ids_bounded(l: Seq<u64>, n: int)
    requires
        0 <= n,
        l.no_duplicates(),
        forall|i: int| 0 <= i < l.len() ==> 1 <= #[trigger] l[i] <= n,
    ensures
        l.len() <= n,
    decreases n,
{
    if n <= 0 {
        if l.len() > 0 {
            assert(1 <= l[0] <= n);
        }
    } else if n > u64::MAX {
        lemma_distinct_ids_bounded(l, u64::MAX as int);
        assert(l.len() <= n);
    } else if l.contains(n as u64) {
        lemma_remove_unique(l, n as u64);
        let m = l.remove(l.index_of(n as u64));
        assert forall|i: int| 0 <= i < m.len() implies 1 <= #[trigger] m[i] <= n - 1 by {
            assert(m.contains(m[i]));
            let k = choose|k: int| 0 <= k < l.len() && l[k] == m[i];
            assert(1 <= l[k] <= n);
        }
        lemma_distinct_ids_bounded(m, n - 1);
        assert(m.len() == l.len() - 1);
        assert(l.len() <= n);
    } else {
        assert forall|i: int| 0 <= i < l.len() implies 1 <= #[trigger] l[i] <= n - 1 by {
            assert(l[i] != n as u64);
        }
        lemma_distinct_ids_bounded(l, n - 1);
        assert(l.len() <= n);
    }
}

/// A reaction counter is at most the number of reactions ever made.
pub proof fn lemma_post_votes_bounded(s: ModuleView, p: int)
    requires
        s.valid(),
        0 <= p < s.posts.len(),
    ensures
        s.posts[p].upvotes_count <= s.reactions.len(),
        s.posts[p].downvotes_count <= s.reactions.len(),
{
    let l = s.reaction_ids_by_post[p];
    assert forall|i: int| 0 <= i < l.len() implies 1 <= #[trigger] l[i] <= s.reactions.len() by {
        assert(l.contains(l[i]));
    }
    lemma_distinct_ids_bounded(l, s.reactions.len() as int);
    lemma_count_le_len(l, live_of_kind(s.reactions, ReactionKind::Upvote));
    lemma_count_le_len(l, live_of_kind(s.reactions, ReactionKind::Downvote));
}

/// A reaction counter is at most the number of reactions ever made.
pub proof fn lemma_comment_votes_bounded(s: ModuleView, c: int)
    requires
        s.valid(),
        0 <= c < s.comments.len(),
    ensures
        s.comments[c].upvotes_count <= s.reactions.len(),
        s.comments[c].downvotes_count <= s.reactions.len(),
{
    let l = s.reaction_ids_by_comment[c];
    assert forall|i: int| 0 <= i < l.len() implies 1 <= #[trigger] l[i] <= s.reactions.len() by {
        assert(l.contains(l[i]));
    }
    lemma_distinct_ids_bounded(l, s.reactions.len() as int);
    lemma_count_le_len(l, live_of_kind(s.reactions, ReactionKind::Upvote));
    lemma_count_le_len(l, live_of_kind(s.reactions, ReactionKind::Downvote));
}

/// A list of live ids counts the same after a new reaction is appended to the store.
proof fn lemma_counts_after_append(s: ModuleView, l: Seq<u64>, x: Option<Reaction>, k: ReactionKind)
    requires
        forall|i: int| 0 <= i < l.len() ==> s.has_reaction(#[trigger] l[i]),
    ensures
        count(l, live_of_kind(s.reactions.push(x), k)) == count(l, live_of_kind(s.reactions, k)),
{
    assert forall|i: int| 0 <= i < l.len() implies live_of_kind(s.reactions.push(x), k)(#[trigger] l[i])
        == live_of_kind(s.reactions, k)(l[i]) by {
        assert(s.has_reaction(l[i]));
        assert(s.reactions.push(x)[l[i] - 1] == s.reactions[l[i] - 1]);
    }
    lemma_count_agree(l, live_of_kind(s.reactions.push(x), k), live_of_kind(s.reactions, k));
}

/// A reaction can be added to a post: it is live, listed under that post only, and counted.
pub proof fn lemma_add_post_reaction_keeps_valid(
    s: ModuleView,
    owner: AccountId,
    post_id: PostId,
    kind: ReactionKind,
)
    requires
        s.valid(),
        s.reactions.len() < u64::MAX,
    ensures
        s.add_post_reaction(owner, post_id, kind).1.valid(),
{
    let (r, t) = s.add_post_reaction(owner, post_id, kind);
    if r is Ok {
        let id = s.next_reaction_id() as u64;
        let n = s.reactions.len() as int;
        let p = post_id - 1;
        let x = t.reactions[n];
        assert(t.reactions == s.reactions.push(x));
        lemma_blog_slugs_frame(s, t);
        lemma_owner_lists_frame(s, t);
        lemma_post_slugs_frame(s, t);
        lemma_post_lists_frame(s, t);
        lemma_comment_lists_frame(s, t);
        lemma_post_votes_bounded(s, p);
        assert(!s.reaction_ids_by_post[p].contains(id));
        lemma_push_fresh(s.reaction_ids_by_post[p], id);
        // counters
        assert forall|i: int| 0 <= i < t.blogs.len() implies (#[trigger] t.blogs[i]).posts_count
            == count(t.posts, in_blog((i + 1) as u64)) by {
            assert(s.blogs[i].id == i + 1);
            lemma_count_update(s.posts, p, t.posts[p], in_blog((i + 1) as u64));
            assert(t.posts =~= s.posts.update(p, t.posts[p]));
        }
        assert forall|i: int| 0 <= i < t.posts.len() implies (#[trigger] t.posts[i]).comments_count
            == count(t.comments, on_post((i + 1) as u64)) by {
            assert(s.posts[i].comments_count == t.posts[i].comments_count);
        }
        assert forall|i: int| 0 <= i < t.posts.len() implies (#[trigger] t.posts[i]).upvotes_count
            == count(t.reaction_ids_by_post[i], live_of_kind(t.reactions, ReactionKind::Upvote))
            && t.posts[i].downvotes_count == count(
            t.reaction_ids_by_post[i],
            live_of_kind(t.reactions, ReactionKind::Downvote),
        ) by {
            let l = s.reaction_ids_by_post[i];
            assert forall|j: int| 0 <= j < l.len() implies s.has_reaction(#[trigger] l[j]) by {
                assert(l.contains(l[j]));
            }
            lemma_counts_after_append(s, l, x, ReactionKind::Upvote);
            lemma_counts_after_append(s, l, x, ReactionKind::Downvote);
            if i == p {
                lemma_count_push(l, id, live_of_kind(t.reactions, ReactionKind::Upvote));
                lemma_count_push(l, id, live_of_kind(t.reactions, ReactionKind::Downvote));
            } else {
                assert(t.posts[i] == s.posts[i]);
            }
        }
        assert forall|i: int| 0 <= i < t.comments.len() implies (#[trigger] t.comments[i]).upvotes_count
            == count(t.reaction_ids_by_comment[i], live_of_kind(t.reactions, ReactionKind::Upvote))
            && t.comments[i].downvotes_count == count(
            t.reaction_ids_by_comment[i],
            live_of_kind(t.reactions, ReactionKind::Downvote),
        ) by {
            let l = s.reaction_ids_by_comment[i];
            assert forall|j: int| 0 <= j < l.len() implies s.has_reaction(#[trigger] l[j]) by {
                assert(l.contains(l[j]));
            }
            lemma_counts_after_append(s, l, x, ReactionKind::Upvote);
            lemma_counts_after_append(s, l, x, ReactionKind::Downvote);
        }
        assert(t.counters_agree());
        // reactions
        assert forall|q: int| 0 <= q < t.posts.len() implies (#[trigger] t.reaction_ids_by_post[q]).no_duplicates() by {}
        assert forall|q: int, rid: u64| 0 <= q < t.posts.len() && #[trigger] t.reaction_ids_by_post[q].contains(rid)
            implies t.has_reaction(rid) by {
            if rid != id {
                assert(s.reaction_ids_by_post[q].contains(rid));
                assert(s.has_reaction(rid));
            }
        }
        assert forall|c: int, rid: u64| 0 <= c < t.comments.len() && #[trigger] t.reaction_ids_by_comment[c].contains(rid)
            implies t.has_reaction(rid) by {
            assert(s.has_reaction(rid));
        }
        assert forall|q1: int, q2: int, rid: u64|
            0 <= q1 < t.posts.len() && 0 <= q2 < t.posts.len()
                && #[trigger] t.reaction_ids_by_post[q1].contains(rid)
                && #[trigger] t.reaction_ids_by_post[q2].contains(rid) implies q1 == q2 by {
            if rid == id {
                if q1 != p {
                    assert(s.reaction_ids_by_post[q1].contains(rid));
                }
                if q2 != p {
                    assert(s.reaction_ids_by_post[q2].contains(rid));
                }
            } else {
                assert(s.reaction_ids_by_post[q1].contains(rid));
                assert(s.reaction_ids_by_post[q2].contains(rid));
            }
        }
        assert forall|q: int, c: int, rid: u64|
            0 <= q < t.posts.len() && 0 <= c < t.comments.len()
                && #[trigger] t.reaction_ids_by_post[q].contains(rid)
                && #[trigger] t.reaction_ids_by_comment[c].contains(rid) implies false by {
            assert(s.has_reaction(rid));
            assert(s.reaction_ids_by_post[q].contains(rid));
        }
        assert forall|rid: u64| #[trigger] t.has_reaction(rid) implies (exists|q: int|
            0 <= q < t.posts.len() && #[trigger] t.reaction_ids_by_post[q].contains(rid)) || (exists|c: int|
            0 <= c < t.comments.len() && #[trigger] t.reaction_ids_by_comment[c].contains(rid)) by {
            if rid == id {
                assert(t.reaction_ids_by_post[p].contains(rid));
            } else {
                assert(s.has_reaction(rid));
                if exists|q: int| 0 <= q < s.posts.len() && #[trigger] s.reaction_ids_by_post[q].contains(rid) {
                    let q = choose|q: int| 0 <= q < s.posts.len() && #[trigger] s.reaction_ids_by_post[q].contains(rid);
                    assert(t.reaction_ids_by_post[q].contains(rid));
                }
            }
        }
        assert(t.reactions_bound());
        assert(t.references_exist());
    }
}

/// A reaction can be added to a comment: it is live, listed under that comment only, and
/// counted.
pub proof fn lemma_add_comment_reaction_keeps_valid(
    s: ModuleView,
    owner: AccountId,
    comment_id: CommentId,
    kind: ReactionKind,
)
    requires
        s.valid(),
        s.reactions.len() < u64::MAX,
    ensures
        s.add_comment_reaction(owner, comment_id, kind).1.valid(),
{
    let (r, t) = s.add_comment_reaction(owner, comment_id, kind);
    if r is Ok {
        let id = s.next_reaction_id() as u64;
        let n = s.reactions.len() as int;
        let c = comment_id - 1;
        let x = t.reactions[n];
        assert(t.reactions == s.reactions.push(x));
        lemma_blog_slugs_frame(s, t);
        lemma_owner_lists_frame(s, t);
        lemma_post_slugs_frame(s, t);
        lemma_post_lists_frame(s, t);
        lemma_comment_lists_frame(s, t);
        lemma_comment_votes_bounded(s, c);
        assert(!s.reaction_ids_by_comment[c].contains(id));
        lemma_push_fresh(s.reaction_ids_by_comment[c], id);
        assert forall|i: int| 0 <= i < t.posts.len() implies (#[trigger] t.posts[i]).comments_count
            == count(t.comments, on_post((i + 1) as u64)) by {
            assert(s.posts[i].id == i + 1);
            lemma_count_update(s.comments, c, t.comments[c], on_post((i + 1) as u64));
            assert(t.comments =~= s.comments.update(c, t.comments[c]));
        }
        assert forall|i: int| 0 <= i < t.posts.len() implies (#[trigger] t.posts[i]).upvotes_count
            == count(t.reaction_ids_by_post[i], live_of_kind(t.reactions, ReactionKind::Upvote))
            && t.posts[i].downvotes_count == count(
            t.reaction_ids_by_post[i],
            live_of_kind(t.reactions, ReactionKind::Downvote),
        ) by {
            let l = s.reaction_ids_by_post[i];
            assert forall|j: int| 0 <= j < l.len() implies s.has_reaction(#[trigger] l[j]) by {
                assert(l.contains(l[j]));
            }
            lemma_counts_after_append(s, l, x, ReactionKind::Upvote);
            lemma_counts_after_append(s, l, x, ReactionKind::Downvote);
        }
        assert forall|i: int| 0 <= i < t.comments.len() implies (#[trigger] t.comments[i]).upvotes_count
            == count(t.reaction_ids_by_comment[i], live_of_kind(t.reactions, ReactionKind::Upvote))
            && t.comments[i].downvotes_count == count(
            t.reaction_ids_by_comment[i],
            live_of_kind(t.reactions, ReactionKind::Downvote),
        ) by {
            let l = s.reaction_ids_by_comment[i];
            assert forall|j: int| 0 <= j < l.len() implies s.has_reaction(#[trigger] l[j]) by {
                assert(l.contains(l[j]));
            }
            lemma_counts_after_append(s, l, x, ReactionKind::Upvote);
            lemma_counts_after_append(s, l, x, ReactionKind::Downvote);
            if i == c {
                lemma_count_push(l, id, live_of_kind(t.reactions, ReactionKind::Upvote));
                lemma_count_push(l, id, live_of_kind(t.reactions, ReactionKind::Downvote));
            } else {
                assert(t.comments[i] == s.comments[i]);
            }
        }
        assert(t.counters_agree());
        assert forall|d: int| 0 <= d < t.comments.len() implies (#[trigger] t.reaction_ids_by_comment[d]).no_duplicates() by {}
        assert forall|d: int, rid: u64| 0 <= d < t.comments.len() && #[trigger] t.reaction_ids_by_comment[d].contains(rid)
            implies t.has_reaction(rid) by {
            if rid != id {
                assert(s.reaction_ids_by_comment[d].contains(rid));
                assert(s.has_reaction(rid));
            }
        }
        assert forall|q: int, rid: u64| 0 <= q < t.posts.len() && #[trigger] t.reaction_ids_by_post[q].contains(rid)
            implies t.has_reaction(rid) by {
            assert(s.has_reaction(rid));
        }
        assert forall|d1: int, d2: int, rid: u64|
            0 <= d1 < t.comments.len() && 0 <= d2 < t.comments.len()
                && #[trigger] t.reaction_ids_by_comment[d1].contains(rid)
                && #[trigger] t.reaction_ids_by_comment[d2].contains(rid) implies d1 == d2 by {
            if rid == id {
                if d1 != c {
                    assert(s.reaction_ids_by_comment[d1].contains(rid));
                }
                if d2 != c {
                    assert(s.reaction_ids_by_comment[d2].contains(rid));
                }
            } else {
                assert(s.reaction_ids_by_comment[d1].contains(rid));
                assert(s.reaction_ids_by_comment[d2].contains(rid));
            }
        }
        assert forall|q: int, d: int, rid: u64|
            0 <= q < t.posts.len() && 0 <= d < t.comments.len()
                && #[trigger] t.reaction_ids_by_post[q].contains(rid)
                && #[trigger] t.reaction_ids_by_comment[d].contains(rid) implies false by {
            assert(s.has_reaction(rid));
            assert(s.reaction_ids_by_comment[d].contains(rid));
        }
        assert forall|rid: u64| #[trigger] t.has_reaction(rid) implies (exists|q: int|
            0 <= q < t.posts.len() && #[trigger] t.reaction_ids_by_post[q].contains(rid)) || (exists|d: int|
            0 <= d < t.comments.len() && #[trigger] t.reaction_ids_by_comment[d].contains(rid)) by {
            if rid == id {
                assert(t.reaction_ids_by_comment[c].contains(rid));
            } else {
                assert(s.has_reaction(rid));
                if exists|d: int| 0 <= d < s.comments.len() && #[trigger] s.reaction_ids_by_comment[d].contains(rid) {
                    let d = choose|d: int| 0 <= d < s.comments.len() && #[trigger] s.reaction_ids_by_comment[d].contains(rid);
                    assert(t.reaction_ids_by_comment[d].contains(rid));
                } else {
                    let q = choose|q: int| 0 <= q < s.posts.len() && #[trigger] s.reaction_ids_by_post[q].contains(rid);
                    assert(t.reaction_ids_by_post[q].contains(rid));
                }
            }
        }
        assert(t.reactions_bound());
        assert(t.references_exist());
    }
}

/// A list of ids that does not hold `rid` counts the same once reaction `rid` is gone.
proof fn lemma_counts_after_delete(s: ModuleView, l: Seq<u64>, rid: u64, k: ReactionKind)
    requires
        !l.contains(rid),
        1 <= rid <= s.reactions.len(),
    ensures
        count(l, live_of_kind(s.reactions.update(rid - 1, None), k)) == count(
            l,
            live_of_kind(s.reactions, k),
        ),
{
    let r2 = s.reactions.update(rid - 1, None);
    assert forall|i: int| 0 <= i < l.len() implies live_of_kind(r2, k)(#[trigger] l[i]) == live_of_kind(
        s.reactions,
        k,
    )(l[i]) by {
        assert(l[i] != rid);
    }
    lemma_count_agree(l, live_of_kind(r2, k), live_of_kind(s.reactions, k));
}

/// Removing reaction `rid` from the list that holds it lowers the count of its kind by one.
pub proof fn lemma_counts_after_unlist(s: ModuleView, l: Seq<u64>, rid: u64, k: ReactionKind)
    requires
        l.no_duplicates(),
        l.contains(rid),
        s.has_reaction(rid),
    ensures
        count(l.remove(l.index_of(rid)), live_of_kind(s.reactions.update(rid - 1, None), k))
            + indicator(s.reaction(rid).kind == k) == count(l, live_of_kind(s.reactions, k)),
{
    lemma_remove_unique(l, rid);
    let m = l.remove(l.index_of(rid));
    assert(!m.contains(rid));
    lemma_counts_after_delete(s, m, rid, k);
    lemma_count_remove(l, l.index_of(rid), live_of_kind(s.reactions, k));
}

/// Deleting a listed reaction of a post: it is gone from the store, its list and the count.
pub proof fn lemma_delete_post_reaction_keeps_valid(
    s: ModuleView,
    owner: AccountId,
    post_id: PostId,
    reaction_id: u64,
)
    requires
        s.valid(),
    ensures
        s.delete_post_reaction(owner, post_id, reaction_id).1.valid(),
{
    let (r, t) = s.delete_post_reaction(owner, post_id, reaction_id);
    if r matches Ok(Some(_)) {
        let rid = reaction_id;
        let p = post_id - 1;
        let l = s.reaction_ids_by_post[p];
        lemma_remove_unique(l, rid);
        let m = l.remove(l.index_of(rid));
        assert(t.reaction_ids_by_post[p] == m);
        lemma_blog_slugs_frame(s, t);
        lemma_owner_lists_frame(s, t);
        lemma_post_slugs_frame(s, t);
        lemma_post_lists_frame(s, t);
        lemma_comment_lists_frame(s, t);
        lemma_counts_after_unlist(s, l, rid, ReactionKind::Upvote);
        lemma_counts_after_unlist(s, l, rid, ReactionKind::Downvote);
        assert forall|i: int| 0 <= i < t.blogs.len() implies (#[trigger] t.blogs[i]).posts_count
            == count(t.posts, in_blog((i + 1) as u64)) by {
            assert(s.blogs[i].id == i + 1);
            lemma_count_update(s.posts, p, t.posts[p], in_blog((i + 1) as u64));
            assert(t.posts =~= s.posts.update(p, t.posts[p]));
        }
        assert forall|i: int| 0 <= i < t.posts.len() implies (#[trigger] t.posts[i]).comments_count
            == count(t.comments, on_post((i + 1) as u64)) by {
            assert(s.posts[i].comments_count == t.posts[i].comments_count);
        }
        assert forall|i: int| 0 <= i < t.posts.len() implies (#[trigger] t.posts[i]).upvotes_count
            == count(t.reaction_ids_by_post[i], live_of_kind(t.reactions, ReactionKind::Upvote))
            && t.posts[i].downvotes_count == count(
            t.reaction_ids_by_post[i],
            live_of_kind(t.reactions, ReactionKind::Downvote),
        ) by {
            if i != p {
                assert(t.posts[i] == s.posts[i]);
                assert(!s.reaction_ids_by_post[i].contains(rid));
                lemma_counts_after_delete(s, s.reaction_ids_by_post[i], rid, ReactionKind::Upvote);
                lemma_counts_after_delete(s, s.reaction_ids_by_post[i], rid, ReactionKind::Downvote);
            }
        }
        assert forall|i: int| 0 <= i < t.comments.len() implies (#[trigger] t.comments[i]).upvotes_count
            == count(t.reaction_ids_by_comment[i], live_of_kind(t.reactions, ReactionKind::Upvote))
            && t.comments[i].downvotes_count == count(
            t.reaction_ids_by_comment[i],
            live_of_kind(t.reactions, ReactionKind::Downvote),
        ) by {
            assert(!s.reaction_ids_by_comment[i].contains(rid));
            lemma_counts_after_delete(s, s.reaction_ids_by_comment[i], rid, ReactionKind::Upvote);
            lemma_counts_after_delete(s, s.reaction_ids_by_comment[i], rid, ReactionKind::Downvote);
        }
        assert(t.counters_agree());
        assert forall|q: int| 0 <= q < t.posts.len() implies (#[trigger] t.reaction_ids_by_post[q]).no_duplicates() by {}
        assert forall|q: int, x: u64| 0 <= q < t.posts.len() && #[trigger] t.reaction_ids_by_post[q].contains(x)
            implies t.has_reaction(x) by {
            if q != p {
                assert(s.reaction_ids_by_post[q].contains(x));
                if x == rid {
                    assert(s.reaction_ids_by_post[p].contains(x));
                }
            }
        }
        assert forall|c: int, x: u64| 0 <= c < t.comments.len() && #[trigger] t.reaction_ids_by_comment[c].contains(x)
            implies t.has_reaction(x) by {
            if x == rid {
                assert(s.reaction_ids_by_post[p].contains(x));
            }
        }
        assert forall|q1: int, q2: int, x: u64|
            0 <= q1 < t.posts.len() && 0 <= q2 < t.posts.len()
                && #[trigger] t.reaction_ids_by_post[q1].contains(x)
                && #[trigger] t.reaction_ids_by_post[q2].contains(x) implies q1 == q2 by {
            assert(s.reaction_ids_by_post[q1].contains(x));
            assert(s.reaction_ids_by_post[q2].contains(x));
        }
        assert forall|q: int, c: int, x: u64|
            0 <= q < t.posts.len() && 0 <= c < t.comments.len()
                && #[trigger] t.reaction_ids_by_post[q].contains(x)
                && #[trigger] t.reaction_ids_by_comment[c].contains(x) implies false by {
            assert(s.reaction_ids_by_post[q].contains(x));
        }
        assert forall|x: u64| #[trigger] t.has_reaction(x) implies (exists|q: int|
            0 <= q < t.posts.len() && #[trigger] t.reaction_ids_by_post[q].contains(x)) || (exists|c: int|
            0 <= c < t.comments.len() && #[trigger] t.reaction_ids_by_comment[c].contains(x)) by {
            assert(x != rid);
            assert(s.has_reaction(x));
            if exists|q: int| 0 <= q < s.posts.len() && #[trigger] s.reaction_ids_by_post[q].contains(x) {
                let q = choose|q: int| 0 <= q < s.posts.len() && #[trigger] s.reaction_ids_by_post[q].contains(x);
                assert(t.reaction_ids_by_post[q].contains(x));
            } else {
                let c = choose|c: int| 0 <= c < s.comments.len() && #[trigger] s.reaction_ids_by_comment[c].contains(x);
                assert(t.reaction_ids_by_comment[c].contains(x));
            }
        }
        assert(t.reactions_bound());
        assert(t.references_exist());
    } else {
        lemma_reactions_bound_frame(s, t);
        lemma_owner_lists_frame(s, t);
    }
}

/// Replacing a comment's text touches nothing the invariant looks at.
pub proof fn lemma_update_comment_keeps_valid(
    s: ModuleView,
    owner: AccountId,
    comment_id: CommentId,
    json: Seq<u8>,
)
    requires
        s.valid(),
    ensures
        s.update_comment(owner, comment_id, json).1.valid(),
{
    let (r, t) = s.update_comment(owner, comment_id, json);
    if r is Ok {
        let c = comment_id - 1;
        lemma_blog_slugs_frame(s, t);
        lemma_owner_lists_frame(s, t);
        lemma_post_slugs_frame(s, t);
        lemma_post_lists_frame(s, t);
        lemma_comment_lists_frame(s, t);
        lemma_reactions_bound_frame(s, t);
        assert forall|i: int| 0 <= i < t.posts.len() implies (#[trigger] t.posts[i]).comments_count
            == count(t.comments, on_post((i + 1) as u64)) by {
            assert(s.posts[i].id == i + 1);
            lemma_count_update(s.comments, c, t.comments[c], on_post((i + 1) as u64));
        }
        assert forall|i: int| 0 <= i < t.comments.len() implies (#[trigger] t.comments[i]).upvotes_count
            == count(t.reaction_ids_by_comment[i], live_of_kind(t.reactions, ReactionKind::Upvote))
            && t.comments[i].downvotes_count == count(
            t.reaction_ids_by_comment[i],
            live_of_kind(t.reactions, ReactionKind::Downvote),
        ) by {
            assert(s.comments[i].upvotes_count == t.comments[i].upvotes_count);
        }
        assert(t.counters_agree());
        assert(t.references_exist());
    } else {
        lemma_reactions_bound_frame(s, t);
        lemma_owner_lists_frame(s, t);
    }
}

/// Changing a blog's writers, slug or text keeps the invariant; a new slug replaces the old
/// one in the index.
pub proof fn lemma_update_blog_keeps_valid(
    s: ModuleView,
    owner: AccountId,
    blog_id: BlogId,
    update: BlogUpdateView,
)
    requires
        s.valid(),
    ensures
        s.update_blog(owner, blog_id, update).1.valid(),
{
    let (r, t) = s.update_blog(owner, blog_id, update);
    if r matches Ok(Some(_)) {
        let b = blog_id - 1;
        let old_slug = s.blogs[b].slug;
        lemma_owner_lists_frame(s, t);
        lemma_post_slugs_frame(s, t);
        lemma_post_lists_frame(s, t);
        lemma_comment_lists_frame(s, t);
        lemma_reactions_bound_frame(s, t);
        if differs(update.slug, old_slug) {
            let new_slug = update.slug->0;
            assert(s.blog_slugs[old_slug] == blog_id);
            assert forall|i: int| 0 <= i < t.blogs.len() implies t.blog_slugs.contains_key(
                #[trigger] t.blogs[i].slug,
            ) && t.blog_slugs[t.blogs[i].slug] == i + 1 by {
                if i != b {
                    assert(s.blog_slugs.contains_key(s.blogs[i].slug));
                    assert(s.blogs[i].slug != old_slug);
                    assert(s.blogs[i].slug != new_slug);
                }
            }
            assert forall|sl: Seq<u8>| #[trigger] t.blog_slugs.contains_key(sl) implies t.has_blog(
                t.blog_slugs[sl],
            ) && t.blog(t.blog_slugs[sl]).slug == sl by {
                if sl != new_slug {
                    assert(s.blog_slugs.contains_key(sl));
                    assert(s.blog(s.blog_slugs[sl]).slug == sl);
                }
            }
        } else {
            lemma_blog_slugs_frame(s, t);
        }
        assert forall|i: int| 0 <= i < t.blogs.len() implies (#[trigger] t.blogs[i]).posts_count
            == count(t.posts, in_blog((i + 1) as u64)) by {
            assert(s.blogs[i].posts_count == t.blogs[i].posts_count);
        }
        assert(t.counters_agree());
        assert(t.references_exist());
    } else {
        lemma_reactions_bound_frame(s, t);
        lemma_owner_lists_frame(s, t);
    }
}

/// Changing a post's slug or text, or moving it to another blog, keeps the invariant: a move
/// takes it out of one blog's list and count and puts it into the other's.
pub proof fn lemma_update_post_keeps_valid(
    s: ModuleView,
    owner: AccountId,
    post_id: PostId,
    update: PostUpdateView,
)
    requires
        s.valid(),
    ensures
        s.update_post(owner, post_id, update).1.valid(),
{
    let (r, t) = s.update_post(owner, post_id, update);
    if r matches Ok(Some(_)) {
        let pi = post_id - 1;
        let old_post = s.posts[pi];
        let new_post = t.posts[pi];
        let old_slug = old_post.slug;
        assert(t.posts == s.posts.update(pi, new_post));
        lemma_blog_slugs_frame(s, t);
        lemma_owner_lists_frame(s, t);
        lemma_comment_lists_frame(s, t);
        lemma_reactions_bound_frame(s, t);
        // slugs
        if differs(update.slug, old_slug) {
            let new_slug = update.slug->0;
            assert(s.post_slugs[old_slug] == post_id);
            assert forall|i: int| 0 <= i < t.posts.len() implies t.post_slugs.contains_key(
                #[trigger] t.posts[i].slug,
            ) && t.post_slugs[t.posts[i].slug] == i + 1 by {
                if i != pi {
                    assert(s.post_slugs.contains_key(s.posts[i].slug));
                    assert(s.posts[i].slug != old_slug);
                    assert(s.posts[i].slug != new_slug);
                }
            }
            assert forall|sl: Seq<u8>| #[trigger] t.post_slugs.contains_key(sl) implies t.has_post(
                t.post_slugs[sl],
            ) && t.post(t.post_slugs[sl]).slug == sl by {
                if sl != new_slug {
                    assert(s.post_slugs.contains_key(sl));
                    assert(s.post(s.post_slugs[sl]).slug == sl);
                }
            }
        } else {
            lemma_post_slugs_frame(s, t);
        }
        // comment and reaction counters do not move with the post
        assert forall|i: int| 0 <= i < t.posts.len() implies (#[trigger] t.posts[i]).comments_count
            == count(t.comments, on_post((i + 1) as u64)) by {
            assert(s.posts[i].comments_count == t.posts[i].comments_count);
        }
        assert forall|i: int| 0 <= i < t.posts.len() implies (#[trigger] t.posts[i]).upvotes_count
            == count(t.reaction_ids_by_post[i], live_of_kind(t.reactions, ReactionKind::Upvote))
            && t.posts[i].downvotes_count == count(
            t.reaction_ids_by_post[i],
            live_of_kind(t.reactions, ReactionKind::Downvote),
        ) by {
            assert(s.posts[i].upvotes_count == t.posts[i].upvotes_count);
            assert(s.posts[i].downvotes_count == t.posts[i].downvotes_count);
        }
        if differs(update.blog_id, old_post.blog_id) {
            let from = old_post.blog_id - 1;
            let to = update.blog_id->0 - 1;
            assert(from != to);
            let l = s.post_ids_by_blog[from];
            assert(l.contains(post_id));
            lemma_remove_unique(l, post_id);
            assert(!s.post_ids_by_blog[to].contains(post_id));
            lemma_push_fresh(s.post_ids_by_blog[to], post_id);
            assert(t.post_ids_by_blog[from] == l.remove(l.index_of(post_id)));
            assert(t.post_ids_by_blog[to] == s.post_ids_by_blog[to].push(post_id));
            assert(s.posts.len() <= u64::MAX) by {
                if s.posts.len() > 0 {
                    assert(s.posts[s.posts.len() - 1].id == s.posts.len());
                }
            }
            assert forall|i: int| 0 <= i < t.blogs.len() implies (#[trigger] t.blogs[i]).posts_count
                == count(t.posts, in_blog((i + 1) as u64)) by {
                assert(s.blogs[i].id == i + 1);
                lemma_count_update(s.posts, pi, new_post, in_blog((i + 1) as u64));
                lemma_count_le_len(t.posts, in_blog((i + 1) as u64));
                if i != from && i != to {
                    assert(t.blogs[i] == s.blogs[i]);
                }
            }
            assert forall|bb: int| 0 <= bb < t.blogs.len() implies (
            #[trigger] t.post_ids_by_blog[bb]).no_duplicates() by {}
            assert forall|bb: int, x: PostId| 0 <= bb < t.blogs.len() implies (
            #[trigger] t.post_ids_by_blog[bb].contains(x) <==> (t.has_post(x) && t.post(x).blog_id
                == bb + 1)) by {
                assert(s.post_ids_by_blog[bb].contains(x) <==> (s.has_post(x) && s.post(x).blog_id
                    == bb + 1));
                if x != post_id && t.has_post(x) {
                    assert(t.posts[x - 1] == s.posts[x - 1]);
                }
            }
            assert(t.post_lists_agree());
        } else {
            assert(t.blogs == s.blogs);
            lemma_post_lists_frame(s, t);
            assert forall|i: int| 0 <= i < t.blogs.len() implies (#[trigger] t.blogs[i]).posts_count
                == count(t.posts, in_blog((i + 1) as u64)) by {
                assert(s.blogs[i].id == i + 1);
                lemma_count_update(s.posts, pi, new_post, in_blog((i + 1) as u64));
            }
        }
        assert(t.counters_agree());
        assert(t.references_exist());
    } else {
        lemma_reactions_bound_frame(s, t);
        lemma_owner_lists_frame(s, t);
    }
}

/// A post's blog counts it, so that count can drop by one; another blog's count can grow by one.
pub proof fn lemma_move_bounds(s: ModuleView, post_id: PostId, to: BlogId)
    requires
        s.valid(),
        s.has_post(post_id),
        s.has_blog(to),
        to != s.post(post_id).blog_id,
    ensures
        s.blog(s.post(post_id).blog_id).posts_count >= 1,
        s.blog(to).posts_count < u64::MAX,
{
    let pi = post_id - 1;
    let from = s.posts[pi].blog_id;
    assert(s.blogs[from - 1].id == from);
    assert(s.blogs[to - 1].id == to);
    lemma_count_remove(s.posts, pi, in_blog(from));
    lemma_count_remove(s.posts, pi, in_blog(to));
    lemma_count_le_len(s.posts.remove(pi), in_blog(to));
    assert(s.posts[s.posts.len() - 1].id == s.posts.len());
}

/// Deleting a listed reaction of a comment: it is gone from the store, its list and the count.
pub proof fn lemma_delete_comment_reaction_keeps_valid(
    s: ModuleView,
    owner: AccountId,
    comment_id: CommentId,
    reaction_id: u64,
)
    requires
        s.valid(),
    ensures
        s.delete_comment_reaction(owner, comment_id, reaction_id).1.valid(),
{
    let (r, t) = s.delete_comment_reaction(owner, comment_id, reaction_id);
    if r matches Ok(Some(_)) {
        let rid = reaction_id;
        let c = comment_id - 1;
        let l = s.reaction_ids_by_comment[c];
        lemma_remove_unique(l, rid);
        let m = l.remove(l.index_of(rid));
        assert(t.reaction_ids_by_comment[c] == m);
        lemma_blog_slugs_frame(s, t);
        lemma_owner_lists_frame(s, t);
        lemma_post_slugs_frame(s, t);
        lemma_post_lists_frame(s, t);
        lemma_comment_lists_frame(s, t);
        lemma_counts_after_unlist(s, l, rid, ReactionKind::Upvote);
        lemma_counts_after_unlist(s, l, rid, ReactionKind::Downvote);
        assert forall|i: int| 0 <= i < t.posts.len() implies (#[trigger] t.posts[i]).comments_count
            == count(t.comments, on_post((i + 1) as u64)) by {
            assert(s.posts[i].id == i + 1);
            lemma_count_update(s.comments, c, t.comments[c], on_post((i + 1) as u64));
            assert(t.comments =~= s.comments.update(c, t.comments[c]));
        }
        assert forall|i: int| 0 <= i < t.posts.len() implies (#[trigger] t.posts[i]).upvotes_count
            == count(t.reaction_ids_by_post[i], live_of_kind(t.reactions, ReactionKind::Upvote))
            && t.posts[i].downvotes_count == count(
            t.reaction_ids_by_post[i],
            live_of_kind(t.reactions, ReactionKind::Downvote),
        ) by {
            assert(!s.reaction_ids_by_post[i].contains(rid));
            lemma_counts_after_delete(s, s.reaction_ids_by_post[i], rid, ReactionKind::Upvote);
            lemma_counts_after_delete(s, s.reaction_ids_by_post[i], rid, ReactionKind::Downvote);
        }
        assert forall|i: int| 0 <= i < t.comments.len() implies (#[trigger] t.comments[i]).upvotes_count
            == count(t.reaction_ids_by_comment[i], live_of_kind(t.reactions, ReactionKind::Upvote))
            && t.comments[i].downvotes_count == count(
            t.reaction_ids_by_comment[i],
            live_of_kind(t.reactions, ReactionKind::Downvote),
        ) by {
            if i != c {
                assert(t.comments[i] == s.comments[i]);
                assert(!s.reaction_ids_by_comment[i].contains(rid));
                lemma_counts_after_delete(s, s.reaction_ids_by_comment[i], rid, ReactionKind::Upvote);
                lemma_counts_after_delete(s, s.reaction_ids_by_comment[i], rid, ReactionKind::Downvote);
            }
        }
        assert(t.counters_agree());
        assert forall|d: int| 0 <= d < t.comments.len() implies (#[trigger] t.reaction_ids_by_comment[d]).no_duplicates() by {}
        assert forall|d: int, x: u64| 0 <= d < t.comments.len() && #[trigger] t.reaction_ids_by_comment[d].contains(x)
            implies t.has_reaction(x) by {
            if d != c {
                assert(s.reaction_ids_by_comment[d].contains(x));
                if x == rid {
                    assert(s.reaction_ids_by_comment[c].contains(x));
                }
            }
        }
        assert forall|q: int, x: u64| 0 <= q < t.posts.len() && #[trigger] t.reaction_ids_by_post[q].contains(x)
            implies t.has_reaction(x) by {
            if x == rid {
                assert(s.reaction_ids_by_comment[c].contains(x));
            }
        }
        assert forall|d1: int, d2: int, x: u64|
            0 <= d1 < t.comments.len() && 0 <= d2 < t.comments.len()
                && #[trigger] t.reaction_ids_by_comment[d1].contains(x)
                && #[trigger] t.reaction_ids_by_comment[d2].contains(x) implies d1 == d2 by {
            assert(s.reaction_ids_by_comment[d1].contains(x));
            assert(s.reaction_ids_by_comment[d2].contains(x));
        }
        assert forall|q: int, d: int, x: u64|
            0 <= q < t.posts.len() && 0 <= d < t.comments.len()
                && #[trigger] t.reaction_ids_by_post[q].contains(x)
                && #[trigger] t.reaction_ids_by_comment[d].contains(x) implies false by {
            assert(s.reaction_ids_by_comment[d].contains(x));
        }
        assert forall|x: u64| #[trigger] t.has_reaction(x) implies (exists|q: int|
            0 <= q < t.posts.len() && #[trigger] t.reaction_ids_by_post[q].contains(x)) || (exists|d: int|
            0 <= d < t.comments.len() && #[trigger] t.reaction_ids_by_comment[d].contains(x)) by {
            assert(x != rid);
            assert(s.has_reaction(x));
            if exists|q: int| 0 <= q < s.posts.len() && #[trigger] s.reaction_ids_by_post[q].contains(x) {
                let q = choose|q: int| 0 <= q < s.posts.len() && #[trigger] s.reaction_ids_by_post[q].contains(x);
                assert(t.reaction_ids_by_post[q].contains(x));
            } else {
                let d = choose|d: int| 0 <= d < s.comments.len() && #[trigger] s.reaction_ids_by_comment[d].contains(x);
                assert(t.reaction_ids_by_comment[d].contains(x));
            }
        }
        assert(t.reactions_bound());
        assert(t.references_exist());
    } else {
        lemma_reactions_bound_frame(s, t);
        lemma_owner_lists_frame(s, t);
    }
}

} // verus!
