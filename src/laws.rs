use vstd::prelude::*;
use crate::model::{BlogUpdateView, ModuleView, PostUpdateView};
use crate::types::{
    AccountId, BlogId, CommentId, Error, Event, PostId, ReactionId, ReactionKind,
};

verus! {

/// No two blogs share a slug, and no two posts share a slug, in any valid store; every
/// mutation keeps the store valid.
pub proof fn lemma_slugs_unique(s: ModuleView)
    requires
        s.valid(),
    ensures
        forall|i: int, j: int|
            0 <= i < s.blogs.len() && 0 <= j < s.blogs.len() && i != j ==> #[trigger] s.blogs[i].slug
                != #[trigger] s.blogs[j].slug,
        forall|i: int, j: int|
            0 <= i < s.posts.len() && 0 <= j < s.posts.len() && i != j ==> #[trigger] s.posts[i].slug
                != #[trigger] s.posts[j].slug,
{
    assert forall|i: int, j: int|
        0 <= i < s.blogs.len() && 0 <= j < s.blogs.len() && i != j implies #[trigger] s.blogs[i].slug
            != #[trigger] s.blogs[j].slug by {
        assert(s.blog_slugs[s.blogs[i].slug] == i + 1);
        assert(s.blog_slugs[s.blogs[j].slug] == j + 1);
    }
    assert forall|i: int, j: int|
        0 <= i < s.posts.len() && 0 <= j < s.posts.len() && i != j implies #[trigger] s.posts[i].slug
            != #[trigger] s.posts[j].slug by {
        assert(s.post_slugs[s.posts[i].slug] == i + 1);
        assert(s.post_slugs[s.posts[j].slug] == j + 1);
    }
}

/// An update of a blog by its owner in which every given field equals the current value
/// succeeds, publishes nothing and changes nothing.
pub proof fn lemma_update_blog_unchanged_is_noop(
    s: ModuleView,
    owner: AccountId,
    blog_id: BlogId,
    update: BlogUpdateView,
)
    requires
        s.has_blog(blog_id),
        owner == s.blog(blog_id).created.account,
        update.writers is Some || update.slug is Some || update.json is Some,
        update.writers is Some ==> update.writers->0 == s.blog(blog_id).writers,
        update.slug is Some ==> update.slug->0 == s.blog(blog_id).slug,
        update.json is Some ==> update.json->0 == s.blog(blog_id).json,
    ensures
        s.update_blog(owner, blog_id, update) == (Ok::<Option<Event>, Error>(None), s),
{
}

/// An update of a post by its owner in which every given field equals the current value
/// succeeds, publishes nothing and changes nothing.
pub proof fn lemma_update_post_unchanged_is_noop(
    s: ModuleView,
    owner: AccountId,
    post_id: PostId,
    update: PostUpdateView,
)
    requires
        s.has_post(post_id),
        owner == s.post(post_id).created.account,
        update.blog_id is Some || update.slug is Some || update.json is Some,
        update.blog_id is Some ==> update.blog_id->0 == s.post(post_id).blog_id,
        update.slug is Some ==> update.slug->0 == s.post(post_id).slug,
        update.json is Some ==> update.json->0 == s.post(post_id).json,
    ensures
        s.update_post(owner, post_id, update) == (Ok::<Option<Event>, Error>(None), s),
{
}

/// Only the creator of a blog may update it: anyone else is refused and nothing changes.
pub proof fn lemma_only_owner_updates_blog(
    s: ModuleView,
    caller: AccountId,
    blog_id: BlogId,
    update: BlogUpdateView,
)
    requires
        s.has_blog(blog_id),
        caller != s.blog(blog_id).created.account,
        update.writers is Some || update.slug is Some || update.json is Some,
    ensures
        s.update_blog(caller, blog_id, update) == (Err::<Option<Event>, Error>(Error::Unauthorized), s),
{
}

/// Only the creator of a post may update it: anyone else is refused and nothing changes.
pub proof fn lemma_only_owner_updates_post(
    s: ModuleView,
    caller: AccountId,
    post_id: PostId,
    update: PostUpdateView,
)
    requires
        s.has_post(post_id),
        caller != s.post(post_id).created.account,
        update.blog_id is Some || update.slug is Some || update.json is Some,
    ensures
        s.update_post(caller, post_id, update) == (Err::<Option<Event>, Error>(Error::Unauthorized), s),
{
}

/// Only the author of a comment may update it: anyone else is refused and nothing changes.
pub proof fn lemma_only_owner_updates_comment(
    s: ModuleView,
    caller: AccountId,
    comment_id: CommentId,
    json: Seq<u8>,
)
    requires
        s.has_comment(comment_id),
        caller != s.comment(comment_id).created.account,
    ensures
        s.update_comment(caller, comment_id, json) == (Err::<Event, Error>(Error::Unauthorized), s),
{
}

/// Only the account that reacted may take a reaction back from a post: anyone else is
/// refused and nothing changes.
pub proof fn lemma_only_reactor_deletes_post_reaction(
    s: ModuleView,
    caller: AccountId,
    post_id: PostId,
    reaction_id: ReactionId,
)
    requires
        s.has_reaction(reaction_id),
        s.has_post(post_id),
        caller != s.reaction(reaction_id).created.account,
    ensures
        s.delete_post_reaction(caller, post_id, reaction_id) == (Err::<Option<Event>, Error>(
            Error::Unauthorized,
        ), s),
{
}

/// Only the account that reacted may take a reaction back from a comment: anyone else is
/// refused and nothing changes.
pub proof fn lemma_only_reactor_deletes_comment_reaction(
    s: ModuleView,
    caller: AccountId,
    comment_id: CommentId,
    reaction_id: ReactionId,
)
    requires
        s.has_reaction(reaction_id),
        s.has_comment(comment_id),
        caller != s.reaction(reaction_id).created.account,
    ensures
        s.delete_comment_reaction(caller, comment_id, reaction_id) == (Err::<Option<Event>, Error>(
            Error::Unauthorized,
        ), s),
{
}

/// Two blogs created one after the other get consecutive ids, the first being the next
/// unused one.
pub proof fn lemma_blog_ids_consecutive(
    s: ModuleView,
    owner1: AccountId,
    slug1: Seq<u8>,
    json1: Seq<u8>,
    owner2: AccountId,
    slug2: Seq<u8>,
    json2: Seq<u8>,
)
    requires
        s.create_blog(owner1, slug1, json1).0 is Ok,
        s.create_blog(owner1, slug1, json1).1.create_blog(owner2, slug2, json2).0 is Ok,
    ensures
        ({
            let (r1, s1) = s.create_blog(owner1, slug1, json1);
            let r2 = s1.create_blog(owner2, slug2, json2).0;
            &&& r1 == Ok::<Event, Error>(Event::BlogCreated(owner1, s.next_blog_id() as u64))
            &&& r2 == Ok::<Event, Error>(Event::BlogCreated(owner2, (s.next_blog_id() + 1) as u64))
        }),
{
}

/// Two posts created one after the other get consecutive ids, the first being the next
/// unused one.
pub proof fn lemma_post_ids_consecutive(
    s: ModuleView,
    owner1: AccountId,
    blog1: BlogId,
    slug1: Seq<u8>,
    json1: Seq<u8>,
    owner2: AccountId,
    blog2: BlogId,
    slug2: Seq<u8>,
    json2: Seq<u8>,
)
    requires
        s.create_post(owner1, blog1, slug1, json1).0 is Ok,
        s.create_post(owner1, blog1, slug1, json1).1.create_post(owner2, blog2, slug2, json2).0 is Ok,
    ensures
        ({
            let (r1, s1) = s.create_post(owner1, blog1, slug1, json1);
            let r2 = s1.create_post(owner2, blog2, slug2, json2).0;
            &&& r1 == Ok::<Event, Error>(Event::PostCreated(owner1, s.next_post_id() as u64))
            &&& r2 == Ok::<Event, Error>(Event::PostCreated(owner2, (s.next_post_id() + 1) as u64))
        }),
{
}

/// Two comments created one after the other get consecutive ids, the first being the next
/// unused one.
pub proof fn lemma_comment_ids_consecutive(
    s: ModuleView,
    owner1: AccountId,
    post1: PostId,
    parent1: Option<CommentId>,
    json1: Seq<u8>,
    owner2: AccountId,
    post2: PostId,
    parent2: Option<CommentId>,
    json2: Seq<u8>,
)
    requires
        s.create_comment(owner1, post1, parent1, json1).0 is Ok,
        s.create_comment(owner1, post1, parent1, json1).1.create_comment(
            owner2,
            post2,
            parent2,
            json2,
        ).0 is Ok,
    ensures
        ({
            let (r1, s1) = s.create_comment(owner1, post1, parent1, json1);
            let r2 = s1.create_comment(owner2, post2, parent2, json2).0;
            &&& r1 == Ok::<Event, Error>(Event::CommentCreated(owner1, s.next_comment_id() as u64))
            &&& r2 == Ok::<Event, Error>(
                Event::CommentCreated(owner2, (s.next_comment_id() + 1) as u64),
            )
        }),
{
}

/// Reactions share one sequence of ids, whether they go to a post or to a comment: two made
/// one after the other get consecutive ids.
pub proof fn lemma_reaction_ids_consecutive(
    s: ModuleView,
    owner1: AccountId,
    post1: PostId,
    kind1: ReactionKind,
    owner2: AccountId,
    comment2: CommentId,
    kind2: ReactionKind,
)
    requires
        s.add_post_reaction(owner1, post1, kind1).0 is Ok,
        s.add_post_reaction(owner1, post1, kind1).1.add_comment_reaction(owner2, comment2, kind2).0 is Ok,
    ensures
        ({
            let (r1, s1) = s.add_post_reaction(owner1, post1, kind1);
            let r2 = s1.add_comment_reaction(owner2, comment2, kind2).0;
            &&& r1 == Ok::<Event, Error>(
                Event::PostReactionCreated(owner1, post1, s.next_reaction_id() as u64),
            )
            &&& r2 == Ok::<Event, Error>(
                Event::CommentReactionCreated(owner2, comment2, (s.next_reaction_id() + 1) as u64),
            )
        }),
{
}

} // verus!
