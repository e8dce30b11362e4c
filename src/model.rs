use vstd::prelude::*;
use crate::count::count;
use crate::types::{
    AccountId, BlockNumber, BlogId, BlogUpdate, BlogView, Change, CommentId, CommentView, Config,
    Error, Event, Missing, Moment, PostId, PostUpdate, PostView, Reaction, ReactionId, ReactionKind,
    ValidationError,
};

verus! {

/// The whole store as the contracts see it. The record with id `n` of each kind sits at
/// position `n - 1` of its sequence; the per-record id lists sit at the same position as
/// the record they belong to. Blogs, posts and comments are never removed; a removed
/// reaction leaves `None` behind, so ids are never reused.
pub struct ModuleView {
    pub config: Config,
    pub block: BlockNumber,
    pub time: Moment,
    pub blogs: Seq<BlogView>,
    pub posts: Seq<PostView>,
    pub comments: Seq<CommentView>,
    pub reactions: Seq<Option<Reaction>>,
    pub blog_ids_by_owner: Map<AccountId, Seq<BlogId>>,
    pub post_ids_by_blog: Seq<Seq<PostId>>,
    pub comment_ids_by_post: Seq<Seq<CommentId>>,
    pub reaction_ids_by_post: Seq<Seq<ReactionId>>,
    pub reaction_ids_by_comment: Seq<Seq<ReactionId>>,
    pub blog_slugs: Map<Seq<u8>, BlogId>,
    pub post_slugs: Map<Seq<u8>, PostId>,
}

/// A blog update as the contracts see it.
pub struct BlogUpdateView {
    pub writers: Option<Seq<AccountId>>,
    pub slug: Option<Seq<u8>>,
    pub json: Option<Seq<u8>>,
}

impl View for BlogUpdate {
    type V = BlogUpdateView;

    open spec fn view(&self) -> BlogUpdateView {
        BlogUpdateView {
            writers: match self.writers {
                Some(w) => Some(w@),
                None => None,
            },
            slug: match self.slug {
                Some(s) => Some(s@),
                None => None,
            },
            json: match self.json {
                Some(j) => Some(j@),
                None => None,
            },
        }
    }
}

/// A post update as the contracts see it.
pub struct PostUpdateView {
    pub blog_id: Option<BlogId>,
    pub slug: Option<Seq<u8>>,
    pub json: Option<Seq<u8>>,
}

impl View for PostUpdate {
    type V = PostUpdateView;

    open spec fn view(&self) -> PostUpdateView {
        PostUpdateView {
            blog_id: self.blog_id,
            slug: match self.slug {
                Some(s) => Some(s@),
                None => None,
            },
            json: match self.json {
                Some(j) => Some(j@),
                None => None,
            },
        }
    }
}

pub open spec fn in_blog(blog_id: BlogId) -> spec_fn(PostView) -> bool {
    |p: PostView| p.blog_id == blog_id
}

pub open spec fn on_post(post_id: PostId) -> spec_fn(CommentView) -> bool {
    |c: CommentView| c.post_id == post_id
}

/// Whether `id` names a reaction that is still there and is of kind `kind`.
pub open spec fn live_of_kind(reactions: Seq<Option<Reaction>>, kind: ReactionKind) -> spec_fn(
    ReactionId,
) -> bool {
    |id: ReactionId|
        1 <= id <= reactions.len() && reactions[id - 1] is Some && reactions[id - 1]->0.kind
            == kind
}

pub open spec fn vote(counts: (u64, u64), kind: ReactionKind) -> (u64, u64) {
    match kind {
        ReactionKind::Upvote => ((counts.0 + 1) as u64, counts.1),
        ReactionKind::Downvote => (counts.0, (counts.1 + 1) as u64),
    }
}

pub open spec fn unvote(counts: (u64, u64), kind: ReactionKind) -> (u64, u64) {
    match kind {
        ReactionKind::Upvote => ((counts.0 - 1) as u64, counts.1),
        ReactionKind::Downvote => (counts.0, (counts.1 - 1) as u64),
    }
}

pub open spec fn or_keep<T>(new: Option<T>, current: T) -> T {
    match new {
        Some(v) => v,
        None => current,
    }
}

/// Whether an optional new value is present and differs from the current one.
pub open spec fn differs<T>(new: Option<T>, current: T) -> bool {
    new is Some && new->0 != current
}

impl ModuleView {
    /// A store with nothing in it, at block 0 and time 0.
    pub open spec fn empty(config: Config) -> ModuleView {
        ModuleView {
            config,
            block: 0,
            time: 0,
            blogs: Seq::empty(),
            posts: Seq::empty(),
            comments: Seq::empty(),
            reactions: Seq::empty(),
            blog_ids_by_owner: Map::empty(),
            post_ids_by_blog: Seq::empty(),
            comment_ids_by_post: Seq::empty(),
            reaction_ids_by_post: Seq::empty(),
            reaction_ids_by_comment: Seq::empty(),
            blog_slugs: Map::empty(),
            post_slugs: Map::empty(),
        }
    }

    pub open spec fn has_blog(self, id: BlogId) -> bool {
        1 <= id <= self.blogs.len()
    }

    pub open spec fn blog(self, id: BlogId) -> BlogView {
        self.blogs[id - 1]
    }

    pub open spec fn has_post(self, id: PostId) -> bool {
        1 <= id <= self.posts.len()
    }

    pub open spec fn post(self, id: PostId) -> PostView {
        self.posts[id - 1]
    }

    pub open spec fn has_comment(self, id: CommentId) -> bool {
        1 <= id <= self.comments.len()
    }

    pub open spec fn comment(self, id: CommentId) -> CommentView {
        self.comments[id - 1]
    }

    pub open spec fn has_reaction(self, id: ReactionId) -> bool {
        1 <= id <= self.reactions.len() && self.reactions[id - 1] is Some
    }

    pub open spec fn reaction(self, id: ReactionId) -> Reaction {
        self.reactions[id - 1]->0
    }

    pub open spec fn next_blog_id(self) -> int {
        self.blogs.len() + 1int
    }

    pub open spec fn next_post_id(self) -> int {
        self.posts.len() + 1int
    }

    pub open spec fn next_comment_id(self) -> int {
        self.comments.len() + 1int
    }

    pub open spec fn next_reaction_id(self) -> int {
        self.reactions.len() + 1int
    }

    /// Provenance stamped by `owner` at the current block and time.
    pub open spec fn change(self, owner: AccountId) -> Change {
        Change { account: owner, block: self.block, time: self.time }
    }

    pub open spec fn owner_blogs(self, owner: AccountId) -> Seq<BlogId> {
        if self.blog_ids_by_owner.contains_key(owner) {
            self.blog_ids_by_owner[owner]
        } else {
            Seq::empty()
        }
    }

    /// Each record carries the id of its position, and the id lists run beside their records.
    pub open spec fn ids_in_place(self) -> bool {
        &&& forall|i: int| 0 <= i < self.blogs.len() ==> #[trigger] self.blogs[i].id == i + 1
        &&& forall|i: int| 0 <= i < self.posts.len() ==> #[trigger] self.posts[i].id == i + 1
        &&& forall|i: int|
            0 <= i < self.comments.len() ==> #[trigger] self.comments[i].id == i + 1
        &&& forall|i: int|
            0 <= i < self.reactions.len() && #[trigger] self.reactions[i] is Some
                ==> self.reactions[i]->0.id == i + 1
        &&& self.post_ids_by_blog.len() == self.blogs.len()
        &&& self.comment_ids_by_post.len() == self.posts.len()
        &&& self.reaction_ids_by_post.len() == self.posts.len()
        &&& self.reaction_ids_by_comment.len() == self.comments.len()
    }

    /// The blog slug index binds exactly the slugs of the blogs, each to its blog.
    pub open spec fn blog_slugs_indexed(self) -> bool {
        &&& forall|i: int|
            0 <= i < self.blogs.len() ==> self.blog_slugs.contains_key(
                #[trigger] self.blogs[i].slug,
            ) && self.blog_slugs[self.blogs[i].slug] == i + 1
        &&& forall|s: Seq<u8>| #[trigger]
            self.blog_slugs.contains_key(s) ==> self.has_blog(self.blog_slugs[s]) && self.blog(
                self.blog_slugs[s],
            ).slug == s
    }

    /// The post slug index binds exactly the slugs of the posts, each to its post.
    pub open spec fn post_slugs_indexed(self) -> bool {
        &&& forall|i: int|
            0 <= i < self.posts.len() ==> self.post_slugs.contains_key(
                #[trigger] self.posts[i].slug,
            ) && self.post_slugs[self.posts[i].slug] == i + 1
        &&& forall|s: Seq<u8>| #[trigger]
            self.post_slugs.contains_key(s) ==> self.has_post(self.post_slugs[s]) && self.post(
                self.post_slugs[s],
            ).slug == s
    }

    /// Every reference from one record to another names a record that exists.
    pub open spec fn references_exist(self) -> bool {
        &&& forall|i: int|
            0 <= i < self.posts.len() ==> self.has_blog(#[trigger] self.posts[i].blog_id)
        &&& forall|i: int|
            0 <= i < self.comments.len() ==> self.has_post(#[trigger] self.comments[i].post_id)
        &&& forall|i: int|
            0 <= i < self.comments.len() && (#[trigger] self.comments[i]).parent_id is Some
                ==> self.has_comment(self.comments[i].parent_id->0)
    }

    /// The stored counters equal the number of records they count.
    pub open spec fn counters_agree(self) -> bool {
        &&& forall|i: int|
            0 <= i < self.blogs.len() ==> (#[trigger] self.blogs[i]).posts_count == count(
                self.posts,
                in_blog((i + 1) as u64),
            )
        &&& forall|i: int|
            0 <= i < self.posts.len() ==> (#[trigger] self.posts[i]).comments_count == count(
                self.comments,
                on_post((i + 1) as u64),
            )
        &&& forall|i: int|
            0 <= i < self.posts.len() ==> (#[trigger] self.posts[i]).upvotes_count == count(
                self.reaction_ids_by_post[i],
                live_of_kind(self.reactions, ReactionKind::Upvote),
            ) && self.posts[i].downvotes_count == count(
                self.reaction_ids_by_post[i],
                live_of_kind(self.reactions, ReactionKind::Downvote),
            )
        &&& forall|i: int|
            0 <= i < self.comments.len() ==> (#[trigger] self.comments[i]).upvotes_count == count(
                self.reaction_ids_by_comment[i],
                live_of_kind(self.reactions, ReactionKind::Upvote),
            ) && self.comments[i].downvotes_count == count(
                self.reaction_ids_by_comment[i],
                live_of_kind(self.reactions, ReactionKind::Downvote),
            )
    }

    /// Each blog's post list holds, once each, exactly the posts of that blog.
    pub open spec fn post_lists_agree(self) -> bool {
        &&& forall|b: int|
            0 <= b < self.blogs.len() ==> (#[trigger] self.post_ids_by_blog[b]).no_duplicates()
        &&& forall|b: int, id: PostId|
            0 <= b < self.blogs.len() ==> (#[trigger] self.post_ids_by_blog[b].contains(id) <==> (
            self.has_post(id) && self.post(id).blog_id == b + 1))
    }

    /// Each post's comment list holds, once each, exactly the comments on that post.
    pub open spec fn comment_lists_agree(self) -> bool {
        &&& forall|p: int|
            0 <= p < self.posts.len() ==> (#[trigger] self.comment_ids_by_post[p]).no_duplicates()
        &&& forall|p: int, id: CommentId|
            0 <= p < self.posts.len() ==> (#[trigger] self.comment_ids_by_post[p].contains(id)
                <==> (self.has_comment(id) && self.comment(id).post_id == p + 1))
    }

    /// Each account's blog list holds, once each, exactly the blogs it created.
    pub open spec fn owner_lists_agree(self) -> bool {
        &&& forall|a: AccountId| #[trigger] self.owner_blogs(a).no_duplicates()
        &&& forall|a: AccountId, id: BlogId| #[trigger]
            self.owner_blogs(a).contains(id) <==> (self.has_blog(id) && self.blog(
                id,
            ).created.account == a)
    }

    /// Each live reaction is bound to one post or one comment, once, and the reaction
    /// lists name live reactions only.
    pub open spec fn reactions_bound(self) -> bool {
        &&& forall|p: int|
            0 <= p < self.posts.len() ==> (#[trigger] self.reaction_ids_by_post[p]).no_duplicates()
        &&& forall|c: int|
            0 <= c < self.comments.len() ==> (
            #[trigger] self.reaction_ids_by_comment[c]).no_duplicates()
        &&& forall|p: int, id: ReactionId|
            0 <= p < self.posts.len() && #[trigger] self.reaction_ids_by_post[p].contains(id)
                ==> self.has_reaction(id)
        &&& forall|c: int, id: ReactionId|
            0 <= c < self.comments.len() && #[trigger] self.reaction_ids_by_comment[c].contains(
                id,
            ) ==> self.has_reaction(id)
        &&& forall|p: int, q: int, id: ReactionId|
            0 <= p < self.posts.len() && 0 <= q < self.posts.len()
                && #[trigger] self.reaction_ids_by_post[p].contains(id)
                && #[trigger] self.reaction_ids_by_post[q].contains(id) ==> p == q
        &&& forall|c: int, d: int, id: ReactionId|
            0 <= c < self.comments.len() && 0 <= d < self.comments.len()
                && #[trigger] self.reaction_ids_by_comment[c].contains(id)
                && #[trigger] self.reaction_ids_by_comment[d].contains(id) ==> c == d
        &&& forall|p: int, c: int, id: ReactionId|
            0 <= p < self.posts.len() && 0 <= c < self.comments.len()
                && #[trigger] self.reaction_ids_by_post[p].contains(id)
                && #[trigger] self.reaction_ids_by_comment[c].contains(id) ==> false
        &&& forall|id: ReactionId| #[trigger]
            self.has_reaction(id) ==> (exists|p: int|
                0 <= p < self.posts.len() && #[trigger] self.reaction_ids_by_post[p].contains(id))
                || (exists|c: int|
                0 <= c < self.comments.len() && #[trigger] self.reaction_ids_by_comment[c].contains(
                    id,
                ))
    }

    pub open spec fn valid(self) -> bool {
        &&& self.ids_in_place()
        &&& self.blog_slugs_indexed()
        &&& self.post_slugs_indexed()
        &&& self.references_exist()
        &&& self.counters_agree()
        &&& self.post_lists_agree()
        &&& self.comment_lists_agree()
        &&& self.owner_lists_agree()
        &&& self.reactions_bound()
    }

    pub open spec fn slug_error(self, slug: Seq<u8>) -> Option<ValidationError> {
        if slug.len() < self.config.slug_min_len {
            Some(ValidationError::SlugTooShort)
        } else if slug.len() > self.config.slug_max_len {
            Some(ValidationError::SlugTooLong)
        } else {
            None
        }
    }

    /// `create_blog`: the slug's length, then that the slug is free, then the text's length
    /// are checked; on success the blog gets the next id, no writers and no posts.
    pub open spec fn create_blog(self, owner: AccountId, slug: Seq<u8>, json: Seq<u8>) -> (
        Result<Event, Error>,
        ModuleView,
    ) {
        if self.slug_error(slug) is Some {
            (Err(Error::Validation(self.slug_error(slug)->0)), self)
        } else if self.blog_slugs.contains_key(slug) {
            (Err(Error::Validation(ValidationError::SlugNotUnique)), self)
        } else if json.len() > self.config.blog_max_len {
            (Err(Error::Validation(ValidationError::JsonTooLong)), self)
        } else {
            let id = self.next_blog_id() as u64;
            let blog = BlogView {
                id,
                created: self.change(owner),
                updated: None,
                writers: Seq::empty(),
                slug,
                json,
                posts_count: 0,
            };
            (
                Ok(Event::BlogCreated(owner, id)),
                ModuleView {
                    blogs: self.blogs.push(blog),
                    post_ids_by_blog: self.post_ids_by_blog.push(Seq::empty()),
                    blog_slugs: self.blog_slugs.insert(slug, id),
                    blog_ids_by_owner: self.blog_ids_by_owner.insert(
                        owner,
                        self.owner_blogs(owner).push(id),
                    ),
                    ..self
                },
            )
        }
    }

    /// `create_post`: the blog must exist, then the slug and text are checked as for a blog;
    /// on success the post gets the next id and its blog counts and lists it.
    pub open spec fn create_post(
        self,
        owner: AccountId,
        blog_id: BlogId,
        slug: Seq<u8>,
        json: Seq<u8>,
    ) -> (Result<Event, Error>, ModuleView) {
        if !self.has_blog(blog_id) {
            (Err(Error::NotFound(Missing::Blog)), self)
        } else if self.slug_error(slug) is Some {
            (Err(Error::Validation(self.slug_error(slug)->0)), self)
        } else if self.post_slugs.contains_key(slug) {
            (Err(Error::Validation(ValidationError::SlugNotUnique)), self)
        } else if json.len() > self.config.post_max_len {
            (Err(Error::Validation(ValidationError::JsonTooLong)), self)
        } else {
            let id = self.next_post_id() as u64;
            let post = PostView {
                id,
                blog_id,
                created: self.change(owner),
                updated: None,
                slug,
                json,
                comments_count: 0,
                upvotes_count: 0,
                downvotes_count: 0,
            };
            let b = blog_id - 1;
            let blog = self.blogs[b];
            (
                Ok(Event::PostCreated(owner, id)),
                ModuleView {
                    blogs: self.blogs.update(
                        b,
                        BlogView { posts_count: (blog.posts_count + 1) as u64, ..blog },
                    ),
                    posts: self.posts.push(post),
                    post_ids_by_blog: self.post_ids_by_blog.update(
                        b,
                        self.post_ids_by_blog[b].push(id),
                    ),
                    comment_ids_by_post: self.comment_ids_by_post.push(Seq::empty()),
                    reaction_ids_by_post: self.reaction_ids_by_post.push(Seq::empty()),
                    post_slugs: self.post_slugs.insert(slug, id),
                    ..self
                },
            )
        }
    }

    /// `create_comment`: the post must exist, then the parent comment if one is named, then
    /// the text's length; on success the post counts and lists the new comment.
    pub open spec fn create_comment(
        self,
        owner: AccountId,
        post_id: PostId,
        parent_id: Option<CommentId>,
        json: Seq<u8>,
    ) -> (Result<Event, Error>, ModuleView) {
        if !self.has_post(post_id) {
            (Err(Error::NotFound(Missing::Post)), self)
        } else if parent_id is Some && !self.has_comment(parent_id->0) {
            (Err(Error::NotFound(Missing::ParentComment)), self)
        } else if json.len() > self.config.comment_max_len {
            (Err(Error::Validation(ValidationError::JsonTooLong)), self)
        } else {
            let id = self.next_comment_id() as u64;
            let comment = CommentView {
                id,
                parent_id,
                post_id,
                created: self.change(owner),
                updated: None,
                json,
                upvotes_count: 0,
                downvotes_count: 0,
            };
            let p = post_id - 1;
            let post = self.posts[p];
            (
                Ok(Event::CommentCreated(owner, id)),
                ModuleView {
                    posts: self.posts.update(
                        p,
                        PostView { comments_count: (post.comments_count + 1) as u64, ..post },
                    ),
                    comments: self.comments.push(comment),
                    comment_ids_by_post: self.comment_ids_by_post.update(
                        p,
                        self.comment_ids_by_post[p].push(id),
                    ),
                    reaction_ids_by_comment: self.reaction_ids_by_comment.push(Seq::empty()),
                    ..self
                },
            )
        }
    }

    /// `add_post_reaction`: the post must exist; the reaction gets the next reaction id and is
    /// listed under the post and counted by kind.
    pub open spec fn add_post_reaction(self, owner: AccountId, post_id: PostId, kind: ReactionKind) -> (
        Result<Event, Error>,
        ModuleView,
    ) {
        if !self.has_post(post_id) {
            (Err(Error::NotFound(Missing::Post)), self)
        } else {
            let id = self.next_reaction_id() as u64;
            let p = post_id - 1;
            let post = self.posts[p];
            let counts = vote((post.upvotes_count, post.downvotes_count), kind);
            (
                Ok(Event::PostReactionCreated(owner, post_id, id)),
                ModuleView {
                    posts: self.posts.update(
                        p,
                        PostView { upvotes_count: counts.0, downvotes_count: counts.1, ..post },
                    ),
                    reactions: self.reactions.push(
                        Some(Reaction { id, created: self.change(owner), kind }),
                    ),
                    reaction_ids_by_post: self.reaction_ids_by_post.update(
                        p,
                        self.reaction_ids_by_post[p].push(id),
                    ),
                    ..self
                },
            )
        }
    }

    /// `add_comment_reaction`: the comment must exist; the reaction gets the next reaction id
    /// and is listed under the comment and counted by kind.
    pub open spec fn add_comment_reaction(
        self,
        owner: AccountId,
        comment_id: CommentId,
        kind: ReactionKind,
    ) -> (Result<Event, Error>, ModuleView) {
        if !self.has_comment(comment_id) {
            (Err(Error::NotFound(Missing::Comment)), self)
        } else {
            let id = self.next_reaction_id() as u64;
            let c = comment_id - 1;
            let comment = self.comments[c];
            let counts = vote((comment.upvotes_count, comment.downvotes_count), kind);
            (
                Ok(Event::CommentReactionCreated(owner, comment_id, id)),
                ModuleView {
                    comments: self.comments.update(
                        c,
                        CommentView {
                            upvotes_count: counts.0,
                            downvotes_count: counts.1,
                            ..comment
                        },
                    ),
                    reactions: self.reactions.push(
                        Some(Reaction { id, created: self.change(owner), kind }),
                    ),
                    reaction_ids_by_comment: self.reaction_ids_by_comment.update(
                        c,
                        self.reaction_ids_by_comment[c].push(id),
                    ),
                    ..self
                },
            )
        }
    }

    /// `update_blog`: some field must be given, the blog must exist and the caller must have
    /// created it, and a changed slug must be free. Only when a field differs from its current
    /// value is anything written, the change stamped and an event published.
    pub open spec fn update_blog(
        self,
        owner: AccountId,
        blog_id: BlogId,
        update: BlogUpdateView,
    ) -> (Result<Option<Event>, Error>, ModuleView) {
        if update.writers is None && update.slug is None && update.json is None {
            (Err(Error::Validation(ValidationError::NothingToUpdate)), self)
        } else if !self.has_blog(blog_id) {
            (Err(Error::NotFound(Missing::Blog)), self)
        } else if owner != self.blog(blog_id).created.account {
            (Err(Error::Unauthorized), self)
        } else {
            let blog = self.blog(blog_id);
            let slug_changed = differs(update.slug, blog.slug);
            if slug_changed && self.blog_slugs.contains_key(update.slug->0) {
                (Err(Error::Validation(ValidationError::SlugNotUnique)), self)
            } else if !differs(update.writers, blog.writers) && !slug_changed && !differs(
                update.json,
                blog.json,
            ) {
                (Ok(None), self)
            } else {
                let new_blog = BlogView {
                    updated: Some(self.change(owner)),
                    writers: or_keep(update.writers, blog.writers),
                    slug: or_keep(update.slug, blog.slug),
                    json: or_keep(update.json, blog.json),
                    ..blog
                };
                (
                    Ok(Some(Event::BlogUpdated(owner, blog_id))),
                    ModuleView {
                        blogs: self.blogs.update(blog_id - 1, new_blog),
                        blog_slugs: if slug_changed {
                            self.blog_slugs.remove(blog.slug).insert(update.slug->0, blog_id)
                        } else {
                            self.blog_slugs
                        },
                        ..self
                    },
                )
            }
        }
    }

    /// `update_post`: as `update_blog`; a changed blog must exist, and moving the post takes it
    /// out of its old blog's list and count and into the new one's.
    pub open spec fn update_post(
        self,
        owner: AccountId,
        post_id: PostId,
        update: PostUpdateView,
    ) -> (Result<Option<Event>, Error>, ModuleView) {
        if update.blog_id is None && update.slug is None && update.json is None {
            (Err(Error::Validation(ValidationError::NothingToUpdate)), self)
        } else if !self.has_post(post_id) {
            (Err(Error::NotFound(Missing::Post)), self)
        } else if owner != self.post(post_id).created.account {
            (Err(Error::Unauthorized), self)
        } else {
            let post = self.post(post_id);
            let slug_changed = differs(update.slug, post.slug);
            let moved = differs(update.blog_id, post.blog_id);
            if slug_changed && self.post_slugs.contains_key(update.slug->0) {
                (Err(Error::Validation(ValidationError::SlugNotUnique)), self)
            } else if moved && !self.has_blog(update.blog_id->0) {
                (Err(Error::NotFound(Missing::Blog)), self)
            } else if !slug_changed && !differs(update.json, post.json) && !moved {
                (Ok(None), self)
            } else {
                let new_post = PostView {
                    updated: Some(self.change(owner)),
                    blog_id: or_keep(update.blog_id, post.blog_id),
                    slug: or_keep(update.slug, post.slug),
                    json: or_keep(update.json, post.json),
                    ..post
                };
                let from = post.blog_id - 1;
                let to = update.blog_id->0 - 1;
                let from_blog = self.blogs[from];
                let left = self.blogs.update(
                    from,
                    BlogView { posts_count: (from_blog.posts_count - 1) as u64, ..from_blog },
                );
                let to_blog = left[to];
                let from_ids = self.post_ids_by_blog[from];
                let removed = self.post_ids_by_blog.update(
                    from,
                    from_ids.remove(from_ids.index_of(post_id)),
                );
                (
                    Ok(Some(Event::PostUpdated(owner, post_id))),
                    ModuleView {
                        posts: self.posts.update(post_id - 1, new_post),
                        post_slugs: if slug_changed {
                            self.post_slugs.remove(post.slug).insert(update.slug->0, post_id)
                        } else {
                            self.post_slugs
                        },
                        blogs: if moved {
                            left.update(
                                to,
                                BlogView { posts_count: (to_blog.posts_count + 1) as u64, ..to_blog },
                            )
                        } else {
                            self.blogs
                        },
                        post_ids_by_blog: if moved {
                            removed.update(to, removed[to].push(post_id))
                        } else {
                            self.post_ids_by_blog
                        },
                        ..self
                    },
                )
            }
        }
    }

    /// `update_comment`: the comment must exist, the caller must have written it, and the new
    /// text must be within bounds and differ from the current one.
    pub open spec fn update_comment(self, owner: AccountId, comment_id: CommentId, json: Seq<u8>) -> (
        Result<Event, Error>,
        ModuleView,
    ) {
        if !self.has_comment(comment_id) {
            (Err(Error::NotFound(Missing::Comment)), self)
        } else if owner != self.comment(comment_id).created.account {
            (Err(Error::Unauthorized), self)
        } else if json.len() > self.config.comment_max_len {
            (Err(Error::Validation(ValidationError::JsonTooLong)), self)
        } else if json == self.comment(comment_id).json {
            (Err(Error::Validation(ValidationError::JsonUnchanged)), self)
        } else {
            let comment = self.comment(comment_id);
            (
                Ok(Event::CommentUpdated(owner, comment_id)),
                ModuleView {
                    comments: self.comments.update(
                        comment_id - 1,
                        CommentView { json, updated: Some(self.change(owner)), ..comment },
                    ),
                    ..self
                },
            )
        }
    }

    /// `delete_post_reaction`: the reaction and the post must exist and the caller must have
    /// made the reaction. If the post does not list it, nothing happens and no event is
    /// published; otherwise it is unlisted, uncounted and removed.
    pub open spec fn delete_post_reaction(
        self,
        owner: AccountId,
        post_id: PostId,
        reaction_id: ReactionId,
    ) -> (Result<Option<Event>, Error>, ModuleView) {
        if !self.has_reaction(reaction_id) {
            (Err(Error::NotFound(Missing::Reaction)), self)
        } else if !self.has_post(post_id) {
            (Err(Error::NotFound(Missing::Post)), self)
        } else if owner != self.reaction(reaction_id).created.account {
            (Err(Error::Unauthorized), self)
        } else if !self.reaction_ids_by_post[post_id - 1].contains(reaction_id) {
            (Ok(None), self)
        } else {
            let p = post_id - 1;
            let post = self.posts[p];
            let ids = self.reaction_ids_by_post[p];
            let counts = unvote(
                (post.upvotes_count, post.downvotes_count),
                self.reaction(reaction_id).kind,
            );
            (
                Ok(Some(Event::PostReactionDeleted(owner, post_id, reaction_id))),
                ModuleView {
                    posts: self.posts.update(
                        p,
                        PostView { upvotes_count: counts.0, downvotes_count: counts.1, ..post },
                    ),
                    reactions: self.reactions.update(reaction_id - 1, None),
                    reaction_ids_by_post: self.reaction_ids_by_post.update(
                        p,
                        ids.remove(ids.index_of(reaction_id)),
                    ),
                    ..self
                },
            )
        }
    }

    /// `delete_comment_reaction`: as `delete_post_reaction`, for a comment.
    pub open spec fn delete_comment_reaction(
        self,
        owner: AccountId,
        comment_id: CommentId,
        reaction_id: ReactionId,
    ) -> (Result<Option<Event>, Error>, ModuleView) {
        if !self.has_reaction(reaction_id) {
            (Err(Error::NotFound(Missing::Reaction)), self)
        } else if !self.has_comment(comment_id) {
            (Err(Error::NotFound(Missing::Comment)), self)
        } else if owner != self.reaction(reaction_id).created.account {
            (Err(Error::Unauthorized), self)
        } else if !self.reaction_ids_by_comment[comment_id - 1].contains(reaction_id) {
            (Ok(None), self)
        } else {
            let c = comment_id - 1;
            let comment = self.comments[c];
            let ids = self.reaction_ids_by_comment[c];
            let counts = unvote(
                (comment.upvotes_count, comment.downvotes_count),
                self.reaction(reaction_id).kind,
            );
            (
                Ok(Some(Event::CommentReactionDeleted(owner, comment_id, reaction_id))),
                ModuleView {
                    comments: self.comments.update(
                        c,
                        CommentView {
                            upvotes_count: counts.0,
                            downvotes_count: counts.1,
                            ..comment
                        },
                    ),
                    reactions: self.reactions.update(reaction_id - 1, None),
                    reaction_ids_by_comment: self.reaction_ids_by_comment.update(
                        c,
                        ids.remove(ids.index_of(reaction_id)),
                    ),
                    ..self
                },
            )
        }
    }
}

} // verus!
