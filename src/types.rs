use vstd::prelude::*;

verus! {

pub type AccountId = u64;

pub type BlockNumber = u64;

pub type Moment = u64;

pub type BlogId = u64;

pub type PostId = u64;

pub type CommentId = u64;

pub type ReactionId = u64;

/// Provenance: who made a record or a change to it, in which block and at what time.
#[derive(Clone, Copy, Debug, PartialEq, Eq, Structural)]
pub struct Change {
    pub account: AccountId,
    pub block: BlockNumber,
    pub time: Moment,
}

#[derive(Clone, Debug)]
pub struct Blog {
    pub id: BlogId,
    pub created: Change,
    pub updated: Option<Change>,
    /// Can be updated by the owner.
    pub writers: Vec<AccountId>,
    pub slug: Vec<u8>,
    pub json: Vec<u8>,
    pub posts_count: u64,
}

/// What `update_blog` may replace; an absent field is left as it is.
#[derive(Clone, Debug)]
pub struct BlogUpdate {
    pub writers: Option<Vec<AccountId>>,
    pub slug: Option<Vec<u8>>,
    pub json: Option<Vec<u8>>,
}

#[derive(Clone, Debug)]
pub struct Post {
    pub id: PostId,
    pub blog_id: BlogId,
    pub created: Change,
    pub updated: Option<Change>,
    pub slug: Vec<u8>,
    pub json: Vec<u8>,
    pub comments_count: u64,
    pub upvotes_count: u64,
    pub downvotes_count: u64,
}

/// What `update_post` may replace; an absent field is left as it is.
#[derive(Clone, Debug)]
pub struct PostUpdate {
    pub blog_id: Option<BlogId>,
    pub slug: Option<Vec<u8>>,
    pub json: Option<Vec<u8>>,
}

#[derive(Clone, Debug)]
pub struct Comment {
    pub id: CommentId,
    pub parent_id: Option<CommentId>,
    pub post_id: PostId,
    pub created: Change,
    pub updated: Option<Change>,
    pub json: Vec<u8>,
    pub upvotes_count: u64,
    pub downvotes_count: u64,
}

#[derive(Clone, Debug)]
pub struct CommentUpdate {
    pub json: Vec<u8>,
}

#[derive(Clone, Copy, Debug, PartialEq, Eq, Structural)]
pub enum ReactionKind {
    Upvote,
    Downvote,
}

impl Default for ReactionKind {
    fn default() -> (r: Self)
        ensures
            r == ReactionKind::Upvote,
    {
        ReactionKind::Upvote
    }
}

#[derive(Clone, Copy, Debug, PartialEq, Eq, Structural)]
pub struct Reaction {
    pub id: ReactionId,
    pub created: Change,
    pub kind: ReactionKind,
}

/// What a successful mutation publishes.
#[derive(Clone, Copy, Debug, PartialEq, Eq, Structural)]
pub enum Event {
    BlogCreated(AccountId, BlogId),
    BlogUpdated(AccountId, BlogId),
    PostCreated(AccountId, PostId),
    PostUpdated(AccountId, PostId),
    CommentCreated(AccountId, CommentId),
    CommentUpdated(AccountId, CommentId),
    PostReactionCreated(AccountId, PostId, ReactionId),
    PostReactionDeleted(AccountId, PostId, ReactionId),
    CommentReactionCreated(AccountId, CommentId, ReactionId),
    CommentReactionDeleted(AccountId, CommentId, ReactionId),
}

#[derive(Clone, Copy, Debug, PartialEq, Eq, Structural)]
pub enum ValidationError {
    SlugTooShort,
    SlugTooLong,
    SlugNotUnique,
    JsonTooLong,
    NothingToUpdate,
    JsonUnchanged,
}

/// The kind of record that a call referred to and that does not exist.
#[derive(Clone, Copy, Debug, PartialEq, Eq, Structural)]
pub enum Missing {
    Blog,
    Post,
    Comment,
    ParentComment,
    Reaction,
}

#[derive(Clone, Copy, Debug, PartialEq, Eq, Structural)]
pub enum Error {
    Validation(ValidationError),
    NotFound(Missing),
    /// The caller did not create the record it tried to change.
    Unauthorized,
}

/// Length bounds, in bytes, fixed when the store is made.
#[derive(Clone, Copy, Debug, PartialEq, Eq, Structural)]
pub struct Config {
    pub slug_min_len: u32,
    pub slug_max_len: u32,
    pub blog_max_len: u32,
    pub post_max_len: u32,
    pub comment_max_len: u32,
}

pub const DEFAULT_SLUG_MIN_LEN: u32 = 5;

pub const DEFAULT_SLUG_MAX_LEN: u32 = 50;

pub const DEFAULT_BLOG_MAX_LEN: u32 = 1_000;

pub const DEFAULT_POST_MAX_LEN: u32 = 10_000;

pub const DEFAULT_COMMENT_MAX_LEN: u32 = 1_000;

impl Default for Config {
    fn default() -> (r: Self)
        ensures
            r == (Config {
                slug_min_len: 5,
                slug_max_len: 50,
                blog_max_len: 1000,
                post_max_len: 10000,
                comment_max_len: 1000,
            }),
    {
        Config {
            slug_min_len: DEFAULT_SLUG_MIN_LEN,
            slug_max_len: DEFAULT_SLUG_MAX_LEN,
            blog_max_len: DEFAULT_BLOG_MAX_LEN,
            post_max_len: DEFAULT_POST_MAX_LEN,
            comment_max_len: DEFAULT_COMMENT_MAX_LEN,
        }
    }
}

/// A blog as the contracts see it.
pub struct BlogView {
    pub id: BlogId,
    pub created: Change,
    pub updated: Option<Change>,
    pub writers: Seq<AccountId>,
    pub slug: Seq<u8>,
    pub json: Seq<u8>,
    pub posts_count: u64,
}

impl View for Blog {
    type V = BlogView;

    open spec fn view(&self) -> BlogView {
        BlogView {
            id: self.id,
            created: self.created,
            updated: self.updated,
            writers: self.writers@,
            slug: self.slug@,
            json: self.json@,
            posts_count: self.posts_count,
        }
    }
}

/// A post as the contracts see it.
pub struct PostView {
    pub id: PostId,
    pub blog_id: BlogId,
    pub created: Change,
    pub updated: Option<Change>,
    pub slug: Seq<u8>,
    pub json: Seq<u8>,
    pub comments_count: u64,
    pub upvotes_count: u64,
    pub downvotes_count: u64,
}

impl View for Post {
    type V = PostView;

    open spec fn view(&self) -> PostView {
        PostView {
            id: self.id,
            blog_id: self.blog_id,
            created: self.created,
            updated: self.updated,
            slug: self.slug@,
            json: self.json@,
            comments_count: self.comments_count,
            upvotes_count: self.upvotes_count,
            downvotes_count: self.downvotes_count,
        }
    }
}

/// A comment as the contracts see it.
pub struct CommentView {
    pub id: CommentId,
    pub parent_id: Option<CommentId>,
    pub post_id: PostId,
    pub created: Change,
    pub updated: Option<Change>,
    pub json: Seq<u8>,
    pub upvotes_count: u64,
    pub downvotes_count: u64,
}

impl View for Comment {
    type V = CommentView;

    open spec fn view(&self) -> CommentView {
        CommentView {
            id: self.id,
            parent_id: self.parent_id,
            post_id: self.post_id,
            created: self.created,
            updated: self.updated,
            json: self.json@,
            upvotes_count: self.upvotes_count,
            downvotes_count: self.downvotes_count,
        }
    }
}

/// Whether two byte strings hold the same bytes.
pub fn bytes_equal(a: &Vec<u8>, b: &Vec<u8>) -> (r: bool)
    ensures
        r == (a@ == b@),
{
    let r = a == b;
    proof {
        if r {
            assert(a@ =~= b@);
        }
    }
    r
}

/// Whether two account lists hold the same accounts in the same order.
pub fn accounts_equal(a: &Vec<AccountId>, b: &Vec<AccountId>) -> (r: bool)
    ensures
        r == (a@ == b@),
{
    let r = a == b;
    proof {
        if r {
            assert(a@ =~= b@);
        }
    }
    r
}

} // verus!
