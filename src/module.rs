use vstd::prelude::*;
use std::collections::HashMap;
use crate::count::lemma_count_le_len;
use crate::invariants::{
    lemma_add_comment_reaction_keeps_valid, lemma_add_post_reaction_keeps_valid,
    lemma_comment_votes_bounded, lemma_counts_after_unlist, lemma_create_blog_keeps_valid,
    lemma_create_comment_keeps_valid, lemma_create_post_keeps_valid,
    lemma_delete_comment_reaction_keeps_valid, lemma_delete_post_reaction_keeps_valid,
    lemma_move_bounds, lemma_post_votes_bounded, lemma_remove_unique, lemma_set_clock_keeps_valid,
    lemma_update_blog_keeps_valid, lemma_update_comment_keeps_valid, lemma_update_post_keeps_valid,
};
use crate::model::{in_blog, on_post, ModuleView};
use crate::slug_index::SlugIndex;
use crate::types::{
    accounts_equal, bytes_equal, AccountId, Blog, BlogId, BlogUpdate, BlockNumber, Change, Comment,
    CommentId, CommentUpdate, Config, Error, Event, Missing, Moment, Post, PostId, PostUpdate,
    Reaction, ReactionId, ReactionKind, ValidationError,
};

verus! {

broadcast use vstd::std_specs::hash::group_hash_axioms;

/// The store of blogs, posts, comments and reactions, with the indices kept beside them.
/// Every mutation either commits all of its writes and returns its event, or returns an
/// error and leaves the store as it was.
pub struct Module {
    config: Config,
    block: BlockNumber,
    time: Moment,
    blogs: Vec<Blog>,
    posts: Vec<Post>,
    comments: Vec<Comment>,
    reactions: Vec<Option<Reaction>>,
    blog_ids_by_owner: HashMap<AccountId, Vec<BlogId>>,
    post_ids_by_blog: Vec<Vec<PostId>>,
    comment_ids_by_post: Vec<Vec<CommentId>>,
    reaction_ids_by_post: Vec<Vec<ReactionId>>,
    reaction_ids_by_comment: Vec<Vec<ReactionId>>,
    blog_slugs: SlugIndex,
    post_slugs: SlugIndex,
}

impl View for Module {
    type V = ModuleView;

    closed spec fn view(&self) -> ModuleView {
        ModuleView {
            config: self.config,
            block: self.block,
            time: self.time,
            blogs: self.blogs@.map_values(|b: Blog| b@),
            posts: self.posts@.map_values(|p: Post| p@),
            comments: self.comments@.map_values(|c: Comment| c@),
            reactions: self.reactions@,
            blog_ids_by_owner: self.blog_ids_by_owner@.map_values(|v: Vec<BlogId>| v@),
            post_ids_by_blog: self.post_ids_by_blog@.map_values(|v: Vec<PostId>| v@),
            comment_ids_by_post: self.comment_ids_by_post@.map_values(|v: Vec<CommentId>| v@),
            reaction_ids_by_post: self.reaction_ids_by_post@.map_values(|v: Vec<ReactionId>| v@),
            reaction_ids_by_comment: self.reaction_ids_by_comment@.map_values(
                |v: Vec<ReactionId>| v@,
            ),
            blog_slugs: self.blog_slugs@,
            post_slugs: self.post_slugs@,
        }
    }
}

impl Module {
    pub closed spec fn indices_wf(&self) -> bool {
        self.blog_slugs.wf() && self.post_slugs.wf()
    }

    /// The store is well formed: its parts are, and its view satisfies the invariant.
    pub open spec fn wf(&self) -> bool {
        self.indices_wf() && self@.valid()
    }

    /// An empty store with the given length bounds, at block 0 and time 0.
    pub fn new(config: Config) -> (r: Module)
        ensures
            r.wf(),
            r@ == ModuleView::empty(config),
    {
        let r = Module {
            config,
            block: 0,
            time: 0,
            blogs: Vec::new(),
            posts: Vec::new(),
            comments: Vec::new(),
            reactions: Vec::new(),
            blog_ids_by_owner: HashMap::new(),
            post_ids_by_blog: Vec::new(),
            comment_ids_by_post: Vec::new(),
            reaction_ids_by_post: Vec::new(),
            reaction_ids_by_comment: Vec::new(),
            blog_slugs: SlugIndex::new(),
            post_slugs: SlugIndex::new(),
        };
        proof {
            assert(r@.blogs =~= Seq::empty());
            assert(r@.posts =~= Seq::empty());
            assert(r@.comments =~= Seq::empty());
            assert(r@.post_ids_by_blog =~= Seq::empty());
            assert(r@.comment_ids_by_post =~= Seq::empty());
            assert(r@.reaction_ids_by_post =~= Seq::empty());
            assert(r@.reaction_ids_by_comment =~= Seq::empty());
            assert(r@.blog_ids_by_owner =~= Map::empty());
            assert(r@ == ModuleView::empty(config));
        }
        r
    }

    /// Moves the clock that stamps provenance to the host's current block and time.
    pub fn set_clock(&mut self, block: BlockNumber, time: Moment)
        requires
            old(self).wf(),
        ensures
            final(self).wf(),
            final(self)@ == (ModuleView { block, time, ..old(self)@ }),
    {
        proof {
            lemma_set_clock_keeps_valid(self@, block, time);
        }
        self.block = block;
        self.time = time;
    }

    /// Provenance of a change made now by `account`.
    pub fn new_change(&self, account: AccountId) -> (r: Change)
        ensures
            r == self@.change(account),
    {
        Change { account, block: self.block, time: self.time }
    }

    /// Creates a blog owned by `owner` under a new slug; see `ModuleView::create_blog`.
    /// The next blog id must still fit in a `u64`.
    pub fn create_blog(&mut self, owner: AccountId, slug: Vec<u8>, json: Vec<u8>) -> (r: Result<
        Event,
        Error,
    >)
        requires
            old(self).wf(),
            old(self)@.blogs.len() < u64::MAX,
        ensures
            final(self).wf(),
            (r, final(self)@) == old(self)@.create_blog(owner, slug@, json@),
    {
        if slug.len() < self.config.slug_min_len as usize {
            return Err(Error::Validation(ValidationError::SlugTooShort));
        }
        if slug.len() > self.config.slug_max_len as usize {
            return Err(Error::Validation(ValidationError::SlugTooLong));
        }
        if self.blog_slugs.contains(&slug) {
            return Err(Error::Validation(ValidationError::SlugNotUnique));
        }
        if json.len() > self.config.blog_max_len as usize {
            return Err(Error::Validation(ValidationError::JsonTooLong));
        }
        let ghost s = self@;
        proof {
            lemma_create_blog_keeps_valid(s, owner, slug@, json@);
        }
        let id = self.blogs.len() as u64 + 1;
        let created = self.new_change(owner);
        let blog = Blog {
            id,
            created,
            updated: None,
            writers: Vec::new(),
            slug: slug.clone(),
            json,
            posts_count: 0,
        };
        self.blogs.push(blog);
        self.post_ids_by_blog.push(Vec::new());
        self.blog_slugs.bind(slug, id);
        let mut ids = match self.blog_ids_by_owner.remove(&owner) {
            Some(v) => v,
            None => Vec::new(),
        };
        ids.push(id);
        self.blog_ids_by_owner.insert(owner, ids);
        proof {
            let t = s.create_blog(owner, slug@, json@).1;
            assert(self@.blogs =~= t.blogs);
            assert(self@.post_ids_by_blog =~= t.post_ids_by_blog);
            assert(self@.blog_ids_by_owner =~= t.blog_ids_by_owner);
        }
        Ok(Event::BlogCreated(owner, id))
    }

    /// Creates a post in an existing blog under a new slug, and counts it in that blog.
    /// The next post id must still fit in a `u64`.
    pub fn create_post(&mut self, owner: AccountId, blog_id: BlogId, slug: Vec<u8>, json: Vec<u8>) -> (r:
        Result<Event, Error>)
        requires
            old(self).wf(),
            old(self)@.posts.len() < u64::MAX,
        ensures
            final(self).wf(),
            (r, final(self)@) == old(self)@.create_post(owner, blog_id, slug@, json@),
    {
        if blog_id < 1 || blog_id > self.blogs.len() as u64 {
            return Err(Error::NotFound(Missing::Blog));
        }
        if slug.len() < self.config.slug_min_len as usize {
            return Err(Error::Validation(ValidationError::SlugTooShort));
        }
        if slug.len() > self.config.slug_max_len as usize {
            return Err(Error::Validation(ValidationError::SlugTooLong));
        }
        if self.post_slugs.contains(&slug) {
            return Err(Error::Validation(ValidationError::SlugNotUnique));
        }
        if json.len() > self.config.post_max_len as usize {
            return Err(Error::Validation(ValidationError::JsonTooLong));
        }
        let ghost s = self@;
        proof {
            lemma_create_post_keeps_valid(s, owner, blog_id, slug@, json@);
            lemma_count_le_len(s.posts, in_blog(blog_id));
        }
        let id = self.posts.len() as u64 + 1;
        let b = (blog_id - 1) as usize;
        let created = self.new_change(owner);
        let post = Post {
            id,
            blog_id,
            created,
            updated: None,
            slug: slug.clone(),
            json,
            comments_count: 0,
            upvotes_count: 0,
            downvotes_count: 0,
        };
        self.posts.push(post);
        self.blogs[b].posts_count = self.blogs[b].posts_count + 1;
        self.post_ids_by_blog[b].push(id);
        self.comment_ids_by_post.push(Vec::new());
        self.reaction_ids_by_post.push(Vec::new());
        self.post_slugs.bind(slug, id);
        proof {
            let t = s.create_post(owner, blog_id, slug@, json@).1;
            assert(self@.blogs =~= t.blogs);
            assert(self@.posts =~= t.posts);
            assert(self@.post_ids_by_blog =~= t.post_ids_by_blog);
            assert(self@.comment_ids_by_post =~= t.comment_ids_by_post);
            assert(self@.reaction_ids_by_post =~= t.reaction_ids_by_post);
        }
        Ok(Event::PostCreated(owner, id))
    }

    /// Creates a comment on an existing post, optionally replying to an existing comment
    /// (on any post), and counts it on the post. The next comment id must still fit in a `u64`.
    pub fn create_comment(
        &mut self,
        owner: AccountId,
        post_id: PostId,
        parent_id: Option<CommentId>,
        json: Vec<u8>,
    ) -> (r: Result<Event, Error>)
        requires
            old(self).wf(),
            old(self)@.comments.len() < u64::MAX,
        ensures
            final(self).wf(),
            (r, final(self)@) == old(self)@.create_comment(owner, post_id, parent_id, json@),
    {
        if post_id < 1 || post_id > self.posts.len() as u64 {
            return Err(Error::NotFound(Missing::Post));
        }
        if let Some(parent) = parent_id {
            if parent < 1 || parent > self.comments.len() as u64 {
                return Err(Error::NotFound(Missing::ParentComment));
            }
        }
        if json.len() > self.config.comment_max_len as usize {
            return Err(Error::Validation(ValidationError::JsonTooLong));
        }
        let ghost s = self@;
        proof {
            lemma_create_comment_keeps_valid(s, owner, post_id, parent_id, json@);
            lemma_count_le_len(s.comments, on_post(post_id));
        }
        let id = self.comments.len() as u64 + 1;
        let p = (post_id - 1) as usize;
        let created = self.new_change(owner);
        let comment = Comment {
            id,
            parent_id,
            post_id,
            created,
            updated: None,
            json,
            upvotes_count: 0,
            downvotes_count: 0,
        };
        self.comments.push(comment);
        self.posts[p].comments_count = self.posts[p].comments_count + 1;
        self.comment_ids_by_post[p].push(id);
        self.reaction_ids_by_comment.push(Vec::new());
        proof {
            let t = s.create_comment(owner, post_id, parent_id, json@).1;
            assert(self@.posts =~= t.posts);
            assert(self@.comments =~= t.comments);
            assert(self@.comment_ids_by_post =~= t.comment_ids_by_post);
            assert(self@.reaction_ids_by_comment =~= t.reaction_ids_by_comment);
        }
        Ok(Event::CommentCreated(owner, id))
    }

    /// Records a reaction of `owner` to a post and counts it by kind. An account may react
    /// to the same post any number of times. The next reaction id must still fit in a `u64`.
    pub fn add_post_reaction(&mut self, owner: AccountId, post_id: PostId, kind: ReactionKind) -> (r:
        Result<Event, Error>)
        requires
            old(self).wf(),
            old(self)@.reactions.len() < u64::MAX,
        ensures
            final(self).wf(),
            (r, final(self)@) == old(self)@.add_post_reaction(owner, post_id, kind),
    {
        if post_id < 1 || post_id > self.posts.len() as u64 {
            return Err(Error::NotFound(Missing::Post));
        }
        let ghost s = self@;
        let p = (post_id - 1) as usize;
        proof {
            lemma_add_post_reaction_keeps_valid(s, owner, post_id, kind);
            lemma_post_votes_bounded(s, p as int);
        }
        let id = self.reactions.len() as u64 + 1;
        let created = self.new_change(owner);
        self.reactions.push(Some(Reaction { id, created, kind }));
        self.reaction_ids_by_post[p].push(id);
        match kind {
            ReactionKind::Upvote => {
                self.posts[p].upvotes_count = self.posts[p].upvotes_count + 1;
            },
            ReactionKind::Downvote => {
                self.posts[p].downvotes_count = self.posts[p].downvotes_count + 1;
            },
        }
        proof {
            let t = s.add_post_reaction(owner, post_id, kind).1;
            assert(self@.posts =~= t.posts);
            assert(self@.reactions =~= t.reactions);
            assert(self@.reaction_ids_by_post =~= t.reaction_ids_by_post);
        }
        Ok(Event::PostReactionCreated(owner, post_id, id))
    }

    /// Records a reaction of `owner` to a comment and counts it by kind. An account may react
    /// to the same comment any number of times. The next reaction id must still fit in a `u64`.
    pub fn add_comment_reaction(&mut self, owner: AccountId, comment_id: CommentId, kind: ReactionKind) -> (r:
        Result<Event, Error>)
        requires
            old(self).wf(),
            old(self)@.reactions.len() < u64::MAX,
        ensures
            final(self).wf(),
            (r, final(self)@) == old(self)@.add_comment_reaction(owner, comment_id, kind),
    {
        if comment_id < 1 || comment_id > self.comments.len() as u64 {
            return Err(Error::NotFound(Missing::Comment));
        }
        let ghost s = self@;
        let c = (comment_id - 1) as usize;
        proof {
            lemma_add_comment_reaction_keeps_valid(s, owner, comment_id, kind);
            lemma_comment_votes_bounded(s, c as int);
        }
        let id = self.reactions.len() as u64 + 1;
        let created = self.new_change(owner);
        self.reactions.push(Some(Reaction { id, created, kind }));
        self.reaction_ids_by_comment[c].push(id);
        match kind {
            ReactionKind::Upvote => {
                self.comments[c].upvotes_count = self.comments[c].upvotes_count + 1;
            },
            ReactionKind::Downvote => {
                self.comments[c].downvotes_count = self.comments[c].downvotes_count + 1;
            },
        }
        proof {
            let t = s.add_comment_reaction(owner, comment_id, kind).1;
            assert(self@.comments =~= t.comments);
            assert(self@.reactions =~= t.reactions);
            assert(self@.reaction_ids_by_comment =~= t.reaction_ids_by_comment);
        }
        Ok(Event::CommentReactionCreated(owner, comment_id, id))
    }

    /// Replaces the text of a comment; only its author may, and only with different text.
    pub fn update_comment(&mut self, owner: AccountId, comment_id: CommentId, update: CommentUpdate) -> (r:
        Result<Event, Error>)
        requires
            old(self).wf(),
        ensures
            final(self).wf(),
            (r, final(self)@) == old(self)@.update_comment(owner, comment_id, update.json@),
    {
        if comment_id < 1 || comment_id > self.comments.len() as u64 {
            return Err(Error::NotFound(Missing::Comment));
        }
        let c = (comment_id - 1) as usize;
        if owner != self.comments[c].created.account {
            return Err(Error::Unauthorized);
        }
        let json = update.json;
        if json.len() > self.config.comment_max_len as usize {
            return Err(Error::Validation(ValidationError::JsonTooLong));
        }
        if bytes_equal(&json, &self.comments[c].json) {
            return Err(Error::Validation(ValidationError::JsonUnchanged));
        }
        let ghost s = self@;
        proof {
            lemma_update_comment_keeps_valid(s, owner, comment_id, json@);
        }
        let updated = self.new_change(owner);
        self.comments[c].json = json;
        self.comments[c].updated = Some(updated);
        proof {
            let t = s.update_comment(owner, comment_id, json@).1;
            assert(self@.comments =~= t.comments);
        }
        Ok(Event::CommentUpdated(owner, comment_id))
    }

    /// Applies the given fields to a blog; only its creator may. Fields equal to the current
    /// values change nothing; when nothing changes the call succeeds with no event.
    pub fn update_blog(&mut self, owner: AccountId, blog_id: BlogId, update: BlogUpdate) -> (r: Result<
        Option<Event>,
        Error,
    >)
        requires
            old(self).wf(),
        ensures
            final(self).wf(),
            (r, final(self)@) == old(self)@.update_blog(owner, blog_id, update@),
    {
        if update.writers.is_none() && update.slug.is_none() && update.json.is_none() {
            return Err(Error::Validation(ValidationError::NothingToUpdate));
        }
        if blog_id < 1 || blog_id > self.blogs.len() as u64 {
            return Err(Error::NotFound(Missing::Blog));
        }
        let b = (blog_id - 1) as usize;
        if owner != self.blogs[b].created.account {
            return Err(Error::Unauthorized);
        }
        let writers_changed = match &update.writers {
            Some(w) => !accounts_equal(w, &self.blogs[b].writers),
            None => false,
        };
        let slug_changed = match &update.slug {
            Some(sl) => !bytes_equal(sl, &self.blogs[b].slug),
            None => false,
        };
        let json_changed = match &update.json {
            Some(j) => !bytes_equal(j, &self.blogs[b].json),
            None => false,
        };
        if slug_changed {
            if let Some(sl) = &update.slug {
                if self.blog_slugs.contains(sl) {
                    return Err(Error::Validation(ValidationError::SlugNotUnique));
                }
            }
        }
        if !writers_changed && !slug_changed && !json_changed {
            return Ok(None);
        }
        let ghost s = self@;
        let ghost u = update@;
        proof {
            lemma_update_blog_keeps_valid(s, owner, blog_id, u);
        }
        let updated = self.new_change(owner);
        let BlogUpdate { writers, slug, json } = update;
        if let Some(w) = writers {
            self.blogs[b].writers = w;
        }
        if let Some(j) = json {
            self.blogs[b].json = j;
        }
        if slug_changed {
            if let Some(sl) = slug {
                self.blog_slugs.unbind(&self.blogs[b].slug);
                self.blog_slugs.bind(sl.clone(), blog_id);
                self.blogs[b].slug = sl;
            }
        }
        self.blogs[b].updated = Some(updated);
        proof {
            let t = s.update_blog(owner, blog_id, u).1;
            assert(self@.blogs =~= t.blogs);
        }
        Ok(Some(Event::BlogUpdated(owner, blog_id)))
    }

    /// Applies the given fields to a post, possibly moving it to another blog; only its
    /// creator may. When nothing changes the call succeeds with no event.
    pub fn update_post(&mut self, owner: AccountId, post_id: PostId, update: PostUpdate) -> (r: Result<
        Option<Event>,
        Error,
    >)
        requires
            old(self).wf(),
        ensures
            final(self).wf(),
            (r, final(self)@) == old(self)@.update_post(owner, post_id, update@),
    {
        if update.blog_id.is_none() && update.slug.is_none() && update.json.is_none() {
            return Err(Error::Validation(ValidationError::NothingToUpdate));
        }
        if post_id < 1 || post_id > self.posts.len() as u64 {
            return Err(Error::NotFound(Missing::Post));
        }
        let pi = (post_id - 1) as usize;
        if owner != self.posts[pi].created.account {
            return Err(Error::Unauthorized);
        }
        let old_blog_id = self.posts[pi].blog_id;
        let slug_changed = match &update.slug {
            Some(sl) => !bytes_equal(sl, &self.posts[pi].slug),
            None => false,
        };
        let json_changed = match &update.json {
            Some(j) => !bytes_equal(j, &self.posts[pi].json),
            None => false,
        };
        let moved = match update.blog_id {
            Some(to) => to != old_blog_id,
            None => false,
        };
        if slug_changed {
            if let Some(sl) = &update.slug {
                if self.post_slugs.contains(sl) {
                    return Err(Error::Validation(ValidationError::SlugNotUnique));
                }
            }
        }
        if moved {
            if let Some(to) = update.blog_id {
                if to < 1 || to > self.blogs.len() as u64 {
                    return Err(Error::NotFound(Missing::Blog));
                }
            }
        }
        if !slug_changed && !json_changed && !moved {
            return Ok(None);
        }
        let ghost s = self@;
        let ghost u = update@;
        proof {
            lemma_update_post_keeps_valid(s, owner, post_id, u);
        }
        let updated = self.new_change(owner);
        let PostUpdate { blog_id, slug, json } = update;
        if let Some(j) = json {
            self.posts[pi].json = j;
        }
        if slug_changed {
            if let Some(sl) = slug {
                self.post_slugs.unbind(&self.posts[pi].slug);
                self.post_slugs.bind(sl.clone(), post_id);
                self.posts[pi].slug = sl;
            }
        }
        if moved {
            if let Some(to) = blog_id {
                proof {
                    lemma_move_bounds(s, post_id, to);
                    lemma_remove_unique(s.post_ids_by_blog[old_blog_id - 1], post_id);
                }
                let from_slot = (old_blog_id - 1) as usize;
                let to_slot = (to - 1) as usize;
                match position_of(&self.post_ids_by_blog[from_slot], post_id) {
                    Some(i) => {
                        self.post_ids_by_blog[from_slot].remove(i);
                    },
                    None => {},
                }
                self.post_ids_by_blog[to_slot].push(post_id);
                self.blogs[from_slot].posts_count = self.blogs[from_slot].posts_count - 1;
                self.blogs[to_slot].posts_count = self.blogs[to_slot].posts_count + 1;
                self.posts[pi].blog_id = to;
            }
        }
        self.posts[pi].updated = Some(updated);
        proof {
            let t = s.update_post(owner, post_id, u).1;
            assert(self@.posts =~= t.posts);
            assert(self@.blogs =~= t.blogs);
            assert(self@.post_ids_by_blog =~= t.post_ids_by_blog);
        }
        Ok(Some(Event::PostUpdated(owner, post_id)))
    }

    /// The length bounds the store was made with.
    pub fn config(&self) -> (r: Config)
        ensures
            r == self@.config,
    {
        self.config
    }

    /// The blog with this id.
    pub fn blog_by_id(&self, id: BlogId) -> (r: Option<&Blog>)
        ensures
            match r {
                Some(b) => self@.has_blog(id) && b@ == self@.blog(id),
                None => !self@.has_blog(id),
            },
    {
        if id < 1 || id > self.blogs.len() as u64 {
            None
        } else {
            Some(&self.blogs[(id - 1) as usize])
        }
    }

    /// The post with this id.
    pub fn post_by_id(&self, id: PostId) -> (r: Option<&Post>)
        ensures
            match r {
                Some(p) => self@.has_post(id) && p@ == self@.post(id),
                None => !self@.has_post(id),
            },
    {
        if id < 1 || id > self.posts.len() as u64 {
            None
        } else {
            Some(&self.posts[(id - 1) as usize])
        }
    }

    /// The comment with this id.
    pub fn comment_by_id(&self, id: CommentId) -> (r: Option<&Comment>)
        ensures
            match r {
                Some(c) => self@.has_comment(id) && c@ == self@.comment(id),
                None => !self@.has_comment(id),
            },
    {
        if id < 1 || id > self.comments.len() as u64 {
            None
        } else {
            Some(&self.comments[(id - 1) as usize])
        }
    }

    /// The blog that `slug` is bound to.
    pub fn blog_id_by_slug(&self, slug: &Vec<u8>) -> (r: Option<BlogId>)
        requires
            self.wf(),
        ensures
            r == (if self@.blog_slugs.contains_key(slug@) {
                Some(self@.blog_slugs[slug@])
            } else {
                None
            }),
    {
        self.blog_slugs.resolve(slug)
    }

    /// The post that `slug` is bound to.
    pub fn post_id_by_slug(&self, slug: &Vec<u8>) -> (r: Option<PostId>)
        requires
            self.wf(),
        ensures
            r == (if self@.post_slugs.contains_key(slug@) {
                Some(self@.post_slugs[slug@])
            } else {
                None
            }),
    {
        self.post_slugs.resolve(slug)
    }

    /// The blogs that `owner` created.
    pub fn blog_ids_by_owner(&self, owner: AccountId) -> (r: Vec<BlogId>)
        ensures
            r@ == self@.owner_blogs(owner),
    {
        match self.blog_ids_by_owner.get(&owner) {
            Some(ids) => copy_ids(ids),
            None => Vec::new(),
        }
    }

    /// The posts of a blog; empty where there is no such blog.
    pub fn post_ids_by_blog_id(&self, blog_id: BlogId) -> (r: Vec<PostId>)
        requires
            self.wf(),
        ensures
            r@ == (if self@.has_blog(blog_id) {
                self@.post_ids_by_blog[blog_id - 1]
            } else {
                Seq::empty()
            }),
    {
        if blog_id < 1 || blog_id > self.blogs.len() as u64 {
            Vec::new()
        } else {
            copy_ids(&self.post_ids_by_blog[(blog_id - 1) as usize])
        }
    }

    /// The comments on a post; empty where there is no such post.
    pub fn comment_ids_by_post_id(&self, post_id: PostId) -> (r: Vec<CommentId>)
        requires
            self.wf(),
        ensures
            r@ == (if self@.has_post(post_id) {
                self@.comment_ids_by_post[post_id - 1]
            } else {
                Seq::empty()
            }),
    {
        if post_id < 1 || post_id > self.posts.len() as u64 {
            Vec::new()
        } else {
            copy_ids(&self.comment_ids_by_post[(post_id - 1) as usize])
        }
    }

    /// The reactions to a post; empty where there is no such post.
    pub fn reaction_ids_by_post_id(&self, post_id: PostId) -> (r: Vec<ReactionId>)
        requires
            self.wf(),
        ensures
            r@ == (if self@.has_post(post_id) {
                self@.reaction_ids_by_post[post_id - 1]
            } else {
                Seq::empty()
            }),
    {
        if post_id < 1 || post_id > self.posts.len() as u64 {
            Vec::new()
        } else {
            copy_ids(&self.reaction_ids_by_post[(post_id - 1) as usize])
        }
    }

    /// The reactions to a comment; empty where there is no such comment.
    pub fn reaction_ids_by_comment_id(&self, comment_id: CommentId) -> (r: Vec<ReactionId>)
        requires
            self.wf(),
        ensures
            r@ == (if self@.has_comment(comment_id) {
                self@.reaction_ids_by_comment[comment_id - 1]
            } else {
                Seq::empty()
            }),
    {
        if comment_id < 1 || comment_id > self.comments.len() as u64 {
            Vec::new()
        } else {
            copy_ids(&self.reaction_ids_by_comment[(comment_id - 1) as usize])
        }
    }

    /// The reaction with this id, if it is still there.
    pub fn reaction_by_id(&self, id: ReactionId) -> (r: Option<Reaction>)
        ensures
            r == (if self@.has_reaction(id) {
                Some(self@.reaction(id))
            } else {
                None
            }),
    {
        if id < 1 || id > self.reactions.len() as u64 {
            None
        } else {
            self.reactions[(id - 1) as usize]
        }
    }

    /// Takes back a reaction to a post; only the account that reacted may. A reaction that is
    /// not listed under this post is left alone, and the call succeeds with no event.
    pub fn delete_post_reaction(&mut self, owner: AccountId, post_id: PostId, reaction_id: ReactionId) -> (r:
        Result<Option<Event>, Error>)
        requires
            old(self).wf(),
        ensures
            final(self).wf(),
            (r, final(self)@) == old(self)@.delete_post_reaction(owner, post_id, reaction_id),
    {
        let reaction = match self.reaction_by_id(reaction_id) {
            Some(reaction) => reaction,
            None => return Err(Error::NotFound(Missing::Reaction)),
        };
        if post_id < 1 || post_id > self.posts.len() as u64 {
            return Err(Error::NotFound(Missing::Post));
        }
        if owner != reaction.created.account {
            return Err(Error::Unauthorized);
        }
        let p = (post_id - 1) as usize;
        let i = match position_of(&self.reaction_ids_by_post[p], reaction_id) {
            Some(i) => i,
            None => return Ok(None),
        };
        let ghost s = self@;
        proof {
            lemma_delete_post_reaction_keeps_valid(s, owner, post_id, reaction_id);
            let l = s.reaction_ids_by_post[p as int];
            lemma_remove_unique(l, reaction_id);
            lemma_counts_after_unlist(s, l, reaction_id, reaction.kind);
        }
        self.reaction_ids_by_post[p].remove(i);
        let stored = self.reactions.len();
        proof {
            assert(s.has_reaction(reaction_id));
            assert(reaction_id <= stored);
        }
        let slot = (reaction_id - 1) as usize;
        self.reactions.set(slot, None);
        match reaction.kind {
            ReactionKind::Upvote => {
                self.posts[p].upvotes_count = self.posts[p].upvotes_count - 1;
            },
            ReactionKind::Downvote => {
                self.posts[p].downvotes_count = self.posts[p].downvotes_count - 1;
            },
        }
        proof {
            let t = s.delete_post_reaction(owner, post_id, reaction_id).1;
            assert(self@.posts =~= t.posts);
            assert(self@.reactions =~= t.reactions);
            assert(self@.reaction_ids_by_post =~= t.reaction_ids_by_post);
        }
        Ok(Some(Event::PostReactionDeleted(owner, post_id, reaction_id)))
    }

    /// Takes back a reaction to a comment; only the account that reacted may. A reaction that
    /// is not listed under this comment is left alone, and the call succeeds with no event.
    pub fn delete_comment_reaction(
        &mut self,
        owner: AccountId,
        comment_id: CommentId,
        reaction_id: ReactionId,
    ) -> (r: Result<Option<Event>, Error>)
        requires
            old(self).wf(),
        ensures
            final(self).wf(),
            (r, final(self)@) == old(self)@.delete_comment_reaction(owner, comment_id, reaction_id),
    {
        let reaction = match self.reaction_by_id(reaction_id) {
            Some(reaction) => reaction,
            None => return Err(Error::NotFound(Missing::Reaction)),
        };
        if comment_id < 1 || comment_id > self.comments.len() as u64 {
            return Err(Error::NotFound(Missing::Comment));
        }
        if owner != reaction.created.account {
            return Err(Error::Unauthorized);
        }
        let c = (comment_id - 1) as usize;
        let i = match position_of(&self.reaction_ids_by_comment[c], reaction_id) {
            Some(i) => i,
            None => return Ok(None),
        };
        let ghost s = self@;
        proof {
            lemma_delete_comment_reaction_keeps_valid(s, owner, comment_id, reaction_id);
            let l = s.reaction_ids_by_comment[c as int];
            lemma_remove_unique(l, reaction_id);
            lemma_counts_after_unlist(s, l, reaction_id, reaction.kind);
        }
        self.reaction_ids_by_comment[c].remove(i);
        let stored = self.reactions.len();
        proof {
            assert(s.has_reaction(reaction_id));
            assert(reaction_id <= stored);
        }
        let slot = (reaction_id - 1) as usize;
        self.reactions.set(slot, None);
        match reaction.kind {
            ReactionKind::Upvote => {
                self.comments[c].upvotes_count = self.comments[c].upvotes_count - 1;
            },
            ReactionKind::Downvote => {
                self.comments[c].downvotes_count = self.comments[c].downvotes_count - 1;
            },
        }
        proof {
            let t = s.delete_comment_reaction(owner, comment_id, reaction_id).1;
            assert(self@.comments =~= t.comments);
            assert(self@.reactions =~= t.reactions);
            assert(self@.reaction_ids_by_comment =~= t.reaction_ids_by_comment);
        }
        Ok(Some(Event::CommentReactionDeleted(owner, comment_id, reaction_id)))
    }
}

fn copy_ids(ids: &Vec<u64>) -> (r: Vec<u64>)
    ensures
        r@ == ids@,
{
    let r = ids.clone();
    proof {
        assert(r@ =~= ids@);
    }
    r
}

/// Where `id` stands in `ids`, if it is there; with no duplicates, that is its only place.
fn position_of(ids: &Vec<u64>, id: u64) -> (r: Option<usize>)
    ensures
        match r {
            Some(i) => i < ids@.len() && ids@[i as int] == id && (ids@.no_duplicates() ==> i
                == ids@.index_of(id)),
            None => !ids@.contains(id),
        },
{
    let mut i: usize = 0;
    while i < ids.len()
        invariant
            i <= ids@.len(),
            forall|j: int| 0 <= j < i ==> ids@[j] != id,
        decreases ids@.len() - i,
    {
        if ids[i] == id {
            proof {
                assert(ids@.contains(id));
                let k = ids@.index_of(id);
                assert(ids@[k] == id);
            }
            return Some(i);
        }
        i += 1;
    }
    None
}

} // verus!
