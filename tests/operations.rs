use blogs::module::Module;
use blogs::types::{
    BlogUpdate, CommentUpdate, Config, Error, Event, Missing, PostUpdate, ReactionKind,
    ValidationError,
};

const A: u64 = 11;
const B: u64 = 12;

fn bytes(s: &str) -> Vec<u8> {
    s.as_bytes().to_vec()
}

fn store_with_two_blogs() -> Module {
    let mut m = Module::new(Config::default());
    m.create_blog(A, bytes("first-blog"), bytes("{}")).unwrap();
    m.create_blog(A, bytes("second-blog"), bytes("{}")).unwrap();
    m.create_post(A, 1, bytes("a-post"), bytes("{}")).unwrap();
    m
}

#[test]
fn default_config_bounds() {
    let c = Config::default();
    assert_eq!(c.slug_min_len, 5);
    assert_eq!(c.slug_max_len, 50);
    assert_eq!(c.blog_max_len, 1000);
    assert_eq!(c.post_max_len, 10000);
    assert_eq!(c.comment_max_len, 1000);
    assert_eq!(Module::new(c).config(), c);
}

#[test]
fn reaction_kind_default_is_upvote() {
    assert_eq!(ReactionKind::default(), ReactionKind::Upvote);
}

#[test]
fn blog_slug_length_bounds() {
    let mut m = Module::new(Config::default());
    assert_eq!(
        m.create_blog(A, bytes("abcd"), bytes("{}")),
        Err(Error::Validation(ValidationError::SlugTooShort))
    );
    assert_eq!(
        m.create_blog(A, vec![b'x'; 51], bytes("{}")),
        Err(Error::Validation(ValidationError::SlugTooLong))
    );
    assert_eq!(m.create_blog(A, bytes("abcde"), bytes("{}")), Ok(Event::BlogCreated(A, 1)));
    assert_eq!(m.create_blog(A, vec![b'x'; 50], bytes("{}")), Ok(Event::BlogCreated(A, 2)));
}

#[test]
fn blog_json_length_bound() {
    let mut m = Module::new(Config::default());
    assert_eq!(
        m.create_blog(A, bytes("blog-one"), vec![b'j'; 1001]),
        Err(Error::Validation(ValidationError::JsonTooLong))
    );
    assert!(m.blog_by_id(1).is_none());
    assert_eq!(m.create_blog(A, bytes("blog-one"), vec![b'j'; 1000]), Ok(Event::BlogCreated(A, 1)));
}

#[test]
fn failed_create_does_not_use_up_an_id() {
    let mut m = Module::new(Config::default());
    assert!(m.create_blog(A, bytes("tiny"), bytes("{}")).is_err());
    assert_eq!(m.create_blog(A, bytes("first-blog"), bytes("{}")), Ok(Event::BlogCreated(A, 1)));
}

#[test]
fn blog_ids_are_consecutive() {
    let mut m = Module::new(Config::default());
    assert_eq!(m.create_blog(A, bytes("blog-one"), bytes("{}")), Ok(Event::BlogCreated(A, 1)));
    assert_eq!(m.create_blog(B, bytes("blog-two"), bytes("{}")), Ok(Event::BlogCreated(B, 2)));
    assert_eq!(m.create_blog(A, bytes("blog-three"), bytes("{}")), Ok(Event::BlogCreated(A, 3)));
    assert_eq!(m.blog_ids_by_owner(A), vec![1, 3]);
    assert_eq!(m.blog_ids_by_owner(B), vec![2]);
}

#[test]
fn post_and_comment_ids_are_consecutive() {
    let mut m = store_with_two_blogs();
    assert_eq!(m.create_post(B, 2, bytes("b-post"), bytes("{}")), Ok(Event::PostCreated(B, 2)));
    assert_eq!(m.create_comment(B, 1, None, bytes("c1")), Ok(Event::CommentCreated(B, 1)));
    assert_eq!(m.create_comment(A, 2, None, bytes("c2")), Ok(Event::CommentCreated(A, 2)));
    assert_eq!(m.post_by_id(1).unwrap().comments_count, 1);
    assert_eq!(m.post_by_id(2).unwrap().comments_count, 1);
    assert_eq!(m.comment_ids_by_post_id(1), vec![1]);
}

#[test]
fn reaction_ids_are_shared_between_posts_and_comments() {
    let mut m = store_with_two_blogs();
    m.create_comment(A, 1, None, bytes("c1")).unwrap();
    assert_eq!(m.add_post_reaction(B, 1, ReactionKind::Downvote), Ok(Event::PostReactionCreated(B, 1, 1)));
    assert_eq!(m.add_comment_reaction(B, 1, ReactionKind::Upvote), Ok(Event::CommentReactionCreated(B, 1, 2)));
    assert_eq!(m.post_by_id(1).unwrap().downvotes_count, 1);
    let c = m.comment_by_id(1).unwrap();
    assert_eq!((c.upvotes_count, c.downvotes_count), (1, 0));
    assert_eq!(m.reaction_ids_by_comment_id(1), vec![2]);
    assert_eq!(m.reaction_by_id(2).unwrap().kind, ReactionKind::Upvote);
}

#[test]
fn create_post_errors() {
    let mut m = store_with_two_blogs();
    assert_eq!(m.create_post(A, 3, bytes("post-x"), bytes("{}")), Err(Error::NotFound(Missing::Blog)));
    assert_eq!(m.create_post(A, 0, bytes("post-x"), bytes("{}")), Err(Error::NotFound(Missing::Blog)));
    assert_eq!(
        m.create_post(A, 1, bytes("a-post"), bytes("{}")),
        Err(Error::Validation(ValidationError::SlugNotUnique))
    );
    assert_eq!(
        m.create_post(A, 1, bytes("post"), bytes("{}")),
        Err(Error::Validation(ValidationError::SlugTooShort))
    );
    assert_eq!(
        m.create_post(A, 1, vec![b'p'; 51], bytes("{}")),
        Err(Error::Validation(ValidationError::SlugTooLong))
    );
    assert_eq!(
        m.create_post(A, 1, bytes("post-x"), vec![b'j'; 10001]),
        Err(Error::Validation(ValidationError::JsonTooLong))
    );
    assert_eq!(m.blog_by_id(1).unwrap().posts_count, 1);
    assert_eq!(m.post_by_id(2).is_none(), true);
}

#[test]
fn post_slug_may_equal_a_blog_slug() {
    let mut m = store_with_two_blogs();
    assert_eq!(m.create_post(A, 1, bytes("first-blog"), bytes("{}")), Ok(Event::PostCreated(A, 2)));
}

#[test]
fn create_comment_errors() {
    let mut m = store_with_two_blogs();
    assert_eq!(m.create_comment(A, 2, None, bytes("c")), Err(Error::NotFound(Missing::Post)));
    assert_eq!(m.create_comment(A, 1, Some(1), bytes("c")), Err(Error::NotFound(Missing::ParentComment)));
    assert_eq!(
        m.create_comment(A, 1, None, vec![b'j'; 1001]),
        Err(Error::Validation(ValidationError::JsonTooLong))
    );
    assert_eq!(m.post_by_id(1).unwrap().comments_count, 0);
}

#[test]
fn reply_to_a_comment_on_another_post_is_accepted() {
    let mut m = store_with_two_blogs();
    m.create_post(A, 2, bytes("other-post"), bytes("{}")).unwrap();
    m.create_comment(B, 1, None, bytes("root")).unwrap();
    assert_eq!(m.create_comment(B, 2, Some(1), bytes("reply")), Ok(Event::CommentCreated(B, 2)));
    let reply = m.comment_by_id(2).unwrap();
    assert_eq!(reply.parent_id, Some(1));
    assert_eq!(reply.post_id, 2);
}

#[test]
fn add_reaction_to_missing_target() {
    let mut m = store_with_two_blogs();
    assert_eq!(m.add_post_reaction(B, 9, ReactionKind::Upvote), Err(Error::NotFound(Missing::Post)));
    assert_eq!(m.add_comment_reaction(B, 1, ReactionKind::Upvote), Err(Error::NotFound(Missing::Comment)));
    assert!(m.reaction_by_id(1).is_none());
}

#[test]
fn update_blog_errors() {
    let mut m = store_with_two_blogs();
    let empty = BlogUpdate { writers: None, slug: None, json: None };
    assert_eq!(m.update_blog(A, 1, empty), Err(Error::Validation(ValidationError::NothingToUpdate)));
    let json = BlogUpdate { writers: None, slug: None, json: Some(bytes("{\"a\":1}")) };
    assert_eq!(m.update_blog(A, 5, json.clone()), Err(Error::NotFound(Missing::Blog)));
    assert_eq!(m.update_blog(B, 1, json), Err(Error::Unauthorized));
    let taken = BlogUpdate { writers: None, slug: Some(bytes("second-blog")), json: Some(bytes("{}x")) };
    assert_eq!(m.update_blog(A, 1, taken), Err(Error::Validation(ValidationError::SlugNotUnique)));
    let blog = m.blog_by_id(1).unwrap();
    assert_eq!(blog.slug, bytes("first-blog"));
    assert_eq!(blog.json, bytes("{}"));
    assert!(blog.updated.is_none());
    assert_eq!(m.blog_id_by_slug(&bytes("first-blog")), Some(1));
}

#[test]
fn update_blog_with_current_values_is_a_noop() {
    let mut m = store_with_two_blogs();
    let same = BlogUpdate { writers: Some(vec![]), slug: Some(bytes("first-blog")), json: Some(bytes("{}")) };
    assert_eq!(m.update_blog(A, 1, same), Ok(None));
    assert!(m.blog_by_id(1).unwrap().updated.is_none());
}

#[test]
fn update_blog_writers_and_json() {
    let mut m = store_with_two_blogs();
    m.set_clock(3, 33);
    let u = BlogUpdate { writers: Some(vec![B, 99]), slug: None, json: Some(bytes("{\"x\":2}")) };
    assert_eq!(m.update_blog(A, 1, u), Ok(Some(Event::BlogUpdated(A, 1))));
    let blog = m.blog_by_id(1).unwrap();
    assert_eq!(blog.writers, vec![B, 99]);
    assert_eq!(blog.json, bytes("{\"x\":2}"));
    assert_eq!(blog.updated.unwrap().block, 3);
    let by_writer = BlogUpdate { writers: None, slug: None, json: Some(bytes("{}")) };
    assert_eq!(m.update_blog(B, 1, by_writer), Err(Error::Unauthorized));
}

#[test]
fn update_post_errors() {
    let mut m = store_with_two_blogs();
    m.create_post(A, 1, bytes("b-post"), bytes("{}")).unwrap();
    let empty = PostUpdate { blog_id: None, slug: None, json: None };
    assert_eq!(m.update_post(A, 1, empty), Err(Error::Validation(ValidationError::NothingToUpdate)));
    let json = PostUpdate { blog_id: None, slug: None, json: Some(bytes("{}!")) };
    assert_eq!(m.update_post(A, 9, json.clone()), Err(Error::NotFound(Missing::Post)));
    assert_eq!(m.update_post(B, 1, json), Err(Error::Unauthorized));
    let taken = PostUpdate { blog_id: None, slug: Some(bytes("b-post")), json: None };
    assert_eq!(m.update_post(A, 1, taken), Err(Error::Validation(ValidationError::SlugNotUnique)));
    let nowhere = PostUpdate { blog_id: Some(7), slug: Some(bytes("c-post")), json: None };
    assert_eq!(m.update_post(A, 1, nowhere), Err(Error::NotFound(Missing::Blog)));
    assert_eq!(m.post_id_by_slug(&bytes("a-post")), Some(1));
    assert_eq!(m.post_id_by_slug(&bytes("c-post")), None);
    assert_eq!(m.post_by_id(1).unwrap().blog_id, 1);
}

#[test]
fn update_post_with_current_values_is_a_noop() {
    let mut m = store_with_two_blogs();
    let same = PostUpdate { blog_id: Some(1), slug: Some(bytes("a-post")), json: Some(bytes("{}")) };
    assert_eq!(m.update_post(A, 1, same), Ok(None));
    assert!(m.post_by_id(1).unwrap().updated.is_none());
}

#[test]
fn move_post_to_another_blog() {
    let mut m = store_with_two_blogs();
    let u = PostUpdate { blog_id: Some(2), slug: Some(bytes("moved-post")), json: None };
    assert_eq!(m.update_post(A, 1, u), Ok(Some(Event::PostUpdated(A, 1))));
    assert_eq!(m.blog_by_id(1).unwrap().posts_count, 0);
    assert_eq!(m.blog_by_id(2).unwrap().posts_count, 1);
    assert!(m.post_ids_by_blog_id(1).is_empty());
    assert_eq!(m.post_ids_by_blog_id(2), vec![1]);
    let post = m.post_by_id(1).unwrap();
    assert_eq!(post.blog_id, 2);
    assert_eq!(post.slug, bytes("moved-post"));
    assert!(post.updated.is_some());
    assert_eq!(m.post_id_by_slug(&bytes("a-post")), None);
    assert_eq!(m.post_id_by_slug(&bytes("moved-post")), Some(1));
}

#[test]
fn update_comment_rules() {
    let mut m = store_with_two_blogs();
    m.create_comment(B, 1, None, bytes("hi")).unwrap();
    let same = CommentUpdate { json: bytes("hi") };
    assert_eq!(m.update_comment(B, 1, same), Err(Error::Validation(ValidationError::JsonUnchanged)));
    let long = CommentUpdate { json: vec![b'j'; 1001] };
    assert_eq!(m.update_comment(B, 1, long), Err(Error::Validation(ValidationError::JsonTooLong)));
    assert_eq!(m.update_comment(A, 1, CommentUpdate { json: bytes("yo") }), Err(Error::Unauthorized));
    assert_eq!(m.update_comment(B, 2, CommentUpdate { json: bytes("yo") }), Err(Error::NotFound(Missing::Comment)));
    m.set_clock(5, 55);
    assert_eq!(m.update_comment(B, 1, CommentUpdate { json: bytes("hello") }), Ok(Event::CommentUpdated(B, 1)));
    let c = m.comment_by_id(1).unwrap();
    assert_eq!(c.json, bytes("hello"));
    assert_eq!(c.updated.unwrap().time, 55);
}

#[test]
fn delete_own_post_reaction() {
    let mut m = store_with_two_blogs();
    m.add_post_reaction(B, 1, ReactionKind::Upvote).unwrap();
    m.add_post_reaction(B, 1, ReactionKind::Downvote).unwrap();
    assert_eq!(m.delete_post_reaction(B, 1, 1), Ok(Some(Event::PostReactionDeleted(B, 1, 1))));
    let post = m.post_by_id(1).unwrap();
    assert_eq!((post.upvotes_count, post.downvotes_count), (0, 1));
    assert!(m.reaction_by_id(1).is_none());
    assert_eq!(m.reaction_ids_by_post_id(1), vec![2]);
    assert_eq!(m.delete_post_reaction(B, 1, 1), Err(Error::NotFound(Missing::Reaction)));
    assert_eq!(m.add_post_reaction(B, 1, ReactionKind::Upvote), Ok(Event::PostReactionCreated(B, 1, 3)));
}

#[test]
fn delete_reaction_listed_elsewhere_is_silent() {
    let mut m = store_with_two_blogs();
    m.create_post(A, 2, bytes("b-post"), bytes("{}")).unwrap();
    m.add_post_reaction(B, 1, ReactionKind::Upvote).unwrap();
    assert_eq!(m.delete_post_reaction(B, 2, 1), Ok(None));
    assert_eq!(m.delete_post_reaction(B, 3, 1), Err(Error::NotFound(Missing::Post)));
    assert_eq!(m.post_by_id(1).unwrap().upvotes_count, 1);
    assert!(m.reaction_by_id(1).is_some());
}

#[test]
fn delete_comment_reaction_rules() {
    let mut m = store_with_two_blogs();
    m.create_comment(A, 1, None, bytes("c")).unwrap();
    m.add_comment_reaction(B, 1, ReactionKind::Downvote).unwrap();
    assert_eq!(m.delete_comment_reaction(A, 1, 1), Err(Error::Unauthorized));
    assert_eq!(m.delete_comment_reaction(B, 2, 1), Err(Error::NotFound(Missing::Comment)));
    assert_eq!(m.delete_comment_reaction(B, 1, 1), Ok(Some(Event::CommentReactionDeleted(B, 1, 1))));
    let c = m.comment_by_id(1).unwrap();
    assert_eq!((c.upvotes_count, c.downvotes_count), (0, 0));
    assert!(m.reaction_ids_by_comment_id(1).is_empty());
}

#[test]
fn slugs_stay_unique_after_renames() {
    let mut m = store_with_two_blogs();
    let swap = BlogUpdate { writers: None, slug: Some(bytes("third-blog")), json: None };
    m.update_blog(A, 1, swap).unwrap();
    let back = BlogUpdate { writers: None, slug: Some(bytes("first-blog")), json: None };
    assert_eq!(m.update_blog(A, 2, back), Ok(Some(Event::BlogUpdated(A, 2))));
    assert_eq!(m.blog_id_by_slug(&bytes("first-blog")), Some(2));
    assert_eq!(m.blog_id_by_slug(&bytes("third-blog")), Some(1));
    assert_eq!(m.blog_id_by_slug(&bytes("second-blog")), None);
    assert_ne!(m.blog_by_id(1).unwrap().slug, m.blog_by_id(2).unwrap().slug);
}
