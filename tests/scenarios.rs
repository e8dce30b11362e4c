use blogs::module::Module;
use blogs::types::{BlogUpdate, Config, Error, Event, ReactionKind, ValidationError};

const A: u64 = 1;
const B: u64 = 2;
const C: u64 = 3;
const D: u64 = 4;

fn blog_slug_update(slug: &str) -> BlogUpdate {
    BlogUpdate { writers: None, slug: Some(slug.as_bytes().to_vec()), json: None }
}

fn created_id(r: Result<Event, Error>) -> u64 {
    match r {
        Ok(Event::BlogCreated(_, id)) => id,
        Ok(Event::PostCreated(_, id)) => id,
        Ok(Event::CommentCreated(_, id)) => id,
        Ok(Event::PostReactionCreated(_, _, id)) => id,
        Ok(Event::CommentReactionCreated(_, _, id)) => id,
        other => panic!("unexpected result {:?}", other),
    }
}

/// Runs the scenarios in order and hands back the store and the first reaction of C.
fn store_after_scenarios() -> (Module, u64) {
    let mut m = Module::new(Config::default());
    m.set_clock(10, 1000);
    assert_eq!(m.create_blog(A, b"hello".to_vec(), b"{}".to_vec()), Ok(Event::BlogCreated(A, 1)));
    assert_eq!(m.create_post(A, 1, b"world".to_vec(), b"{}".to_vec()), Ok(Event::PostCreated(A, 1)));
    assert_eq!(m.update_blog(A, 1, blog_slug_update("hello2")), Ok(Some(Event::BlogUpdated(A, 1))));
    assert_eq!(
        m.create_blog(B, b"hello2".to_vec(), b"{}".to_vec()),
        Err(Error::Validation(ValidationError::SlugNotUnique))
    );
    let first = created_id(m.add_post_reaction(C, 1, ReactionKind::Upvote));
    created_id(m.add_post_reaction(C, 1, ReactionKind::Upvote));
    (m, first)
}

#[test]
fn scenario_create_blog() {
    let mut m = Module::new(Config::default());
    let r = m.create_blog(A, b"hello".to_vec(), b"{}".to_vec());
    assert_eq!(r, Ok(Event::BlogCreated(A, 1)));
    let blog = m.blog_by_id(1).unwrap();
    assert_eq!(blog.id, 1);
    assert_eq!(blog.posts_count, 0);
    assert_eq!(blog.slug, b"hello".to_vec());
    assert_eq!(blog.json, b"{}".to_vec());
    assert!(blog.writers.is_empty());
    assert!(blog.updated.is_none());
    assert_eq!(blog.created.account, A);
    assert_eq!(m.blog_id_by_slug(&b"hello".to_vec()), Some(1));
    assert_eq!(m.blog_ids_by_owner(A), vec![1]);
}

#[test]
fn scenario_create_post() {
    let mut m = Module::new(Config::default());
    m.create_blog(A, b"hello".to_vec(), b"{}".to_vec()).unwrap();
    let r = m.create_post(A, 1, b"world".to_vec(), b"{}".to_vec());
    assert_eq!(r, Ok(Event::PostCreated(A, 1)));
    assert_eq!(m.blog_by_id(1).unwrap().posts_count, 1);
    let post = m.post_by_id(1).unwrap();
    assert_eq!(post.blog_id, 1);
    assert_eq!(post.comments_count, 0);
    assert_eq!(post.upvotes_count, 0);
    assert_eq!(post.downvotes_count, 0);
    assert_eq!(m.post_ids_by_blog_id(1), vec![1]);
    assert_eq!(m.post_id_by_slug(&b"world".to_vec()), Some(1));
}

#[test]
fn scenario_rename_blog() {
    let mut m = Module::new(Config::default());
    m.set_clock(7, 700);
    m.create_blog(A, b"hello".to_vec(), b"{}".to_vec()).unwrap();
    m.create_post(A, 1, b"world".to_vec(), b"{}".to_vec()).unwrap();
    m.set_clock(8, 800);
    let r = m.update_blog(A, 1, blog_slug_update("hello2"));
    assert_eq!(r, Ok(Some(Event::BlogUpdated(A, 1))));
    assert_eq!(m.blog_id_by_slug(&b"hello".to_vec()), None);
    assert_eq!(m.blog_id_by_slug(&b"hello2".to_vec()), Some(1));
    let blog = m.blog_by_id(1).unwrap();
    assert_eq!(blog.slug, b"hello2".to_vec());
    let updated = blog.updated.unwrap();
    assert_eq!((updated.account, updated.block, updated.time), (A, 8, 800));
    assert_eq!((blog.created.block, blog.created.time), (7, 700));
}

#[test]
fn scenario_taken_slug_refused() {
    let (m, _) = store_after_scenarios();
    assert_eq!(m.blog_by_id(2).is_none(), true);
    assert!(m.blog_ids_by_owner(B).is_empty());
}

#[test]
fn scenario_repeated_upvotes() {
    let (m, first) = store_after_scenarios();
    assert_eq!(first, 1);
    let post = m.post_by_id(1).unwrap();
    assert_eq!(post.upvotes_count, 2);
    assert_eq!(post.downvotes_count, 0);
    assert_eq!(m.reaction_ids_by_post_id(1), vec![1, 2]);
}

#[test]
fn scenario_other_account_cannot_unreact() {
    let (mut m, first) = store_after_scenarios();
    assert_eq!(m.delete_post_reaction(D, 1, first), Err(Error::Unauthorized));
    assert_eq!(m.post_by_id(1).unwrap().upvotes_count, 2);
    assert!(m.reaction_by_id(first).is_some());
    assert_eq!(m.reaction_ids_by_post_id(1), vec![1, 2]);
}
