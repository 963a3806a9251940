use social_media::ActorId;
use social_media::SocialMedia;

fn actor(id: u64) -> ActorId {
    ActorId { id }
}

#[test]
fn new_store_is_empty() {
    let store = SocialMedia::new();
    assert_eq!(store.users.len(), 0);
    assert_eq!(store.posts.len(), 0);
    assert_eq!(store.comments.len(), 0);
    assert_eq!(store.likes.len(), 0);
    assert_eq!(store.next_post_id, 0);
    assert_eq!(store.next_comment_id, 0);
    assert_eq!(store.next_like_id, 0);
}

#[test]
fn default_store_is_empty() {
    let store = SocialMedia::default();
    assert_eq!(store.users.len(), 0);
    assert_eq!(store.posts.len(), 0);
    assert_eq!(store.next_post_id, 0);
}

#[test]
fn duplicate_registration_fails_regardless_of_name() {
    let mut store = SocialMedia::new();
    let a = actor(1);
    assert!(store.create_user(a, "alice".to_string()));
    assert!(!store.create_user(a, "alice".to_string()));
    assert!(!store.create_user(a, "someone else".to_string()));
    assert_eq!(store.users.len(), 1);
    assert_eq!(store.users[0].user_id, a);
    assert_eq!(store.users[0].username, "alice");
}

#[test]
fn unregistered_identity_cannot_post() {
    let mut store = SocialMedia::new();
    assert!(store.create_user(actor(1), "alice".to_string()));
    let before_counter = store.next_post_id;
    let before_posts = store.posts.len();
    let ok = store.create_post(
        actor(2),
        "T".to_string(),
        "B".to_string(),
        None,
        None,
    );
    assert!(!ok);
    assert_eq!(store.posts.len(), before_posts);
    assert_eq!(store.next_post_id, before_counter);
}

#[test]
fn post_gets_fresh_id_and_keeps_content() {
    let mut store = SocialMedia::new();
    let a = actor(1);
    assert!(store.create_user(a, "alice".to_string()));
    let counter_before = store.next_post_id;
    assert!(store.create_post(a, "T".to_string(), "B".to_string(), None, None));
    let posts = store.get_posts_by_user(a);
    assert_eq!(posts.len(), 1);
    assert_eq!(posts[0].post_id, counter_before);
    assert_eq!(posts[0].user_id, a);
    assert_eq!(posts[0].title, "T");
    assert_eq!(posts[0].body, "B");
    assert!(posts[0].image_url.is_none());
    assert!(posts[0].caption.is_none());
}

#[test]
fn ids_increase_by_one_per_kind_independently() {
    let mut store = SocialMedia::new();
    let a = actor(1);
    let b = actor(2);
    assert!(store.create_user(a, "alice".to_string()));
    assert!(store.create_user(b, "bob".to_string()));
    assert!(store.create_post(a, "p0".to_string(), "x".to_string(), None, None));
    assert!(store.create_comment(b, 0, "c0".to_string()));
    assert!(store.create_like(b, 0));
    assert!(store.create_post(b, "p1".to_string(), "y".to_string(), None, None));
    assert!(store.create_comment(a, 1, "c1".to_string()));
    assert!(store.create_like(a, 1));
    assert!(store.create_post(a, "p2".to_string(), "z".to_string(), None, None));
    assert_eq!(store.posts[0].post_id, 0);
    assert_eq!(store.posts[1].post_id, 1);
    assert_eq!(store.posts[2].post_id, 2);
    assert_eq!(store.comments[0].comment_id, 0);
    assert_eq!(store.comments[1].comment_id, 1);
    assert_eq!(store.likes[0].like_id, 0);
    assert_eq!(store.likes[1].like_id, 1);
    assert_eq!(store.next_post_id, 3);
    assert_eq!(store.next_comment_id, 2);
    assert_eq!(store.next_like_id, 2);
}

#[test]
fn comment_needs_existing_post_and_existing_user() {
    let mut store = SocialMedia::new();
    let a = actor(1);
    assert!(store.create_user(a, "alice".to_string()));
    assert!(store.create_post(a, "T".to_string(), "B".to_string(), None, None));
    // Valid user, missing post.
    assert!(!store.create_comment(a, 7, "hello".to_string()));
    // Missing user, valid post.
    assert!(!store.create_comment(actor(9), 0, "hello".to_string()));
    assert_eq!(store.comments.len(), 0);
    assert_eq!(store.next_comment_id, 0);
    // Both valid.
    assert!(store.create_comment(a, 0, "hello".to_string()));
    assert_eq!(store.comments.len(), 1);
}

#[test]
fn like_needs_existing_post_and_existing_user() {
    let mut store = SocialMedia::new();
    let a = actor(1);
    assert!(store.create_user(a, "alice".to_string()));
    assert!(store.create_post(a, "T".to_string(), "B".to_string(), None, None));
    assert!(!store.create_like(a, 3));
    assert!(!store.create_like(actor(9), 0));
    assert_eq!(store.likes.len(), 0);
    assert_eq!(store.next_like_id, 0);
    assert!(store.create_like(a, 0));
    assert_eq!(store.likes.len(), 1);
}

#[test]
fn repeated_likes_are_not_deduplicated() {
    let mut store = SocialMedia::new();
    let a = actor(1);
    assert!(store.create_user(a, "alice".to_string()));
    assert!(store.create_post(a, "T".to_string(), "B".to_string(), None, None));
    assert!(store.create_like(a, 0));
    assert!(store.create_like(a, 0));
    let likes = store.get_likes(0);
    assert_eq!(likes.len(), 2);
    assert_eq!(likes[0].like_id, 0);
    assert_eq!(likes[1].like_id, 1);
}

#[test]
fn comments_come_back_in_creation_order_for_their_post_only() {
    let mut store = SocialMedia::new();
    let a = actor(1);
    let b = actor(2);
    assert!(store.create_user(a, "alice".to_string()));
    assert!(store.create_user(b, "bob".to_string()));
    assert!(store.create_post(a, "p0".to_string(), "x".to_string(), None, None));
    assert!(store.create_post(b, "p1".to_string(), "y".to_string(), None, None));
    assert!(store.create_comment(a, 0, "first on 0".to_string()));
    assert!(store.create_comment(b, 1, "first on 1".to_string()));
    assert!(store.create_comment(b, 0, "second on 0".to_string()));
    assert!(store.create_comment(a, 0, "third on 0".to_string()));
    let on_zero = store.get_comments(0);
    assert_eq!(on_zero.len(), 3);
    assert_eq!(on_zero[0].comment_id, 0);
    assert_eq!(on_zero[0].content, "first on 0");
    assert_eq!(on_zero[1].comment_id, 2);
    assert_eq!(on_zero[1].content, "second on 0");
    assert_eq!(on_zero[2].comment_id, 3);
    assert_eq!(on_zero[2].content, "third on 0");
    // A post with no comments yields an empty sequence.
    assert!(store.create_post(a, "p2".to_string(), "z".to_string(), None, None));
    assert_eq!(store.get_comments(2).len(), 0);
    // An unknown post id yields an empty sequence, not an error.
    assert_eq!(store.get_comments(99).len(), 0);
    assert_eq!(store.get_likes(99).len(), 0);
}

#[test]
fn posts_by_user_filters_by_owner_in_order() {
    let mut store = SocialMedia::new();
    let a = actor(1);
    let b = actor(2);
    assert!(store.create_user(a, "alice".to_string()));
    assert!(store.create_user(b, "bob".to_string()));
    assert!(store.create_post(a, "a0".to_string(), "x".to_string(), None, None));
    assert!(store.create_post(b, "b0".to_string(), "y".to_string(), None, None));
    assert!(store.create_post(a, "a1".to_string(), "z".to_string(), None, None));
    let by_a = store.get_posts_by_user(a);
    assert_eq!(by_a.len(), 2);
    assert_eq!(by_a[0].post_id, 0);
    assert_eq!(by_a[0].title, "a0");
    assert_eq!(by_a[1].post_id, 2);
    assert_eq!(by_a[1].title, "a1");
    // An identity with no posts, registered or not, gets an empty sequence.
    assert!(store.create_user(actor(3), "carol".to_string()));
    assert_eq!(store.get_posts_by_user(actor(3)).len(), 0);
    assert_eq!(store.get_posts_by_user(actor(4)).len(), 0);
}

#[test]
fn optional_image_and_caption_are_kept() {
    let mut store = SocialMedia::new();
    let a = actor(1);
    assert!(store.create_user(a, "alice".to_string()));
    assert!(store.create_post(
        a,
        "T".to_string(),
        "B".to_string(),
        Some("img".to_string()),
        Some("cap".to_string()),
    ));
    let posts = store.get_posts_by_user(a);
    assert_eq!(posts.len(), 1);
    assert_eq!(posts[0].image_url.as_deref(), Some("img"));
    assert_eq!(posts[0].caption.as_deref(), Some("cap"));
}

#[test]
fn end_to_end_scenario() {
    let mut store = SocialMedia::new();
    let a = actor(10);
    assert!(store.create_user(a, "alice".to_string()));
    assert!(store.create_post(a, "Hello".to_string(), "World".to_string(), None, None));
    assert!(store.create_comment(a, 0, "Nice".to_string()));
    assert!(store.create_like(a, 0));

    let comments = store.get_comments(0);
    assert_eq!(comments.len(), 1);
    assert_eq!(comments[0].comment_id, 0);
    assert_eq!(comments[0].post_id, 0);
    assert_eq!(comments[0].user_id, a);
    assert_eq!(comments[0].content, "Nice");

    let likes = store.get_likes(0);
    assert_eq!(likes.len(), 1);
    assert_eq!(likes[0].like_id, 0);
    assert_eq!(likes[0].post_id, 0);
    assert_eq!(likes[0].user_id, a);

    let posts = store.get_posts_by_user(a);
    assert_eq!(posts.len(), 1);
    assert_eq!(posts[0].post_id, 0);
    assert_eq!(posts[0].user_id, a);
    assert_eq!(posts[0].title, "Hello");
    assert_eq!(posts[0].body, "World");
    assert!(posts[0].image_url.is_none());
    assert!(posts[0].caption.is_none());
}

#[test]
fn failed_mutations_leave_the_store_unchanged() {
    let mut store = SocialMedia::new();
    let a = actor(1);
    assert!(store.create_user(a, "alice".to_string()));
    assert!(store.create_post(a, "T".to_string(), "B".to_string(), None, None));
    let users_before = store.users.len();
    let posts_before = store.posts.len();
    assert!(!store.create_user(a, "again".to_string()));
    assert!(!store.create_post(actor(2), "T".to_string(), "B".to_string(), None, None));
    assert!(!store.create_comment(actor(2), 0, "c".to_string()));
    assert!(!store.create_like(a, 1));
    assert_eq!(store.users.len(), users_before);
    assert_eq!(store.posts.len(), posts_before);
    assert_eq!(store.comments.len(), 0);
    assert_eq!(store.likes.len(), 0);
    assert_eq!(store.next_post_id, 1);
    assert_eq!(store.next_comment_id, 0);
    assert_eq!(store.next_like_id, 0);
}
