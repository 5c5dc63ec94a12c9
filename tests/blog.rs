use toy_server::blog::{EncodedPost, Post, PostState};
use toy_server::restaurant::{eat, Breakfast};

#[test]
fn post_shows_text_only_when_published() {
    let mut post = Post::new();
    post.add_text("I ate a salad for lunch today");
    assert_eq!("", post.content());
    post.approve();
    assert_eq!(post.state(), PostState::Draft);
    post.request_review();
    assert_eq!("", post.content());
    post.request_review();
    assert_eq!(post.state(), PostState::PendingReview);
    post.approve();
    assert_eq!("I ate a salad for lunch today", post.content());
    post.approve();
    post.request_review();
    assert_eq!(post.state(), PostState::Published);
}

#[test]
fn encoded_post_flow() {
    let mut post = EncodedPost::new();
    post.add_text("I ate a salad");
    post.add_text(" for lunch today");
    let post = post.request_review();
    let post = post.approve();
    assert_eq!("I ate a salad for lunch today", post.content());
}

#[test]
fn breakfast_announcement() {
    assert_eq!(eat(), "you eat avocado and peach");
    let b = Breakfast { toast: String::from("rye"), fruit: String::from("fig") };
    assert_eq!(b.this_morning(), "you eat rye and fig");
}
