use primer::Post;

#[test]
fn salad_post_workflow() {
    let mut post = Post::new();

    post.add_content("I ate a salad for lunch today");
    assert_eq!("", post.get_content());

    post.request_review();
    assert_eq!("", post.get_content());

    post.approve();
    assert_eq!("I ate a salad for lunch today", post.get_content());
}

#[test]
fn approve_draft_is_noop() {
    let mut post = Post::new();
    post.add_content("early thoughts");

    // Approving a draft that was never sent for review changes nothing.
    post.approve();
    assert_eq!("", post.get_content());

    // The post is still a draft: the ordinary path still works from here.
    post.request_review();
    assert_eq!("", post.get_content());
    post.approve();
    assert_eq!("early thoughts", post.get_content());
}

#[test]
fn request_review_is_idempotent() {
    let mut post = Post::new();
    post.add_content("ready for review");

    post.request_review();
    post.request_review();
    post.request_review();
    assert_eq!("", post.get_content());

    post.approve();
    assert_eq!("ready for review", post.get_content());
}

#[test]
fn approve_is_idempotent_once_published() {
    let mut post = Post::new();
    post.add_content("news");
    post.request_review();
    post.approve();
    post.approve();
    post.request_review();
    assert_eq!("news", post.get_content());
}

#[test]
fn append_before_and_after_publishing() {
    let mut post = Post::new();
    post.add_content("first half");
    post.request_review();
    post.add_content(" and second half");
    post.approve();
    assert_eq!("first half and second half", post.get_content());

    post.add_content(", postscript");
    assert_eq!("first half and second half, postscript", post.get_content());
}

#[test]
fn new_post_is_empty() {
    let post = Post::new();
    assert_eq!("", post.get_content());
}
