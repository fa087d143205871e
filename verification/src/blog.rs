//! A document workflow engine for blog posts.
//!
//! A [`Post`] carries an append-only content buffer and a status tag.  Every
//! post starts as a draft; requesting a review moves it to `PendingReview`,
//! approval moves it on to `Published`.  All other transition attempts are
//! no-ops, and the content is readable only once the post is published.

use vstd::prelude::*;
use vstd::string::StringExecFns;

verus! {

/// The phase a post occupies in the review workflow.
#[derive(Clone, Copy, Debug, PartialEq, Eq, Structural)]
pub enum Status {
    Draft,
    PendingReview,
    Published,
}

/// The status a post moves to when a review is requested while it is in `s`:
/// a draft enters review; everything else stays put.
pub open spec fn review_step(s: Status) -> Status {
    match s {
        Status::Draft => Status::PendingReview,
        Status::PendingReview => Status::PendingReview,
        Status::Published => Status::Published,
    }
}

/// The status a post moves to when it is approved while in `s`: a post under
/// review is published; everything else stays put.
pub open spec fn approve_step(s: Status) -> Status {
    match s {
        Status::Draft => Status::Draft,
        Status::PendingReview => Status::Published,
        Status::Published => Status::Published,
    }
}

/// What a reader of a post in status `s` with buffer `content` may see:
/// the whole buffer once the post is published, nothing before that.
pub open spec fn visible(s: Status, content: Seq<char>) -> Seq<char> {
    if s == Status::Published {
        content
    } else {
        Seq::empty()
    }
}

/// A blog post: an append-only content buffer tagged with its workflow
/// status.  The fields are private, so a post can only be created as an
/// empty draft and can only change status through [`Post::request_review`]
/// and [`Post::approve`].
pub struct Post {
    state: Status,
    content: String,
}

impl Post {
    /// The workflow status of this post.
    pub closed spec fn status(&self) -> Status {
        self.state
    }

    /// Everything that has been appended to this post, in order.
    pub closed spec fn text(&self) -> Seq<char> {
        self.content@
    }

    /// Creates a post: an empty draft.
    pub fn new() -> (p: Post)
        ensures
            p.status() == Status::Draft,
            p.text() == Seq::<char>::empty(),
    {
        Post { state: Status::Draft, content: String::new() }
    }

    /// Appends `text` to the content buffer.  Appending is allowed in every
    /// status and never changes the status.
    pub fn add_content(&mut self, text: &str)
        ensures
            final(self).status() == old(self).status(),
            final(self).text() == old(self).text() + text@,
    {
        self.content.append(text);
    }

    /// The content a reader may see: the full buffer if this post is
    /// published, and the empty string otherwise.
    pub fn get_content(&self) -> (r: &str)
        ensures
            r@ == visible(self.status(), self.text()),
    {
        match self.state {
            Status::Published => {
                self.content.as_str()
            },
            _ => {
                proof {
                    reveal_strlit("");
                    assert(""@ =~= Seq::<char>::empty());
                }
                ""
            },
        }
    }

    /// Asks for a review: a draft enters review, and a post already under
    /// review or published is left as it is.  The content is untouched.
    pub fn request_review(&mut self)
        ensures
            final(self).status() == review_step(old(self).status()),
            final(self).text() == old(self).text(),
    {
        self.state = match self.state {
            Status::Draft => Status::PendingReview,
            Status::PendingReview => Status::PendingReview,
            Status::Published => Status::Published,
        };
    }

    /// Approves this post: a post under review is published, and a draft or
    /// an already published post is left as it is.  The content is untouched.
    pub fn approve(&mut self)
        ensures
            final(self).status() == approve_step(old(self).status()),
            final(self).text() == old(self).text(),
    {
        self.state = match self.state {
            Status::Draft => Status::Draft,
            Status::PendingReview => Status::Published,
            Status::Published => Status::Published,
        };
    }
}

/// Unapproved content is never shown: whatever the buffer holds, a post that
/// is not yet published presents no content at all, and a published post
/// presents the buffer in full.
pub proof fn lemma_visibility(s: Status, content: Seq<char>)
    ensures
        s != Status::Published ==> visible(s, content) == Seq::<char>::empty(),
        s == Status::Published ==> visible(s, content) == content,
{
}

/// Requesting a review is idempotent: a second request never moves a post
/// further, and once a post is under review or published, a request leaves
/// its status exactly as it was.
pub proof fn lemma_request_review_idempotent(s: Status)
    ensures
        review_step(review_step(s)) == review_step(s),
        s != Status::Draft ==> review_step(s) == s,
{
}

/// Approval is idempotent once a post is published, and approving a draft
/// that was never sent for review is a no-op: the post stays a draft.
pub proof fn lemma_approve_idempotent(s: Status)
    ensures
        s == Status::Published ==> approve_step(s) == s,
        s == Status::Draft ==> approve_step(s) == s,
        approve_step(approve_step(approve_step(s))) == approve_step(approve_step(s)),
{
}

/// Appending and publishing commute the way an author expects: content
/// appended while a post is still a draft or awaits review is visible in
/// full once the post is approved, and content appended after publication
/// is visible at once.
pub proof fn lemma_append_then_publish(s: Status, content: Seq<char>, text: Seq<char>)
    ensures
        s == Status::Draft ==> visible(
            approve_step(review_step(s)),
            content + text,
        ) == content + text,
        s == Status::PendingReview ==> visible(approve_step(s), content + text) == content + text,
        s == Status::Published ==> visible(s, content + text) == content + text,
{
}

} // verus!
