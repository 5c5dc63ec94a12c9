//! A blog post that moves from draft through review to published, in two
//! shapes: one type with a state, and one type per state.
use vstd::prelude::*;

verus! {

/// Where a post stands.
#[derive(Clone, Copy, Debug, PartialEq, Eq, Structural)]
pub enum PostState {
    Draft,
    PendingReview,
    Published,
}

/// The state after a review is requested.
pub open spec fn after_review_request(s: PostState) -> PostState {
    match s {
        PostState::Draft => PostState::PendingReview,
        _ => s,
    }
}

/// The state after an approval.
pub open spec fn after_approval(s: PostState) -> PostState {
    match s {
        PostState::PendingReview => PostState::Published,
        _ => s,
    }
}

/// A post whose text is shown only once it is published.
pub struct Post {
    state: PostState,
    content: String,
}

impl Post {
    /// The state of the post.
    pub closed spec fn state_spec(&self) -> PostState {
        self.state
    }

    /// The text written so far.
    pub closed spec fn text_spec(&self) -> Seq<char> {
        self.content@
    }

    /// An empty draft.
    pub fn new() -> (r: Post)
        ensures
            r.state_spec() == PostState::Draft,
            r.text_spec() == Seq::<char>::empty(),
    {
        Post { state: PostState::Draft, content: String::new() }
    }

    /// Appends `text` to the post.
    pub fn add_text(&mut self, text: &str)
        ensures
            final(self).text_spec() == old(self).text_spec() + text@,
            final(self).state_spec() == old(self).state_spec(),
    {
        self.content.append(text);
    }

    /// The text if the post is published, else nothing.
    pub fn content(&self) -> (r: &str)
        ensures
            r@ == if self.state_spec() == PostState::Published {
                self.text_spec()
            } else {
                Seq::<char>::empty()
            },
    {
        match self.state {
            PostState::Published => self.content.as_str(),
            _ => {
                proof {
                    reveal_strlit("");
                }
                ""
            },
        }
    }

    /// Asks for a review: a draft becomes pending review.
    pub fn request_review(&mut self)
        ensures
            final(self).state_spec() == after_review_request(old(self).state_spec()),
            final(self).text_spec() == old(self).text_spec(),
    {
        if let PostState::Draft = self.state {
            self.state = PostState::PendingReview;
        }
    }

    /// Approves the post: a post pending review becomes published.
    pub fn approve(&mut self)
        ensures
            final(self).state_spec() == after_approval(old(self).state_spec()),
            final(self).text_spec() == old(self).text_spec(),
    {
        if let PostState::PendingReview = self.state {
            self.state = PostState::Published;
        }
    }

    /// The state of the post.
    pub fn state(&self) -> (r: PostState)
        ensures
            r == self.state_spec(),
    {
        self.state
    }
}

/// A published post.
pub struct EncodedPost {
    content: String,
}

/// A post being written.
pub struct EncodedDraft {
    content: String,
}

/// A post waiting for approval.
pub struct EncodedPendingReview {
    content: String,
}

impl View for EncodedPost {
    type V = Seq<char>;

    closed spec fn view(&self) -> Seq<char> {
        self.content@
    }
}

impl View for EncodedDraft {
    type V = Seq<char>;

    closed spec fn view(&self) -> Seq<char> {
        self.content@
    }
}

impl View for EncodedPendingReview {
    type V = Seq<char>;

    closed spec fn view(&self) -> Seq<char> {
        self.content@
    }
}

impl EncodedPost {
    /// Starts a post: an empty draft.
    pub fn new() -> (r: EncodedDraft)
        ensures
            r@ == Seq::<char>::empty(),
    {
        EncodedDraft { content: String::new() }
    }

    /// The text of the published post.
    pub fn content(&self) -> (r: &str)
        ensures
            r@ == self@,
    {
        self.content.as_str()
    }
}

impl EncodedDraft {
    /// Appends `text` to the draft.
    pub fn add_text(&mut self, text: &str)
        ensures
            final(self)@ == old(self)@ + text@,
    {
        self.content.append(text);
    }

    /// Sends the draft to review, keeping its text.
    pub fn request_review(self) -> (r: EncodedPendingReview)
        ensures
            r@ == self@,
    {
        EncodedPendingReview { content: self.content }
    }
}

impl EncodedPendingReview {
    /// Approves the post, keeping its text.
    pub fn approve(self) -> (r: EncodedPost)
        ensures
            r@ == self@,
    {
        EncodedPost { content: self.content }
    }
}

} // verus!
