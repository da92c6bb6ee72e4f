//! A summarizing trait with two implementors: the classic trait exercise
//! of a news article and a social post.

use vstd::prelude::*;

verus! {

/// Something that can introduce its author and summarize itself; the
/// default summary quotes the author line.
pub trait Summary {
    fn summarize_author(&self) -> String;

    fn summarize(&self) -> String {
        String::from_str("Open this beauty by ").concat(
            self.summarize_author().as_str(),
        ).concat(". Do it now!!!")
    }
}

/// A news article, summarized by headline, author and location.
pub struct NewsArticle {
    pub headline: String,
    pub location: String,
    pub author: String,
    pub content: String,
}

impl Summary for NewsArticle {
    fn summarize_author(&self) -> String {
        String::from_str("<").concat(self.author.as_str()).concat(">")
    }

    fn summarize(&self) -> String {
        self.headline.clone().concat(", by ").concat(self.summarize_author().as_str()).concat(
            " (in ",
        ).concat(self.location.as_str()).concat(")")
    }
}

/// A social post, summarized by the default summary over its handle.
pub struct SocialPost {
    pub username: String,
    pub content: String,
    pub reply: bool,
    pub repost: bool,
}

impl Summary for SocialPost {
    fn summarize_author(&self) -> String {
        String::from_str("@").concat(self.username.as_str())
    }
}

} // verus!
