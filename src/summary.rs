//! Short summaries of pieces of media.
use vstd::prelude::*;
use vstd::string::StringExecFns;

verus! {

pub struct NewsArticle {
    pub headline: String,
    pub location: String,
    pub author: String,
    pub content: String,
}

pub struct Tweet {
    pub username: String,
    pub content: String,
    pub reply: bool,
    pub retweet: bool,
}

/// A piece of media that can be summed up in a line.
pub trait Summary {
    /// The text that names the author.
    spec fn author_line(&self) -> Seq<char>;

    /// The text that sums the piece up.
    spec fn summary_line(&self) -> Seq<char>;

    fn summarize_author(&self) -> (r: String)
        ensures
            r@ == self.author_line(),
    ;

    fn summarize(&self) -> (r: String)
        ensures
            r@ == self.summary_line(),
    ;
}

impl NewsArticle {
    pub fn new(headline: String, location: String, author: String, content: String) -> (r: Self)
        ensures
            r.headline@ == headline@,
            r.location@ == location@,
            r.author@ == author@,
            r.content@ == content@,
    {
        Self { headline, location, author, content }
    }
}

impl Tweet {
    /// A tweet that is neither a reply nor a retweet.
    pub fn new(username: String, content: String) -> (r: Self)
        ensures
            r.username@ == username@,
            r.content@ == content@,
            !r.reply,
            !r.retweet,
    {
        Self { username, content, reply: false, retweet: false }
    }
}

impl Summary for NewsArticle {
    /// `@author`.
    open spec fn author_line(&self) -> Seq<char> {
        "@"@ + self.author@
    }

    /// `headline, by author (location)`.
    open spec fn summary_line(&self) -> Seq<char> {
        self.headline@ + ", by "@ + self.author@ + " ("@ + self.location@ + ")"@
    }

    fn summarize_author(&self) -> (r: String) {
        let mut s = String::from_str("@");
        s.append(self.author.as_str());
        s
    }

    fn summarize(&self) -> (r: String) {
        let mut s = self.headline.clone();
        s.append(", by ");
        s.append(self.author.as_str());
        s.append(" (");
        s.append(self.location.as_str());
        s.append(")");
        s
    }
}

impl Summary for Tweet {
    /// `@username`.
    open spec fn author_line(&self) -> Seq<char> {
        "@"@ + self.username@
    }

    /// `username: content`.
    open spec fn summary_line(&self) -> Seq<char> {
        self.username@ + ": "@ + self.content@
    }

    fn summarize_author(&self) -> (r: String) {
        let mut s = String::from_str("@");
        s.append(self.username.as_str());
        s
    }

    fn summarize(&self) -> (r: String) {
        let mut s = self.username.clone();
        s.append(": ");
        s.append(self.content.as_str());
        s
    }
}

} // verus!
