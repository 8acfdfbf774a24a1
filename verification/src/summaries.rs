//! A media aggregator's view of its sources: anything that can summarize
//! itself can be displayed, and a default summary is there for types that
//! give none of their own.

use vstd::prelude::*;
use vstd::string::StringExecFns;

verus! {

/// A summary with a stock default: every implementor that keeps the default
/// answers "Read more...".
pub trait Summary {
    fn summarize(&self) -> (r: String)
        ensures
            r@ == "Read more..."@,
    {
        String::from_str("Read more...")
    }
}

/// A summary built around the author: implementors say who wrote the piece,
/// and the default summary points the reader at that author.
pub trait Summary2 {
    /// Who the piece is by, as the summary line shows it.
    spec fn spec_author(&self) -> Seq<char>;

    fn summarize_author(&self) -> (r: String)
        ensures
            r@ == self.spec_author(),
    ;

    fn summarize(&self) -> (r: String)
        ensures
            r@ == "Read more from "@ + self.spec_author() + "..."@,
    {
        let author = self.summarize_author();
        let mut s = String::from_str("Read more from ");
        s.append(author.as_str());
        s.append("...");
        s
    }
}

/// A news story with its byline and location.
pub struct NewsArticle {
    pub headline: String,
    pub location: String,
    pub author: String,
    pub content: String,
}

impl Summary for NewsArticle {
}

/// A short post with its metadata.
pub struct Tweet {
    pub username: String,
    pub content: String,
    pub reply: bool,
    pub retweet: bool,
}

impl Summary2 for Tweet {
    /// A tweet is credited to "@" followed by the user's name.
    open spec fn spec_author(&self) -> Seq<char> {
        "@"@ + self.username@
    }

    fn summarize_author(&self) -> (r: String) {
        let mut s = String::from_str("@");
        s.append(self.username.as_str());
        s
    }
}

} // verus!
