//! Summarizable items: a trait whose default summary credits the author,
//! and two item types, one of which supplies only its author tag.

use vstd::prelude::*;

verus! {

/// An item that can announce itself in one line.
pub trait Summary {
    /// The item's author tag.
    spec fn spec_author(&self) -> Seq<char>;

    /// The item's author tag, as a string.
    fn summarize_author(&self) -> (r: String)
        ensures
            r@ == self.spec_author(),
    ;

    /// A one-line summary; by default it only credits the author.
    fn summarize(&self) -> (r: String)
        ensures
            r@ == "(Read more from "@ + self.spec_author() + "...)"@,
    {
        let mut s = String::from_str("(Read more from ");
        let author = self.summarize_author();
        s.append(author.as_str());
        s.append("...)");
        proof {
            assert(s@ =~= "(Read more from "@ + self.spec_author() + "...)"@);
        }
        s
    }
}

/// A news story.
pub struct NewsArticle {
    pub headline: String,
    pub location: String,
    pub author: String,
    pub content: String,
}

/// A short post by one user.
pub struct Tweet {
    pub username: String,
    pub content: String,
    pub reply: bool,
    pub retweet: bool,
}

impl Summary for Tweet {
    /// A tweet's author tag is its username behind an at sign.
    open spec fn spec_author(&self) -> Seq<char> {
        "@"@ + self.username@
    }

    fn summarize_author(&self) -> (r: String) {
        let mut s = String::from_str("@");
        s.append(self.username.as_str());
        proof {
            assert(s@ =~= "@"@ + self.username@);
        }
        s
    }
}

} // verus!
