//! A summary trait where each item type spells out its own one-line
//! summary in full.

use vstd::prelude::*;

verus! {

/// An item that can announce itself in one line.
pub trait Summary {
    /// The summary the item owes.
    spec fn spec_summary(&self) -> Seq<char>;

    /// The item's one-line summary, as a string.
    fn summarize(&self) -> (r: String)
        ensures
            r@ == self.spec_summary(),
    ;
}

/// A news story.
pub struct NewsArticle {
    pub headline: String,
    pub location: String,
    pub author: String,
    pub content: String,
}

impl Summary for NewsArticle {
    /// An article announces its headline, its author, and where it was
    /// written.
    open spec fn spec_summary(&self) -> Seq<char> {
        self.headline@ + ", by "@ + self.author@ + " ("@ + self.location@ + ")"@
    }

    fn summarize(&self) -> (r: String) {
        let mut s = self.headline.clone();
        s.append(", by ");
        s.append(self.author.as_str());
        s.append(" (");
        s.append(self.location.as_str());
        s.append(")");
        proof {
            assert(s@ =~= self.spec_summary());
        }
        s
    }
}

/// A short post by one user.
pub struct Tweet {
    pub username: String,
    pub content: String,
    pub reply: bool,
    pub retweet: bool,
}

impl Summary for Tweet {
    /// A tweet announces who posted what.
    open spec fn spec_summary(&self) -> Seq<char> {
        self.username@ + ": "@ + self.content@
    }

    fn summarize(&self) -> (r: String) {
        let mut s = self.username.clone();
        s.append(": ");
        s.append(self.content.as_str());
        proof {
            assert(s@ =~= self.spec_summary());
        }
        s
    }
}

} // verus!
