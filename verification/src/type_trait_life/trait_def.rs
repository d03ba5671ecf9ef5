use vstd::prelude::*;
use vstd::string::StringExecFns;

verus! {

// A trait declares shared behaviour; every implementor provides the method
// bodies, and a default body may stand in. Here each implementor also says,
// as a specification, what its summary holds, so that the executable
// `summarize` can be held to it.

/// Behaviour shared by anything that can be summarized.
pub trait Summary {
    /// What the summary of this value reads, as a specification.
    spec fn spec_summary(&self) -> Seq<char>;

    /// Produces the summary line for this value.
    fn summarize(&self) -> (s: String)
        ensures
            s@ == self.spec_summary(),
    ;

    /// A default body: implementors may keep it or override it.
    fn print_content(&self) -> (s: String)
        ensures
            s@ == self.spec_summary(),
    {
        self.summarize()
    }
}

/// A news article: headline, location, author and body text.
pub struct NewsArticle {
    pub headline: String,
    pub location: String,
    pub author: String,
    pub content: String,
}

/// A short message: who wrote it, what it says, and what kind it is.
pub struct Tweet {
    pub username: String,
    pub content: String,
    pub reply: bool,
    pub retweet: bool,
}

impl Summary for NewsArticle {
    open spec fn spec_summary(&self) -> Seq<char> {
        self.headline@ + ", by "@ + self.author@ + " ("@ + self.location@ + ")"@
    }

    fn summarize(&self) -> (s: String) {
        let mut s = self.headline.clone();
        s.append(", by ");
        s.append(self.author.as_str());
        s.append(" (");
        s.append(self.location.as_str());
        s.append(")");
        s
    }
}

impl Summary for Tweet {
    open spec fn spec_summary(&self) -> Seq<char> {
        self.username@
    }

    fn summarize(&self) -> (s: String) {
        self.username.clone()
    }
}

impl Tweet {
    /// Builds a fresh tweet: neither a reply nor a retweet.
    pub fn new(username: String, content: String) -> (t: Tweet)
        ensures
            t.username == username,
            t.content == content,
            !t.reply,
            !t.retweet,
    {
        Tweet { username, content, reply: false, retweet: false }
    }
}

/// The news line for any summarizable item.
pub fn notify(item: &impl Summary) -> (line: String)
    ensures
        line@ == "Breaking news! "@ + item.spec_summary(),
{
    let mut line = "Breaking news! ".to_owned();
    line.append(item.summarize().as_str());
    line
}

/// The same news line, with the bound written out as a trait bound.
pub fn notify_bound<T: Summary>(item: &T) -> (line: String)
    ensures
        line@ == "Breaking news! "@ + item.spec_summary(),
{
    let mut line = "Breaking news! ".to_owned();
    line.append(item.summarize().as_str());
    line
}

/// Builds a tweet and passes it through both notifier forms.
pub fn trait_as_param() {
    let tweet = Tweet::new(
        "horse_ebooks".to_owned(),
        "of course, as you probably already know, people".to_owned(),
    );
    let line = notify(&tweet);
    let line_bound = notify_bound(&tweet);
    assert(line@ == line_bound@);
}

/// Returns some implementor of `Summary`, leaving the concrete type out of
/// the signature.
pub fn returns_summarizable() -> (t: impl Summary) {
    Tweet {
        username: "horse_ebooks".to_owned(),
        content: "of course, as you probably already know, people".to_owned(),
        reply: false,
        retweet: false,
    }
}

/// A pair of two values of one type.
pub struct Pair<T> {
    pub x: T,
    pub y: T,
}

impl<T> Pair<T> {
    /// Packs the two values into a pair.
    pub fn new(x: T, y: T) -> (p: Pair<T>)
        ensures
            p.x == x,
            p.y == y,
    {
        Self { x, y }
    }
}

} // verus!
