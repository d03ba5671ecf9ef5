use vstd::prelude::*;
use vstd::string::StrSliceExecFns;

use crate::ownership::first_word_len;
use crate::ownership::lemma_first_word_len;

verus! {

// Lifetimes relate borrows to what they borrow. The functions here return
// borrowed slices of their inputs; what each returned slice holds is stated
// exactly over the views of the inputs.

/// A borrow may carry the `'static` lifetime: string literals do, and the
/// elision rules fill in the rest of this module's signatures.
pub fn lifetime_demo() {
    lifetime_elision();
    let s: &'static str = "I have a static lifetime.";
}

/// A borrow must not outlive what it borrows; the borrow checker rejects
/// any use of a reference past its referent's scope.
pub fn first_demo() {
}

/// A borrow's scope runs from where it is taken to its last use.
pub fn borrow_checker() {
    let x: i32 = 5;
    let r = &x;
    assert(*r == 5);
}

/// Compares the two demonstration strings through `longest`.
pub fn cmp_str_len() {
    let a = "hello".to_owned();
    let b = "world".to_owned();
    let c = longest(a.as_str(), b.as_str());
    proof {
        reveal_strlit("hello");
        reveal_strlit("world");
    }
    assert(c@ == "world"@);
}

/// The longer of two borrowed strings, measured in characters; ties go to
/// the second. The returned borrow lives as long as the shorter-lived of
/// the two inputs.
pub fn longest<'a>(x: &'a str, y: &'a str) -> (r: &'a str)
    ensures
        r@ == if x@.len() > y@.len() {
            x@
        } else {
            y@
        },
{
    if x.unicode_len() > y.unicode_len() {
        x
    } else {
        y
    }
}

/// The length of the leading run of characters before the first period.
pub open spec fn first_sentence_len(s: Seq<char>) -> int
    decreases s.len(),
{
    if s.len() == 0 {
        0
    } else if s[0] == '.' {
        0
    } else {
        1 + first_sentence_len(s.drop_first())
    }
}

proof fn lemma_first_sentence_len(s: Seq<char>, i: int)
    requires
        0 <= i <= s.len(),
        forall|j: int| 0 <= j < i ==> s[j] != '.',
        i < s.len() ==> s[i] == '.',
    ensures
        first_sentence_len(s) == i,
    decreases s.len(),
{
    if i == 0 {
    } else {
        assert(s[0] != '.');
        lemma_first_sentence_len(s.drop_first(), i - 1);
    }
}

/// A structure holding a borrow must not outlive the borrow; its lifetime
/// parameter says so.
pub struct ImportantExcerpt<'a> {
    pub part: &'a str,
}

/// Splits the novel at its first period and keeps the first sentence in a
/// borrowing structure.
pub fn lifetime_struct() {
    let novel = "Call me Ishmael. Some years ago...".to_owned();
    let first_sentence = split_first_sentence(novel.as_str());
    let i = ImportantExcerpt { part: first_sentence };
    assert(i.part@ == novel@.subrange(0, first_sentence_len(novel@)));
}

/// Everything before the first period, or the whole string when it holds
/// no period.
pub fn split_first_sentence(s: &str) -> (sentence: &str)
    ensures
        sentence@ == s@.subrange(0, first_sentence_len(s@)),
{
    let len = s.unicode_len();
    let mut i: usize = 0;
    while i < len
        invariant
            i <= len,
            len == s@.len(),
            forall|j: int| 0 <= j < i ==> s@[j] != '.',
        decreases len - i,
    {
        if s.get_char(i) == '.' {
            proof {
                lemma_first_sentence_len(s@, i as int);
            }
            return s.substring_char(0, i);
        }
        i = i + 1;
    }
    proof {
        lemma_first_sentence_len(s@, len as int);
        assert(s@.subrange(0, len as int) =~= s@);
    }
    s
}

/// The elision rules give the one input borrow's lifetime to the output.
pub fn lifetime_elision() {
    let s = "hello world".to_owned();
    proof {
        reveal_strlit("hello world");
    }
    let prefix = s.as_str().substring_char(0, 6);
    let word = first_word(prefix);
}

/// The first word of a borrowed string: everything before the first space,
/// or the whole string when it holds no space.
pub fn first_word(s: &str) -> (word: &str)
    ensures
        word@ == s@.subrange(0, first_word_len(s@)),
{
    let len = s.unicode_len();
    let mut i: usize = 0;
    while i < len
        invariant
            i <= len,
            len == s@.len(),
            forall|j: int| 0 <= j < i ==> s@[j] != ' ',
        decreases len - i,
    {
        if s.get_char(i) == ' ' {
            proof {
                lemma_first_word_len(s@, i as int);
            }
            return s.substring_char(0, i);
        }
        i = i + 1;
    }
    proof {
        lemma_first_word_len(s@, len as int);
        assert(s@.subrange(0, len as int) =~= s@);
    }
    s
}

impl<'a> ImportantExcerpt<'a> {
    /// The fixed importance level of an excerpt.
    pub fn level(&self) -> (l: i32)
        ensures
            l == 3,
    {
        3
    }

    /// Hands the held excerpt back; the elision rules tie the result to
    /// `self`, not to the announcement.
    pub fn announce_and_return_part(&self, announcement: &str) -> (part: &str)
        ensures
            part@ == self.part@,
    {
        self.part
    }
}

} // verus!
