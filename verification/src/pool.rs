//! The shared pool of candidate secret words.
//!
//! A pool is built once from the dictionary source and never mutated
//! afterwards, so any number of sessions may sample from it concurrently
//! through a shared reference.

use vstd::prelude::*;

verus! {

/// The error returned when a pool is built from an empty source: a pool with
/// zero words could not serve any session, so construction must fail fast.
#[derive(Debug)]
pub struct EmptyPoolError;

impl EmptyPoolError {
    /// A human-readable description of the failure, for the process to log.
    pub fn message(&self) -> (m: &'static str)
        ensures
            m@ == "cannot build a word pool from an empty source"@,
    {
        "cannot build a word pool from an empty source"
    }
}

/// An immutable, non-empty collection of candidate secret words.
pub struct WordPool {
    words: Vec<String>,
}

impl View for WordPool {
    type V = Seq<Seq<char>>;

    closed spec fn view(&self) -> Seq<Seq<char>> {
        self.words.deep_view()
    }
}

/// Relies on rand::random_range: a value drawn uniformly from the given
/// range.  It panics only on an empty range, which `requires` rules out;
/// nothing more can be promised of a random draw than its bounds.
#[verifier::external_body]
fn random_index_below(n: usize) -> (r: usize)
    requires
        n > 0,
    ensures
        r < n,
{
    rand::random_range(0..n)
}

impl WordPool {
    /// A pool is well-formed when it holds at least one word; construction
    /// guarantees this, and sampling depends on it.
    pub open spec fn wf(&self) -> bool {
        self@.len() > 0
    }

    /// Whether `w` is one of the pool's candidate words.
    pub open spec fn contains_word(&self, w: Seq<char>) -> bool {
        exists|i: int| 0 <= i < self@.len() && self@[i] == w
    }

    /// Wraps the source sequence for read-only sharing.  Fails if and only
    /// if the source is empty, so that an unusable pool can never exist.
    pub fn new(words: Vec<String>) -> (r: Result<WordPool, EmptyPoolError>)
        ensures
            r is Ok <==> words@.len() > 0,
            r matches Ok(p) ==> p@ == words.deep_view() && p.wf(),
    {
        if words.len() == 0 {
            Err(EmptyPoolError)
        } else {
            Ok(WordPool { words })
        }
    }

    /// How many candidate words the pool holds.
    pub fn word_count(&self) -> (n: usize)
        ensures
            n == self@.len(),
    {
        self.words.len()
    }

    /// Returns one word chosen by uniform-random index selection over the
    /// pool's length.  The result is always an element of the pool's own
    /// contents, never a synthesized value.
    pub fn sample(&self) -> (w: &String)
        requires
            self.wf(),
        ensures
            self.contains_word(w@),
    {
        let i = random_index_below(self.words.len());
        let w = &self.words[i];
        assert(self@[i as int] == w@);
        w
    }
}

} // verus!
