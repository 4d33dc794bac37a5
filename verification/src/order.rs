//! Lexicographic comparison of guesses against the secret word.
//!
//! Every guess is answered with one of three replies, determined by
//! codepoint-wise lexicographic order — the same total order that standard
//! string comparison uses.  The order is defined once as a spec function,
//! the executable comparison is proved against it, and the total-order laws
//! that make binary-searching for the secret word terminate are proved below.

use vstd::prelude::*;
use vstd::string::StrSliceExecFns;

verus! {

/// The single-character reply sent after a guess: the guess sorts before,
/// after, or equal to the secret word.
#[derive(Clone, Copy, Debug, PartialEq, Eq, Structural)]
pub enum Reply {
    Less,
    Greater,
    Equal,
}

/// Codepoint-wise lexicographic comparison of two character sequences: the
/// order in which standard string comparison places them.
pub open spec fn seq_cmp(a: Seq<char>, b: Seq<char>) -> Reply
    decreases a.len(),
{
    if a.len() == 0 && b.len() == 0 {
        Reply::Equal
    } else if a.len() == 0 {
        Reply::Less
    } else if b.len() == 0 {
        Reply::Greater
    } else if (a[0] as int) < (b[0] as int) {
        Reply::Less
    } else if (b[0] as int) < (a[0] as int) {
        Reply::Greater
    } else {
        seq_cmp(a.drop_first(), b.drop_first())
    }
}

/// Compares two words in codepoint-wise lexicographic order.
pub fn compare_words(a: &str, b: &str) -> (r: Reply)
    ensures
        r == seq_cmp(a@, b@),
{
    let a_len = a.unicode_len();
    let b_len = b.unicode_len();
    let mut i: usize = 0;
    assert(a@.skip(0) =~= a@);
    assert(b@.skip(0) =~= b@);
    loop
        invariant
            i <= a_len,
            i <= b_len,
            a_len == a@.len(),
            b_len == b@.len(),
            seq_cmp(a@, b@) == seq_cmp(a@.skip(i as int), b@.skip(i as int)),
        decreases a_len - i,
    {
        if i == a_len && i == b_len {
            return Reply::Equal;
        } else if i == a_len {
            return Reply::Less;
        } else if i == b_len {
            return Reply::Greater;
        } else {
            let ca = a.get_char(i);
            let cb = b.get_char(i);
            if (ca as u32) < (cb as u32) {
                return Reply::Less;
            } else if (cb as u32) < (ca as u32) {
                return Reply::Greater;
            }
            assert(a@.skip(i as int).drop_first() =~= a@.skip(i as int + 1));
            assert(b@.skip(i as int).drop_first() =~= b@.skip(i as int + 1));
            i = i + 1;
        }
    }
}

/// The comparison answers `Equal` exactly on equal sequences: a session can
/// end in success only on the secret word itself.
pub proof fn lemma_seq_cmp_equal_iff(a: Seq<char>, b: Seq<char>)
    ensures
        seq_cmp(a, b) is Equal <==> a == b,
    decreases a.len(),
{
    if a.len() == 0 && b.len() == 0 {
        assert(a =~= b);
    } else if a.len() > 0 && b.len() > 0 && a[0] == b[0] {
        lemma_seq_cmp_equal_iff(a.drop_first(), b.drop_first());
        if seq_cmp(a, b) is Equal {
            assert(a =~= Seq::empty().push(a[0]) + a.drop_first());
            assert(b =~= Seq::empty().push(b[0]) + b.drop_first());
            assert(a =~= b);
        }
        if a == b {
            assert(a.drop_first() =~= b.drop_first());
        }
    } else {
        if a == b {
            assert(a.len() == b.len());
            if a.len() > 0 {
                assert(a[0] == b[0]);
            }
        }
    }
}

/// The comparison is antisymmetric: swapping the operands swaps `Less` and
/// `Greater`, so both endpoints of a search see one consistent order.
pub proof fn lemma_seq_cmp_antisymmetric(a: Seq<char>, b: Seq<char>)
    ensures
        seq_cmp(a, b) is Less <==> seq_cmp(b, a) is Greater,
        seq_cmp(a, b) is Equal <==> seq_cmp(b, a) is Equal,
    decreases a.len(),
{
    if a.len() > 0 && b.len() > 0 && a[0] == b[0] {
        lemma_seq_cmp_antisymmetric(a.drop_first(), b.drop_first());
    }
}

/// The comparison is transitive in `Less`, the law that lets a guess
/// sequence narrow an interval around the secret word.
pub proof fn lemma_seq_cmp_transitive(a: Seq<char>, b: Seq<char>, c: Seq<char>)
    requires
        seq_cmp(a, b) is Less,
        seq_cmp(b, c) is Less,
    ensures
        seq_cmp(a, c) is Less,
    decreases a.len(),
{
    assert(b.len() > 0);
    assert(c.len() > 0);
    if a.len() > 0 {
        if (a[0] as int) < (b[0] as int) || (b[0] as int) < (c[0] as int) {
            assert((a[0] as int) < (c[0] as int));
        } else {
            assert(a[0] == b[0] && b[0] == c[0]);
            lemma_seq_cmp_transitive(a.drop_first(), b.drop_first(), c.drop_first());
        }
    }
}

} // verus!
