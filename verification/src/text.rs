//! Building of every protocol and telemetry line, and the arithmetic behind
//! the elapsed-time report.
//!
//! Times are carried as microsecond counts read from a monotonic clock by the
//! surrounding process; the report prints elapsed milliseconds with exactly
//! three decimal places, which microsecond precision represents exactly.

use vstd::prelude::*;
use vstd::string::StringExecFns;
use crate::order::Reply;

verus! {

/// The characters that `str::trim` leaves of a line: its leading and
/// trailing whitespace removed.  Which characters count as whitespace is a
/// Unicode property, so the result is named rather than written out.
pub uninterp spec fn trimmed_of(s: Seq<char>) -> Seq<char>;

/// Relies on str::trim: a sub-slice of the input with leading and trailing
/// whitespace removed, a function of the characters alone.
#[verifier::external_body]
pub(crate) fn trim_line(s: &str) -> (r: &str)
    ensures
        r@ == trimmed_of(s@),
        r@.len() <= s@.len(),
{
    s.trim()
}

/// The decimal digit character for `d`.
pub open spec fn digit_char(d: nat) -> char
    recommends
        d < 10,
{
    ((48 + d) as u8) as char
}

/// The decimal numeral for `n`: most significant digit first, no leading
/// zeros except on zero itself.
pub open spec fn spec_decimal(n: nat) -> Seq<char>
    decreases n,
{
    if n < 10 {
        seq![digit_char(n)]
    } else {
        spec_decimal(n / 10).push(digit_char(n % 10))
    }
}

/// The three-digit, zero-padded numeral for a fraction `f` of a thousand.
pub open spec fn spec_frac3(f: nat) -> Seq<char>
    recommends
        f < 1000,
{
    seq![digit_char(f / 100), digit_char((f / 10) % 10), digit_char(f % 10)]
}

/// A microsecond count rendered as milliseconds with exactly three decimal
/// places.
pub open spec fn spec_millis_text(us: nat) -> Seq<char> {
    spec_decimal(us / 1000) + seq!['.'] + spec_frac3(us % 1000)
}

fn digit_str(d: u64) -> (r: &'static str)
    requires
        d < 10,
    ensures
        r@ == seq![digit_char(d as nat)],
{
    let r: &'static str = if d == 0 {
        "0"
    } else if d == 1 {
        "1"
    } else if d == 2 {
        "2"
    } else if d == 3 {
        "3"
    } else if d == 4 {
        "4"
    } else if d == 5 {
        "5"
    } else if d == 6 {
        "6"
    } else if d == 7 {
        "7"
    } else if d == 8 {
        "8"
    } else {
        "9"
    };
    proof {
        reveal_strlit("0");
        reveal_strlit("1");
        reveal_strlit("2");
        reveal_strlit("3");
        reveal_strlit("4");
        reveal_strlit("5");
        reveal_strlit("6");
        reveal_strlit("7");
        reveal_strlit("8");
        reveal_strlit("9");
        assert(r@ =~= seq![digit_char(d as nat)]);
    }
    r
}

/// Renders `n` as its decimal numeral.
pub fn u64_to_decimal(n: u64) -> (r: String)
    ensures
        r@ == spec_decimal(n as nat),
    decreases n,
{
    if n < 10 {
        String::from_str(digit_str(n))
    } else {
        let mut s = u64_to_decimal(n / 10);
        s.append(digit_str(n % 10));
        proof {
            assert(s@ =~= spec_decimal(n as nat));
        }
        s
    }
}

/// The elapsed time between two monotonic-clock readings, in microseconds.
/// The result is never negative: it is exactly the distance from start to
/// end.
pub fn elapsed_micros(start_us: u64, end_us: u64) -> (r: u64)
    requires
        start_us <= end_us,
    ensures
        r == end_us - start_us,
{
    end_us - start_us
}

/// Elapsed time monotonically reflects the clock: of two readings taken
/// after the same start, the later one yields the larger (or equal) elapsed
/// time, and every elapsed time is at least zero.
pub proof fn lemma_elapsed_monotonic(start_us: u64, end1_us: u64, end2_us: u64)
    requires
        start_us <= end1_us <= end2_us,
    ensures
        end1_us - start_us <= end2_us - start_us,
        end1_us - start_us >= 0,
{
}

/// Renders a microsecond count as milliseconds with three decimal places.
pub fn format_millis(us: u64) -> (r: String)
    ensures
        r@ == spec_millis_text(us as nat),
{
    let mut s = u64_to_decimal(us / 1000);
    let frac: u64 = us % 1000;
    s.append(".");
    s.append(digit_str(frac / 100));
    s.append(digit_str((frac / 10) % 10));
    s.append(digit_str(frac % 10));
    proof {
        reveal_strlit(".");
        assert(s@ =~= spec_millis_text(us as nat));
    }
    s
}

/// The literal handshake prompt that opens every session.
pub open spec fn spec_handshake_prompt() -> Seq<char> {
    "TWITTER HANDLE PLZ"@
}

/// Returns the handshake prompt line.
pub fn handshake_prompt() -> (r: &'static str)
    ensures
        r@ == spec_handshake_prompt(),
{
    "TWITTER HANDLE PLZ"
}

/// The announce line greeting `identity`.
pub open spec fn spec_begin_message(identity: Seq<char>) -> Seq<char> {
    "HELLO "@ + identity + "; BEGIN GUESSING THE WORD"@
}

/// Builds the announce line greeting `identity`.
pub fn begin_message(identity: &str) -> (r: String)
    ensures
        r@ == spec_begin_message(identity@),
{
    let mut s = String::from_str("HELLO ");
    s.append(identity);
    s.append("; BEGIN GUESSING THE WORD");
    proof {
        assert(s@ =~= spec_begin_message(identity@));
    }
    s
}

/// The telemetry line logging which secret word a session was assigned.
pub open spec fn spec_word_line(remote: Seq<char>, identity: Seq<char>, word: Seq<char>) -> Seq<
    char,
> {
    "["@ + remote + " | "@ + identity + "] WORD "@ + word
}

/// Builds the telemetry line logging the assigned secret word.
pub fn word_line(remote: &str, identity: &str, word: &str) -> (r: String)
    ensures
        r@ == spec_word_line(remote@, identity@, word@),
{
    let mut s = String::from_str("[");
    s.append(remote);
    s.append(" | ");
    s.append(identity);
    s.append("] WORD ");
    s.append(word);
    proof {
        assert(s@ =~= spec_word_line(remote@, identity@, word@));
    }
    s
}

/// The outcome label of a finished session.
pub open spec fn spec_outcome_label(success: bool) -> Seq<char> {
    if success {
        "SUCCESS"@
    } else {
        "FAIL"@
    }
}

/// Returns the outcome label of a finished session.
pub fn outcome_label(success: bool) -> (r: &'static str)
    ensures
        r@ == spec_outcome_label(success),
{
    if success {
        "SUCCESS"
    } else {
        "FAIL"
    }
}

/// The terminal telemetry line: peer address, identity, outcome label, and
/// elapsed milliseconds to three decimal places.
pub open spec fn spec_report_line(
    remote: Seq<char>,
    identity: Seq<char>,
    success: bool,
    elapsed_us: nat,
) -> Seq<char> {
    "["@ + remote + " | "@ + identity + "] "@ + spec_outcome_label(success) + " TIME "@
        + spec_millis_text(elapsed_us)
}

/// Builds the terminal telemetry line.
pub fn report_line(remote: &str, identity: &str, success: bool, elapsed_us: u64) -> (r: String)
    ensures
        r@ == spec_report_line(remote@, identity@, success, elapsed_us as nat),
{
    let mut s = String::from_str("[");
    s.append(remote);
    s.append(" | ");
    s.append(identity);
    s.append("] ");
    s.append(outcome_label(success));
    s.append(" TIME ");
    let millis = format_millis(elapsed_us);
    s.append(millis.as_str());
    proof {
        assert(s@ =~= spec_report_line(remote@, identity@, success, elapsed_us as nat));
    }
    s
}

/// The single-character reply text for a comparison outcome.
pub open spec fn spec_reply_text(r: Reply) -> Seq<char> {
    match r {
        Reply::Less => "<"@,
        Reply::Greater => ">"@,
        Reply::Equal => "="@,
    }
}

/// Returns the single-character reply text for a comparison outcome.
pub fn reply_text(r: Reply) -> (t: &'static str)
    ensures
        t@ == spec_reply_text(r),
{
    match r {
        Reply::Less => "<",
        Reply::Greater => ">",
        Reply::Equal => "=",
    }
}

} // verus!
