//! Query construction for the scraping backend.
//!
//! The backend's query grammar cannot ask for "the tweet with exactly
//! this id"; the pipeline brackets the id instead (`since_id:id-1
//! max_id:id`) and adds a safe-content predicate, because a bare id-range
//! query is rejected.  The complementary query with the predicate
//! inverted covers tweets flagged sensitive.

use vstd::prelude::*;
use vstd::string::StringExecFns;

verus! {

/// The character for one decimal digit.
pub open spec fn digit_char(d: int) -> char {
    if d == 0 {
        '0'
    } else if d == 1 {
        '1'
    } else if d == 2 {
        '2'
    } else if d == 3 {
        '3'
    } else if d == 4 {
        '4'
    } else if d == 5 {
        '5'
    } else if d == 6 {
        '6'
    } else if d == 7 {
        '7'
    } else if d == 8 {
        '8'
    } else {
        '9'
    }
}

/// Decimal representation of a nonnegative integer, most significant
/// digit first, without leading zeros (except for zero itself).
pub open spec fn dec_seq(n: int) -> Seq<char>
    decreases n,
{
    if n < 10 {
        seq![digit_char(n)]
    } else {
        dec_seq(n / 10) + seq![digit_char(n % 10)]
    }
}

/// The text of an id-bracketing query: `since_id:<before> max_id:<id>`
/// followed by the safe-content predicate, or its inversion.
pub open spec fn spec_query(before: int, id: int, safe: bool) -> Seq<char> {
    "since_id:"@ + dec_seq(before) + " max_id:"@ + dec_seq(id) + (if safe {
        " filter:safe"@
    } else {
        " -filter:safe"@
    })
}

fn push_digit(s: &mut String, d: u128)
    requires
        d < 10,
    ensures
        final(s)@ == old(s)@ + seq![digit_char(d as int)],
{
    proof {
        reveal_strlit("0");
        reveal_strlit("1");
        reveal_strlit("2");
        reveal_strlit("3");
        reveal_strlit("4");
        reveal_strlit("5");
        reveal_strlit("6");
        reveal_strlit("7");
        reveal_strlit("8");
        reveal_strlit("9");
        assert("0"@ =~= seq![digit_char(0)]);
        assert("1"@ =~= seq![digit_char(1)]);
        assert("2"@ =~= seq![digit_char(2)]);
        assert("3"@ =~= seq![digit_char(3)]);
        assert("4"@ =~= seq![digit_char(4)]);
        assert("5"@ =~= seq![digit_char(5)]);
        assert("6"@ =~= seq![digit_char(6)]);
        assert("7"@ =~= seq![digit_char(7)]);
        assert("8"@ =~= seq![digit_char(8)]);
        assert("9"@ =~= seq![digit_char(9)]);
    }
    if d == 0 {
        s.append("0");
    } else if d == 1 {
        s.append("1");
    } else if d == 2 {
        s.append("2");
    } else if d == 3 {
        s.append("3");
    } else if d == 4 {
        s.append("4");
    } else if d == 5 {
        s.append("5");
    } else if d == 6 {
        s.append("6");
    } else if d == 7 {
        s.append("7");
    } else if d == 8 {
        s.append("8");
    } else {
        s.append("9");
    }
}

/// Append the decimal rendering of `n` to `s`.
pub fn push_dec(s: &mut String, n: u128)
    ensures
        final(s)@ == old(s)@ + dec_seq(n as int),
    decreases n,
{
    if n < 10 {
        push_digit(s, n);
    } else {
        push_dec(s, n / 10);
        push_digit(s, n % 10);
        proof {
            assert(old(s)@ + dec_seq(n as int / 10) + seq![digit_char(n as int % 10)] =~= old(
                s,
            )@ + dec_seq(n as int));
        }
    }
}

/// Build the query text for the id range `(before, id]` with the given
/// safety predicate.
pub fn build_query(before: u128, id: u128, safe: bool) -> (r: String)
    ensures
        r@ == spec_query(before as int, id as int, safe),
{
    let mut q = String::new();
    q.append("since_id:");
    push_dec(&mut q, before);
    q.append(" max_id:");
    push_dec(&mut q, id);
    if safe {
        q.append(" filter:safe");
    } else {
        q.append(" -filter:safe");
    }
    proof {
        assert(q@ =~= spec_query(before as int, id as int, safe));
    }
    q
}

} // verus!

