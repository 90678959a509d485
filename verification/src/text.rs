//! Splitting and joining of space-separated tokens.
//!
//! The simple query model stores its free-text terms as a list; user input
//! arrives as one string and is split on single spaces, and the compiled
//! filter expression joins tokens back together with single spaces.

use vstd::prelude::*;

verus! {

use vstd::string::StrSliceExecFns;
use vstd::string::StringExecFns;

/// The pieces of `s` between single space characters, empty pieces kept.
///
/// An empty input yields one empty piece, matching what splitting on a
/// separator character conventionally returns.
pub open spec fn split_spaces_spec(s: Seq<char>) -> Seq<Seq<char>>
    decreases s.len(),
{
    if s.len() == 0 {
        seq![Seq::<char>::empty()]
    } else if s[0] == ' ' {
        seq![Seq::<char>::empty()] + split_spaces_spec(s.drop_first())
    } else {
        let rest = split_spaces_spec(s.drop_first());
        seq![seq![s[0]] + rest[0]] + rest.drop_first()
    }
}

/// Splitting always yields at least one piece.
pub proof fn lemma_split_spaces_len(s: Seq<char>)
    ensures
        split_spaces_spec(s).len() >= 1,
    decreases s.len(),
{
    if s.len() != 0 {
        lemma_split_spaces_len(s.drop_first());
    }
}

/// Splits `s` on single space characters, keeping empty pieces.
pub fn split_spaces(s: &str) -> (r: Vec<String>)
    ensures
        r@.map_values(|t: String| t@) == split_spaces_spec(s@),
    decreases s@.len(),
{
    let n = s.unicode_len();
    if n == 0 {
        let mut r: Vec<String> = Vec::new();
        r.push(String::new());
        assert(r@.map_values(|t: String| t@) =~= split_spaces_spec(s@));
        r
    } else {
        let c = s.get_char(0);
        let rest = s.substring_char(1, n);
        assert(rest@ =~= s@.drop_first());
        let mut r = split_spaces(rest);
        proof {
            lemma_split_spaces_len(s@.drop_first());
        }
        if c == ' ' {
            r.insert(0, String::new());
            assert(r@.map_values(|t: String| t@) =~= split_spaces_spec(s@));
            r
        } else {
            let head = s.substring_char(0, 1);
            assert(head@ =~= seq![s@[0]]);
            let first = r.remove(0);
            let first = head.to_owned().concat(first.as_str());
            r.insert(0, first);
            assert(r@.map_values(|t: String| t@) =~= split_spaces_spec(s@));
            r
        }
    }
}

/// The tokens of `ts` joined with one space between consecutive tokens.
pub open spec fn join_spaces_spec(ts: Seq<Seq<char>>) -> Seq<char>
    decreases ts.len(),
{
    if ts.len() == 0 {
        Seq::<char>::empty()
    } else if ts.len() == 1 {
        ts[0]
    } else {
        join_spaces_spec(ts.drop_last()) + seq![' '] + ts.last()
    }
}

/// Joins the tokens with single spaces.
pub fn join_spaces(ts: &Vec<String>) -> (r: String)
    ensures
        r@ == join_spaces_spec(ts@.map_values(|t: String| t@)),
{
    let ghost views = ts@.map_values(|t: String| t@);
    let mut r = String::new();
    let mut i: usize = 0;
    while i < ts.len()
        invariant
            i <= ts.len(),
            views == ts@.map_values(|t: String| t@),
            r@ == join_spaces_spec(views.take(i as int)),
        decreases ts.len() - i,
    {
        if i > 0 {
            r.append(" ");
        }
        r.append(ts[i].as_str());
        proof {
            reveal_strlit(" ");
            assert(" "@ =~= seq![' ']);
            assert(views.take(i + 1).drop_last() =~= views.take(i as int));
            assert(views.take(i + 1).last() == views[i as int]);
        }
        i = i + 1;
    }
    proof {
        assert(views.take(ts@.len() as int) =~= views);
    }
    r
}

} // verus!
