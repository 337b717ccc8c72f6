//! Text helpers over `&str`, specified on the character sequence of a string.

use vstd::prelude::*;
use vstd::std_specs::iter::IteratorSpec;
use vstd::string::*;

verus! {

/// `prefix` is an initial segment of `s`.
pub open spec fn is_prefix(prefix: Seq<char>, s: Seq<char>) -> bool {
    prefix.len() <= s.len() && s.subrange(0, prefix.len() as int) == prefix
}

/// `suffix` is a final segment of `s`.
pub open spec fn is_suffix(suffix: Seq<char>, s: Seq<char>) -> bool {
    suffix.len() <= s.len() && s.subrange(s.len() - suffix.len(), s.len() as int) == suffix
}

/// Lexicographic order on character sequences, characters compared by code
/// point; a proper prefix comes before its extensions.
pub open spec fn lex_le(a: Seq<char>, b: Seq<char>) -> bool
    decreases a.len(),
{
    if a.len() == 0 {
        true
    } else if b.len() == 0 {
        false
    } else if a[0] != b[0] {
        (a[0] as u32) < (b[0] as u32)
    } else {
        lex_le(a.drop_first(), b.drop_first())
    }
}

/// Every sequence is at most itself.
pub proof fn lex_le_reflexive(a: Seq<char>)
    ensures
        lex_le(a, a),
    decreases a.len(),
{
    if a.len() > 0 {
        lex_le_reflexive(a.drop_first());
    }
}

/// Of two sequences one is at most the other.
pub proof fn lex_le_total(a: Seq<char>, b: Seq<char>)
    ensures
        lex_le(a, b) || lex_le(b, a),
    decreases a.len(),
{
    if a.len() > 0 && b.len() > 0 {
        if a[0] == b[0] {
            lex_le_total(a.drop_first(), b.drop_first());
        } else {
            vstd::utf8::char_u32_cast(a[0], a[0] as u32);
            vstd::utf8::char_u32_cast(b[0], b[0] as u32);
        }
    }
}

/// The order is transitive.
pub proof fn lex_le_transitive(a: Seq<char>, b: Seq<char>, c: Seq<char>)
    requires
        lex_le(a, b),
        lex_le(b, c),
    ensures
        lex_le(a, c),
    decreases a.len(),
{
    if a.len() > 0 && b.len() > 0 && c.len() > 0 && a[0] == b[0] && b[0] == c[0] {
        lex_le_transitive(a.drop_first(), b.drop_first(), c.drop_first());
    }
}

/// Two sequences that are each at most the other are the same sequence.
pub proof fn lex_le_antisymmetric(a: Seq<char>, b: Seq<char>)
    requires
        lex_le(a, b),
        lex_le(b, a),
    ensures
        a == b,
    decreases a.len(),
{
    if a.len() > 0 && b.len() > 0 {
        lex_le_antisymmetric(a.drop_first(), b.drop_first());
        assert(a =~= seq![a[0]] + a.drop_first());
        assert(b =~= seq![b[0]] + b.drop_first());
    } else {
        assert(a =~= b);
    }
}

/// The number of characters in `s`.
pub fn char_count(s: &str) -> (n: usize)
    ensures
        n == s@.len(),
{
    s.unicode_len()
}

/// Whether `s` begins with `prefix`.
pub fn starts_with(s: &str, prefix: &str) -> (r: bool)
    ensures
        r == is_prefix(prefix@, s@),
{
    let mut rest = s.chars();
    let mut wanted = prefix.chars();
    let ghost mut seen: int = 0;
    loop
        invariant
            rest.obeys_prophetic_iter_laws(),
            wanted.obeys_prophetic_iter_laws(),
            wanted.decrease() is Some,
            0 <= seen <= s@.len(),
            seen <= prefix@.len(),
            s@.subrange(0, seen) == prefix@.subrange(0, seen),
            s@.subrange(seen, s@.len() as int) == rest.remaining(),
            prefix@.subrange(seen, prefix@.len() as int) == wanted.remaining(),
        decreases wanted.decrease()->0,
    {
        match wanted.next() {
            None => {
                assert(prefix@.subrange(0, seen) =~= prefix@);
                return true;
            },
            Some(p) => {
                assert(p == prefix@[seen]);
                match rest.next() {
                    None => {
                        return false;
                    },
                    Some(c) => {
                        assert(c == s@[seen]);
                        if c != p {
                            assert(!is_prefix(prefix@, s@)) by {
                                if is_prefix(prefix@, s@) {
                                    assert(s@.subrange(0, prefix@.len() as int)[seen]
                                        == prefix@[seen]);
                                }
                            }
                            return false;
                        }
                        proof {
                            assert(s@.subrange(0, seen + 1) =~= s@.subrange(0, seen).push(c));
                            assert(prefix@.subrange(0, seen + 1) =~= prefix@.subrange(
                                0,
                                seen,
                            ).push(p));
                            assert(s@.subrange(seen + 1, s@.len() as int) =~= s@.subrange(
                                seen,
                                s@.len() as int,
                            ).drop_first());
                            assert(prefix@.subrange(seen + 1, prefix@.len() as int)
                                =~= prefix@.subrange(seen, prefix@.len() as int).drop_first());
                            seen = seen + 1;
                        }
                    },
                }
            },
        }
    }
}

/// `s` without its leading `prefix`, if it begins with one.
pub fn strip_prefix(s: &str, prefix: &str) -> (r: Option<String>)
    ensures
        r is Some == is_prefix(prefix@, s@),
        r matches Some(rest) ==> rest@ == s@.skip(prefix@.len() as int),
        r matches Some(rest) ==> prefix@ + rest@ == s@,
{
    if starts_with(s, prefix) {
        let from = char_count(prefix);
        let to = char_count(s);
        let rest = String::from_str(s.substring_char(from, to));
        assert(rest@ =~= s@.skip(prefix@.len() as int));
        assert(prefix@ + rest@ =~= s@);
        Some(rest)
    } else {
        None
    }
}

/// Whether `s` ends with `suffix`.
pub fn ends_with(s: &str, suffix: &str) -> (r: bool)
    ensures
        r == is_suffix(suffix@, s@),
{
    let n = char_count(s);
    let k = char_count(suffix);
    if k > n {
        return false;
    }
    let tail = s.substring_char(n - k, n);
    let r = starts_with(tail, suffix);
    proof {
        if r {
            assert(tail@.subrange(0, k as int) =~= tail@);
        } else if is_suffix(suffix@, s@) {
            assert(tail@.subrange(0, k as int) =~= tail@);
        }
    }
    r
}

/// Whether `a` comes before `b`, or equals it, in lexicographic order.
pub fn precedes(a: &str, b: &str) -> (r: bool)
    ensures
        r == lex_le(a@, b@),
{
    let mut left = a.chars();
    let mut right = b.chars();
    let ghost mut seen: int = 0;
    loop
        invariant
            left.obeys_prophetic_iter_laws(),
            right.obeys_prophetic_iter_laws(),
            left.decrease() is Some,
            0 <= seen <= a@.len(),
            seen <= b@.len(),
            a@.skip(seen) == left.remaining(),
            b@.skip(seen) == right.remaining(),
            lex_le(a@, b@) == lex_le(a@.skip(seen), b@.skip(seen)),
        decreases left.decrease()->0,
    {
        match left.next() {
            None => {
                return true;
            },
            Some(x) => {
                match right.next() {
                    None => {
                        return false;
                    },
                    Some(y) => {
                        if x != y {
                            return (x as u32) < (y as u32);
                        }
                        proof {
                            assert(a@.skip(seen + 1) =~= a@.skip(seen).drop_first());
                            assert(b@.skip(seen + 1) =~= b@.skip(seen).drop_first());
                            seen = seen + 1;
                        }
                    },
                }
            },
        }
    }
}

} // verus!
