//! Detection of the interpreter's major.minor version from the output of
//! its version flag: the second whitespace-delimited token, truncated after
//! its second dot-separated component.

use vstd::prelude::*;
use crate::text::{find_first, is_space, is_space_char, lemma_find_first_bounds,
    lemma_find_first_is};

verus! {

/// The whitespace test as a function value, shared by every `find_first` use.
pub open spec fn space_pred() -> spec_fn(char) -> bool {
    |c: char| is_space_char(c)
}

/// The dot test as a function value, shared by every `find_first` use.
pub open spec fn dot_pred() -> spec_fn(char) -> bool {
    |c: char| c == '.'
}

/// The whitespace-delimited tokens of `s`, in order, each non-empty.
pub open spec fn tokens(s: Seq<char>) -> Seq<Seq<char>>
    decreases s.len(),
    via tokens_decreases
{
    if s.len() == 0 {
        Seq::empty()
    } else if is_space_char(s[0]) {
        tokens(s.drop_first())
    } else {
        let k = find_first(s, space_pred());
        seq![s.subrange(0, k)] + tokens(s.subrange(k, s.len() as int))
    }
}

#[via_fn]
proof fn tokens_decreases(s: Seq<char>) {
    if s.len() > 0 && !is_space_char(s[0]) {
        lemma_find_first_bounds(s, space_pred());
        assert(space_pred()(s[0]) == is_space_char(s[0]));
    }
}

/// Leading whitespace does not change the token list.
proof fn lemma_tokens_skip(s: Seq<char>, a: int)
    requires
        0 <= a <= s.len(),
        forall|j: int| 0 <= j < a ==> is_space_char(s[j]),
    ensures
        tokens(s) == tokens(s.subrange(a, s.len() as int)),
    decreases a,
{
    if a == 0 {
        assert(s.subrange(0, s.len() as int) =~= s);
    } else {
        lemma_tokens_skip(s.drop_first(), a - 1);
        assert(s.drop_first().subrange(a - 1, s.drop_first().len() as int) =~= s.subrange(
            a,
            s.len() as int,
        ));
    }
}

/// A maximal non-whitespace run at the front is the first token.
proof fn lemma_tokens_token(s: Seq<char>, b: int)
    requires
        0 < b <= s.len(),
        forall|j: int| 0 <= j < b ==> !is_space_char(s[j]),
        b < s.len() ==> is_space_char(s[b]),
    ensures
        tokens(s) == seq![s.subrange(0, b)] + tokens(s.subrange(b, s.len() as int)),
{
    assert forall|j: int| 0 <= j < b implies !space_pred()(s[j]) by {
        assert(space_pred()(s[j]) == is_space_char(s[j]));
    }
    if b < s.len() {
        assert(space_pred()(s[b]) == is_space_char(s[b]));
    }
    lemma_find_first_is(s, space_pred(), b);
}

/// The first two dot-separated components of `t`, joined back with a dot:
/// the prefix of `t` that ends before its second dot, or all of `t` when it
/// has fewer than two dots.
pub open spec fn two_part_prefix(t: Seq<char>) -> Seq<char> {
    let d1 = find_first(t, dot_pred());
    if d1 == t.len() {
        t
    } else {
        let d2 = find_first(t.subrange(d1 + 1, t.len() as int), dot_pred());
        t.subrange(0, d1 + 1 + d2)
    }
}

/// The major.minor version that a version-flag output reports: the second
/// whitespace-delimited token, truncated after its second dot-separated
/// component. `None` when the output has fewer than two tokens.
pub open spec fn version_of(s: Seq<char>) -> Option<Seq<char>> {
    if tokens(s).len() >= 2 {
        Some(two_part_prefix(tokens(s)[1]))
    } else {
        None
    }
}

/// Extract the major.minor version from the output of the interpreter's
/// version flag, for instance `"3.13"` out of `"Python 3.13.0"`. Returns
/// `None` exactly when the output has no second whitespace-delimited token.
pub fn parse_python_version(s: &str) -> (r: Option<String>)
    ensures
        match r {
            Some(v) => version_of(s@) == Some(v@),
            None => version_of(s@) is None,
        },
{
    let n = s.unicode_len();
    let mut a: usize = 0;
    while a < n && is_space(s.get_char(a))
        invariant
            0 <= a <= n,
            n == s@.len(),
            forall|j: int| 0 <= j < a ==> is_space_char(s@[j]),
        decreases n - a,
    {
        a += 1;
    }
    proof {
        lemma_tokens_skip(s@, a as int);
    }
    if a == n {
        return None;
    }
    let mut b: usize = a;
    while b < n && !is_space(s.get_char(b))
        invariant
            a <= b <= n,
            n == s@.len(),
            forall|j: int| a <= j < b ==> !is_space_char(s@[j]),
        decreases n - b,
    {
        b += 1;
    }
    let ghost t1 = s@.subrange(a as int, n as int);
    proof {
        assert forall|j: int| 0 <= j < b - a implies !is_space_char(t1[j]) by {
            assert(t1[j] == s@[a + j]);
        }
        if b < n {
            assert(t1[b - a] == s@[b as int]);
        }
        lemma_tokens_token(t1, b - a);
        assert(t1.subrange(b - a, t1.len() as int) =~= s@.subrange(b as int, n as int));
    }
    let mut c: usize = b;
    while c < n && is_space(s.get_char(c))
        invariant
            b <= c <= n,
            n == s@.len(),
            forall|j: int| b <= j < c ==> is_space_char(s@[j]),
        decreases n - c,
    {
        c += 1;
    }
    let ghost t2 = s@.subrange(b as int, n as int);
    proof {
        assert forall|j: int| 0 <= j < c - b implies is_space_char(t2[j]) by {
            assert(t2[j] == s@[b + j]);
        }
        lemma_tokens_skip(t2, c - b);
        assert(t2.subrange(c - b, t2.len() as int) =~= s@.subrange(c as int, n as int));
    }
    if c == n {
        proof {
            assert(tokens(s@.subrange(c as int, n as int)) =~= Seq::<Seq<char>>::empty());
            assert(tokens(s@).len() == 1);
        }
        return None;
    }
    let mut d: usize = c;
    while d < n && !is_space(s.get_char(d))
        invariant
            c <= d <= n,
            n == s@.len(),
            forall|j: int| c <= j < d ==> !is_space_char(s@[j]),
        decreases n - d,
    {
        d += 1;
    }
    let ghost t3 = s@.subrange(c as int, n as int);
    let ghost tok = s@.subrange(c as int, d as int);
    proof {
        assert forall|j: int| 0 <= j < d - c implies !is_space_char(t3[j]) by {
            assert(t3[j] == s@[c + j]);
        }
        if d < n {
            assert(t3[d - c] == s@[d as int]);
        }
        lemma_tokens_token(t3, d - c);
        assert(t3.subrange(0, d - c) =~= tok);
        assert(tokens(s@).len() >= 2);
        assert(tokens(s@)[1] == tok);
    }
    // truncate the token after its second dot-separated component
    let mut e1: usize = c;
    while e1 < d && s.get_char(e1) != '.'
        invariant
            c <= e1 <= d <= n,
            n == s@.len(),
            forall|j: int| c <= j < e1 ==> s@[j] != '.',
        decreases d - e1,
    {
        e1 += 1;
    }
    proof {
        assert forall|j: int| 0 <= j < e1 - c implies !dot_pred()(tok[j]) by {
            assert(tok[j] == s@[c + j]);
            assert(dot_pred()(tok[j]) == (tok[j] == '.'));
        }
        if e1 < d {
            assert(tok[e1 - c] == s@[e1 as int]);
            assert(dot_pred()(tok[e1 - c]) == (tok[e1 - c] == '.'));
        }
        lemma_find_first_is(tok, dot_pred(), e1 - c);
    }
    if e1 == d {
        let v = s.substring_char(c, d).to_owned();
        proof {
            assert(two_part_prefix(tok) == tok);
        }
        return Some(v);
    }
    let mut e2: usize = e1 + 1;
    while e2 < d && s.get_char(e2) != '.'
        invariant
            c <= e1 < e2 <= d <= n,
            n == s@.len(),
            forall|j: int| e1 < j < e2 ==> s@[j] != '.',
        decreases d - e2,
    {
        e2 += 1;
    }
    let ghost tail = tok.subrange(e1 - c + 1, tok.len() as int);
    proof {
        assert forall|j: int| 0 <= j < e2 - e1 - 1 implies !dot_pred()(tail[j]) by {
            assert(tail[j] == tok[e1 - c + 1 + j]);
            assert(tok[e1 - c + 1 + j] == s@[e1 + 1 + j]);
            assert(dot_pred()(tail[j]) == (tail[j] == '.'));
        }
        if e2 < d {
            assert(tail[e2 - e1 - 1] == tok[(e2 - c) as int]);
            assert(tok[(e2 - c) as int] == s@[e2 as int]);
            assert(dot_pred()(tail[e2 - e1 - 1]) == (tail[e2 - e1 - 1] == '.'));
        }
        lemma_find_first_is(tail, dot_pred(), e2 - e1 - 1);
        assert(tok.subrange(0, (e2 - c) as int) =~= s@.subrange(c as int, e2 as int));
    }
    let v = s.substring_char(c, e2).to_owned();
    Some(v)
}

} // verus!
