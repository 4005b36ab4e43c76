//! Parsing of the flat package manifest: one `name[comparator version]`
//! entry per line, blank lines skipped, names kept in file order.

use vstd::prelude::*;
use crate::text::{find_first, lemma_find_first_bounds, lemma_find_first_is, trim, trimmed_range};

verus! {

/// A version or comparator delimiter: the package name ends at the first one.
pub open spec fn is_delim_char(c: char) -> bool {
    c == '=' || c == '>' || c == '<' || c == '~'
}

/// Whether `c` ends the package name of a manifest line.
pub fn is_delim(c: char) -> (b: bool)
    ensures
        b == is_delim_char(c),
{
    c == '=' || c == '>' || c == '<' || c == '~'
}

/// The delimiter test as a function value, shared by every `find_first` use.
pub open spec fn delim_pred() -> spec_fn(char) -> bool {
    |c: char| is_delim_char(c)
}

/// The newline test as a function value, shared by every `find_first` use.
pub open spec fn newline_pred() -> spec_fn(char) -> bool {
    |c: char| c == '\n'
}

/// The package name a manifest line yields: everything before the first
/// delimiter, trimmed of surrounding whitespace. May be empty.
pub open spec fn line_name(l: Seq<char>) -> Seq<char> {
    trim(l.subrange(0, find_first(l, delim_pred())))
}

/// The name of a line, as a sequence of zero or one entries.
pub open spec fn line_entry(l: Seq<char>) -> Seq<Seq<char>> {
    if line_name(l).len() == 0 {
        Seq::empty()
    } else {
        seq![line_name(l)]
    }
}

/// The parsed manifest: the non-empty names of the newline-separated lines,
/// in file order, duplicates preserved.
pub open spec fn parse_manifest(s: Seq<char>) -> Seq<Seq<char>>
    decreases s.len(),
    via parse_manifest_decreases
{
    if s.len() == 0 {
        Seq::empty()
    } else {
        let k = find_first(s, newline_pred());
        let rest = if k < s.len() {
            s.subrange(k + 1, s.len() as int)
        } else {
            Seq::empty()
        };
        line_entry(s.subrange(0, k)) + parse_manifest(rest)
    }
}

#[via_fn]
proof fn parse_manifest_decreases(s: Seq<char>) {
    lemma_find_first_bounds(s, newline_pred());
}

/// The view of a parsed name list, one character sequence per name.
pub open spec fn names_view(v: Seq<String>) -> Seq<Seq<char>> {
    v.map_values(|s: String| s@)
}

/// Splitting off the first line: if `[0, e)` holds no newline and `e` is a
/// newline or the end, the manifest parses as that line's entry followed by
/// the parse of what comes after the newline.
proof fn lemma_parse_step(s: Seq<char>, e: int)
    requires
        0 <= e <= s.len(),
        forall|j: int| 0 <= j < e ==> s[j] != '\n',
        e < s.len() ==> s[e] == '\n',
    ensures
        parse_manifest(s) == line_entry(s.subrange(0, e)) + parse_manifest(
            if e < s.len() {
                s.subrange(e + 1, s.len() as int)
            } else {
                Seq::<char>::empty()
            },
        ),
{
    if s.len() == 0 {
        assert(s.subrange(0, 0) =~= s);
        assert(parse_manifest(s) =~= line_entry(s) + parse_manifest(Seq::<char>::empty()));
    } else {
        assert forall|j: int| 0 <= j < e implies !newline_pred()(s[j]) by {
            assert(newline_pred()(s[j]) == (s[j] == '\n'));
        }
        if e < s.len() {
            assert(newline_pred()(s[e]));
        }
        lemma_find_first_is(s, newline_pred(), e);
    }
}

/// Parse the manifest text: for each line, the part before the first of
/// `=`, `>`, `<`, `~` is trimmed of whitespace and kept if non-empty.
/// The result lists those names in file order, duplicates preserved.
pub fn parse_requirements(text: &str) -> (r: Vec<String>)
    ensures
        names_view(r@) == parse_manifest(text@),
{
    let n = text.unicode_len();
    let mut out: Vec<String> = Vec::new();
    let mut pos: usize = 0;
    proof {
        assert(text@.subrange(0, n as int) =~= text@);
        assert(names_view(out@) =~= Seq::<Seq<char>>::empty());
        assert(names_view(out@) + parse_manifest(text@) =~= parse_manifest(text@));
    }
    while pos < n
        invariant
            0 <= pos <= n,
            n == text@.len(),
            parse_manifest(text@) == names_view(out@) + parse_manifest(
                text@.subrange(pos as int, n as int),
            ),
        decreases n - pos,
    {
        let ghost suffix = text@.subrange(pos as int, n as int);
        let mut e: usize = pos;
        while e < n && text.get_char(e) != '\n'
            invariant
                pos <= e <= n,
                n == text@.len(),
                forall|j: int| pos <= j < e ==> text@[j] != '\n',
            decreases n - e,
        {
            e += 1;
        }
        let mut d: usize = pos;
        while d < e && !is_delim(text.get_char(d))
            invariant
                pos <= d <= e <= n,
                n == text@.len(),
                forall|j: int| pos <= j < d ==> !is_delim_char(text@[j]),
            decreases e - d,
        {
            d += 1;
        }
        let name = trimmed_range(text, pos, d);
        proof {
            assert forall|j: int| 0 <= j < e - pos implies suffix[j] != '\n' by {
                assert(suffix[j] == text@[pos + j]);
            }
            if e < n {
                assert(suffix[e - pos] == text@[e as int]);
            }
            lemma_parse_step(suffix, e - pos);
            let line = suffix.subrange(0, e - pos);
            assert forall|j: int| 0 <= j < d - pos implies !delim_pred()(line[j]) by {
                assert(line[j] == suffix[j]);
                assert(suffix[j] == text@[pos + j]);
                assert(delim_pred()(line[j]) == is_delim_char(line[j]));
            }
            if d < e {
                assert(line[d - pos] == suffix[d - pos]);
                assert(suffix[d - pos] == text@[d as int]);
                assert(delim_pred()(line[d - pos]) == is_delim_char(line[d - pos]));
            }
            lemma_find_first_is(line, delim_pred(), d - pos);
            assert(line.subrange(0, d - pos) =~= text@.subrange(pos as int, d as int));
            assert(line_name(line) == name@);
        }
        if !name.is_empty() {
            let owned = name.to_owned();
            out.push(owned);
            proof {
                assert(names_view(out@) =~= names_view(out@.drop_last()) + seq![name@]);
            }
        }
        let ghost oldpos = pos as int;
        pos = if e < n {
            e + 1
        } else {
            n
        };
        proof {
            if e < n {
                assert(suffix.subrange(e - oldpos + 1, suffix.len() as int) =~= text@.subrange(
                    pos as int,
                    n as int,
                ));
            } else {
                assert(text@.subrange(pos as int, n as int) =~= Seq::<char>::empty());
            }
            assert(names_view(out@) + parse_manifest(text@.subrange(pos as int, n as int))
                =~= parse_manifest(text@));
        }
    }
    proof {
        assert(text@.subrange(n as int, n as int) =~= Seq::<char>::empty());
        assert(names_view(out@) + parse_manifest(Seq::<char>::empty()) =~= names_view(out@));
    }
    out
}

} // verus!
