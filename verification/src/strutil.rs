//! Small verified helpers over `&str` and `String`: equality, prefix tests,
//! searching, splitting and joining, and ASCII case mapping.

use vstd::prelude::*;
use vstd::string::StrSliceExecFns;
use vstd::string::StringExecFns;

verus! {

/// A string has another as a prefix.
pub open spec fn spec_starts_with(s: Seq<char>, p: Seq<char>) -> bool {
    p.len() <= s.len() && s.subrange(0, p.len() as int) == p
}

/// Lower-case image of one character, ASCII letters only.
pub open spec fn spec_lower_char(c: char) -> char {
    match c {
        'A' => 'a',
        'B' => 'b',
        'C' => 'c',
        'D' => 'd',
        'E' => 'e',
        'F' => 'f',
        'G' => 'g',
        'H' => 'h',
        'I' => 'i',
        'J' => 'j',
        'K' => 'k',
        'L' => 'l',
        'M' => 'm',
        'N' => 'n',
        'O' => 'o',
        'P' => 'p',
        'Q' => 'q',
        'R' => 'r',
        'S' => 's',
        'T' => 't',
        'U' => 'u',
        'V' => 'v',
        'W' => 'w',
        'X' => 'x',
        'Y' => 'y',
        'Z' => 'z',
        _ => c,
    }
}

/// Lower-case image of a whole character sequence, ASCII letters only.
pub open spec fn spec_lower(s: Seq<char>) -> Seq<char> {
    s.map_values(|c: char| spec_lower_char(c))
}

pub fn lower_char(c: char) -> (d: char)
    ensures
        d == spec_lower_char(c),
{
    match c {
        'A' => 'a',
        'B' => 'b',
        'C' => 'c',
        'D' => 'd',
        'E' => 'e',
        'F' => 'f',
        'G' => 'g',
        'H' => 'h',
        'I' => 'i',
        'J' => 'j',
        'K' => 'k',
        'L' => 'l',
        'M' => 'm',
        'N' => 'n',
        'O' => 'o',
        'P' => 'p',
        'Q' => 'q',
        'R' => 'r',
        'S' => 's',
        'T' => 't',
        'U' => 'u',
        'V' => 'v',
        'W' => 'w',
        'X' => 'x',
        'Y' => 'y',
        'Z' => 'z',
        _ => c,
    }
}

/// Character-for-character equality of two string slices.
pub fn str_eq(a: &str, b: &str) -> (r: bool)
    ensures
        r == (a@ == b@),
{
    let sa = a.to_owned();
    let sb = b.to_owned();
    sa == sb
}

/// Whether `s` starts with the prefix `p`, counted in characters.
pub fn str_starts_with(s: &str, p: &str) -> (r: bool)
    ensures
        r == spec_starts_with(s@, p@),
{
    let sl = s.unicode_len();
    let pl = p.unicode_len();
    if pl > sl {
        return false;
    }
    let mut i: usize = 0;
    while i < pl
        invariant
            i <= pl,
            pl <= sl,
            pl == p@.len(),
            sl == s@.len(),
            forall|j: int| 0 <= j < i ==> s@[j] == p@[j],
        decreases pl - i,
    {
        if s.get_char(i) != p.get_char(i) {
            proof {
                assert(s@.subrange(0, pl as int)[i as int] == s@[i as int]);
            }
            return false;
        }
        i = i + 1;
    }
    proof {
        assert(s@.subrange(0, pl as int) =~= p@);
    }
    true
}

/// Case-insensitive (ASCII) equality of two string slices.
pub fn str_eq_ignore_ascii_case(a: &str, b: &str) -> (r: bool)
    ensures
        r == (spec_lower(a@) == spec_lower(b@)),
{
    let al = a.unicode_len();
    let bl = b.unicode_len();
    if al != bl {
        proof {
            assert(spec_lower(a@).len() == a@.len());
            assert(spec_lower(b@).len() == b@.len());
        }
        return false;
    }
    let mut i: usize = 0;
    while i < al
        invariant
            i <= al,
            al == a@.len(),
            al == b@.len(),
            forall|j: int| 0 <= j < i ==> spec_lower_char(a@[j]) == spec_lower_char(b@[j]),
        decreases al - i,
    {
        if lower_char(a.get_char(i)) != lower_char(b.get_char(i)) {
            proof {
                assert(spec_lower(a@)[i as int] == spec_lower_char(a@[i as int]));
                assert(spec_lower(b@)[i as int] == spec_lower_char(b@[i as int]));
            }
            return false;
        }
        i = i + 1;
    }
    proof {
        assert(spec_lower(a@) =~= spec_lower(b@));
    }
    true
}

/// The strings of a list joined with a separator between neighbours.
pub open spec fn spec_join(items: Seq<String>, sep: Seq<char>) -> Seq<char>
    decreases items.len(),
{
    if items.len() == 0 {
        Seq::empty()
    } else if items.len() == 1 {
        items[0]@
    } else {
        items[0]@ + sep + spec_join(items.drop_first(), sep)
    }
}

/// The character sequences of a list joined with a separator between
/// neighbours.
pub open spec fn spec_join_elems(items: Seq<Seq<char>>, sep: Seq<char>) -> Seq<char>
    decreases items.len(),
{
    if items.len() == 0 {
        Seq::empty()
    } else if items.len() == 1 {
        items[0]
    } else {
        items[0] + sep + spec_join_elems(items.drop_first(), sep)
    }
}

/// Joining strings is joining their character sequences.
pub proof fn lemma_join_elems(items: Seq<String>, sep: Seq<char>)
    ensures
        spec_join(items, sep) == spec_join_elems(strings_view(items), sep),
    decreases items.len(),
{
    if items.len() > 1 {
        lemma_join_elems(items.drop_first(), sep);
        assert(strings_view(items).drop_first() =~= strings_view(items.drop_first()));
    }
}

/// Joins strings with a separator between neighbours.
#[verifier::loop_isolation(false)]
pub fn join_with(items: &Vec<String>, sep: &str) -> (r: String)
    ensures
        r@ == spec_join(items@, sep@),
{
    let mut r = String::new();
    let n = items.len();
    let mut i: usize = 0;
    proof {
        assert(items@.subrange(0, n as int) =~= items@);
        assert(Seq::<char>::empty() + spec_join(items@, sep@) =~= spec_join(items@, sep@));
    }
    while i < n
        invariant
            i <= n,
            spec_join(items@, sep@) == r@ + spec_join(items@.subrange(i as int, n as int), sep@),
        decreases n - i,
    {
        let ghost old_r = r@;
        let ghost rest = items@.subrange(i as int, n as int);
        proof {
            assert(rest.len() == n - i);
            assert(rest[0] == items@[i as int]);
            assert(rest.drop_first() =~= items@.subrange(i as int + 1, n as int));
        }
        r.append(items[i].as_str());
        if i + 1 < n {
            r.append(sep);
            proof {
                assert(spec_join(rest, sep@) == rest[0]@ + sep@ + spec_join(
                    rest.drop_first(),
                    sep@,
                ));
                assert(old_r + (rest[0]@ + sep@ + spec_join(rest.drop_first(), sep@)) =~= (old_r
                    + rest[0]@ + sep@) + spec_join(rest.drop_first(), sep@));
            }
        } else {
            proof {
                assert(rest.len() == 1);
                assert(spec_join(rest, sep@) == rest[0]@);
            }
        }
        i = i + 1;
    }
    proof {
        assert(items@.subrange(n as int, n as int).len() == 0);
        assert(r@ + spec_join(items@.subrange(n as int, n as int), sep@) =~= r@);
    }
    r
}

/// The character sequences of a list of strings.
pub open spec fn strings_view(v: Seq<String>) -> Seq<Seq<char>> {
    v.map_values(|s: String| s@)
}

/// Upper-case image of one character, ASCII letters only.
pub open spec fn spec_upper_char(c: char) -> char {
    match c {
        'a' => 'A',
        'b' => 'B',
        'c' => 'C',
        'd' => 'D',
        'e' => 'E',
        'f' => 'F',
        'g' => 'G',
        'h' => 'H',
        'i' => 'I',
        'j' => 'J',
        'k' => 'K',
        'l' => 'L',
        'm' => 'M',
        'n' => 'N',
        'o' => 'O',
        'p' => 'P',
        'q' => 'Q',
        'r' => 'R',
        's' => 'S',
        't' => 'T',
        'u' => 'U',
        'v' => 'V',
        'w' => 'W',
        'x' => 'X',
        'y' => 'Y',
        'z' => 'Z',
        _ => c,
    }
}

pub fn upper_char(c: char) -> (d: char)
    ensures
        d == spec_upper_char(c),
{
    match c {
        'a' => 'A',
        'b' => 'B',
        'c' => 'C',
        'd' => 'D',
        'e' => 'E',
        'f' => 'F',
        'g' => 'G',
        'h' => 'H',
        'i' => 'I',
        'j' => 'J',
        'k' => 'K',
        'l' => 'L',
        'm' => 'M',
        'n' => 'N',
        'o' => 'O',
        'p' => 'P',
        'q' => 'Q',
        'r' => 'R',
        's' => 'S',
        't' => 'T',
        'u' => 'U',
        'v' => 'V',
        'w' => 'W',
        'x' => 'X',
        'y' => 'Y',
        'z' => 'Z',
        _ => c,
    }
}

/// The string with every occurrence of one character replaced by another.
pub open spec fn spec_replace_char(s: Seq<char>, from: char, to: char) -> Seq<char> {
    s.map_values(
        |c: char|
            if c == from {
                to
            } else {
                c
            },
    )
}

/// Replaces every occurrence of one character by another.
#[verifier::loop_isolation(false)]
pub fn replace_char(s: &str, from: char, to: char) -> (r: String)
    ensures
        r@ == spec_replace_char(s@, from, to),
{
    let mut r = String::new();
    let n = s.unicode_len();
    let mut i: usize = 0;
    while i < n
        invariant
            i <= n,
            r@ =~= spec_replace_char(s@.subrange(0, i as int), from, to),
        decreases n - i,
    {
        let c = s.get_char(i);
        if c == from {
            crate::trusted::push_char(&mut r, to);
        } else {
            crate::trusted::push_char(&mut r, c);
        }
        proof {
            assert(s@.subrange(0, i as int + 1).drop_last() =~= s@.subrange(0, i as int));
            assert(r@ =~= spec_replace_char(s@.subrange(0, i as int + 1), from, to));
        }
        i = i + 1;
    }
    proof {
        assert(s@.subrange(0, n as int) =~= s@);
    }
    r
}

/// The word with its first character mapped to upper case, ASCII letters
/// only.
pub open spec fn spec_upper_first(w: Seq<char>) -> Seq<char> {
    if w.len() == 0 {
        w
    } else {
        seq![spec_upper_char(w[0])] + w.drop_first()
    }
}

/// Maps the first character of a word to upper case.
pub fn upper_first(w: &str) -> (r: String)
    ensures
        r@ == spec_upper_first(w@),
{
    let n = w.unicode_len();
    if n == 0 {
        let r = String::new();
        proof {
            assert(r@ =~= spec_upper_first(w@));
        }
        return r;
    }
    let mut r = String::new();
    crate::trusted::push_char(&mut r, upper_char(w.get_char(0)));
    let rest = w.substring_char(1, n);
    let r2 = r.concat(rest);
    proof {
        assert(r2@ =~= spec_upper_first(w@));
    }
    r2
}

/// Index of the first occurrence of a character, or -1 when absent.
pub open spec fn spec_find_first(s: Seq<char>, c: char) -> int
    decreases s.len(),
{
    if s.len() == 0 {
        -1
    } else if s[0] == c {
        0
    } else {
        let r = spec_find_first(s.drop_first(), c);
        if r < 0 {
            -1
        } else {
            r + 1
        }
    }
}

/// `spec_find_first` names the first occurrence: it is in range and holds
/// `c`, and nothing before it does; -1 means `c` does not occur at all.
pub proof fn lemma_find_first(s: Seq<char>, c: char)
    ensures
        spec_find_first(s, c) == -1 ==> forall|j: int| 0 <= j < s.len() ==> s[j] != c,
        spec_find_first(s, c) != -1 ==> {
            &&& 0 <= spec_find_first(s, c) < s.len()
            &&& s[spec_find_first(s, c)] == c
            &&& forall|j: int| 0 <= j < spec_find_first(s, c) ==> s[j] != c
        },
    decreases s.len(),
{
    if s.len() > 0 && s[0] != c {
        lemma_find_first(s.drop_first(), c);
        let r = spec_find_first(s.drop_first(), c);
        if r == -1 {
            assert forall|j: int| 0 <= j < s.len() implies s[j] != c by {
                if j > 0 {
                    assert(s.drop_first()[j - 1] == s[j]);
                }
            }
        } else {
            assert(s[r + 1] == s.drop_first()[r]);
            assert forall|j: int| 0 <= j < r + 1 implies s[j] != c by {
                if j > 0 {
                    assert(s.drop_first()[j - 1] == s[j]);
                }
            }
        }
    }
}

/// Whether a character occurs anywhere in a string.
#[verifier::loop_isolation(false)]
pub fn str_contains_char(s: &str, c: char) -> (r: bool)
    ensures
        r == (spec_find_first(s@, c) != -1),
{
    proof {
        lemma_find_first(s@, c);
    }
    let n = s.unicode_len();
    let mut i: usize = 0;
    while i < n
        invariant
            i <= n,
            forall|j: int| 0 <= j < i ==> s@[j] != c,
        decreases n - i,
    {
        if s.get_char(i) == c {
            proof {
                if spec_find_first(s@, c) == -1 {
                    assert(s@[i as int] != c);
                }
            }
            return true;
        }
        i = i + 1;
    }
    proof {
        if spec_find_first(s@, c) != -1 {
            assert(s@[spec_find_first(s@, c)] == c);
        }
    }
    false
}

/// The pieces of a string between occurrences of a separator character: one
/// piece more than there are separators, in order, separators dropped.
pub open spec fn spec_split(s: Seq<char>, c: char) -> Seq<Seq<char>>
    decreases s.len(),
{
    let i = spec_find_first(s, c);
    if 0 <= i < s.len() {
        seq![s.subrange(0, i)] + spec_split(s.subrange(i + 1, s.len() as int), c)
    } else {
        seq![s]
    }
}

/// Splits a string at every occurrence of a separator character.
#[verifier::loop_isolation(false)]
pub fn str_split(s: &str, c: char) -> (r: Vec<String>)
    ensures
        strings_view(r@) == spec_split(s@, c),
{
    let n = s.unicode_len();
    let mut parts: Vec<String> = Vec::new();
    let mut start: usize = 0;
    let mut i: usize = 0;
    proof {
        assert(s@.subrange(0, n as int) =~= s@);
        assert(strings_view(parts@) =~= Seq::<Seq<char>>::empty());
        assert(strings_view(parts@) + spec_split(s@, c) =~= spec_split(s@, c));
    }
    while i < n
        invariant
            start <= i <= n,
            forall|j: int| start <= j < i ==> s@[j] != c,
            spec_split(s@, c) == strings_view(parts@) + spec_split(
                s@.subrange(start as int, n as int),
                c,
            ),
        decreases n - i,
    {
        if s.get_char(i) == c {
            let piece = s.substring_char(start, i).to_owned();
            proof {
                let tail = s@.subrange(start as int, n as int);
                lemma_find_first(tail, c);
                assert(tail[i - start as int] == c);
                assert(forall|j: int| 0 <= j < i - start as int ==> tail[j] == s@[j + start as int]
                    && tail[j] != c);
                if spec_find_first(tail, c) < i - start as int {
                    assert(tail[spec_find_first(tail, c)] != c);
                }
                if spec_find_first(tail, c) > i - start as int {
                    assert(tail[i - start as int] != c);
                }
                assert(spec_find_first(tail, c) == i - start as int);
                assert(tail.subrange(0, i - start as int) =~= s@.subrange(start as int, i as int));
                assert(tail.subrange(i - start as int + 1, tail.len() as int) =~= s@.subrange(
                    i as int + 1,
                    n as int,
                ));
                assert(spec_split(tail, c) == seq![s@.subrange(start as int, i as int)]
                    + spec_split(s@.subrange(i as int + 1, n as int), c));
            }
            let ghost old_parts = parts@;
            parts.push(piece);
            proof {
                assert(strings_view(parts@) =~= strings_view(old_parts).push(
                    s@.subrange(start as int, i as int),
                ));
                assert(strings_view(old_parts) + (seq![s@.subrange(start as int, i as int)]
                    + spec_split(s@.subrange(i as int + 1, n as int), c)) =~= strings_view(parts@)
                    + spec_split(s@.subrange(i as int + 1, n as int), c));
            }
            start = i + 1;
        }
        i = i + 1;
    }
    let last = s.substring_char(start, n).to_owned();
    proof {
        let tail = s@.subrange(start as int, n as int);
        lemma_find_first(tail, c);
        if spec_find_first(tail, c) != -1 {
            assert(tail[spec_find_first(tail, c)] != c);
        }
        assert(spec_split(tail, c) == seq![tail]);
    }
    let ghost old_parts = parts@;
    parts.push(last);
    proof {
        assert(strings_view(parts@) =~= strings_view(old_parts).push(
            s@.subrange(start as int, n as int),
        ));
        assert(strings_view(old_parts) + seq![s@.subrange(start as int, n as int)] =~= strings_view(
            parts@,
        ));
    }
    parts
}

/// Copies a list of strings.
#[verifier::loop_isolation(false)]
pub fn clone_strings(items: &Vec<String>) -> (r: Vec<String>)
    ensures
        r@ == items@,
{
    let mut r: Vec<String> = Vec::new();
    let n = items.len();
    let mut i: usize = 0;
    while i < n
        invariant
            i <= n,
            r@ =~= items@.subrange(0, i as int),
        decreases n - i,
    {
        r.push(items[i].clone());
        proof {
            assert(r@ =~= items@.subrange(0, i as int + 1));
        }
        i = i + 1;
    }
    proof {
        assert(items@.subrange(0, n as int) =~= items@);
    }
    r
}

/// Copies a byte string.
#[verifier::loop_isolation(false)]
pub fn clone_bytes(items: &Vec<u8>) -> (r: Vec<u8>)
    ensures
        r@ == items@,
{
    let mut r: Vec<u8> = Vec::new();
    let n = items.len();
    let mut i: usize = 0;
    while i < n
        invariant
            i <= n,
            r@ =~= items@.subrange(0, i as int),
        decreases n - i,
    {
        r.push(items[i]);
        proof {
            assert(r@ =~= items@.subrange(0, i as int + 1));
        }
        i = i + 1;
    }
    proof {
        assert(items@.subrange(0, n as int) =~= items@);
    }
    r
}

} // verus!
