//! Small verified helpers on text, over the view of a string as a sequence of
//! characters.

use vstd::prelude::*;

verus! {

/// `p` is an initial segment of `s`.
pub open spec fn is_prefix(p: Seq<char>, s: Seq<char>) -> bool {
    p.len() <= s.len() && s.subrange(0, p.len() as int) == p
}

/// `x` is a final segment of `s`.
pub open spec fn is_suffix(x: Seq<char>, s: Seq<char>) -> bool {
    x.len() <= s.len() && s.subrange(s.len() - x.len(), s.len() as int) == x
}

/// The text of an optional string.
pub open spec fn opt_text(o: Option<String>) -> Option<Seq<char>> {
    match o {
        Some(s) => Some(s@),
        None => None,
    }
}

/// The texts of a list of strings, in order.
pub open spec fn texts(v: Seq<String>) -> Seq<Seq<char>> {
    v.map_values(|s: String| s@)
}

/// The texts of an optional list of strings.
pub open spec fn opt_texts(o: Option<Vec<String>>) -> Option<Seq<Seq<char>>> {
    match o {
        Some(v) => Some(texts(v@)),
        None => None,
    }
}

/// A text, or nothing where the text is empty.
pub open spec fn non_empty(s: Seq<char>) -> Option<Seq<char>> {
    if s.len() == 0 {
        None
    } else {
        Some(s)
    }
}

/// Whether a character is white space: whether it has the `White_Space`
/// property of the Unicode Character Database. These are the tab, the line
/// feed, the vertical tab, the form feed, the carriage return and the space,
/// the next line and the no-break space, the Ogham space mark, the spaces of
/// fixed width from the en quad to the hair space, the line and the paragraph
/// separator, the narrow no-break space, the medium mathematical space and
/// the ideographic space.
pub open spec fn white_space(c: char) -> bool {
    let n = c as u32;
    ||| 0x0009 <= n <= 0x000D
    ||| n == 0x0020
    ||| n == 0x0085
    ||| n == 0x00A0
    ||| n == 0x1680
    ||| 0x2000 <= n <= 0x200A
    ||| n == 0x2028
    ||| n == 0x2029
    ||| n == 0x202F
    ||| n == 0x205F
    ||| n == 0x3000
}

/// `char::is_whitespace` tells whether the character has the `White_Space`
/// property of the Unicode Character Database.
pub assume_specification[ char::is_whitespace ](c: char) -> (r: bool)
    ensures
        r == white_space(c),
;

/// `s` without its leading white space.
pub open spec fn trim_start(s: Seq<char>) -> Seq<char>
    decreases s.len(),
{
    if s.len() > 0 && white_space(s[0]) {
        trim_start(s.drop_first())
    } else {
        s
    }
}

/// `s` without its trailing white space.
pub open spec fn trim_end(s: Seq<char>) -> Seq<char>
    decreases s.len(),
{
    if s.len() > 0 && white_space(s.last()) {
        trim_end(s.drop_last())
    } else {
        s
    }
}

/// `s` without its leading and trailing white space.
pub open spec fn trimmed(s: Seq<char>) -> Seq<char> {
    trim_end(trim_start(s))
}

/// Equality of string slices, as `str`'s own `==` decides it: two slices are
/// equal exactly when they hold the same characters.
pub assume_specification[ <str as PartialEq>::eq ](a: &str, b: &str) -> (r: bool)
    ensures
        r == (a@ == b@),
;

/// `String::push` appends one character to the end of the string.
pub assume_specification[ String::push ](s: &mut String, c: char)
    ensures
        final(s)@ == old(s)@.push(c),
;

/// Whether two string slices hold the same text.
pub fn str_eq(a: &str, b: &str) -> (r: bool)
    ensures
        r == (a@ == b@),
{
    a.eq(b)
}

/// An owned string, or `None` where it is empty.
pub fn some_if_non_empty(s: String) -> (r: Option<String>)
    ensures
        opt_text(r) == non_empty(s@),
{
    if s.as_str().is_empty() {
        None
    } else {
        Some(s)
    }
}

/// An optional string, or `None` where it is absent or empty.
pub fn some_if_present(o: Option<String>) -> (r: Option<String>)
    ensures
        opt_text(r) == present(opt_text(o)),
{
    match o {
        Some(s) => some_if_non_empty(s),
        None => None,
    }
}

/// The characters of a string slice, in order.
pub fn chars_of(s: &str) -> (r: Vec<char>)
    ensures
        r@ == s@,
{
    let mut out: Vec<char> = Vec::new();
    for c in it: s.chars()
        invariant
            out@ == it.seq().take(it.index() as int),
            it.seq() == s@,
    {
        out.push(c);
    }
    out
}

/// The string made of the characters `v[from..to]`.
pub(crate) fn string_of(v: &Vec<char>, from: usize, to: usize) -> (r: String)
    requires
        from <= to <= v.len(),
    ensures
        r@ == v@.subrange(from as int, to as int),
{
    let mut out = String::new();
    let mut i: usize = from;
    while i < to
        invariant
            from <= i <= to <= v.len(),
            out@ == v@.subrange(from as int, i as int),
        decreases to - i,
    {
        out.push(v[i]);
        i += 1;
    }
    out
}

/// Where `c` first occurs in `s`: the least index that holds it, or the
/// length of `s` where none does.
pub open spec fn first_index(s: Seq<char>, c: char) -> int
    decreases s.len(),
{
    if s.len() == 0 {
        0
    } else if s[0] == c {
        0
    } else {
        1 + first_index(s.drop_first(), c)
    }
}

/// `s` cut in two at the first occurrence of `c`, which belongs to neither
/// part; nothing where `c` does not occur.
pub open spec fn split_once(s: Seq<char>, c: char) -> Option<(Seq<char>, Seq<char>)> {
    let i = first_index(s, c);
    if i < s.len() {
        Some((s.take(i), s.skip(i + 1)))
    } else {
        None
    }
}

/// The two parts of a text that holds the separator `c` exactly once; nothing
/// where it holds `c` never or more than once.
pub open spec fn two_parts(s: Seq<char>, c: char) -> Option<(Seq<char>, Seq<char>)> {
    match split_once(s, c) {
        Some((left, right)) => if first_index(right, c) == right.len() {
            Some((left, right))
        } else {
            None
        },
        None => None,
    }
}

/// An optional text, or nothing where it is absent or empty.
pub open spec fn present(o: Option<Seq<char>>) -> Option<Seq<char>> {
    match o {
        Some(s) => non_empty(s),
        None => None,
    }
}

/// Whether `a` comes before `b` in the order of texts: character by
/// character, by code point, a text before each of its extensions. It is
/// the order in which `String` compares.
pub open spec fn text_before(a: Seq<char>, b: Seq<char>) -> bool
    decreases a.len(),
{
    if b.len() == 0 {
        false
    } else if a.len() == 0 {
        true
    } else if a[0] != b[0] {
        (a[0] as u32) < (b[0] as u32)
    } else {
        text_before(a.drop_first(), b.drop_first())
    }
}

/// The order of texts is transitive.
pub proof fn lemma_text_before_transitive(a: Seq<char>, b: Seq<char>, c: Seq<char>)
    requires
        text_before(a, b),
        text_before(b, c),
    ensures
        text_before(a, c),
    decreases a.len(),
{
    if a.len() > 0 && a[0] == b[0] && b[0] == c[0] {
        lemma_text_before_transitive(a.drop_first(), b.drop_first(), c.drop_first());
    }
}

/// No text comes before itself, so texts in ascending order are distinct.
pub proof fn lemma_text_before_irreflexive(a: Seq<char>)
    ensures
        !text_before(a, a),
    decreases a.len(),
{
    if a.len() > 0 {
        lemma_text_before_irreflexive(a.drop_first());
    }
}

/// `first_index` is the index before which `c` does not occur and at which,
/// if it is an index of `s`, `c` stands.
pub proof fn lemma_first_index(s: Seq<char>, c: char, i: int)
    requires
        0 <= i <= s.len(),
        forall|j: int| 0 <= j < i ==> s[j] != c,
        i < s.len() ==> s[i] == c,
    ensures
        first_index(s, c) == i,
    decreases s.len(),
{
    if s.len() > 0 && i > 0 {
        let rest = s.drop_first();
        assert forall|j: int| 0 <= j < i - 1 implies rest[j] != c by {
            assert(rest[j] == s[j + 1]);
        }
        lemma_first_index(rest, c, i - 1);
    }
}

/// The index at which `c` first occurs in `v[lo..hi]`, if it does.
pub(crate) fn find_char(v: &Vec<char>, c: char, lo: usize, hi: usize) -> (r: Option<usize>)
    requires
        lo <= hi <= v.len(),
    ensures
        match r {
            Some(i) => lo <= i < hi && first_index(v@.subrange(lo as int, hi as int), c) == i
                - lo,
            None => first_index(v@.subrange(lo as int, hi as int), c) == hi - lo,
        },
{
    let ghost window = v@.subrange(lo as int, hi as int);
    let mut i: usize = lo;
    while i < hi
        invariant
            lo <= i <= hi <= v.len(),
            window == v@.subrange(lo as int, hi as int),
            forall|j: int| 0 <= j < i - lo ==> window[j] != c,
        decreases hi - i,
    {
        if v[i] == c {
            proof {
                lemma_first_index(window, c, i - lo);
            }
            return Some(i);
        }
        i += 1;
    }
    proof {
        lemma_first_index(window, c, hi - lo);
    }
    None
}

/// Whether `a` comes before `b` in the order of texts.
pub fn text_less(a: &str, b: &str) -> (r: bool)
    ensures
        r == text_before(a@, b@),
{
    let x = chars_of(a);
    let y = chars_of(b);
    let mut i: usize = 0;
    proof {
        assert(x@.skip(0) =~= x@);
        assert(y@.skip(0) =~= y@);
    }
    while i < x.len() && i < y.len()
        invariant
            i <= x.len(),
            i <= y.len(),
            x@ == a@,
            y@ == b@,
            text_before(a@, b@) == text_before(x@.skip(i as int), y@.skip(i as int)),
        decreases x.len() - i,
    {
        proof {
            assert(x@.skip(i as int)[0] == x@[i as int]);
            assert(y@.skip(i as int)[0] == y@[i as int]);
            assert(x@.skip(i as int).drop_first() =~= x@.skip(i + 1));
            assert(y@.skip(i as int).drop_first() =~= y@.skip(i + 1));
        }
        if x[i] != y[i] {
            return (x[i] as u32) < (y[i] as u32);
        }
        i += 1;
    }
    i < y.len()
}

/// Cuts a text in two at its one separator.
pub fn split_in_two(s: &str, c: char) -> (r: Option<(String, String)>)
    ensures
        match r {
            Some((left, right)) => two_parts(s@, c) == Some((left@, right@)),
            None => two_parts(s@, c) is None,
        },
{
    let chars = chars_of(s);
    let n = chars.len();
    proof {
        assert(chars@.subrange(0, n as int) =~= chars@);
    }
    match find_char(&chars, c, 0, n) {
        None => None,
        Some(at) => {
            match find_char(&chars, c, at + 1, n) {
                Some(_) => {
                    proof {
                        assert(chars@.skip(at + 1) =~= chars@.subrange(at + 1, n as int));
                    }
                    None
                },
                None => {
                    let left = string_of(&chars, 0, at);
                    let right = string_of(&chars, at + 1, n);
                    proof {
                        assert(chars@.take(at as int) =~= chars@.subrange(0, at as int));
                        assert(chars@.skip(at + 1) =~= chars@.subrange(at + 1, n as int));
                    }
                    Some((left, right))
                },
            }
        },
    }
}

/// The string made of `v[lo..hi]` without its leading and trailing white
/// space.
pub(crate) fn trimmed_string(v: &Vec<char>, lo: usize, hi: usize) -> (r: String)
    requires
        lo <= hi <= v.len(),
    ensures
        r@ == trimmed(v@.subrange(lo as int, hi as int)),
{
    let mut from: usize = lo;
    while from < hi && v[from].is_whitespace()
        invariant
            lo <= from <= hi <= v.len(),
            trim_start(v@.subrange(from as int, hi as int)) == trim_start(
                v@.subrange(lo as int, hi as int),
            ),
        decreases hi - from,
    {
        proof {
            assert(v@.subrange(from as int, hi as int).drop_first() =~= v@.subrange(
                from + 1,
                hi as int,
            ));
        }
        from += 1;
    }
    let mut to: usize = hi;
    while from < to && v[to - 1].is_whitespace()
        invariant
            lo <= from <= to <= hi <= v.len(),
            trim_end(v@.subrange(from as int, to as int)) == trim_end(
                v@.subrange(from as int, hi as int),
            ),
        decreases to - from,
    {
        proof {
            assert(v@.subrange(from as int, to as int).drop_last() =~= v@.subrange(
                from as int,
                to - 1,
            ));
        }
        to -= 1;
    }
    string_of(v, from, to)
}

/// `s` without every leading occurrence of `p`, removed one after another.
pub open spec fn strip_prefixes(s: Seq<char>, p: Seq<char>) -> Seq<char>
    decreases s.len(),
{
    if p.len() > 0 && is_prefix(p, s) {
        strip_prefixes(s.skip(p.len() as int), p)
    } else {
        s
    }
}

/// `s` without every trailing occurrence of `x`, removed one after another.
pub open spec fn strip_suffixes(s: Seq<char>, x: Seq<char>) -> Seq<char>
    decreases s.len(),
{
    if x.len() > 0 && is_suffix(x, s) {
        strip_suffixes(s.take(s.len() - x.len()), x)
    } else {
        s
    }
}

/// Whether `v[lo..hi]` begins with `p`.
pub(crate) fn starts_with_at(v: &Vec<char>, lo: usize, hi: usize, p: &Vec<char>) -> (r: bool)
    requires
        lo <= hi <= v.len(),
    ensures
        r == is_prefix(p@, v@.subrange(lo as int, hi as int)),
{
    if p.len() > hi - lo {
        return false;
    }
    let ghost window = v@.subrange(lo as int, hi as int);
    let mut i: usize = 0;
    while i < p.len()
        invariant
            lo <= hi <= v.len(),
            p.len() <= hi - lo,
            i <= p.len(),
            window == v@.subrange(lo as int, hi as int),
            forall|j: int| 0 <= j < i ==> window[j] == p@[j],
        decreases p.len() - i,
    {
        if v[lo + i] != p[i] {
            proof {
                assert(window[i as int] == v@[lo + i]);
                assert(window.subrange(0, p.len() as int)[i as int] == window[i as int]);
            }
            return false;
        }
        i += 1;
    }
    proof {
        assert(window.subrange(0, p.len() as int) =~= p@);
    }
    true
}

/// Whether `v[lo..hi]` ends with `x`.
pub(crate) fn ends_with_at(v: &Vec<char>, lo: usize, hi: usize, x: &Vec<char>) -> (r: bool)
    requires
        lo <= hi <= v.len(),
    ensures
        r == is_suffix(x@, v@.subrange(lo as int, hi as int)),
{
    if x.len() > hi - lo {
        return false;
    }
    let ghost window = v@.subrange(lo as int, hi as int);
    let start = hi - x.len();
    let mut i: usize = 0;
    while i < x.len()
        invariant
            lo <= start <= hi <= v.len(),
            start == hi - x.len(),
            i <= x.len(),
            window == v@.subrange(lo as int, hi as int),
            forall|j: int| 0 <= j < i ==> window[window.len() - x.len() + j] == x@[j],
        decreases x.len() - i,
    {
        if v[start + i] != x[i] {
            proof {
                let tail = window.subrange(window.len() - x.len(), window.len() as int);
                assert(tail[i as int] == window[window.len() - x.len() + i]);
                assert(window[window.len() - x.len() + i] == v@[start + i]);
            }
            return false;
        }
        i += 1;
    }
    proof {
        assert(window.subrange(window.len() - x.len(), window.len() as int) =~= x@);
    }
    true
}

/// Where `v[lo..hi]` begins once every leading occurrence of `p` is removed.
pub(crate) fn skip_prefixes(v: &Vec<char>, lo: usize, hi: usize, p: &Vec<char>) -> (r: usize)
    requires
        lo <= hi <= v.len(),
    ensures
        lo <= r <= hi,
        v@.subrange(r as int, hi as int) == strip_prefixes(v@.subrange(lo as int, hi as int), p@),
{
    let mut at: usize = lo;
    if p.len() == 0 {
        return at;
    }
    while starts_with_at(v, at, hi, p)
        invariant
            lo <= at <= hi <= v.len(),
            p.len() > 0,
            strip_prefixes(v@.subrange(at as int, hi as int), p@) == strip_prefixes(
                v@.subrange(lo as int, hi as int),
                p@,
            ),
        decreases hi - at,
    {
        proof {
            assert(v@.subrange(at as int, hi as int).skip(p.len() as int) =~= v@.subrange(
                at + p.len(),
                hi as int,
            ));
        }
        at += p.len();
    }
    at
}

/// Where `v[lo..hi]` ends once every trailing occurrence of `x` is removed.
pub(crate) fn skip_suffixes(v: &Vec<char>, lo: usize, hi: usize, x: &Vec<char>) -> (r: usize)
    requires
        lo <= hi <= v.len(),
    ensures
        lo <= r <= hi,
        v@.subrange(lo as int, r as int) == strip_suffixes(v@.subrange(lo as int, hi as int), x@),
{
    let mut at: usize = hi;
    if x.len() == 0 {
        return at;
    }
    while ends_with_at(v, lo, at, x)
        invariant
            lo <= at <= hi <= v.len(),
            x.len() > 0,
            strip_suffixes(v@.subrange(lo as int, at as int), x@) == strip_suffixes(
                v@.subrange(lo as int, hi as int),
                x@,
            ),
        decreases at - lo,
    {
        proof {
            let window = v@.subrange(lo as int, at as int);
            assert(window.take(window.len() - x.len()) =~= v@.subrange(
                lo as int,
                at - x.len(),
            ));
        }
        at -= x.len();
    }
    at
}

} // verus!
