//! String helpers shared by the code generator: character sequences,
//! decimal rendering of integers and the few `std` string operations
//! the generator relies on.

use vstd::prelude::*;

verus! {

/// The decimal digit character for `d` (`0 <= d < 10`).
pub open spec fn digit_char(d: nat) -> char {
    if d == 0 { '0' }
    else if d == 1 { '1' }
    else if d == 2 { '2' }
    else if d == 3 { '3' }
    else if d == 4 { '4' }
    else if d == 5 { '5' }
    else if d == 6 { '6' }
    else if d == 7 { '7' }
    else if d == 8 { '8' }
    else { '9' }
}

/// The decimal rendering of `n`, without sign or leading zeros.
pub open spec fn decimal(n: nat) -> Seq<char>
    decreases n,
{
    if n < 10 {
        seq![digit_char(n)]
    } else {
        decimal(n / 10).push(digit_char(n % 10))
    }
}

/// Appends `c` to `s` (`String::push`).
#[verifier::external_body]
pub fn push_char(s: &mut String, c: char)
    ensures
        final(s)@ == old(s)@.push(c),
{
    s.push(c);
}

/// The digit character of `d`.
pub fn digit_of(d: u8) -> (c: char)
    requires
        d < 10,
    ensures
        c == digit_char(d as nat),
{
    if d == 0 { '0' }
    else if d == 1 { '1' }
    else if d == 2 { '2' }
    else if d == 3 { '3' }
    else if d == 4 { '4' }
    else if d == 5 { '5' }
    else if d == 6 { '6' }
    else if d == 7 { '7' }
    else if d == 8 { '8' }
    else { '9' }
}

/// Appends the decimal rendering of `n` to `s`.
pub fn push_decimal(s: &mut String, n: u128)
    ensures
        final(s)@ == old(s)@ + decimal(n as nat),
    decreases n,
{
    if n >= 10 {
        push_decimal(s, n / 10);
    }
    let d = (n % 10) as u8;
    push_char(s, digit_of(d));
    proof {
        if n >= 10 {
            assert(decimal(n as nat) == decimal((n / 10) as nat).push(digit_char((n % 10) as nat)));
        }
    }
}

/// The decimal rendering of `n` as a new string.
pub fn decimal_string(n: u128) -> (r: String)
    ensures
        r@ == decimal(n as nat),
{
    let mut r = String::new();
    push_decimal(&mut r, n);
    assert(r@ =~= decimal(n as nat));
    r
}

/// Appends `t` to `s`.
pub fn push_str(s: &mut String, t: &str)
    ensures
        final(s)@ == old(s)@ + t@,
{
    s.append(t);
}

/// A copy of `t` as an owned string.
pub fn to_string(t: &str) -> (r: String)
    ensures
        r@ == t@,
{
    t.to_owned()
}

/// The characters of `t`, in order.
pub fn chars_of(t: &str) -> (v: Vec<char>)
    ensures
        v@ == t@,
{
    broadcast use vstd::string::group_string_axioms;
    let mut v: Vec<char> = Vec::new();
    for c in it: t.chars()
        invariant
            it.seq() == t@,
            v@ == it.seq().take(it.index()),
    {
        v.push(c);
        assert(it.seq().take(it.index() + 1) =~= v@);
    }
    assert(v@ =~= t@);
    v
}

/// Whether `suffix` ends `t`.
pub fn ends_with(t: &str, suffix: &str) -> (b: bool)
    ensures
        b == suffix@.is_suffix_of(t@),
{
    let a = chars_of(t);
    let e = chars_of(suffix);
    if e.len() > a.len() {
        return false;
    }
    let off = a.len() - e.len();
    let mut i: usize = 0;
    while i < e.len()
        invariant
            a@ == t@,
            e@ == suffix@,
            off + e@.len() == a@.len(),
            a@.len() <= usize::MAX,
            i <= e@.len(),
            forall|j: int| 0 <= j < i ==> e@[j] == a@[off + j],
        decreases e@.len() - i,
    {
        if e[i] != a[off + i] {
            assert(!suffix@.is_suffix_of(t@)) by {
                assert(t@.subrange(t@.len() - suffix@.len(), t@.len() as int)[i as int] == t@[off + i]);
            }
            return false;
        }
        i = i + 1;
    }
    assert(t@.subrange(t@.len() - suffix@.len(), t@.len() as int) =~= suffix@);
    true
}

/// Appends the characters `cs[from..to]` to `s`.
pub fn push_chars(s: &mut String, cs: &[char], from: usize, to: usize)
    requires
        from <= to <= cs@.len(),
    ensures
        final(s)@ == old(s)@ + cs@.subrange(from as int, to as int),
{
    let ghost start = s@;
    let mut i = from;
    while i < to
        invariant
            from <= i <= to,
            to <= cs@.len(),
            s@ == start + cs@.subrange(from as int, i as int),
        decreases to - i,
    {
        push_char(s, cs[i]);
        assert(cs@.subrange(from as int, i + 1) =~= cs@.subrange(from as int, i as int).push(cs@[i as int]));
        i = i + 1;
    }
}

/// A new string holding the characters `cs`.
pub fn string_of_chars(cs: &[char]) -> (s: String)
    ensures
        s@ == cs@,
{
    let mut s = String::new();
    push_chars(&mut s, cs, 0, cs.len());
    assert(cs@.subrange(0, cs@.len() as int) =~= cs@);
    assert(s@ =~= cs@);
    s
}

/// What `char::to_uppercase` yields for `c`: its uppercase mapping, one or
/// more characters, or `c` itself where it has none.
pub uninterp spec fn upper_chars(c: char) -> Seq<char>;

/// Whether `c` is an ASCII lowercase letter.
pub open spec fn is_ascii_lower(c: char) -> bool {
    'a' <= c && c <= 'z'
}

/// The uppercase of `c`: for an ASCII lowercase letter the letter 32 code
/// points below it, for any other ASCII character `c` itself, and for other
/// characters what `char::to_uppercase` yields.
pub open spec fn upper_spec(c: char) -> Seq<char> {
    if is_ascii_lower(c) {
        seq![((c as int) - 32) as char]
    } else if (c as int) < 128 {
        seq![c]
    } else {
        upper_chars(c)
    }
}

/// The uppercase of `c` as a string (`char::to_uppercase`, collected).
///
/// The contract states what the `std` documentation gives plainly: the
/// mapping yields at least one character; an ASCII lowercase letter maps to
/// its uppercase letter, any other ASCII character to itself. Of other
/// characters it says only that the result is `upper_chars(c)`, the Unicode
/// uppercase mapping, which depends on `c` alone.
#[verifier::external_body]
pub fn char_upper(c: char) -> (r: String)
    ensures
        r@ == upper_spec(c),
        (c as int) >= 128 ==> r@ == upper_chars(c),
        r@.len() >= 1,
{
    c.to_uppercase().collect::<String>()
}

/// `l` without one trailing carriage return.
pub open spec fn strip_cr(l: Seq<char>) -> Seq<char> {
    if l.len() > 0 && l.last() == '\r' {
        l.drop_last()
    } else {
        l
    }
}

/// The lines of `s`, where `cur` is the part of the current line read
/// before it: lines end at `\n` (a `\r` before it is dropped), and a last
/// line without `\n` counts only when it is not empty.
pub open spec fn lines_from(s: Seq<char>, cur: Seq<char>) -> Seq<Seq<char>>
    decreases s.len(),
{
    if s.len() == 0 {
        if cur.len() == 0 {
            Seq::empty()
        } else {
            seq![cur]
        }
    } else if s[0] == '\n' {
        seq![strip_cr(cur)] + lines_from(s.drop_first(), Seq::empty())
    } else {
        lines_from(s.drop_first(), cur.push(s[0]))
    }
}

/// The lines of `s`, as `str::lines` yields them.
pub open spec fn lines_spec(s: Seq<char>) -> Seq<Seq<char>> {
    lines_from(s, Seq::empty())
}

/// The views of a sequence of strings.
pub open spec fn views(v: Seq<String>) -> Seq<Seq<char>> {
    v.map_values(|x: String| x@)
}

/// The lines of `t` (`str::lines`).
pub fn lines(t: &str) -> (r: Vec<String>)
    ensures
        views(r@) == lines_spec(t@),
{
    let cs = chars_of(t);
    let mut r: Vec<String> = Vec::new();
    let mut cur: Vec<char> = Vec::new();
    let mut i: usize = 0;
    assert(t@.skip(0) =~= t@);
    assert(views(r@) =~= Seq::<Seq<char>>::empty());
    assert(views(r@) + lines_from(t@.skip(0), cur@) =~= lines_spec(t@));
    while i < cs.len()
        invariant
            cs@ == t@,
            i <= cs@.len(),
            views(r@) + lines_from(t@.skip(i as int), cur@) == lines_spec(t@),
        decreases cs@.len() - i,
    {
        let ghost rest = t@.skip(i as int);
        assert(rest.drop_first() =~= t@.skip(i + 1));
        let ghost oldcur = cur@;
        if cs[i] == '\n' {
            let mut l = cur.len();
            if l > 0 && cur[l - 1] == '\r' {
                l = l - 1;
            }
            let mut line = String::new();
            crate::text::push_chars(&mut line, cur.as_slice(), 0, l);
            assert(cur@.subrange(0, l as int) =~= strip_cr(cur@));
            let ghost before = views(r@);
            r.push(line);
            assert(views(r@) =~= before.push(strip_cr(cur@)));
            cur = Vec::new();
            assert(lines_from(rest, oldcur) == seq![strip_cr(oldcur)] + lines_from(rest.drop_first(), Seq::empty()));
            assert(views(r@) + lines_from(t@.skip(i + 1), cur@) =~= before + (seq![strip_cr(oldcur)] + lines_from(t@.skip(i + 1), Seq::empty())));
        } else {
            cur.push(cs[i]);
            assert(lines_from(rest, oldcur) == lines_from(rest.drop_first(), oldcur.push(rest[0])));
        }
        i = i + 1;
    }
    assert(t@.skip(i as int) =~= Seq::<char>::empty());
    if cur.len() > 0 {
        let line = crate::text::string_of_chars(cur.as_slice());
        let ghost before = views(r@);
        r.push(line);
        assert(views(r@) =~= before.push(cur@));
    }
    assert(views(r@) =~= lines_spec(t@));
    r
}

/// Whether two character vectors hold the same characters.
pub fn chars_equal(a: &Vec<char>, b: &Vec<char>) -> (r: bool)
    ensures
        r == (a@ == b@),
{
    if a.len() != b.len() {
        return false;
    }
    let mut i: usize = 0;
    while i < a.len()
        invariant
            a@.len() == b@.len(),
            i <= a@.len(),
            forall|k: int| 0 <= k < i ==> a@[k] == b@[k],
        decreases a@.len() - i,
    {
        if a[i] != b[i] {
            return false;
        }
        i = i + 1;
    }
    assert(a@ =~= b@);
    true
}

/// Whether two strings are equal.
pub fn str_equals(a: &str, b: &str) -> (r: bool)
    ensures
        r == (a@ == b@),
{
    let x = chars_of(a);
    let y = chars_of(b);
    chars_equal(&x, &y)
}

} // verus!
