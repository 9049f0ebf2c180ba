//! Text as sequences of characters: the few string operations that the rules
//! of this library are written in.

use vstd::prelude::*;
use vstd::string::*;

verus! {

/// The contract of `String::push`: one character is added at the end.
pub assume_specification[ String::push ](s: &mut String, c: char)
    ensures
        final(s)@ == old(s)@.push(c),
;

/// The characters with Unicode's `White_Space` property.
pub open spec fn is_white(c: char) -> bool {
    ||| 9 <= c as u32 <= 13
    ||| c as u32 == 0x20
    ||| c as u32 == 0x85
    ||| c as u32 == 0xa0
    ||| c as u32 == 0x1680
    ||| 0x2000 <= c as u32 <= 0x200a
    ||| c as u32 == 0x2028
    ||| c as u32 == 0x2029
    ||| c as u32 == 0x202f
    ||| c as u32 == 0x205f
    ||| c as u32 == 0x3000
}

pub open spec fn is_lower(c: char) -> bool {
    'a' <= c <= 'z'
}

pub open spec fn is_upper(c: char) -> bool {
    'A' <= c <= 'Z'
}

pub open spec fn is_digit(c: char) -> bool {
    '0' <= c <= '9'
}

/// An ASCII capital becomes its small letter; other characters stay.
pub open spec fn ascii_lower(c: char) -> char {
    if is_upper(c) {
        ((c as u8 + 32) as u8) as char
    } else {
        c
    }
}

/// `s` without its leading characters that satisfy `p`.
pub open spec fn strip_start(s: Seq<char>, p: spec_fn(char) -> bool) -> Seq<char>
    decreases s.len(),
{
    if s.len() > 0 && p(s[0]) {
        strip_start(s.drop_first(), p)
    } else {
        s
    }
}

/// `s` without its trailing characters that satisfy `p`.
pub open spec fn strip_end(s: Seq<char>, p: spec_fn(char) -> bool) -> Seq<char>
    decreases s.len(),
{
    if s.len() > 0 && p(s.last()) {
        strip_end(s.drop_last(), p)
    } else {
        s
    }
}

/// The test for one character.
pub open spec fn is_char(x: char) -> spec_fn(char) -> bool {
    |c: char| c == x
}

/// `s` without white space at its ends.
pub open spec fn trim(s: Seq<char>) -> Seq<char> {
    strip_end(strip_start(s, |c: char| is_white(c)), |c: char| is_white(c))
}

/// `s` without any `x` at its ends.
pub open spec fn trim_char(s: Seq<char>, x: char) -> Seq<char> {
    strip_end(strip_start(s, is_char(x)), is_char(x))
}

/// The pieces of `s` between the separators: always at least one.
pub open spec fn split(s: Seq<char>, sep: char) -> Seq<Seq<char>>
    decreases s.len(),
{
    if s.len() == 0 {
        seq![Seq::<char>::empty()]
    } else {
        let front = split(s.drop_last(), sep);
        if s.last() == sep {
            front.push(Seq::<char>::empty())
        } else {
            front.update(front.len() - 1, front.last().push(s.last()))
        }
    }
}

/// The pieces with a separator between each two.
pub open spec fn join(pieces: Seq<Seq<char>>, sep: char) -> Seq<char>
    decreases pieces.len(),
{
    if pieces.len() == 0 {
        Seq::<char>::empty()
    } else if pieces.len() == 1 {
        pieces[0]
    } else {
        join(pieces.drop_last(), sep).push(sep) + pieces.last()
    }
}

/// How many characters of `s` stand before the first `x`.
pub open spec fn before_first(s: Seq<char>, x: char) -> nat
    decreases s.len(),
{
    if s.len() == 0 || s[0] == x {
        0
    } else {
        1 + before_first(s.drop_first(), x)
    }
}

/// What stands before and after the first `x` of `s`, if there is one.
pub open spec fn split_once(s: Seq<char>, x: char) -> Option<(Seq<char>, Seq<char>)> {
    if s.contains(x) {
        let i = before_first(s, x) as int;
        Some((s.take(i), s.skip(i + 1)))
    } else {
        None
    }
}

/// `s` with each `from` replaced by `to`.
pub open spec fn replace(s: Seq<char>, from: char, to: char) -> Seq<char> {
    s.map_values(|c: char| if c == from { to } else { c })
}

/// `s` with its ASCII capitals made small.
pub open spec fn lower(s: Seq<char>) -> Seq<char> {
    s.map_values(|c: char| ascii_lower(c))
}

/// The texts of a list of strings.
pub open spec fn texts(v: Seq<String>) -> Seq<Seq<char>> {
    v.map_values(|s: String| s@)
}

/// The text of an optional string.
pub open spec fn opt_text(v: Option<String>) -> Option<Seq<char>> {
    match v {
        Some(s) => Some(s@),
        None => None,
    }
}

/// The text of an optional string slice.
pub open spec fn opt_str_text(v: Option<&str>) -> Option<Seq<char>> {
    match v {
        Some(s) => Some(s@),
        None => None,
    }
}

/// The trimmed text where it is there and not blank, else the default.
pub open spec fn trimmed_or(value: Option<Seq<char>>, default: Seq<char>) -> Seq<char> {
    match value {
        Some(s) => if trim(s).len() > 0 { trim(s) } else { default },
        None => default,
    }
}

/// The decimal digit of a number below ten.
pub open spec fn digit_char(d: nat) -> char {
    (('0' as u8 + d) as u8) as char
}

/// A number in decimal, without leading zeros.
pub open spec fn decimal(n: nat) -> Seq<char>
    decreases n,
{
    if n < 10 {
        seq![digit_char(n)]
    } else {
        decimal(n / 10).push(digit_char(n % 10))
    }
}

/// The number that a row of digits writes.
pub open spec fn digits_value(s: Seq<char>) -> nat
    decreases s.len(),
{
    if s.len() == 0 {
        0
    } else {
        (10 * digits_value(s.drop_last()) + (s.last() as u32 - '0' as u32)) as nat
    }
}

/// `s` without one leading plus sign.
pub open spec fn without_plus(s: Seq<char>) -> Seq<char> {
    if s.len() > 0 && s[0] == '+' {
        s.drop_first()
    } else {
        s
    }
}

pub open spec fn all_digits(s: Seq<char>) -> bool {
    forall|i: int| 0 <= i < s.len() ==> is_digit(#[trigger] s[i])
}

/// The number that `s` writes: an optional plus sign, then at least one digit
/// and nothing else, for a value of at most `max`.
pub open spec fn parse_number(s: Seq<char>, max: nat) -> Option<nat> {
    let digits = without_plus(s);
    if digits.len() > 0 && all_digits(digits) && digits_value(digits) <= max {
        Some(digits_value(digits))
    } else {
        None
    }
}

/// Whether a character is white space.
pub fn is_white_space(c: char) -> (r: bool)
    ensures
        r == is_white(c),
{
    let u: u32 = c as u32;
    (9 <= u && u <= 13) || u == 0x20 || u == 0x85 || u == 0xa0 || u == 0x1680 || (0x2000 <= u && u
        <= 0x200a) || u == 0x2028 || u == 0x2029 || u == 0x202f || u == 0x205f || u == 0x3000
}

pub fn is_ascii_lower(c: char) -> (r: bool)
    ensures
        r == is_lower(c),
{
    'a' <= c && c <= 'z'
}

pub fn is_ascii_digit(c: char) -> (r: bool)
    ensures
        r == is_digit(c),
{
    '0' <= c && c <= '9'
}

pub fn is_ascii_upper(c: char) -> (r: bool)
    ensures
        r == is_upper(c),
{
    'A' <= c && c <= 'Z'
}

pub fn to_ascii_lower(c: char) -> (r: char)
    ensures
        r == ascii_lower(c),
{
    if 'A' <= c && c <= 'Z' {
        ((c as u8) + 32u8) as char
    } else {
        c
    }
}

/// The characters of a string.
pub fn chars_of(s: &str) -> (r: Vec<char>)
    ensures
        r@ == s@,
{
    let mut r: Vec<char> = Vec::new();
    for c in it: s.chars()
        invariant
            r@ == it.seq().take(it.index() as int),
            it.seq() == s@,
    {
        r.push(c);
    }
    r
}

/// The string made of the characters from `from` up to `to`.
pub fn string_of(cs: &Vec<char>, from: usize, to: usize) -> (r: String)
    requires
        from <= to <= cs@.len(),
    ensures
        r@ == cs@.subrange(from as int, to as int),
{
    let mut r: String = String::new();
    for i in from..to
        invariant
            from <= to <= cs@.len(),
            r@ == cs@.subrange(from as int, i as int),
    {
        r.push(cs[i]);
        assert(cs@.subrange(from as int, i + 1) =~= cs@.subrange(from as int, i as int).push(
            cs@[i as int],
        ));
    }
    r
}

/// A copy of a string slice.
pub fn owned(s: &str) -> (r: String)
    ensures
        r@ == s@,
{
    String::from_str(s)
}

/// A copy of an optional string.
pub fn clone_opt(v: &Option<String>) -> (r: Option<String>)
    ensures
        opt_text(r) == opt_text(*v),
        r is Some == v is Some,
{
    match v {
        Some(s) => Some(s.clone()),
        None => None,
    }
}

/// Whether two texts are the same.
pub fn same(a: &str, b: &str) -> (r: bool)
    ensures
        r == (a@ == b@),
{
    let x = chars_of(a);
    let y = chars_of(b);
    if x.len() != y.len() {
        return false;
    }
    for i in 0..x.len()
        invariant
            x@ == a@,
            y@ == b@,
            x@.len() == y@.len(),
            forall|j: int| 0 <= j < i ==> x@[j] == y@[j],
    {
        if x[i] != y[i] {
            assert(a@[i as int] != b@[i as int]);
            return false;
        }
    }
    assert(a@ =~= b@);
    true
}

/// Whether `s` begins with `prefix`.
pub fn starts_with(s: &str, prefix: &str) -> (r: bool)
    ensures
        r == prefix@.is_prefix_of(s@),
{
    let x = chars_of(s);
    let y = chars_of(prefix);
    if y.len() > x.len() {
        return false;
    }
    for i in 0..y.len()
        invariant
            x@ == s@,
            y@ == prefix@,
            y@.len() <= x@.len(),
            forall|j: int| 0 <= j < i ==> x@[j] == y@[j],
    {
        if x[i] != y[i] {
            assert(s@.subrange(0, prefix@.len() as int)[i as int] != prefix@[i as int]);
            return false;
        }
    }
    assert(s@.subrange(0, prefix@.len() as int) =~= prefix@);
    true
}

/// Whether `s` ends with `suffix`.
pub fn ends_with(s: &str, suffix: &str) -> (r: bool)
    ensures
        r == suffix@.is_suffix_of(s@),
{
    let x = chars_of(s);
    let y = chars_of(suffix);
    if y.len() > x.len() {
        return false;
    }
    let n: usize = x.len();
    let d: usize = n - y.len();
    for i in 0..y.len()
        invariant
            x@ == s@,
            n == x@.len(),
            y@ == suffix@,
            d + y@.len() == x@.len(),
            forall|j: int| 0 <= j < i ==> x@[d + j] == y@[j],
    {
        if x[d + i] != y[i] {
            assert(s@.subrange(d as int, s@.len() as int)[i as int] != suffix@[i as int]);
            return false;
        }
    }
    assert(s@.subrange(d as int, s@.len() as int) =~= suffix@);
    true
}

/// Whether `s` holds the character `x`.
pub fn has_char(s: &str, x: char) -> (r: bool)
    ensures
        r == s@.contains(x),
{
    let cs = chars_of(s);
    for i in 0..cs.len()
        invariant
            cs@ == s@,
            forall|j: int| 0 <= j < i ==> cs@[j] != x,
    {
        if cs[i] == x {
            assert(s@[i as int] == x);
            return true;
        }
    }
    false
}

/// What `s` holds from its character `from` on.
pub fn skip_chars(s: &str, from: usize) -> (r: String)
    requires
        from <= s@.len(),
    ensures
        r@ == s@.skip(from as int),
{
    let cs = chars_of(s);
    let r = string_of(&cs, from, cs.len());
    assert(s@.skip(from as int) =~= s@.subrange(from as int, s@.len() as int));
    r
}

/// `s` without white space at its ends.
pub fn trimmed(s: &str) -> (r: String)
    ensures
        r@ == trim(s@),
{
    let cs = chars_of(s);
    let ghost p = |c: char| is_white(c);
    let mut i: usize = 0;
    assert(cs@.skip(0) =~= s@);
    while i < cs.len() && is_white_space(cs[i])
        invariant
            i <= cs@.len(),
            p == (|c: char| is_white(c)),
            strip_start(s@, p) == strip_start(cs@.skip(i as int), p),
        decreases cs@.len() - i,
    {
        assert(cs@.skip(i as int).drop_first() =~= cs@.skip(i + 1));
        i += 1;
    }
    assert(strip_start(s@, p) == cs@.skip(i as int));
    let mut j: usize = cs.len();
    assert(cs@.subrange(i as int, j as int) =~= cs@.skip(i as int));
    while j > i && is_white_space(cs[j - 1])
        invariant
            i <= j <= cs@.len(),
            p == (|c: char| is_white(c)),
            trim(s@) == strip_end(cs@.subrange(i as int, j as int), p),
        decreases j,
    {
        assert(cs@.subrange(i as int, j as int).drop_last() =~= cs@.subrange(i as int, j - 1));
        j -= 1;
    }
    string_of(&cs, i, j)
}

/// `s` without any `x` at its ends.
pub fn trimmed_of(s: &str, x: char) -> (r: String)
    ensures
        r@ == trim_char(s@, x),
{
    let cs = chars_of(s);
    let ghost p = is_char(x);
    let mut i: usize = 0;
    assert(cs@.skip(0) =~= s@);
    while i < cs.len() && cs[i] == x
        invariant
            i <= cs@.len(),
            p == is_char(x),
            strip_start(s@, p) == strip_start(cs@.skip(i as int), p),
        decreases cs@.len() - i,
    {
        assert(cs@.skip(i as int).drop_first() =~= cs@.skip(i + 1));
        i += 1;
    }
    assert(strip_start(s@, p) == cs@.skip(i as int));
    let mut j: usize = cs.len();
    assert(cs@.subrange(i as int, j as int) =~= cs@.skip(i as int));
    while j > i && cs[j - 1] == x
        invariant
            i <= j <= cs@.len(),
            p == is_char(x),
            trim_char(s@, x) == strip_end(cs@.subrange(i as int, j as int), p),
        decreases j,
    {
        assert(cs@.subrange(i as int, j as int).drop_last() =~= cs@.subrange(i as int, j - 1));
        j -= 1;
    }
    string_of(&cs, i, j)
}

/// The pieces of `s` between the separators.
pub fn split_text(s: &str, sep: char) -> (r: Vec<String>)
    ensures
        texts(r@) == split(s@, sep),
        r@.len() >= 1,
{
    let cs = chars_of(s);
    let mut done: Vec<String> = Vec::new();
    let mut piece: String = String::new();
    assert(cs@.take(0) =~= Seq::<char>::empty());
    assert(texts(done@).push(piece@) =~= seq![Seq::<char>::empty()]);
    for i in 0..cs.len()
        invariant
            cs@ == s@,
            texts(done@).push(piece@) == split(cs@.take(i as int), sep),
    {
        let c = cs[i];
        assert(cs@.take(i + 1).drop_last() =~= cs@.take(i as int));
        assert(cs@.take(i + 1).last() == c);
        let ghost before = texts(done@).push(piece@);
        if c == sep {
            let ghost prior = done@;
            done.push(piece);
            assert(texts(done@) =~= before);
            piece = String::new();
            assert(texts(done@).push(piece@) =~= before.push(Seq::<char>::empty()));
        } else {
            piece.push(c);
            assert(texts(done@).push(piece@) =~= before.update(
                before.len() - 1,
                before.last().push(c),
            ));
        }
    }
    assert(cs@.take(cs@.len() as int) =~= s@);
    let ghost prior = texts(done@);
    done.push(piece);
    assert(texts(done@) =~= prior.push(piece@));
    done
}

/// What stands before and after the first `x` of `s`, if there is one.
pub fn split_at_first(s: &str, x: char) -> (r: Option<(String, String)>)
    ensures
        match r {
            Some((a, b)) => split_once(s@, x) == Some((a@, b@)),
            None => split_once(s@, x) is None,
        },
{
    let cs = chars_of(s);
    let mut i: usize = 0;
    assert(cs@.skip(0) =~= s@);
    while i < cs.len() && cs[i] != x
        invariant
            i <= cs@.len(),
            cs@ == s@,
            forall|j: int| 0 <= j < i ==> cs@[j] != x,
            before_first(s@, x) == i + before_first(cs@.skip(i as int), x),
        decreases cs@.len() - i,
    {
        assert(cs@.skip(i as int).drop_first() =~= cs@.skip(i + 1));
        i += 1;
    }
    if i == cs.len() {
        return None;
    }
    assert(s@[i as int] == x);
    assert(before_first(s@, x) == i);
    let a = string_of(&cs, 0, i);
    let b = string_of(&cs, i + 1, cs.len());
    assert(s@.take(i as int) =~= s@.subrange(0, i as int));
    assert(s@.skip(i + 1) =~= s@.subrange(i + 1, s@.len() as int));
    Some((a, b))
}

/// `s` with each `from` replaced by `to`.
pub fn replaced(s: &str, from: char, to: char) -> (r: String)
    ensures
        r@ == replace(s@, from, to),
{
    let cs = chars_of(s);
    let mut r: String = String::new();
    for i in 0..cs.len()
        invariant
            cs@ == s@,
            r@ == replace(s@, from, to).take(i as int),
    {
        let ghost before = r@;
        if cs[i] == from {
            r.push(to);
        } else {
            r.push(cs[i]);
        }
        assert(r@ =~= replace(s@, from, to).take(i + 1));
    }
    assert(replace(s@, from, to).take(s@.len() as int) =~= replace(s@, from, to));
    r
}

/// `s` with its ASCII capitals made small.
pub fn lowered(s: &str) -> (r: String)
    ensures
        r@ == lower(s@),
{
    let cs = chars_of(s);
    let mut r: String = String::new();
    for i in 0..cs.len()
        invariant
            cs@ == s@,
            r@ == lower(s@).take(i as int),
    {
        r.push(to_ascii_lower(cs[i]));
        assert(r@ =~= lower(s@).take(i + 1));
    }
    assert(lower(s@).take(s@.len() as int) =~= lower(s@));
    r
}

/// The pieces with a separator between each two.
pub fn joined(pieces: &Vec<String>, sep: char) -> (r: String)
    ensures
        r@ == join(texts(pieces@), sep),
{
    let mut r: String = String::new();
    assert(texts(pieces@).take(0) =~= Seq::<Seq<char>>::empty());
    for i in 0..pieces.len()
        invariant
            r@ == join(texts(pieces@).take(i as int), sep),
    {
        let ghost upto = texts(pieces@).take(i + 1);
        assert(upto.drop_last() =~= texts(pieces@).take(i as int));
        assert(upto.last() == pieces@[i as int]@);
        if i > 0 {
            r.push(sep);
        }
        let ghost before = r@;
        r.append(pieces[i].as_str());
        if i == 0 {
            assert(r@ =~= upto[0]);
        }
    }
    assert(texts(pieces@).take(pieces@.len() as int) =~= texts(pieces@));
    r
}

/// The trimmed text where it is there and not blank, else the default.
pub fn trimmed_or_default(value: &Option<String>, default: &str) -> (r: String)
    ensures
        r@ == trimmed_or(opt_text(*value), default@),
{
    match value {
        Some(s) => {
            let t = trimmed(s.as_str());
            if t.as_str().is_empty() {
                owned(default)
            } else {
                t
            }
        },
        None => owned(default),
    }
}

/// A number in decimal.
pub fn decimal_of(n: u64) -> (r: String)
    ensures
        r@ == decimal(n as nat),
    decreases n,
{
    if n < 10 {
        let mut r = String::new();
        r.push((48u8 + n as u8) as char);
        assert(r@ =~= decimal(n as nat));
        r
    } else {
        let mut r = decimal_of(n / 10);
        r.push((48u8 + (n % 10) as u8) as char);
        r
    }
}

} // verus!
