//! Text: the few string operations the rest of the crate is stated over.

use vstd::prelude::*;

verus! {

/// `String::push` appends one character.
pub assume_specification[ String::push ](s: &mut String, c: char)
    ensures
        final(s)@ == old(s)@.push(c),
;

/// The characters of `s`, in order.
pub fn chars_of(s: &str) -> (r: Vec<char>)
    ensures
        r@ == s@,
{
    let mut out: Vec<char> = Vec::new();
    for c in it: s.chars()
        invariant
            it.seq() == s@,
            out@ == s@.take(it.index() as int),
    {
        out.push(c);
        proof {
            assert(s@.take(it.index() + 1) == s@.take(it.index() as int).push(c));
        }
    }
    proof {
        assert(s@.take(s@.len() as int) == s@);
    }
    out
}

/// The string made of the characters of `cs` from position `from` on.
pub fn string_of(cs: &Vec<char>, from: usize) -> (r: String)
    requires
        from <= cs@.len(),
    ensures
        r@ == cs@.skip(from as int),
{
    let mut out = String::new();
    let mut i: usize = from;
    while i < cs.len()
        invariant
            from <= i <= cs@.len(),
            out@ == cs@.subrange(from as int, i as int),
        decreases cs@.len() - i,
    {
        out.push(cs[i]);
        proof {
            assert(cs@.subrange(from as int, i + 1) == cs@.subrange(from as int, i as int).push(
                cs@[i as int],
            ));
        }
        i += 1;
    }
    out
}

/// Whether `s` holds no character.
pub fn is_empty(s: &str) -> (r: bool)
    ensures
        r == (s@.len() == 0),
{
    chars_of(s).len() == 0
}

/// Whether two strings hold the same characters.
pub fn same(a: &str, b: &str) -> (r: bool)
    ensures
        r == (a@ == b@),
{
    let xs = chars_of(a);
    let ys = chars_of(b);
    if xs.len() != ys.len() {
        return false;
    }
    let mut i: usize = 0;
    while i < xs.len()
        invariant
            xs@ == a@,
            ys@ == b@,
            xs@.len() == ys@.len(),
            0 <= i <= xs@.len(),
            forall|j: int| 0 <= j < i ==> xs@[j] == ys@[j],
        decreases xs@.len() - i,
    {
        if xs[i] != ys[i] {
            return false;
        }
        i += 1;
    }
    proof {
        assert(a@ =~= b@);
    }
    true
}

/// Whether `s` begins with `prefix`.
pub fn starts_with(s: &str, prefix: &str) -> (r: bool)
    ensures
        r == prefix@.is_prefix_of(s@),
{
    let xs = chars_of(s);
    let ps = chars_of(prefix);
    if xs.len() < ps.len() {
        return false;
    }
    let mut i: usize = 0;
    while i < ps.len()
        invariant
            xs@ == s@,
            ps@ == prefix@,
            ps@.len() <= xs@.len(),
            0 <= i <= ps@.len(),
            forall|j: int| 0 <= j < i ==> xs@[j] == ps@[j],
        decreases ps@.len() - i,
    {
        if xs[i] != ps[i] {
            proof {
                if prefix@.is_prefix_of(s@) {
                    assert(s@.subrange(0, prefix@.len() as int)[i as int] == prefix@[i as int]);
                }
            }
            return false;
        }
        i += 1;
    }
    proof {
        assert(prefix@ =~= s@.subrange(0, prefix@.len() as int));
    }
    true
}

/// Whether `part` stands in `xs` at `at`.
fn stands_at(xs: &Vec<char>, part: &Vec<char>, at: usize) -> (r: bool)
    requires
        at + part@.len() <= xs@.len(),
    ensures
        r == (xs@.subrange(at as int, at + part@.len()) == part@),
{
    let ghost here = xs@.subrange(at as int, at + part@.len());
    let mut i: usize = 0;
    while i < part.len()
        invariant
            0 <= i <= part@.len(),
            at + part@.len() <= xs@.len(),
            here == xs@.subrange(at as int, at + part@.len()),
            forall|j: int| 0 <= j < i ==> here[j] == part@[j],
        decreases part@.len() - i,
    {
        proof {
            assert(here[i as int] == xs@[at + i]);
        }
        let len: usize = xs.len();
        assert(at + i < len);
        if xs[at + i] != part[i] {
            return false;
        }
        i += 1;
    }
    proof {
        assert(here =~= part@);
    }
    true
}

/// Whether `s` ends with `suffix`.
pub fn ends_with(s: &str, suffix: &str) -> (r: bool)
    ensures
        r == suffix@.is_suffix_of(s@),
{
    let xs = chars_of(s);
    let part = chars_of(suffix);
    if xs.len() < part.len() {
        return false;
    }
    stands_at(&xs, &part, xs.len() - part.len())
}

/// `part` stands in `s` at `at`.
pub open spec fn found_at(s: Seq<char>, part: Seq<char>, at: int) -> bool {
    0 <= at && at + part.len() <= s.len() && s.subrange(at, at + part.len()) == part
}

/// `part` stands somewhere in `s`.
pub open spec fn has_part(s: Seq<char>, part: Seq<char>) -> bool {
    exists|at: int| found_at(s, part, at)
}

/// Whether `part` stands somewhere in `s`.
pub fn holds_part(s: &str, part: &str) -> (r: bool)
    ensures
        r == has_part(s@, part@),
{
    let xs = chars_of(s);
    let ps = chars_of(part);
    if xs.len() < ps.len() {
        return false;
    }
    let last: usize = xs.len() - ps.len();
    let mut i: usize = 0;
    loop
        invariant
            xs@ == s@,
            ps@ == part@,
            i <= last,
            last == xs@.len() - ps@.len(),
            forall|j: int| 0 <= j < i ==> !found_at(s@, part@, j),
        decreases last - i,
    {
        if stands_at(&xs, &ps, i) {
            proof {
                assert(found_at(s@, part@, i as int));
            }
            return true;
        }
        if i == last {
            return false;
        }
        i += 1;
    }
}

/// What follows `prefix` in `s`, when `s` begins with it.
pub fn strip_prefix(s: &str, prefix: &str) -> (r: Option<String>)
    ensures
        r is Some <==> prefix@.is_prefix_of(s@),
        r matches Some(rest) ==> rest@ == s@.skip(prefix@.len() as int),
{
    if !starts_with(s, prefix) {
        return None;
    }
    let xs = chars_of(s);
    let ps = chars_of(prefix);
    Some(string_of(&xs, ps.len()))
}

/// The digit `d` (below ten) as a character.
pub open spec fn digit(d: nat) -> char {
    (('0' as nat) + d) as char
}

/// `n` in decimal, without leading zeros.
pub open spec fn decimal(n: nat) -> Seq<char>
    decreases n,
{
    if n < 10 {
        seq![digit(n)]
    } else {
        decimal(n / 10).push(digit(n % 10))
    }
}

/// Writes `n` in decimal.
pub fn decimal_of(n: u64) -> (r: String)
    ensures
        r@ == decimal(n as nat),
    decreases n,
{
    if n < 10 {
        let mut s = String::new();
        s.push((48u8 + (n as u8)) as char);
        proof {
            assert(s@ =~= decimal(n as nat));
        }
        s
    } else {
        let mut s = decimal_of(n / 10);
        s.push((48u8 + ((n % 10) as u8)) as char);
        s
    }
}

/// The ASCII lower-case form of one character; others are unchanged.
pub open spec fn lower(c: char) -> char {
    if 'A' <= c && c <= 'Z' {
        ((c as u8) + 32) as char
    } else {
        c
    }
}

/// `s` with its ASCII letters in lower case.
pub open spec fn lower_all(s: Seq<char>) -> Seq<char> {
    s.map_values(|c: char| lower(c))
}

/// Lower-cases the ASCII letters of `s`.
pub fn ascii_lower(s: &str) -> (r: String)
    ensures
        r@ == lower_all(s@),
{
    let xs = chars_of(s);
    let mut out = String::new();
    let mut i: usize = 0;
    while i < xs.len()
        invariant
            xs@ == s@,
            0 <= i <= xs@.len(),
            out@ == lower_all(s@.take(i as int)),
        decreases xs@.len() - i,
    {
        let c = xs[i];
        if 'A' <= c && c <= 'Z' {
            out.push(((c as u8) + 32) as char);
        } else {
            out.push(c);
        }
        proof {
            assert(lower_all(s@.take(i + 1)) == lower_all(s@.take(i as int)).push(lower(c)));
        }
        i += 1;
    }
    proof {
        assert(s@.take(s@.len() as int) == s@);
    }
    out
}

/// A Unicode white-space character.
pub open spec fn white(c: char) -> bool {
    let n = c as int;
    ||| 9 <= n <= 13
    ||| n == 0x20
    ||| n == 0x85
    ||| n == 0xa0
    ||| n == 0x1680
    ||| 0x2000 <= n <= 0x200a
    ||| n == 0x2028
    ||| n == 0x2029
    ||| n == 0x202f
    ||| n == 0x205f
    ||| n == 0x3000
}

/// `char::is_whitespace` tells the characters with the Unicode property
/// White_Space, which are the ones listed in [`white`].
pub assume_specification[ char::is_whitespace ](c: char) -> (r: bool)
    ensures
        r == white(c),
;

/// Whether nothing but white space is in `s`.
pub open spec fn blank(s: Seq<char>) -> bool {
    forall|i: int| 0 <= i < s.len() ==> white(#[trigger] s[i])
}

/// Whether nothing is left of `s` once white space is trimmed off.
pub fn is_blank(s: &str) -> (r: bool)
    ensures
        r == blank(s@),
{
    let xs = chars_of(s);
    let mut i: usize = 0;
    while i < xs.len()
        invariant
            xs@ == s@,
            0 <= i <= xs@.len(),
            forall|j: int| 0 <= j < i ==> white(#[trigger] xs@[j]),
        decreases xs@.len() - i,
    {
        if !xs[i].is_whitespace() {
            return false;
        }
        i += 1;
    }
    true
}

/// The order of strings: by the first character in which they differ, a
/// prefix before what it begins.
pub open spec fn before(a: Seq<char>, b: Seq<char>) -> bool
    decreases a.len(),
{
    &&& b.len() > 0
    &&& (a.len() == 0 || a[0] < b[0] || (a[0] == b[0] && before(a.drop_first(), b.drop_first())))
}

/// Of two different strings exactly one stands before the other, and none
/// stands before itself.
pub proof fn lemma_before_total(a: Seq<char>, b: Seq<char>)
    ensures
        !before(a, a),
        a != b ==> before(a, b) != before(b, a),
    decreases a.len(),
{
    if a.len() > 0 {
        if b.len() > 0 {
            lemma_before_total(a.drop_first(), b.drop_first());
            if a[0] == b[0] && a.drop_first() == b.drop_first() {
                assert(a =~= seq![a[0]] + a.drop_first());
                assert(b =~= seq![b[0]] + b.drop_first());
            }
        } else {
            lemma_before_total(a.drop_first(), a.drop_first());
        }
    } else if b.len() == 0 {
        assert(a =~= b);
    }
}

/// The order of strings is transitive.
pub proof fn lemma_before_transitive(a: Seq<char>, b: Seq<char>, c: Seq<char>)
    requires
        before(a, b),
        before(b, c),
    ensures
        before(a, c),
    decreases a.len(),
{
    if a.len() > 0 && a[0] == b[0] && b[0] == c[0] {
        lemma_before_transitive(a.drop_first(), b.drop_first(), c.drop_first());
    }
}

/// Whether `a` stands before `b`.
pub fn is_before(a: &str, b: &str) -> (r: bool)
    ensures
        r == before(a@, b@),
{
    let xs = chars_of(a);
    let ys = chars_of(b);
    let mut i: usize = 0;
    proof {
        assert(a@.skip(0) =~= a@);
        assert(b@.skip(0) =~= b@);
    }
    while i < xs.len() && i < ys.len() && xs[i] == ys[i]
        invariant
            xs@ == a@,
            ys@ == b@,
            0 <= i <= xs@.len(),
            i <= ys@.len(),
            before(a@, b@) == before(a@.skip(i as int), b@.skip(i as int)),
        decreases xs@.len() - i,
    {
        proof {
            assert(a@.skip(i as int).drop_first() =~= a@.skip(i + 1));
            assert(b@.skip(i as int).drop_first() =~= b@.skip(i + 1));
        }
        i += 1;
    }
    if i == ys.len() {
        false
    } else if i == xs.len() {
        true
    } else {
        xs[i] < ys[i]
    }
}

/// The strings of `s` in order, each one before all that follow it.
pub open spec fn strictly_ordered(s: Seq<Seq<char>>) -> bool {
    forall|i: int, j: int| 0 <= i < j < s.len() ==> before(#[trigger] s[i], #[trigger] s[j])
}

/// The strings of `s` in order, none after one that follows it.
pub open spec fn ordered(s: Seq<Seq<char>>) -> bool {
    forall|i: int, j: int| 0 <= i < j < s.len() ==> !before(#[trigger] s[j], #[trigger] s[i])
}

} // verus!
