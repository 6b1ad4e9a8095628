//! Small tools on sequences of characters.

use vstd::prelude::*;

verus! {

/// The characters of a string, one by one.
pub fn chars_of(s: &str) -> (chars: Vec<char>)
    ensures
        chars@ == s@,
{
    let mut chars: Vec<char> = Vec::new();
    for c in it: s.chars()
        invariant
            it.seq() == s@,
            chars@ == it.seq().take(it.index() as int),
    {
        chars.push(c);
    }
    chars
}

/// Whether `pattern` stands in `chars` at position `at`.
pub fn stands_at(chars: &Vec<char>, at: usize, pattern: &Vec<char>) -> (r: bool)
    requires
        at + pattern.len() <= chars.len(),
    ensures
        r == (chars@.subrange(at as int, at + pattern.len()) == pattern@),
{
    let mut i: usize = 0;
    while i < pattern.len()
        invariant
            i <= pattern.len(),
            at + pattern.len() <= chars.len(),
            forall|k: int| 0 <= k < i ==> chars@[at + k] == pattern@[k],
        decreases pattern.len() - i,
    {
        if chars[at + i] != pattern[i] {
            assert(chars@.subrange(at as int, at + pattern.len())[i as int] != pattern@[i as int]);
            return false;
        }
        i += 1;
    }
    assert(chars@.subrange(at as int, at + pattern.len()) =~= pattern@);
    true
}

/// Whether `c` occurs in `chars` between `from` and `to`.
pub fn occurs_between(chars: &Vec<char>, from: usize, to: usize, c: char) -> (r: bool)
    requires
        from <= to <= chars.len(),
    ensures
        r == chars@.subrange(from as int, to as int).contains(c),
{
    let mut i: usize = from;
    while i < to
        invariant
            from <= i <= to <= chars.len(),
            forall|k: int| from <= k < i ==> chars@[k] != c,
        decreases to - i,
    {
        if chars[i] == c {
            assert(chars@.subrange(from as int, to as int)[i - from] == c);
            return true;
        }
        i += 1;
    }
    false
}

/// Whether two texts hold the same characters.
pub fn same_text(a: &str, b: &str) -> (r: bool)
    ensures
        r == (a@ == b@),
{
    let x = a.as_bytes();
    let y = b.as_bytes();
    proof {
        vstd::utf8::encode_utf8_decode_utf8(a@);
        vstd::utf8::encode_utf8_decode_utf8(b@);
    }
    if x.len() != y.len() {
        return false;
    }
    let mut i: usize = 0;
    while i < x.len()
        invariant
            i <= x.len() == y.len(),
            x@ == vstd::utf8::encode_utf8(a@),
            y@ == vstd::utf8::encode_utf8(b@),
            forall|k: int| 0 <= k < i ==> x@[k] == y@[k],
        decreases x.len() - i,
    {
        if x[i] != y[i] {
            assert(x@[i as int] != y@[i as int]);
            return false;
        }
        i += 1;
    }
    assert(x@ =~= y@);
    true
}

/// The white space of XML: space, tab, line feed and carriage return.
pub open spec fn is_blank(c: char) -> bool {
    c == ' ' || c == '\t' || c == '\n' || c == '\r'
}

/// `s` without the white space it starts with.
pub open spec fn trim_start(s: Seq<char>) -> Seq<char>
    decreases s.len(),
{
    if s.len() > 0 && is_blank(s.first()) {
        trim_start(s.drop_first())
    } else {
        s
    }
}

/// `s` without the white space it ends with.
pub open spec fn trim_end(s: Seq<char>) -> Seq<char>
    decreases s.len(),
{
    if s.len() > 0 && is_blank(s.last()) {
        trim_end(s.drop_last())
    } else {
        s
    }
}

/// `s` without the white space around it.
pub open spec fn trimmed(s: Seq<char>) -> Seq<char> {
    trim_end(trim_start(s))
}

/// Whether `c` is white space of XML.
pub fn blank(c: char) -> (r: bool)
    ensures
        r == is_blank(c),
{
    c == ' ' || c == '\t' || c == '\n' || c == '\r'
}

/// The part of `s` that is left when the white space around it is taken off.
pub fn trim<'a>(s: &'a str) -> (r: &'a str)
    ensures
        r@ == trimmed(s@),
{
    let chars = chars_of(s);
    let n = chars.len();
    let mut from: usize = 0;
    assert(s@.subrange(0, n as int) =~= s@);
    while from < n && blank(chars[from])
        invariant
            from <= n == chars@.len(),
            chars@ == s@,
            trim_start(s@) == trim_start(s@.subrange(from as int, n as int)),
        decreases n - from,
    {
        assert(s@.subrange(from as int, n as int).drop_first() =~= s@.subrange(
            from + 1,
            n as int,
        ));
        from += 1;
    }
    let ghost rest = s@.subrange(from as int, n as int);
    assert(trim_start(s@) == rest);
    let mut to: usize = n;
    while from < to && blank(chars[to - 1])
        invariant
            from <= to <= n == chars@.len(),
            chars@ == s@,
            rest == s@.subrange(from as int, n as int),
            trim_end(rest) == trim_end(s@.subrange(from as int, to as int)),
        decreases to - from,
    {
        assert(s@.subrange(from as int, to as int).drop_last() =~= s@.subrange(
            from as int,
            to - 1,
        ));
        to -= 1;
    }
    s.substring_char(from, to)
}

/// The ten digits, in their order.
pub const DIGITS: &'static str = "0123456789";

/// The number `n` written in decimal digits, without leading zeros.
pub open spec fn decimal(n: nat) -> Seq<char>
    decreases n,
{
    if n < 10 {
        seq![DIGITS@[n as int]]
    } else {
        decimal(n / 10).push(DIGITS@[(n % 10) as int])
    }
}

/// Writes `n` in decimal digits.
pub fn decimal_text(n: usize) -> (text: String)
    ensures
        text@ == decimal(n as nat),
{
    proof {
        reveal_strlit("0123456789");
    }
    let last = n % 10;
    let mut text = DIGITS.substring_char(last, last + 1).to_owned();
    let mut rest = n / 10;
    assert(text@ =~= seq![DIGITS@[last as int]]);
    while rest > 0
        invariant
            DIGITS@.len() == 10,
            decimal(n as nat) == if rest > 0 {
                decimal(rest as nat) + text@
            } else {
                text@
            },
        decreases rest,
    {
        let digit = rest % 10;
        let mut longer = DIGITS.substring_char(digit, digit + 1).to_owned();
        assert(longer@ =~= seq![DIGITS@[digit as int]]);
        longer.append(text.as_str());
        proof {
            let head = if rest >= 10 {
                decimal((rest / 10) as nat)
            } else {
                Seq::<char>::empty()
            };
            assert(decimal(rest as nat) =~= head + seq![DIGITS@[digit as int]]);
            assert(decimal(rest as nat) + text@ =~= head + longer@);
        }
        text = longer;
        rest = rest / 10;
    }
    text
}

} // verus!
