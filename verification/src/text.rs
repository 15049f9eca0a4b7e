//! Text: the string operations that the rest of the library is stated over.

use vstd::prelude::*;
use vstd::string::*;

verus! {

/// `String::push` of std appends one character at the end.
pub assume_specification[ String::push ](s: &mut String, c: char)
    ensures
        final(s)@ == old(s)@.push(c),
;

/// The characters of a text, in order.
pub fn chars_of(s: &str) -> (v: Vec<char>)
    ensures
        v@ == s@,
{
    let mut v: Vec<char> = Vec::new();
    for c in it: s.chars()
        invariant
            v@ == s@.take(it.index()),
            it.seq() == s@,
    {
        v.push(c);
    }
    v
}

/// The text made of the characters `v[from..to]`.
pub fn text_of(v: &Vec<char>, from: usize, to: usize) -> (s: String)
    requires
        from <= to <= v@.len(),
    ensures
        s@ == v@.subrange(from as int, to as int),
{
    let mut s: String = String::new();
    let mut i: usize = from;
    while i < to
        invariant
            from <= i <= to <= v@.len(),
            s@ == v@.subrange(from as int, i as int),
        decreases to - i,
    {
        s.push(v[i]);
        i = i + 1;
    }
    s
}

/// Whether two texts are the same.
pub fn same(a: &str, b: &str) -> (r: bool)
    ensures
        r == (a@ == b@),
{
    let x: Vec<char> = chars_of(a);
    let y: Vec<char> = chars_of(b);
    if x.len() != y.len() {
        return false;
    }
    let mut i: usize = 0;
    while i < x.len()
        invariant
            i <= x@.len(),
            x@.len() == y@.len(),
            x@ == a@,
            y@ == b@,
            forall|j: int| 0 <= j < i ==> x@[j] == y@[j],
        decreases x@.len() - i,
    {
        if x[i] != y[i] {
            assert(a@[i as int] != b@[i as int]);
            return false;
        }
        i = i + 1;
    }
    assert(a@ =~= b@);
    true
}

/// A copy of an optional text.
pub fn copy_option(o: &Option<String>) -> (r: Option<String>)
    ensures
        r == *o,
{
    match o {
        Some(s) => Some(s.clone()),
        None => None,
    }
}

/// The text in `o`, or `default` where there is none.
pub fn or_default(o: &Option<String>, default: &str) -> (r: String)
    ensures
        r@ == or_text(o.deep_view(), default@),
{
    match o {
        Some(s) => s.clone(),
        None => default.to_owned(),
    }
}

/// An optional text, by its view.
pub open spec fn opt_view(o: Option<&str>) -> Option<Seq<char>> {
    match o {
        Some(s) => Some(s@),
        None => None,
    }
}

/// The text in `o`, or `default` where there is none.
pub open spec fn or_text(o: Option<Seq<char>>, default: Seq<char>) -> Seq<char> {
    match o {
        Some(s) => s,
        None => default,
    }
}

/// The number in `o`, or `default` where there is none.
pub open spec fn or_number(o: Option<i64>, default: i64) -> i64 {
    match o {
        Some(n) => n,
        None => default,
    }
}

/// The number in `o`, or `default` where there is none.
pub fn number_or_default(o: Option<i64>, default: i64) -> (r: i64)
    ensures
        r == or_number(o, default),
{
    match o {
        Some(n) => n,
        None => default,
    }
}

// ── Numbers as text ─────────────────────────────────────────────────────────

pub open spec fn digit_char(d: int) -> char {
    ('0' as int + d) as char
}

/// Decimal digits of a natural number, without leading zeros.
pub open spec fn dec_nat(n: nat) -> Seq<char>
    decreases n,
{
    if n < 10 {
        seq![digit_char(n as int)]
    } else {
        dec_nat(n / 10).push(digit_char((n % 10) as int))
    }
}

/// Decimal form of an integer.
pub open spec fn dec(n: int) -> Seq<char> {
    if n < 0 {
        seq!['-'] + dec_nat((-n) as nat)
    } else {
        dec_nat(n as nat)
    }
}

fn digit(d: u128) -> (c: char)
    requires
        d < 10,
    ensures
        c == digit_char(d as int),
{
    (48u8 + d as u8) as char
}

fn push_digits(out: &mut String, n: u128)
    ensures
        final(out)@ == old(out)@ + dec_nat(n as nat),
    decreases n,
{
    if n >= 10 {
        push_digits(out, n / 10);
    }
    out.push(digit(n % 10));
}

/// `n` in decimal.
pub fn decimal(n: i64) -> (s: String)
    ensures
        s@ == dec(n as int),
{
    let mut s: String = String::new();
    if n < 0 {
        s.push('-');
        let magnitude: u64 = (-(n + 1)) as u64 + 1;
        push_digits(&mut s, magnitude as u128);
        assert(s@ =~= dec(n as int));
    } else {
        push_digits(&mut s, n as u128);
        assert(s@ =~= dec(n as int));
    }
    s
}

/// `n` in decimal.
pub fn decimal_unsigned(n: u128) -> (s: String)
    ensures
        s@ == dec(n as int),
{
    let mut s: String = String::new();
    push_digits(&mut s, n);
    assert(s@ =~= dec(n as int));
    s
}

pub open spec fn is_digit(c: char) -> bool {
    '0' <= c <= '9'
}

/// Decimal digits denote the number that they were written from.
pub proof fn lemma_dec_nat_reads_back(n: nat)
    ensures
        dec_nat(n).len() > 0,
        all_digits(dec_nat(n)),
        number(dec_nat(n)) == n,
    decreases n,
{
    let s = dec_nat(n);
    if n < 10 {
        assert(s.drop_last() =~= Seq::<char>::empty());
        assert(number(s.drop_last()) == 0);
        assert(s.last() as int == '0' as int + n);
    } else {
        lemma_dec_nat_reads_back(n / 10);
        assert(s.drop_last() =~= dec_nat(n / 10));
        assert(s.last() as int == '0' as int + n % 10);
        assert forall|i: int| 0 <= i < s.len() implies is_digit(#[trigger] s[i]) by {
            if i < s.len() - 1 {
                assert(s[i] == dec_nat(n / 10)[i]);
            }
        }
    }
}

/// A number in decimal with a comma after it tells the number, and where it ends.
pub proof fn lemma_dec_tells(a: int, b: int, x: Seq<char>, y: Seq<char>)
    requires
        dec(a) + (seq![','] + x) == dec(b) + (seq![','] + y),
    ensures
        a == b,
        x == y,
{
    lemma_dec_nat_reads_back(if a < 0 {
        (-a) as nat
    } else {
        a as nat
    });
    lemma_dec_nat_reads_back(if b < 0 {
        (-b) as nat
    } else {
        b as nat
    });
    let p = dec(a) + (seq![','] + x);
    let q = dec(b) + (seq![','] + y);
    assert forall|i: int| 0 <= i < dec(a).len() implies p[i] != ',' by {
        assert(p[i] == dec(a)[i]);
        if a < 0 && i > 0 {
            assert(dec(a)[i] == dec_nat((-a) as nat)[i - 1]);
        }
    }
    assert forall|i: int| 0 <= i < dec(b).len() implies q[i] != ',' by {
        assert(q[i] == dec(b)[i]);
        if b < 0 && i > 0 {
            assert(dec(b)[i] == dec_nat((-b) as nat)[i - 1]);
        }
    }
    assert(p[dec(a).len() as int] == ',');
    assert(q[dec(b).len() as int] == ',');
    assert(dec(a).len() == dec(b).len());
    assert(dec(a) =~= p.take(dec(a).len() as int));
    assert(dec(b) =~= q.take(dec(b).len() as int));
    assert(x =~= p.skip(dec(a).len() + 1int));
    assert(y =~= q.skip(dec(b).len() + 1int));
    if a < 0 {
        assert(dec(a)[0] == '-');
        assert(dec_nat((-a) as nat) =~= dec(a).skip(1));
    } else {
        assert(is_digit(dec(a)[0]));
    }
    if b < 0 {
        assert(dec(b)[0] == '-');
        assert(dec_nat((-b) as nat) =~= dec(b).skip(1));
    } else {
        assert(is_digit(dec(b)[0]));
    }
}

pub open spec fn all_digits(s: Seq<char>) -> bool {
    forall|i: int| 0 <= i < s.len() ==> is_digit(#[trigger] s[i])
}

/// Value of a text of decimal digits.
pub open spec fn number(s: Seq<char>) -> nat
    decreases s.len(),
{
    if s.len() == 0 {
        0
    } else {
        number(s.drop_last()) * 10 + (s.last() as int - '0' as int) as nat
    }
}

/// What a text of digits alone denotes: nothing if it is empty, holds another
/// character or denotes more than `max`.
pub open spec fn digits_value(s: Seq<char>, max: nat) -> Option<nat> {
    if s.len() > 0 && all_digits(s) && number(s) <= max {
        Some(number(s))
    } else {
        None
    }
}

/// What a text denotes as an unsigned number up to `max`; one `+` may lead.
pub open spec fn unsigned_value(s: Seq<char>, max: nat) -> Option<nat> {
    if s.len() > 0 && s[0] == '+' {
        digits_value(s.skip(1), max)
    } else {
        digits_value(s, max)
    }
}

/// What a text denotes as a signed 64-bit number; one sign may lead.
pub open spec fn signed_value(s: Seq<char>) -> Option<int> {
    if s.len() > 0 && s[0] == '-' {
        match digits_value(s.skip(1), 0x8000_0000_0000_0000) {
            Some(n) => Some(-(n as int)),
            None => None,
        }
    } else {
        match unsigned_value(s, 0x7fff_ffff_ffff_ffff) {
            Some(n) => Some(n as int),
            None => None,
        }
    }
}

proof fn lemma_number_grows(s: Seq<char>, k: int)
    requires
        0 <= k <= s.len(),
        all_digits(s),
    ensures
        number(s.take(k)) <= number(s),
    decreases s.len(),
{
    if k < s.len() {
        assert(all_digits(s.drop_last()));
        lemma_number_grows(s.drop_last(), k);
        assert(s.drop_last().take(k) =~= s.take(k));
        assert(is_digit(s[s.len() - 1]));
    } else {
        assert(s.take(k) =~= s);
    }
}

fn read_digits(v: &Vec<char>, from: usize, max: u64) -> (r: Option<u64>)
    requires
        from <= v@.len(),
    ensures
        match r {
            Some(n) => digits_value(v@.skip(from as int), max as nat) == Some(n as nat),
            None => digits_value(v@.skip(from as int), max as nat) is None,
        },
{
    let ghost s = v@.skip(from as int);
    if from == v.len() {
        return None;
    }
    let mut total: u64 = 0;
    let mut i: usize = from;
    while i < v.len()
        invariant
            from <= i <= v@.len(),
            s == v@.skip(from as int),
            all_digits(s.take(i - from)),
            total == number(s.take(i - from)),
            total <= max,
        decreases v@.len() - i,
    {
        let c: char = v[i];
        assert(c == s[i - from]);
        if c < '0' || c > '9' {
            assert(!is_digit(s[i - from]));
            return None;
        }
        let d: u64 = (c as u32 - 48) as u64;
        proof {
            assert(s.take(i + 1 - from).drop_last() =~= s.take(i - from));
            assert(all_digits(s.take(i + 1 - from)));
            assert(number(s.take(i + 1 - from)) == total * 10 + d);
        }
        if total > (u64::MAX - d) / 10 || total * 10 + d > max {
            proof {
                if all_digits(s) {
                    lemma_number_grows(s, i + 1 - from);
                }
            }
            return None;
        }
        total = total * 10 + d;
        i = i + 1;
    }
    assert(s.take(i - from) =~= s);
    Some(total)
}

/// Reads an unsigned number no greater than `max`.
pub fn parse_unsigned(s: &str, max: u64) -> (r: Option<u64>)
    ensures
        match r {
            Some(n) => unsigned_value(s@, max as nat) == Some(n as nat),
            None => unsigned_value(s@, max as nat) is None,
        },
{
    let v: Vec<char> = chars_of(s);
    if v.len() > 0 && v[0] == '+' {
        read_digits(&v, 1, max)
    } else {
        assert(s@.skip(0) =~= s@);
        read_digits(&v, 0, max)
    }
}

/// Reads a signed 64-bit number.
pub fn parse_signed(s: &str) -> (r: Option<i64>)
    ensures
        match r {
            Some(n) => signed_value(s@) == Some(n as int),
            None => signed_value(s@) is None,
        },
{
    let v: Vec<char> = chars_of(s);
    if v.len() > 0 && v[0] == '-' {
        match read_digits(&v, 1, 0x8000_0000_0000_0000) {
            Some(n) => {
                if n == 0 {
                    Some(0)
                } else {
                    Some(-((n - 1) as i64) - 1)
                }
            },
            None => None,
        }
    } else {
        match parse_unsigned(s, 0x7fff_ffff_ffff_ffff) {
            Some(n) => Some(n as i64),
            None => None,
        }
    }
}

// ── Searching ───────────────────────────────────────────────────────────────

/// Whether `c` occurs in the text.
pub fn contains_char(s: &str, c: char) -> (r: bool)
    ensures
        r == s@.contains(c),
{
    let v: Vec<char> = chars_of(s);
    let mut i: usize = 0;
    while i < v.len()
        invariant
            i <= v@.len(),
            v@ == s@,
            forall|j: int| 0 <= j < i ==> v@[j] != c,
        decreases v@.len() - i,
    {
        if v[i] == c {
            assert(s@[i as int] == c);
            return true;
        }
        i = i + 1;
    }
    false
}

/// `part` stands in `s` from position `i` on.
pub open spec fn occurs_at(s: Seq<char>, part: Seq<char>, i: int) -> bool {
    0 <= i && i + part.len() <= s.len() && s.subrange(i, i + part.len()) == part
}

/// `part` stands somewhere in `s`.
pub open spec fn occurs(s: Seq<char>, part: Seq<char>) -> bool {
    exists|i: int| occurs_at(s, part, i)
}

fn matches_at(s: &Vec<char>, part: &Vec<char>, i: usize) -> (r: bool)
    requires
        i <= s@.len(),
    ensures
        r == occurs_at(s@, part@, i as int),
{
    if part.len() > s.len() - i {
        return false;
    }
    let mut j: usize = 0;
    while j < part.len()
        invariant
            j <= part@.len(),
            i + part@.len() <= s@.len() <= usize::MAX,
            forall|k: int| 0 <= k < j ==> s@[i + k] == part@[k],
        decreases part@.len() - j,
    {
        if s[i + j] != part[j] {
            assert(s@.subrange(i as int, i + part@.len())[j as int] != part@[j as int]);
            return false;
        }
        j = j + 1;
    }
    assert(s@.subrange(i as int, i + part@.len()) =~= part@);
    true
}

/// Whether `part` stands somewhere in the text.
pub fn contains_text(s: &str, part: &str) -> (r: bool)
    ensures
        r == occurs(s@, part@),
{
    let v: Vec<char> = chars_of(s);
    let p: Vec<char> = chars_of(part);
    let mut i: usize = 0;
    while i < v.len()
        invariant
            i <= v@.len(),
            v@ == s@,
            p@ == part@,
            forall|j: int| 0 <= j < i ==> !occurs_at(s@, part@, j),
        decreases v@.len() - i,
    {
        if matches_at(&v, &p, i) {
            return true;
        }
        i = i + 1;
    }
    matches_at(&v, &p, i)
}

/// Whether the text begins with `prefix`.
pub fn starts_with(s: &str, prefix: &str) -> (r: bool)
    ensures
        r == prefix@.is_prefix_of(s@),
{
    let v: Vec<char> = chars_of(s);
    let p: Vec<char> = chars_of(prefix);
    matches_at(&v, &p, 0)
}

/// What follows `prefix`, where the text begins with it.
pub fn strip_prefix(s: &str, prefix: &str) -> (r: Option<String>)
    ensures
        match r {
            Some(rest) => s@ == prefix@ + rest@,
            None => !prefix@.is_prefix_of(s@),
        },
{
    let v: Vec<char> = chars_of(s);
    let p: Vec<char> = chars_of(prefix);
    if matches_at(&v, &p, 0) {
        let rest: String = text_of(&v, p.len(), v.len());
        assert(s@ =~= prefix@ + rest@);
        Some(rest)
    } else {
        None
    }
}

/// The parts before and after the first `c`.
pub fn split_once(s: &str, c: char) -> (r: Option<(String, String)>)
    ensures
        match r {
            Some((before, after)) => s@ == before@.push(c) + after@ && !before@.contains(c),
            None => !s@.contains(c),
        },
{
    let v: Vec<char> = chars_of(s);
    let mut i: usize = 0;
    while i < v.len()
        invariant
            i <= v@.len(),
            v@ == s@,
            forall|j: int| 0 <= j < i ==> v@[j] != c,
        decreases v@.len() - i,
    {
        if v[i] == c {
            let before: String = text_of(&v, 0, i);
            let after: String = text_of(&v, i + 1, v.len());
            assert(s@ =~= before@.push(c) + after@);
            return Some((before, after));
        }
        i = i + 1;
    }
    None
}

// ── Rewriting ───────────────────────────────────────────────────────────────

/// `s` with every `c` left out.
pub open spec fn without(s: Seq<char>, c: char) -> Seq<char>
    decreases s.len(),
{
    if s.len() == 0 {
        s
    } else if s.last() == c {
        without(s.drop_last(), c)
    } else {
        without(s.drop_last(), c).push(s.last())
    }
}

/// The text with every `c` left out.
pub fn remove_char(s: &str, c: char) -> (r: String)
    ensures
        r@ == without(s@, c),
{
    let v: Vec<char> = chars_of(s);
    let mut r: String = String::new();
    let mut i: usize = 0;
    assert(without(s@.take(0), c) =~= Seq::<char>::empty());
    while i < v.len()
        invariant
            i <= v@.len(),
            v@ == s@,
            r@ == without(s@.take(i as int), c),
        decreases v@.len() - i,
    {
        assert(s@.take(i + 1).drop_last() =~= s@.take(i as int));
        if v[i] != c {
            r.push(v[i]);
        }
        i = i + 1;
    }
    assert(s@.take(i as int) =~= s@);
    r
}

/// The Unicode property White_Space.
pub open spec fn is_white_space(c: char) -> bool {
    ||| '\u{9}' <= c <= '\u{d}'
    ||| c == ' '
    ||| c == '\u{85}'
    ||| c == '\u{a0}'
    ||| c == '\u{1680}'
    ||| '\u{2000}' <= c <= '\u{200a}'
    ||| c == '\u{2028}'
    ||| c == '\u{2029}'
    ||| c == '\u{202f}'
    ||| c == '\u{205f}'
    ||| c == '\u{3000}'
}

fn white_space(c: char) -> (r: bool)
    ensures
        r == is_white_space(c),
{
    (c >= '\u{9}' && c <= '\u{d}') || c == ' ' || c == '\u{85}' || c == '\u{a0}' || c == '\u{1680}'
        || (c >= '\u{2000}' && c <= '\u{200a}') || c == '\u{2028}' || c == '\u{2029}' || c
        == '\u{202f}' || c == '\u{205f}' || c == '\u{3000}'
}

pub open spec fn trim_start(s: Seq<char>) -> Seq<char>
    decreases s.len(),
{
    if s.len() > 0 && is_white_space(s[0]) {
        trim_start(s.skip(1))
    } else {
        s
    }
}

pub open spec fn trim_end(s: Seq<char>) -> Seq<char>
    decreases s.len(),
{
    if s.len() > 0 && is_white_space(s.last()) {
        trim_end(s.drop_last())
    } else {
        s
    }
}

/// `s` without the white space that leads and trails.
pub open spec fn trimmed(s: Seq<char>) -> Seq<char> {
    trim_end(trim_start(s))
}

/// The text without the white space that leads and trails.
pub fn trim(s: &str) -> (r: String)
    ensures
        r@ == trimmed(s@),
{
    let v: Vec<char> = chars_of(s);
    let mut from: usize = 0;
    assert(v@.skip(0) =~= v@);
    while from < v.len() && white_space(v[from])
        invariant
            from <= v@.len(),
            v@ == s@,
            trim_start(v@.skip(from as int)) == trim_start(s@),
        decreases v@.len() - from,
    {
        assert(v@.skip(from as int).skip(1) =~= v@.skip(from + 1));
        from = from + 1;
    }
    let mut to: usize = v.len();
    assert(v@.subrange(from as int, to as int) =~= v@.skip(from as int));
    while from < to && white_space(v[to - 1])
        invariant
            from <= to <= v@.len(),
            trim_end(v@.subrange(from as int, to as int)) == trimmed(s@),
        decreases to,
    {
        assert(v@.subrange(from as int, to as int).drop_last() =~= v@.subrange(
            from as int,
            to - 1,
        ));
        to = to - 1;
    }
    text_of(&v, from, to)
}

pub open spec fn ascii_upper(c: char) -> char {
    if 'a' <= c <= 'z' {
        (c as int - 32) as char
    } else {
        c
    }
}

/// `s` with its ASCII letters in upper case.
pub open spec fn ascii_uppercase(s: Seq<char>) -> Seq<char> {
    s.map_values(|c: char| ascii_upper(c))
}

/// The text with its ASCII letters in upper case.
pub fn to_ascii_uppercase(s: &str) -> (r: String)
    ensures
        r@ == ascii_uppercase(s@),
{
    let v: Vec<char> = chars_of(s);
    let mut r: String = String::new();
    let mut i: usize = 0;
    while i < v.len()
        invariant
            i <= v@.len(),
            v@ == s@,
            r@ == ascii_uppercase(s@.take(i as int)),
        decreases v@.len() - i,
    {
        let c: char = v[i];
        let u: char = if c >= 'a' && c <= 'z' {
            (c as u8 - 32) as char
        } else {
            c
        };
        r.push(u);
        assert(r@ =~= ascii_uppercase(s@.take(i + 1)));
        i = i + 1;
    }
    assert(s@.take(i as int) =~= s@);
    r
}

/// The parts of `s` between the occurrences of `c`.
pub open spec fn split_parts(s: Seq<char>, c: char) -> Seq<Seq<char>>
    decreases s.len(),
{
    if s.len() == 0 {
        seq![Seq::<char>::empty()]
    } else {
        let parts = split_parts(s.drop_last(), c);
        if s.last() == c {
            parts.push(Seq::<char>::empty())
        } else {
            parts.drop_last().push(parts.last().push(s.last()))
        }
    }
}

/// The parts of the text between the occurrences of `c`, each trimmed.
pub fn split_trimmed(s: &str, c: char) -> (r: Vec<String>)
    ensures
        r.deep_view() == split_parts(s@, c).map_values(|p: Seq<char>| trimmed(p)),
{
    let v: Vec<char> = chars_of(s);
    let mut r: Vec<String> = Vec::new();
    let mut part: String = String::new();
    let mut i: usize = 0;
    let ghost f = |p: Seq<char>| trimmed(p);
    assert(part@ =~= Seq::<char>::empty());
    while i < v.len()
        invariant
            i <= v@.len(),
            v@ == s@,
            f == (|p: Seq<char>| trimmed(p)),
            split_parts(s@.take(i as int), c).len() == r@.len() + 1,
            split_parts(s@.take(i as int), c).last() == part@,
            r.deep_view() == split_parts(s@.take(i as int), c).drop_last().map_values(f),
        decreases v@.len() - i,
    {
        let ghost before = split_parts(s@.take(i as int), c);
        let ghost r0 = r.deep_view();
        assert(s@.take(i + 1).drop_last() =~= s@.take(i as int));
        if v[i] == c {
            r.push(trim(part.as_str()));
            part = String::new();
            let ghost after = split_parts(s@.take(i + 1), c);
            assert(after == before.push(Seq::<char>::empty()));
            assert(after.drop_last() =~= before);
            assert(r.deep_view() =~= r0.push(trimmed(before.last())));
            assert(r.deep_view() =~= before.map_values(f));
            assert(part@ =~= Seq::<char>::empty());
        } else {
            part.push(v[i]);
            let ghost after = split_parts(s@.take(i + 1), c);
            assert(after.drop_last() =~= before.drop_last());
        }
        i = i + 1;
    }
    assert(s@.take(i as int) =~= s@);
    let ghost parts = split_parts(s@, c);
    let ghost r0 = r.deep_view();
    r.push(trim(part.as_str()));
    assert(r.deep_view() =~= r0.push(trimmed(parts.last())));
    assert(r.deep_view() =~= parts.map_values(f));
    r
}

// ── Bytes ───────────────────────────────────────────────────────────────────

/// Length of a text in bytes, as UTF-8.
pub open spec fn byte_len(s: Seq<char>) -> nat {
    vstd::utf8::encode_utf8(s).len()
}

/// The length of the text in bytes.
pub fn len_in_bytes(s: &str) -> (n: usize)
    ensures
        n == byte_len(s@),
{
    s.as_bytes().len()
}

/// The first `n` bytes of `s` end where a character ends.
pub open spec fn has_byte_prefix(s: Seq<char>, n: int) -> bool {
    vstd::utf8::is_char_boundary(vstd::utf8::encode_utf8(s), n)
}

/// The text that the first `n` bytes of `s` make up.
pub open spec fn byte_prefix(s: Seq<char>, n: int) -> Seq<char> {
    vstd::utf8::decode_utf8(vstd::utf8::encode_utf8(s).subrange(0, n))
}

/// Whether the first `n` bytes of the text end where a character ends.
pub fn can_cut(s: &str, n: usize) -> (r: bool)
    ensures
        r == has_byte_prefix(s@, n as int),
{
    s.is_char_boundary(n)
}

/// The first `n` bytes of the text.
pub fn cut(s: &str, n: usize) -> (r: String)
    requires
        has_byte_prefix(s@, n as int),
    ensures
        r@ == byte_prefix(s@, n as int),
{
    let (head, _rest) = s.split_at(n);
    proof {
        vstd::utf8::encode_utf8_decode_utf8(head@);
    }
    head.to_owned()
}

} // verus!
