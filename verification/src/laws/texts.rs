//! What holds of texts: of numbers in decimal, of white space, and of lengths in bytes.

use vstd::prelude::*;
use vstd::string::*;

use crate::text::all_digits;
use crate::text::byte_len;
use crate::text::contains_char;
use crate::text::contains_text;
use crate::text::cut;
use crate::text::decimal;
use crate::text::is_digit;
use crate::text::is_white_space;
use crate::text::len_in_bytes;
use crate::text::number;
use crate::text::occurs_at;
use crate::text::parse_signed;
use crate::text::parse_unsigned;
use crate::text::remove_char;
use crate::text::same;
use crate::text::split_once;
use crate::text::split_parts;
use crate::text::starts_with;
use crate::text::strip_prefix;
use crate::text::to_ascii_uppercase;
use crate::text::trim;
use crate::text::trim_end;
use crate::text::trim_start;
use crate::text::trimmed;
use crate::text::without;

verus! {

// ── White space ─────────────────────────────────────────────────────────────

/// A space, a tabulator or the end of a line.
pub open spec fn is_blank(c: char) -> bool {
    c == ' ' || c == '\t' || c == '\n' || c == '\r'
}

/// A printable ASCII character other than the space.
pub open spec fn is_graphic(c: char) -> bool {
    '!' <= c <= '~'
}

pub open spec fn all_blank(s: Seq<char>) -> bool {
    forall|i: int| 0 <= i < s.len() ==> is_blank(#[trigger] s[i])
}

pub proof fn lemma_trim_start_skips(lead: Seq<char>, x: Seq<char>)
    requires
        forall|i: int| 0 <= i < lead.len() ==> is_white_space(#[trigger] lead[i]),
    ensures
        trim_start(lead + x) == trim_start(x),
    decreases lead.len(),
{
    if lead.len() == 0 {
        assert(lead + x =~= x);
    } else {
        let rest = lead.skip(1);
        assert((lead + x)[0] == lead[0]);
        assert((lead + x).skip(1) =~= rest + x);
        lemma_trim_start_skips(rest, x);
    }
}

pub proof fn lemma_trim_end_drops(x: Seq<char>, tail: Seq<char>)
    requires
        forall|i: int| 0 <= i < tail.len() ==> is_white_space(#[trigger] tail[i]),
    ensures
        trim_end(x + tail) == trim_end(x),
    decreases tail.len(),
{
    if tail.len() == 0 {
        assert(x + tail =~= x);
    } else {
        let rest = tail.drop_last();
        assert((x + tail).last() == tail.last());
        assert((x + tail).drop_last() =~= x + rest);
        lemma_trim_end_drops(x, rest);
    }
}

/// Trimming takes off the blanks round a text, and nothing else: what starts and ends with a
/// printable character stays as it is, and of blanks alone nothing is left.
pub proof fn law_trimming_takes_blanks_off(
    lead: Seq<char>,
    core: Seq<char>,
    tail: Seq<char>,
    text: &str,
    r: String,
)
    requires
        call_ensures(trim, (text,), r),
        text@ == lead + core + tail,
        all_blank(lead),
        all_blank(tail),
        core.len() > 0 ==> is_graphic(core[0]) && is_graphic(core.last()),
    ensures
        r@ == core,
{
    assert(lead + core + tail =~= lead + (core + tail));
    lemma_trim_start_skips(lead, core + tail);
    if core.len() > 0 {
        assert((core + tail)[0] == core[0]);
        assert(trim_start(core + tail) == core + tail);
        lemma_trim_end_drops(core, tail);
        assert(trim_end(core) == core);
    } else {
        assert(core + tail =~= tail);
        assert(tail + Seq::<char>::empty() =~= tail);
        lemma_trim_start_skips(tail, Seq::<char>::empty());
        assert(trimmed(text@) =~= core);
    }
}

/// Trimming takes off just the 25 characters that Unicode calls white space.
pub proof fn law_trimming_takes_white_space_off(c: char, text: &str, r: String)
    requires
        call_ensures(trim, (text,), r),
        text@ == seq![c],
    ensures
        r@.len() == 0 <==> {
            let n = c as int;
            9 <= n <= 13 || n == 32 || n == 0x85 || n == 0xa0 || n == 0x1680 || 0x2000 <= n
                <= 0x200a || n == 0x2028 || n == 0x2029 || n == 0x202f || n == 0x205f || n == 0x3000
        },
        r@.len() > 0 ==> r@ == seq![c],
{
    let s = text@;
    assert(s.len() == 1 && s[0] == c && s.last() == c);
    assert(s.skip(1) =~= Seq::<char>::empty());
    assert(trim_start(Seq::<char>::empty()) =~= Seq::<char>::empty());
    assert(trim_end(Seq::<char>::empty()) =~= Seq::<char>::empty());
    if is_white_space(c) {
        assert(trim_start(s) == trim_start(s.skip(1)));
    } else {
        assert(trim_start(s) == s);
        assert(trim_end(s) == s);
    }
}

/// A trimmed text neither starts nor ends with a blank, and trimming again changes nothing.
pub proof fn law_trimming_is_done_once(text: &str, r: String, again: &str, s: String)
    requires
        call_ensures(trim, (text,), r),
        again@ == r@,
        call_ensures(trim, (again,), s),
    ensures
        s@ == r@,
        r@.len() > 0 ==> !is_blank(r@[0]) && !is_blank(r@.last()),
        r@.len() <= text@.len(),
{
    lemma_trimmed_ends(text@);
    assert(trimmed(r@) == r@);
}

pub proof fn lemma_trimmed_ends(s: Seq<char>)
    ensures
        trimmed(s).len() > 0 ==> !is_white_space(trimmed(s)[0]) && !is_white_space(
            trimmed(s).last(),
        ),
        trimmed(s).len() <= s.len(),
{
    lemma_start_trimmed(s);
    lemma_end_trimmed(trim_start(s));
}

pub proof fn lemma_start_trimmed(s: Seq<char>)
    ensures
        trim_start(s).len() > 0 ==> !is_white_space(trim_start(s)[0]),
        trim_start(s).len() <= s.len(),
    decreases s.len(),
{
    if s.len() > 0 && is_white_space(s[0]) {
        lemma_start_trimmed(s.skip(1));
    }
}

pub proof fn lemma_end_trimmed(s: Seq<char>)
    ensures
        trim_end(s).len() > 0 ==> trim_end(s)[0] == s[0] && !is_white_space(trim_end(s).last()),
        trim_end(s).len() <= s.len(),
    decreases s.len(),
{
    if s.len() > 0 && is_white_space(s.last()) {
        lemma_end_trimmed(s.drop_last());
    }
}

/// Whatever is left of a text after trimming is still there, with what was added behind it,
/// where something was left and what was added ends in no white space.
pub proof fn lemma_trimmed_grows(s: Seq<char>, more: Seq<char>)
    requires
        trimmed(s).len() > 0,
        more.len() > 0,
        !is_white_space(more.last()),
    ensures
        trimmed(s).is_prefix_of(trimmed(s + more)),
        trimmed(s + more).len() >= trimmed(s).len() + more.len(),
        byte_len(trimmed(s + more)) >= byte_len(trimmed(s)) + byte_len(more),
{
    lemma_start_grows(s, more);
    let t = trim_start(s);
    lemma_end_trimmed(t);
    assert((t + more).last() == more.last());
    assert(trim_end(t + more) == t + more);
    lemma_end_is_prefix(t);
    let u = trim_end(t);
    assert(u =~= (t + more).subrange(0, u.len() as int));
    lemma_bytes_add_up(t, more);
    assert(t =~= u + t.skip(u.len() as int));
    lemma_bytes_add_up(u, t.skip(u.len() as int));
}

pub proof fn lemma_start_grows(s: Seq<char>, more: Seq<char>)
    requires
        trim_start(s).len() > 0,
    ensures
        trim_start(s + more) == trim_start(s) + more,
    decreases s.len(),
{
    assert(s.len() > 0);
    assert((s + more)[0] == s[0]);
    if is_white_space(s[0]) {
        assert((s + more).skip(1) =~= s.skip(1) + more);
        lemma_start_grows(s.skip(1), more);
    }
}

pub proof fn lemma_end_is_prefix(s: Seq<char>)
    ensures
        trim_end(s).is_prefix_of(s),
    decreases s.len(),
{
    if s.len() > 0 && is_white_space(s.last()) {
        lemma_end_is_prefix(s.drop_last());
        let u = trim_end(s.drop_last());
        assert(u =~= s.subrange(0, u.len() as int));
    } else {
        assert(s =~= s.subrange(0, s.len() as int));
    }
}

// ── Bytes ───────────────────────────────────────────────────────────────────

/// The bytes of a text that is put together are those of its parts.
pub proof fn lemma_bytes_add_up(a: Seq<char>, b: Seq<char>)
    ensures
        byte_len(a + b) == byte_len(a) + byte_len(b),
        byte_len(a) >= a.len(),
    decreases a.len(),
{
    if a.len() == 0 {
        assert(a + b =~= b);
        assert(byte_len(a) == 0);
    } else {
        let rest = a.drop_first();
        assert((a + b)[0] == a[0]);
        assert((a + b).drop_first() =~= rest + b);
        lemma_bytes_add_up(rest, b);
    }
}

/// A text has at least as many bytes as characters, and just as many if it is all ASCII; and
/// the bytes of two texts in a row add up.
pub proof fn law_lengths_in_bytes(a: &str, b: &str, ab: &str, na: usize, nb: usize, nab: usize)
    requires
        call_ensures(len_in_bytes, (a,), na),
        call_ensures(len_in_bytes, (b,), nb),
        call_ensures(len_in_bytes, (ab,), nab),
        ab@ == a@ + b@,
    ensures
        nab == na + nb,
        na >= a@.len(),
        (forall|i: int| 0 <= i < a@.len() ==> #[trigger] a@[i] <= '\u{7f}') ==> na == a@.len(),
{
    lemma_bytes_add_up(a@, b@);
    if forall|i: int| 0 <= i < a@.len() ==> #[trigger] a@[i] <= '\u{7f}' {
        lemma_ascii_bytes(a@);
    }
}

proof fn lemma_chars_are_codes(c: char)
    ensures
        '\0' <= c,
{
}

/// An ASCII text has one byte for each character.
pub proof fn lemma_ascii_bytes(s: Seq<char>)
    requires
        forall|i: int| 0 <= i < s.len() ==> #[trigger] s[i] <= '\u{7f}',
    ensures
        byte_len(s) == s.len(),
{
    assert forall|i: int| 0 <= i < s.len() implies '\0' <= #[trigger] s[i] <= '\u{7f}' by {
        lemma_chars_are_codes(s[i]);
    }
    vstd::utf8::is_ascii_chars_encode_utf8(s);
}

// ── Numbers ─────────────────────────────────────────────────────────────────

/// A number in decimal: one more digit at its end makes it ten times as large and adds the
/// digit. A negative number has the sign before it.
pub proof fn law_decimals_grow_by_a_digit(
    n: i64,
    d: i64,
    m: i64,
    of_n: String,
    of_d: String,
    of_m: String,
    minus: i64,
    of_minus: String,
)
    requires
        call_ensures(decimal, (n,), of_n),
        call_ensures(decimal, (d,), of_d),
        call_ensures(decimal, (m,), of_m),
        call_ensures(decimal, (minus,), of_minus),
        n >= 1,
        0 <= d <= 9,
        m == 10 * n + d,
        minus == -n,
    ensures
        of_d@ == seq![('0' as int + d) as char],
        of_m@ == of_n@ + of_d@,
        of_minus@ == seq!['-'] + of_n@,
{
    assert((m as nat) / 10 == n as nat);
    assert((m as nat) % 10 == d as nat);
    assert(of_m@ =~= of_n@ + of_d@);
}

/// A number that is written in decimal reads back as it was, also with a plus sign before it
/// where it is not negative.
pub proof fn law_decimals_read_back(
    n: i64,
    s: String,
    t: &str,
    u: &str,
    max: u64,
    signed: Option<i64>,
    unsigned: Option<u64>,
    with_plus: Option<i64>,
)
    requires
        call_ensures(decimal, (n,), s),
        t@ == s@,
        u@ == seq!['+'] + s@,
        call_ensures(parse_signed, (t,), signed),
        call_ensures(parse_unsigned, (t, max), unsigned),
        call_ensures(parse_signed, (u,), with_plus),
    ensures
        signed == Some(n),
        n >= 0 ==> with_plus == Some(n),
        0 <= n <= max ==> unsigned == Some(n as u64),
        n > max || n < 0 ==> unsigned is None,
{
    let a = if n < 0 {
        (-n) as nat
    } else {
        n as nat
    };
    crate::text::lemma_dec_nat_reads_back(a);
    let w = crate::text::dec_nat(a);
    assert(is_digit(w[0]));
    if n < 0 {
        assert(t@.skip(1) =~= w);
        assert(t@[0] == '-');
        assert(!is_digit(t@[0]));
    } else {
        assert(t@ =~= w);
        assert(u@.skip(1) =~= w);
        assert(u@[0] == '+');
    }
}

/// One more digit makes a number that is read ten times as large and adds the digit. A text
/// with anything else than digits after its sign denotes no number.
pub proof fn law_numbers_are_read_digit_by_digit(
    s: &str,
    t: &str,
    d: int,
    before: Option<i64>,
    after: Option<i64>,
)
    requires
        s@.len() > 0,
        forall|i: int| 0 <= i < s@.len() ==> '0' <= #[trigger] s@[i] <= '9',
        0 <= d <= 9,
        t@ == s@.push(('0' as int + d) as char),
        call_ensures(parse_signed, (s,), before),
        call_ensures(parse_signed, (t,), after),
    ensures
        before is Some && 10 * before->0 + d <= i64::MAX ==> after == Some(
            (10 * before->0 + d) as i64,
        ),
        before is Some && 10 * before->0 + d > i64::MAX ==> after is None,
        before is None ==> after is None,
{
    assert(t@.drop_last() =~= s@);
    assert(t@[0] == s@[0]);
    assert(all_digits(s@));
    assert(all_digits(t@));
    assert(number(t@) == 10 * number(s@) + d);
}

/// A text is no number if it is empty or holds, from its second character on, anything but a
/// digit.
pub proof fn law_other_texts_are_no_numbers(
    s: &str,
    i: int,
    max: u64,
    signed: Option<i64>,
    unsigned: Option<u64>,
)
    requires
        s@.len() == 0 || (1 <= i < s@.len() && !('0' <= s@[i] <= '9')),
        call_ensures(parse_signed, (s,), signed),
        call_ensures(parse_unsigned, (s, max), unsigned),
    ensures
        signed is None,
        unsigned is None,
{
    if s@.len() > 0 {
        assert(s@.skip(1)[i - 1] == s@[i]);
    }
}

// ── Parts ───────────────────────────────────────────────────────────────────

/// Two texts are the same just where their characters are. A text starts with a prefix just
/// where something makes the prefix up to it, and the rest is what is left without it.
pub proof fn law_prefixes(
    s: &str,
    p: &str,
    rest: Seq<char>,
    c: char,
    is_same: bool,
    starts: bool,
    stripped: Option<String>,
    holds: bool,
)
    requires
        call_ensures(same, (s, p), is_same),
        call_ensures(starts_with, (s, p), starts),
        call_ensures(strip_prefix, (s, p), stripped),
        call_ensures(contains_char, (s, c), holds),
    ensures
        is_same <==> s@ == p@,
        s@ == p@ + rest ==> starts && stripped is Some && stripped->0@ == rest,
        starts ==> stripped is Some && s@ == p@ + stripped->0@,
        !starts ==> stripped is None,
        holds <==> exists|i: int| 0 <= i < s@.len() && #[trigger] s@[i] == c,
{
    if s@ == p@ + rest {
        assert(p@ =~= s@.subrange(0, p@.len() as int));
        assert(s@.skip(p@.len() as int) =~= rest);
    }
    if starts {
        assert(s@ =~= p@ + s@.skip(p@.len() as int));
    }
    if holds {
        assert(s@.contains(c));
        let k = choose|k: int| 0 <= k < s@.len() && s@[k] == c;
        assert(s@[k] == c);
    }
    if exists|i: int| 0 <= i < s@.len() && #[trigger] s@[i] == c {
        let k = choose|k: int| 0 <= k < s@.len() && #[trigger] s@[k] == c;
        assert(s@.contains(c));
    }
}

/// A text holds another just where it is made up of something, the other, and something.
pub proof fn law_texts_hold_their_parts(
    before: Seq<char>,
    part: &str,
    after: Seq<char>,
    s: &str,
    t: &str,
    yes: bool,
    no: bool,
)
    requires
        s@ == before + part@ + after,
        call_ensures(contains_text, (s, part), yes),
        call_ensures(contains_text, (t, part), no),
        part@.len() > t@.len(),
    ensures
        yes,
        !no,
{
    let i = before.len() as int;
    assert(s@.subrange(i, i + part@.len()) =~= part@);
    assert(occurs_at(s@, part@, i));
}

/// A text is split at the first place where the character stands: what stands before it does
/// not hold it, and the two with it between them make up the text.
pub proof fn law_splitting_at_the_first(s: &str, c: char, r: Option<(String, String)>)
    requires
        call_ensures(split_once, (s, c), r),
    ensures
        r is Some <==> s@.contains(c),
        r matches Some(p) ==> s@ == p.0@.push(c) + p.1@ && !p.0@.contains(c),
{
    if r is Some {
        let p = r->0;
        assert(s@[p.0@.len() as int] == c);
    }
}

/// Splitting a text at every place gives the parts of its halves, one after the other; a text
/// that does not hold the character is its only part.
pub proof fn law_splitting_everywhere(a: Seq<char>, c: char, b: Seq<char>)
    ensures
        split_parts(a.push(c) + b, c) == split_parts(a, c) + split_parts(b, c),
        !a.contains(c) ==> split_parts(a, c) == seq![a],
    decreases a.len() + b.len(),
{
    if b.len() == 0 {
        assert(a.push(c) + b =~= a.push(c));
        assert(a.push(c).drop_last() =~= a);
        assert(split_parts(b, c) =~= seq![Seq::<char>::empty()]);
        assert(split_parts(a.push(c) + b, c) =~= split_parts(a, c) + split_parts(b, c));
    } else {
        let shorter = b.drop_last();
        law_splitting_everywhere(a, c, shorter);
        assert((a.push(c) + b).drop_last() =~= a.push(c) + shorter);
        assert((a.push(c) + b).last() == b.last());
        lemma_has_parts(shorter, c);
        assert(split_parts(a.push(c) + b, c) =~= split_parts(a, c) + split_parts(b, c));
    }
    if !a.contains(c) && a.len() > 0 {
        assert(a.last() != c);
        let front = a.drop_last();
        assert(!front.contains(c)) by {
            if front.contains(c) {
                let k = choose|k: int| 0 <= k < front.len() && front[k] == c;
                assert(a[k] == c);
            }
        }
        law_splitting_everywhere(front, c, Seq::<char>::empty());
        assert(front.push(a.last()) =~= a);
        assert(split_parts(a, c) =~= seq![a]);
    } else if a.len() == 0 {
        assert(a =~= Seq::<char>::empty());
        assert(split_parts(a, c) =~= seq![a]);
    }
}

pub proof fn lemma_has_parts(s: Seq<char>, c: char)
    ensures
        split_parts(s, c).len() > 0,
    decreases s.len(),
{
    if s.len() > 0 {
        lemma_has_parts(s.drop_last(), c);
    }
}

/// A character that is left out is gone, the others stay in order: leaving it out of two
/// texts in a row is leaving it out of each, and a text without it stays as it is.
pub proof fn law_leaving_a_character_out(
    a: &str,
    b: &str,
    ab: &str,
    c: char,
    ra: String,
    rb: String,
    rab: String,
)
    requires
        call_ensures(remove_char, (a, c), ra),
        call_ensures(remove_char, (b, c), rb),
        call_ensures(remove_char, (ab, c), rab),
        ab@ == a@ + b@,
    ensures
        rab@ == ra@ + rb@,
        !ra@.contains(c),
        !a@.contains(c) ==> ra@ == a@,
{
    lemma_without_adds_up(a@, b@, c);
    lemma_without_is_without(a@, c);
}

pub proof fn lemma_without_adds_up(a: Seq<char>, b: Seq<char>, c: char)
    ensures
        without(a + b, c) == without(a, c) + without(b, c),
    decreases b.len(),
{
    if b.len() == 0 {
        assert(a + b =~= a);
        assert(without(a + b, c) =~= without(a, c) + without(b, c));
    } else {
        lemma_without_adds_up(a, b.drop_last(), c);
        assert((a + b).drop_last() =~= a + b.drop_last());
        assert(without(a + b, c) =~= without(a, c) + without(b, c));
    }
}

pub proof fn lemma_without_is_without(a: Seq<char>, c: char)
    ensures
        !without(a, c).contains(c),
        !a.contains(c) ==> without(a, c) == a,
    decreases a.len(),
{
    if a.len() > 0 {
        let front = a.drop_last();
        lemma_without_is_without(front, c);
        let w = without(front, c);
        if a.last() == c {
            assert(a[a.len() - 1] == c);
        } else {
            assert forall|k: int| 0 <= k < w.push(a.last()).len() implies w.push(a.last())[k]
                != c by {
                if k < w.len() {
                    assert(w.contains(w[k]));
                }
            }
        }
        if !a.contains(c) {
            if front.contains(c) {
                let k = choose|k: int| 0 <= k < front.len() && front[k] == c;
                assert(a[k] == c);
            }
            assert(a =~= front.push(a.last()));
        }
    }
}

/// In upper case a text has as many characters; the ASCII letters among them lie 32 places
/// lower where they were small, and everything else stays.
pub proof fn law_upper_case(s: &str, r: String, i: int)
    requires
        call_ensures(to_ascii_uppercase, (s,), r),
        0 <= i < s@.len(),
    ensures
        r@.len() == s@.len(),
        'a' <= s@[i] <= 'z' ==> r@[i] as int == s@[i] as int - 32,
        !('a' <= s@[i] <= 'z') ==> r@[i] == s@[i],
{
}

/// The first bytes of an ASCII text are its first characters.
pub proof fn law_cutting_an_ascii_text(s: &str, n: usize, r: String)
    requires
        call_ensures(cut, (s, n), r),
        forall|i: int| 0 <= i < s@.len() ==> #[trigger] s@[i] <= '\u{7f}',
        n <= s@.len(),
    ensures
        r@ == s@.take(n as int),
{
    lemma_ascii_prefix(s@, n as int);
}

pub proof fn lemma_ascii_prefix(s: Seq<char>, n: int)
    requires
        forall|i: int| 0 <= i < s.len() ==> #[trigger] s[i] <= '\u{7f}',
        0 <= n <= s.len(),
    ensures
        crate::text::byte_prefix(s, n) == s.take(n),
{
    let head = s.take(n);
    let tail = s.skip(n);
    assert(s =~= head + tail);
    lemma_ascii_bytes(head);
    lemma_encoding_adds_up(head, tail);
    assert(vstd::utf8::encode_utf8(s).subrange(0, n) =~= vstd::utf8::encode_utf8(head));
    vstd::utf8::encode_utf8_decode_utf8(head);
}

pub proof fn lemma_encoding_adds_up(a: Seq<char>, b: Seq<char>)
    ensures
        vstd::utf8::encode_utf8(a + b) == vstd::utf8::encode_utf8(a) + vstd::utf8::encode_utf8(b),
    decreases a.len(),
{
    if a.len() == 0 {
        assert(a + b =~= b);
        assert(vstd::utf8::encode_utf8(a + b) =~= vstd::utf8::encode_utf8(a)
            + vstd::utf8::encode_utf8(b));
    } else {
        let rest = a.drop_first();
        assert((a + b)[0] == a[0]);
        assert((a + b).drop_first() =~= rest + b);
        lemma_encoding_adds_up(rest, b);
        assert(vstd::utf8::encode_utf8(a + b) =~= vstd::utf8::encode_utf8(a)
            + vstd::utf8::encode_utf8(b));
    }
}

} // verus!
