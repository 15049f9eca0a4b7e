//! JSON, as serde_json reads and writes it.

use vstd::prelude::*;
use vstd::string::*;

verus! {

/// The list of texts that a JSON text denotes to `serde_json::from_str`, if any.
pub uninterp spec fn json_string_list(text: Seq<char>) -> Option<Seq<Seq<char>>>;

/// The text that stands under a key of the entry at a place of the list under another
/// key, in the JSON value that a text denotes to `serde_json::from_str`, if there is one.
pub uninterp spec fn json_text_at(
    text: Seq<char>,
    list: Seq<char>,
    place: usize,
    key: Seq<char>,
) -> Option<Seq<char>>;

// ── What is written ─────────────────────────────────────────────────────────

/// A hexadecimal digit, in lower case.
pub open spec fn hex_digit(n: int) -> char {
    if n < 10 {
        ('0' as int + n) as char
    } else {
        ('a' as int + n - 10) as char
    }
}

/// A character inside a JSON string: quotation mark, backslash and control characters
/// are escaped, and everything else stands for itself.
pub open spec fn json_char(c: char) -> Seq<char> {
    if c == '"' {
        seq!['\\', '"']
    } else if c == '\\' {
        seq!['\\', '\\']
    } else if c == '\u{8}' {
        seq!['\\', 'b']
    } else if c == '\t' {
        seq!['\\', 't']
    } else if c == '\n' {
        seq!['\\', 'n']
    } else if c == '\u{c}' {
        seq!['\\', 'f']
    } else if c == '\r' {
        seq!['\\', 'r']
    } else if 32 > c as int {
        seq!['\\', 'u', '0', '0', hex_digit(c as int / 16), hex_digit(c as int % 16)]
    } else {
        seq![c]
    }
}

/// The characters of a text, each as it stands inside a JSON string.
pub open spec fn json_chars(text: Seq<char>) -> Seq<char>
    decreases text.len(),
{
    if text.len() == 0 {
        Seq::empty()
    } else {
        json_char(text[0]) + json_chars(text.skip(1))
    }
}

/// A text as a JSON string.
pub open spec fn json_string(text: Seq<char>) -> Seq<char> {
    seq!['"'] + json_chars(text) + seq!['"']
}

/// The rest of a JSON array of strings, after an entry of it.
pub open spec fn json_list_rest(list: Seq<Seq<char>>) -> Seq<char>
    decreases list.len(),
{
    if list.len() == 0 {
        seq![']']
    } else {
        seq![','] + json_string(list[0]) + json_list_rest(list.skip(1))
    }
}

/// A list of texts as a JSON array.
pub open spec fn json_of_string_list(list: Seq<Seq<char>>) -> Seq<char> {
    if list.len() == 0 {
        seq!['[', ']']
    } else {
        seq!['['] + json_string(list[0]) + json_list_rest(list.skip(1))
    }
}

/// The rest of a JSON array of arrays, after an entry of it.
pub open spec fn json_table_rest(table: Seq<Seq<Seq<char>>>) -> Seq<char>
    decreases table.len(),
{
    if table.len() == 0 {
        seq![']']
    } else {
        seq![','] + json_of_string_list(table[0]) + json_table_rest(table.skip(1))
    }
}

/// A list of lists of texts as a JSON array.
pub open spec fn json_of_string_table(table: Seq<Seq<Seq<char>>>) -> Seq<char> {
    if table.len() == 0 {
        seq!['[', ']']
    } else {
        seq!['['] + json_of_string_list(table[0]) + json_table_rest(table.skip(1))
    }
}

// ── What is written tells what it was written from ──────────────────────────

/// Two texts that are the same and begin alike go on alike.
pub proof fn lemma_same_rest(a: Seq<char>, x: Seq<char>, y: Seq<char>)
    requires
        a + x == a + y,
    ensures
        x == y,
{
    assert(x =~= (a + x).skip(a.len() as int));
    assert(y =~= (a + y).skip(a.len() as int));
}

proof fn lemma_char_tells(a: char, b: char, x: Seq<char>, y: Seq<char>)
    requires
        json_char(a) + x == json_char(b) + y,
    ensures
        a == b,
        x == y,
{
    let p = json_char(a) + x;
    let q = json_char(b) + y;
    assert(p[0] == json_char(a)[0]);
    assert(q[0] == json_char(b)[0]);
    if json_char(a).len() > 1 {
        assert(p[1] == json_char(a)[1]);
    }
    if json_char(b).len() > 1 {
        assert(q[1] == json_char(b)[1]);
    }
    if json_char(a).len() > 2 && json_char(b).len() > 2 {
        assert(p[4] == json_char(a)[4] && p[5] == json_char(a)[5]);
        assert(q[4] == json_char(b)[4] && q[5] == json_char(b)[5]);
        assert(a as int == 16 * (a as int / 16) + a as int % 16);
        assert(b as int == 16 * (b as int / 16) + b as int % 16);
    }
    assert(a == b);
    lemma_same_rest(json_char(a), x, y);
}

proof fn lemma_chars_tell(a: Seq<char>, b: Seq<char>, x: Seq<char>, y: Seq<char>)
    requires
        json_chars(a) + (seq!['"'] + x) == json_chars(b) + (seq!['"'] + y),
    ensures
        a == b,
        x == y,
    decreases a.len(),
{
    let p = json_chars(a) + (seq!['"'] + x);
    let q = json_chars(b) + (seq!['"'] + y);
    if a.len() == 0 && b.len() == 0 {
        assert(p =~= seq!['"'] + x);
        assert(q =~= seq!['"'] + y);
        lemma_same_rest(seq!['"'], x, y);
        assert(a =~= b);
    } else if a.len() == 0 {
        assert(p[0] == '"');
        assert(q[0] == json_char(b[0])[0]);
        assert(false);
    } else if b.len() == 0 {
        assert(q[0] == '"');
        assert(p[0] == json_char(a[0])[0]);
        assert(false);
    } else {
        let u = json_chars(a.skip(1)) + (seq!['"'] + x);
        let v = json_chars(b.skip(1)) + (seq!['"'] + y);
        assert(p =~= json_char(a[0]) + u);
        assert(q =~= json_char(b[0]) + v);
        lemma_char_tells(a[0], b[0], u, v);
        lemma_chars_tell(a.skip(1), b.skip(1), x, y);
        assert(a =~= seq![a[0]] + a.skip(1));
        assert(b =~= seq![b[0]] + b.skip(1));
    }
}

/// A JSON string tells the text that it was written from, and where it ends.
pub proof fn lemma_string_tells(a: Seq<char>, b: Seq<char>, x: Seq<char>, y: Seq<char>)
    requires
        json_string(a) + x == json_string(b) + y,
    ensures
        a == b,
        x == y,
{
    let u = json_chars(a) + (seq!['"'] + x);
    let v = json_chars(b) + (seq!['"'] + y);
    assert(json_string(a) + x =~= seq!['"'] + u);
    assert(json_string(b) + y =~= seq!['"'] + v);
    lemma_same_rest(seq!['"'], u, v);
    lemma_chars_tell(a, b, x, y);
}

proof fn lemma_list_rest_tells(
    a: Seq<Seq<char>>,
    b: Seq<Seq<char>>,
    x: Seq<char>,
    y: Seq<char>,
)
    requires
        json_list_rest(a) + x == json_list_rest(b) + y,
    ensures
        a == b,
        x == y,
    decreases a.len(),
{
    let p = json_list_rest(a) + x;
    let q = json_list_rest(b) + y;
    if a.len() == 0 && b.len() == 0 {
        lemma_same_rest(seq![']'], x, y);
        assert(a =~= b);
    } else if a.len() == 0 {
        assert(p[0] == ']');
        assert(q[0] == ',');
        assert(false);
    } else if b.len() == 0 {
        assert(p[0] == ',');
        assert(q[0] == ']');
        assert(false);
    } else {
        let u = json_string(a[0]) + (json_list_rest(a.skip(1)) + x);
        let v = json_string(b[0]) + (json_list_rest(b.skip(1)) + y);
        assert(p =~= seq![','] + u);
        assert(q =~= seq![','] + v);
        lemma_same_rest(seq![','], u, v);
        lemma_string_tells(
            a[0],
            b[0],
            json_list_rest(a.skip(1)) + x,
            json_list_rest(b.skip(1)) + y,
        );
        lemma_list_rest_tells(a.skip(1), b.skip(1), x, y);
        assert(a =~= seq![a[0]] + a.skip(1));
        assert(b =~= seq![b[0]] + b.skip(1));
    }
}

/// A JSON array of strings tells the list that it was written from, and where it ends.
pub proof fn lemma_list_tells(
    a: Seq<Seq<char>>,
    b: Seq<Seq<char>>,
    x: Seq<char>,
    y: Seq<char>,
)
    requires
        json_of_string_list(a) + x == json_of_string_list(b) + y,
    ensures
        a == b,
        x == y,
{
    let p = json_of_string_list(a) + x;
    let q = json_of_string_list(b) + y;
    if a.len() == 0 && b.len() == 0 {
        lemma_same_rest(seq!['[', ']'], x, y);
        assert(a =~= b);
    } else if a.len() == 0 {
        assert(p[1] == ']');
        assert(q[1] == json_string(b[0])[0]);
        assert(false);
    } else if b.len() == 0 {
        assert(p[1] == json_string(a[0])[0]);
        assert(q[1] == ']');
        assert(false);
    } else {
        let u = json_string(a[0]) + (json_list_rest(a.skip(1)) + x);
        let v = json_string(b[0]) + (json_list_rest(b.skip(1)) + y);
        assert(p =~= seq!['['] + u);
        assert(q =~= seq!['['] + v);
        lemma_same_rest(seq!['['], u, v);
        lemma_string_tells(
            a[0],
            b[0],
            json_list_rest(a.skip(1)) + x,
            json_list_rest(b.skip(1)) + y,
        );
        lemma_list_rest_tells(a.skip(1), b.skip(1), x, y);
        assert(a =~= seq![a[0]] + a.skip(1));
        assert(b =~= seq![b[0]] + b.skip(1));
    }
}

proof fn lemma_table_rest_tells(
    a: Seq<Seq<Seq<char>>>,
    b: Seq<Seq<Seq<char>>>,
    x: Seq<char>,
    y: Seq<char>,
)
    requires
        json_table_rest(a) + x == json_table_rest(b) + y,
    ensures
        a == b,
        x == y,
    decreases a.len(),
{
    let p = json_table_rest(a) + x;
    let q = json_table_rest(b) + y;
    if a.len() == 0 && b.len() == 0 {
        lemma_same_rest(seq![']'], x, y);
        assert(a =~= b);
    } else if a.len() == 0 {
        assert(p[0] == ']');
        assert(q[0] == ',');
        assert(false);
    } else if b.len() == 0 {
        assert(p[0] == ',');
        assert(q[0] == ']');
        assert(false);
    } else {
        let u = json_of_string_list(a[0]) + (json_table_rest(a.skip(1)) + x);
        let v = json_of_string_list(b[0]) + (json_table_rest(b.skip(1)) + y);
        assert(p =~= seq![','] + u);
        assert(q =~= seq![','] + v);
        lemma_same_rest(seq![','], u, v);
        lemma_list_tells(
            a[0],
            b[0],
            json_table_rest(a.skip(1)) + x,
            json_table_rest(b.skip(1)) + y,
        );
        lemma_table_rest_tells(a.skip(1), b.skip(1), x, y);
        assert(a =~= seq![a[0]] + a.skip(1));
        assert(b =~= seq![b[0]] + b.skip(1));
    }
}

/// A JSON array of arrays tells the lists that it was written from, and where it ends.
pub proof fn lemma_table_tells(
    a: Seq<Seq<Seq<char>>>,
    b: Seq<Seq<Seq<char>>>,
    x: Seq<char>,
    y: Seq<char>,
)
    requires
        json_of_string_table(a) + x == json_of_string_table(b) + y,
    ensures
        a == b,
        x == y,
{
    let p = json_of_string_table(a) + x;
    let q = json_of_string_table(b) + y;
    if a.len() == 0 && b.len() == 0 {
        lemma_same_rest(seq!['[', ']'], x, y);
        assert(a =~= b);
    } else if a.len() == 0 {
        assert(p[1] == ']');
        assert(q[1] == json_of_string_list(b[0])[0]);
        assert(false);
    } else if b.len() == 0 {
        assert(p[1] == json_of_string_list(a[0])[0]);
        assert(q[1] == ']');
        assert(false);
    } else {
        let u = json_of_string_list(a[0]) + (json_table_rest(a.skip(1)) + x);
        let v = json_of_string_list(b[0]) + (json_table_rest(b.skip(1)) + y);
        assert(p =~= seq!['['] + u);
        assert(q =~= seq!['['] + v);
        lemma_same_rest(seq!['['], u, v);
        lemma_list_tells(
            a[0],
            b[0],
            json_table_rest(a.skip(1)) + x,
            json_table_rest(b.skip(1)) + y,
        );
        lemma_table_rest_tells(a.skip(1), b.skip(1), x, y);
        assert(a =~= seq![a[0]] + a.skip(1));
        assert(b =~= seq![b[0]] + b.skip(1));
    }
}

// ── serde_json ──────────────────────────────────────────────────────────────

/// `serde_json::from_str::<serde_json::Value>` and the look-up of `[list][place][key]` in
/// the value: the text found there, or nothing where serde_json reports an error or no
/// text is there. Both depend on the arguments alone.
#[verifier::external_body]
pub(crate) fn text_at(text: &str, list: &str, place: usize, key: &str) -> (r: Option<String>)
    ensures
        r.deep_view() == json_text_at(text@, list@, place, key@),
{
    match serde_json::from_str::<serde_json::Value>(text) {
        Ok(value) => value[list][place][key].as_str().map(str::to_string),
        Err(_) => None,
    }
}

/// `serde_json::from_str::<Vec<String>>`: the list that a JSON text denotes, or
/// nothing where serde_json reports an error. Both depend on the text alone.
#[verifier::external_body]
pub(crate) fn parse_string_list(text: &str) -> (r: Option<Vec<String>>)
    ensures
        r.deep_view() == json_string_list(text@),
{
    serde_json::from_str::<Vec<String>>(text).ok()
}

/// `serde_json::to_string` on a list of texts: it does not fail, it writes the texts as
/// JSON strings in an array without white space, and `serde_json::from_str` reads that
/// back as the same list.
#[verifier::external_body]
pub(crate) fn write_string_list(list: &Vec<String>) -> (r: Option<String>)
    ensures
        r is Some,
        r->0@ == json_of_string_list(list.deep_view()),
        json_string_list(r->0@) == Some(list.deep_view()),
{
    serde_json::to_string(list).ok()
}

/// `serde_json::to_string` on a list of lists of texts: it does not fail, and it writes
/// the lists as arrays of JSON strings in an array without white space.
#[verifier::external_body]
pub(crate) fn write_string_table(table: &Vec<Vec<String>>) -> (r: Option<String>)
    ensures
        r is Some,
        r->0@ == json_of_string_table(table.deep_view()),
{
    serde_json::to_string(table).ok()
}

/// `serde_json::Value::from(text).to_string()`: the text as a JSON string, between
/// quotation marks, with `\"`, `\\` and the control characters below the space escaped (`\b`,
/// `\t`, `\n`, `\f` and `\r` in short, the others as `\u00` and two digits in lower case).
#[verifier::external_body]
pub(crate) fn quote(text: &str) -> (r: String)
    ensures
        r@ == json_string(text@),
{
    serde_json::Value::from(text).to_string()
}

/// The texts that a stored JSON text lists: none where it is no list of texts.
pub open spec fn listed_in(text: Seq<char>) -> Seq<Seq<char>> {
    match json_string_list(text) {
        Some(list) => list,
        None => Seq::empty(),
    }
}

/// The list that was read, or an empty one where none was.
pub fn list_or_empty(read: Option<Vec<String>>) -> (r: Vec<String>)
    ensures
        r.deep_view() == (match read {
            Some(list) => list.deep_view(),
            None => Seq::empty(),
        }),
{
    match read {
        Some(list) => list,
        None => {
            let none: Vec<String> = Vec::new();
            assert(none.deep_view() =~= Seq::empty());
            none
        },
    }
}

/// A list of texts as JSON.
pub fn string_list_text(list: &Vec<String>) -> (r: String)
    ensures
        r@ == json_of_string_list(list.deep_view()),
        json_string_list(r@) == Some(list.deep_view()),
{
    match write_string_list(list) {
        Some(text) => text,
        None => "[]".to_owned(),
    }
}

/// A list of lists of texts as JSON.
pub fn string_table_text(table: &Vec<Vec<String>>) -> (r: String)
    ensures
        r@ == json_of_string_table(table.deep_view()),
{
    match write_string_table(table) {
        Some(text) => text,
        None => "[]".to_owned(),
    }
}

} // verus!
