//! Identifiers of rows.

use vstd::prelude::*;
use vstd::string::*;

use crate::text::chars_of;

verus! {

pub open spec fn is_lower_hex(c: char) -> bool {
    '0' <= c <= '9' || 'a' <= c <= 'f'
}

/// Thirty-two lower-case hexadecimal digits.
pub open spec fn is_id(s: Seq<char>) -> bool {
    s.len() == 32 && forall|i: int| 0 <= i < s.len() ==> is_lower_hex(#[trigger] s[i])
}

/// Where the hyphens of a UUID stand.
pub open spec fn hyphen_at(i: int) -> bool {
    i == 8 || i == 13 || i == 18 || i == 23
}

/// How many of the first `i` places of a UUID are hyphens.
pub open spec fn hyphens_before(i: int) -> int {
    (if i > 8 { 1int } else { 0 }) + (if i > 13 { 1int } else { 0 }) + (if i > 18 { 1int } else { 0 })
        + (if i > 23 { 1int } else { 0 })
}

/// The hyphenated form of a UUID: groups of 8, 4, 4, 4 and 12 lower-case
/// hexadecimal digits.
pub open spec fn is_uuid_text(s: Seq<char>) -> bool {
    s.len() == 36 && forall|i: int|
        0 <= i < s.len() ==> if hyphen_at(i) {
            #[trigger] s[i] == '-'
        } else {
            is_lower_hex(s[i])
        }
}

/// `uuid::Uuid::new_v4().to_string()`: a random UUID in its hyphenated lower-case
/// form. Nothing else is claimed of which one comes.
#[verifier::external_body]
fn random_uuid() -> (s: String)
    ensures
        is_uuid_text(s@),
{
    uuid::Uuid::new_v4().to_string()
}

/// The identifier that a UUID becomes: the UUID without its hyphens.
pub fn id_of_uuid(uuid: &str) -> (id: String)
    requires
        is_uuid_text(uuid@),
    ensures
        is_id(id@),
        id@ == crate::text::without(uuid@, '-'),
{
    let v: Vec<char> = chars_of(uuid);
    let mut id: String = String::new();
    let mut i: usize = 0;
    assert(crate::text::without(uuid@.take(0), '-') =~= Seq::<char>::empty());
    while i < v.len()
        invariant
            i <= v@.len() == 36,
            v@ == uuid@,
            is_uuid_text(uuid@),
            id@.len() == i - hyphens_before(i as int),
            forall|j: int| 0 <= j < id@.len() ==> is_lower_hex(#[trigger] id@[j]),
            id@ == crate::text::without(uuid@.take(i as int), '-'),
        decreases v@.len() - i,
    {
        let c: char = v[i];
        assert(uuid@.take(i + 1).drop_last() =~= uuid@.take(i as int));
        if c != '-' {
            assert(is_lower_hex(uuid@[i as int]));
            id.push(c);
        } else {
            assert(hyphen_at(i as int));
        }
        i = i + 1;
    }
    assert(uuid@.take(36) =~= uuid@);
    id
}

/// A fresh identifier.
pub fn new_id() -> (id: String)
    ensures
        is_id(id@),
{
    let uuid: String = random_uuid();
    id_of_uuid(uuid.as_str())
}

} // verus!
