//! Names under ulendo.app, as NIP-05 looks them up.

use vstd::prelude::*;
use vstd::string::*;

use crate::auth::AuthUser;
use crate::error::AppError;
use crate::error::AppResult;
use crate::error::ErrorView;
use crate::error::refused_as;
use crate::json::json_of_string_list;
use crate::json::list_or_empty;
use crate::json::listed_in;
use crate::json::parse_string_list;
use crate::json::string_list_text;
use crate::text::chars_of;
use crate::text::or_default;
use crate::text::or_text;
use crate::text::same;

verus! {

pub struct Nip05Query {
    pub name: Option<String>,
}

pub struct RegisterNameRequest {
    pub username: String,
    pub pubkey_hex: String,
    pub relays: Option<Vec<String>>,
}

pub struct RegisterNameResponse {
    pub username: String,
    pub nip05: String,
    pub lud16: String,
}

pub struct CheckNameQuery {
    pub username: String,
}

/// A text in lower case, by the rules of Unicode.
pub uninterp spec fn lowercase_of(s: Seq<char>) -> Seq<char>;

/// `str::to_lowercase` of std: the text in lower case, which depends on the text alone.
#[verifier::external_body]
fn lowercase(s: &str) -> (r: String)
    ensures
        r@ == lowercase_of(s@),
{
    s.to_lowercase()
}

pub open spec fn is_name_char(c: char) -> bool {
    'a' <= c <= 'z' || '0' <= c <= '9' || c == '_' || c == '.' || c == '-'
}

/// A name that can be registered: 2 to 30 of the characters a-z 0-9 _ . -
pub open spec fn valid_username(s: Seq<char>) -> bool {
    2 <= s.len() <= 30 && forall|i: int| 0 <= i < s.len() ==> is_name_char(#[trigger] s[i])
}

/// Whether a name can be registered.
pub fn is_valid_username(s: &str) -> (r: bool)
    ensures
        r == valid_username(s@),
{
    let v: Vec<char> = chars_of(s);
    if v.len() < 2 || v.len() > 30 {
        return false;
    }
    let mut i: usize = 0;
    while i < v.len()
        invariant
            i <= v@.len(),
            2 <= v@.len() <= 30,
            v@ == s@,
            forall|j: int| 0 <= j < i ==> is_name_char(#[trigger] v@[j]),
        decreases v@.len() - i,
    {
        let c: char = v[i];
        if !((c >= 'a' && c <= 'z') || (c >= '0' && c <= '9') || c == '_' || c == '.' || c == '-') {
            assert(!is_name_char(s@[i as int]));
            return false;
        }
        i = i + 1;
    }
    true
}

/// The address of a name.
pub open spec fn address_of(name: Seq<char>) -> Seq<char> {
    name + "@ulendo.app"@
}

/// The address of a name: the one that NIP-05 looks up and the one that is paid.
pub fn address(name: &str) -> (r: String)
    ensures
        r@ == address_of(name@),
{
    name.to_owned().concat("@ulendo.app")
}

// ── Looking names up ────────────────────────────────────────────────────────

/// A name that was found: its key, and that key's relays where there are any.
pub struct NameFound {
    pub name: String,
    pub pubkey_hex: String,
    pub relays: Option<Vec<String>>,
}

/// The name to look up for a query: in lower case. Without a name the whole directory is
/// asked for.
pub fn well_known_nostr_json(params: &Nip05Query) -> (r: Option<String>)
    ensures
        r.deep_view() == (match params.name {
            Some(name) => Some(lowercase_of(name@)),
            None => None,
        }),
{
    match &params.name {
        Some(name) => Some(lowercase(name.as_str())),
        None => None,
    }
}

/// What is answered to a look-up that found a row.
pub fn name_found(lookup: &str, pubkey_hex: &str, relays_json: &str) -> (r: NameFound)
    ensures
        r.name@ == lookup@,
        r.pubkey_hex@ == pubkey_hex@,
        match r.relays {
            Some(list) => list@.len() > 0 && list.deep_view() == listed_in(relays_json@),
            None => listed_in(relays_json@).len() == 0,
        },
{
    let parsed: Option<Vec<String>> = parse_string_list(relays_json);
    let list: Vec<String> = list_or_empty(parsed);
    assert(list.deep_view().len() == list@.len());
    NameFound {
        name: lookup.to_owned(),
        pubkey_hex: pubkey_hex.to_owned(),
        relays: if list.len() > 0 {
            Some(list)
        } else {
            None
        },
    }
}

/// The keys that a list of entries gives to names. The last entry of a name counts;
/// an entry without a name is one of the empty name.
pub open spec fn directory_of(rows: Seq<(Option<String>, String)>) -> Map<Seq<char>, Seq<char>>
    decreases rows.len(),
{
    if rows.len() == 0 {
        Map::empty()
    } else {
        directory_of(rows.drop_last()).insert(
            or_text(rows.last().0.deep_view(), ""@),
            rows.last().1@,
        )
    }
}

/// A list of names with their keys stands for a map: each name occurs once.
pub open spec fn lists_map(list: Seq<(String, String)>, map: Map<Seq<char>, Seq<char>>) -> bool {
    &&& forall|i: int, j: int|
        0 <= i < j < list.len() ==> (#[trigger] list[i]).0@ != (#[trigger] list[j]).0@
    &&& forall|i: int|
        0 <= i < list.len() ==> map.contains_key((#[trigger] list[i]).0@) && map[list[i].0@]
            == list[i].1@
    &&& forall|name: Seq<char>| #[trigger]
        map.contains_key(name) ==> exists|i: int| 0 <= i < list.len() && (#[trigger] list[i]).0@ == name
}

fn position_of(list: &Vec<(String, String)>, name: &str) -> (r: Option<usize>)
    ensures
        match r {
            Some(i) => i < list@.len() && list@[i as int].0@ == name@,
            None => forall|i: int| 0 <= i < list@.len() ==> (#[trigger] list@[i]).0@ != name@,
        },
{
    let mut i: usize = 0;
    while i < list.len()
        invariant
            i <= list@.len(),
            forall|j: int| 0 <= j < i ==> (#[trigger] list@[j]).0@ != name@,
        decreases list@.len() - i,
    {
        if same(list[i].0.as_str(), name) {
            return Some(i);
        }
        i = i + 1;
    }
    None
}

/// The whole directory: each name once, with its key.
pub fn directory(rows: &Vec<(Option<String>, String)>) -> (r: Vec<(String, String)>)
    ensures
        lists_map(r@, directory_of(rows@)),
{
    let mut r: Vec<(String, String)> = Vec::new();
    let mut i: usize = 0;
    while i < rows.len()
        invariant
            i <= rows@.len(),
            lists_map(r@, directory_of(rows@.take(i as int))),
        decreases rows@.len() - i,
    {
        let name: String = or_default(&rows[i].0, "");
        let key: String = rows[i].1.clone();
        let ghost before = directory_of(rows@.take(i as int));
        let ghost after = directory_of(rows@.take(i + 1));
        let ghost r0 = r@;
        assert(rows@.take(i + 1).drop_last() =~= rows@.take(i as int));
        assert(after == before.insert(name@, key@));
        match position_of(&r, name.as_str()) {
            Some(p) => {
                r.set(p, (name, key));
                assert(lists_map(r@, after)) by {
                    assert(r@[p as int].0@ == r0[p as int].0@);
                    assert forall|n: Seq<char>| #[trigger]
                        after.contains_key(n) implies exists|k: int|
                        0 <= k < r@.len() && (#[trigger] r@[k]).0@ == n by {
                        if n == name@ {
                            assert(r@[p as int].0@ == n);
                        } else {
                            assert(before.contains_key(n));
                            let k = choose|k: int|
                                0 <= k < r0.len() && (#[trigger] r0[k]).0@ == n;
                            assert(r@[k].0@ == n);
                        }
                    }
                }
            },
            None => {
                r.push((name, key));
                assert(lists_map(r@, after)) by {
                    assert forall|n: Seq<char>| #[trigger]
                        after.contains_key(n) implies exists|k: int|
                        0 <= k < r@.len() && (#[trigger] r@[k]).0@ == n by {
                        if n == name@ {
                            assert(r@[r@.len() - 1].0@ == n);
                        } else {
                            assert(before.contains_key(n));
                            let k = choose|k: int|
                                0 <= k < r0.len() && (#[trigger] r0[k]).0@ == n;
                            assert(r@[k].0@ == n);
                        }
                    }
                }
            },
        }
        i = i + 1;
    }
    assert(rows@.take(i as int) =~= rows@);
    r
}

// ── Checking and registering ────────────────────────────────────────────────

/// What is answered about a name that somebody may want.
pub enum NameCheck {
    /// It cannot be registered at all.
    Invalid { reason: String },
    /// Ask whether it is taken.
    Ask { username: String },
}

/// Whether a name, in lower case, can be registered at all.
pub fn check_lowercase(username: String) -> (r: NameCheck)
    ensures
        match r {
            NameCheck::Invalid { reason } => !valid_username(username@) && reason@
                == "Username must be 2-30 chars, only letters, numbers, _ . -"@,
            NameCheck::Ask { username: asked } => valid_username(username@) && asked == username,
        },
{
    if !is_valid_username(username.as_str()) {
        return NameCheck::Invalid {
            reason: "Username must be 2-30 chars, only letters, numbers, _ . -".to_owned(),
        };
    }
    NameCheck::Ask { username }
}

/// Whether a name can be registered at all, in lower case.
pub fn check_username(params: &CheckNameQuery) -> (r: NameCheck)
    ensures
        match r {
            NameCheck::Invalid { reason } => !valid_username(lowercase_of(params.username@))
                && reason@ == "Username must be 2-30 chars, only letters, numbers, _ . -"@,
            NameCheck::Ask { username } => valid_username(lowercase_of(params.username@))
                && username@ == lowercase_of(params.username@),
        },
{
    check_lowercase(lowercase(params.username.as_str()))
}

/// What is answered about a name that can be registered.
pub struct NameReport {
    pub available: bool,
    pub username: String,
    pub nip05: String,
    pub lud16: String,
}

/// What is answered about a name, given how often it is registered.
pub fn name_report(username: String, taken: i64) -> (r: NameReport)
    ensures
        r.available == (taken == 0),
        r.username == username,
        r.nip05@ == address_of(username@),
        r.lud16@ == address_of(username@),
{
    NameReport {
        available: taken == 0,
        nip05: address(username.as_str()),
        lud16: address(username.as_str()),
        username,
    }
}

/// Why a name is not registered for a user, if it is not.
pub open spec fn register_refusal(
    caller: Seq<char>,
    username: Seq<char>,
    pubkey_hex: Seq<char>,
) -> Option<ErrorView> {
    if !valid_username(username) {
        Some(ErrorView::BadRequest("Invalid username: 2-30 chars, a-z 0-9 _ . - only"@))
    } else if pubkey_hex != caller {
        Some(ErrorView::Unauthorized("pubkey_hex must match your authenticated key"@))
    } else {
        None
    }
}

/// The row of a registered name.
pub struct NameRow {
    pub username: String,
    pub pubkey_hex: String,
    pub relays_json: String,
}

/// The relays that a request brings.
pub open spec fn relays_brought(relays: Option<Vec<String>>) -> Seq<Seq<char>> {
    match relays {
        Some(list) => list.deep_view(),
        None => Seq::empty(),
    }
}

/// The row of a name, already in lower case, that a user registers for the user's
/// own key.
pub fn register_lowercase(auth: &AuthUser, username: String, req: &RegisterNameRequest) -> (r:
    AppResult<NameRow>)
    ensures
        refused_as(r, register_refusal(auth.public_key@, username@, req.pubkey_hex@)),
        r matches Ok(row) ==> {
            &&& row.username == username
            &&& row.pubkey_hex == auth.public_key
            &&& row.relays_json@ == json_of_string_list(relays_brought(req.relays))
            &&& listed_in(row.relays_json@) == relays_brought(req.relays)
        },
{
    if !is_valid_username(username.as_str()) {
        return Err(AppError::bad_request("Invalid username: 2-30 chars, a-z 0-9 _ . - only"));
    }
    if req.pubkey_hex != auth.public_key {
        return Err(AppError::unauthorized("pubkey_hex must match your authenticated key"));
    }
    let relays_json: String = match &req.relays {
        Some(list) => string_list_text(list),
        None => {
            let none: Vec<String> = Vec::new();
            assert(none.deep_view() =~= Seq::empty());
            string_list_text(&none)
        },
    };
    Ok(NameRow { username, pubkey_hex: auth.public_key.clone(), relays_json })
}

/// The row of a name that a user registers for the user's own key.
pub fn register_name(auth: &AuthUser, req: &RegisterNameRequest) -> (r: AppResult<NameRow>)
    ensures
        refused_as(
            r,
            register_refusal(auth.public_key@, lowercase_of(req.username@), req.pubkey_hex@),
        ),
        r matches Ok(row) ==> {
            &&& row.username@ == lowercase_of(req.username@)
            &&& row.pubkey_hex == auth.public_key
            &&& row.relays_json@ == json_of_string_list(relays_brought(req.relays))
            &&& listed_in(row.relays_json@) == relays_brought(req.relays)
        },
{
    register_lowercase(auth, lowercase(req.username.as_str()), req)
}

/// Why a key does not get a name that a key already has, if it does not.
pub open spec fn taken_refusal(key: Seq<char>, existing_key: Option<Seq<char>>) -> Option<ErrorView> {
    if existing_key is Some && existing_key->0 != key {
        Some(ErrorView::Conflict("Username already taken"@))
    } else {
        None
    }
}

/// A name is given to one key: whoever registered it can register it again, and nobody
/// else can.
pub proof fn law_a_name_belongs_to_one_key(owner: Seq<char>, other: Seq<char>)
    ensures
        taken_refusal(owner, None) is None,
        taken_refusal(other, Some(owner)) is None <==> other == owner,
{
}

/// What is answered to a registration: a name that belongs to somebody else is not
/// given away.
pub fn registered(row: &NameRow, existing_key: &Option<String>) -> (r: AppResult<
    RegisterNameResponse,
>)
    ensures
        refused_as(r, taken_refusal(row.pubkey_hex@, existing_key.deep_view())),
        r matches Ok(answer) ==> {
            &&& answer.username == row.username
            &&& answer.nip05@ == address_of(row.username@)
            &&& answer.lud16@ == address_of(row.username@)
        },
{
    match existing_key {
        Some(key) => {
            if *key != row.pubkey_hex {
                return Err(AppError::Conflict("Username already taken".to_owned()));
            }
        },
        None => {},
    }
    Ok(
        RegisterNameResponse {
            username: row.username.clone(),
            nip05: address(row.username.as_str()),
            lud16: address(row.username.as_str()),
        },
    )
}

/// The name of a key.
pub struct NameOfKey {
    pub username: Option<String>,
    pub nip05: String,
    pub lud16: String,
}

/// What is answered to the question for a key's name: nothing where it has none.
pub fn get_name_by_pubkey(row: Option<Option<String>>) -> (r: Option<NameOfKey>)
    ensures
        match r {
            Some(answer) => {
                &&& row == Some(answer.username)
                &&& answer.nip05@ == address_of(or_text(answer.username.deep_view(), "unknown"@))
                &&& answer.lud16@ == address_of(or_text(answer.username.deep_view(), "unknown"@))
            },
            None => row is None,
        },
{
    match row {
        None => None,
        Some(username) => {
            let shown: String = or_default(&username, "unknown");
            Some(
                NameOfKey {
                    username,
                    nip05: address(shown.as_str()),
                    lud16: address(shown.as_str()),
                },
            )
        },
    }
}

} // verus!
