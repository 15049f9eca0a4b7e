//! The index of listings published on Nostr relays.

use vstd::prelude::*;
use vstd::string::*;

use crate::db::NostrCacheEntry;
use crate::json::json_of_string_list;
use crate::json::json_of_string_table;
use crate::json::string_list_text;
use crate::json::string_table_text;
use crate::tags::all_tags;
use crate::tags::first_tag;
use crate::tags::tag_value;
use crate::tags::tag_values;

verus! {

/// The kind of the events that are indexed.
pub const LISTING_KIND: u16 = 30402;

/// The hashtag of the events that are indexed.
pub fn listing_hashtag() -> (r: String)
    ensures
        r@ == "ulendo"@,
{
    "ulendo".to_owned()
}

/// An event as a relay sends it.
pub struct RelayEvent {
    pub id: String,
    pub pubkey: String,
    pub kind: u16,
    pub created_at: u64,
    pub content: String,
    pub tags: Vec<Vec<String>>,
}

/// The row that an event becomes in the index.
pub fn index_once(event: &RelayEvent, now: i64) -> (r: NostrCacheEntry)
    ensures
        r.event_id == event.id,
        r.kind == event.kind,
        r.pubkey == event.pubkey,
        r.d_tag.deep_view() == tag_value(event.tags.deep_view(), "d"@),
        r.t_tags@ == json_of_string_list(tag_values(event.tags.deep_view(), "t"@)),
        r.content == event.content,
        r.tags_json@ == json_of_string_table(event.tags.deep_view()),
        r.created_at == event.created_at as i64,
        r.indexed_at == now,
        crate::json::listed_in(r.t_tags@) == tag_values(event.tags.deep_view(), "t"@),
{
    let d_tag: Option<String> = match first_tag(&event.tags, "d") {
        Some(value) => Some(value.clone()),
        None => None,
    };
    let t_tags: Vec<String> = all_tags(&event.tags, "t");
    NostrCacheEntry {
        event_id: event.id.clone(),
        kind: event.kind as i64,
        pubkey: event.pubkey.clone(),
        d_tag,
        t_tags: string_list_text(&t_tags),
        content: event.content.clone(),
        tags_json: string_table_text(&event.tags),
        created_at: event.created_at as i64,
        indexed_at: now,
    }
}

/// An event that is seen again replaces what can change of its row: the content,
/// the tags and the time of indexing.
pub fn index_again(known: &NostrCacheEntry, seen: &NostrCacheEntry) -> (r: NostrCacheEntry)
    requires
        known.event_id@ == seen.event_id@,
    ensures
        r.content == seen.content,
        r.tags_json == seen.tags_json,
        r.indexed_at == seen.indexed_at,
        r.event_id == known.event_id,
        r.kind == known.kind,
        r.pubkey == known.pubkey,
        r.d_tag == known.d_tag,
        r.t_tags == known.t_tags,
        r.created_at == known.created_at,
{
    NostrCacheEntry {
        event_id: known.event_id.clone(),
        kind: known.kind,
        pubkey: known.pubkey.clone(),
        d_tag: crate::text::copy_option(&known.d_tag),
        t_tags: known.t_tags.clone(),
        content: seen.content.clone(),
        tags_json: seen.tags_json.clone(),
        created_at: known.created_at,
        indexed_at: seen.indexed_at,
    }
}

} // verus!
