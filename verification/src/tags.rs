//! Tags of Nostr events: lists of texts, of which the first is the tag's name.

use vstd::prelude::*;
use vstd::string::*;

use crate::text::same;

verus! {

/// The second entry of the first tag whose first entry is `name`.
pub open spec fn tag_value(tags: Seq<Seq<Seq<char>>>, name: Seq<char>) -> Option<Seq<char>>
    decreases tags.len(),
{
    if tags.len() == 0 {
        None
    } else if tags[0].len() > 0 && tags[0][0] == name {
        if tags[0].len() > 1 {
            Some(tags[0][1])
        } else {
            None
        }
    } else {
        tag_value(tags.skip(1), name)
    }
}

/// The second entries of all tags whose first entry is `name`, in order.
pub open spec fn tag_values(tags: Seq<Seq<Seq<char>>>, name: Seq<char>) -> Seq<Seq<char>>
    decreases tags.len(),
{
    if tags.len() == 0 {
        Seq::empty()
    } else {
        let before = tag_values(tags.drop_last(), name);
        let tag = tags.last();
        if tag.len() > 1 && tag[0] == name {
            before.push(tag[1])
        } else {
            before
        }
    }
}

/// The value of the first tag of the given name.
pub fn first_tag<'a>(tags: &'a Vec<Vec<String>>, name: &str) -> (r: Option<&'a String>)
    ensures
        match r {
            Some(value) => tag_value(tags.deep_view(), name@) == Some(value@),
            None => tag_value(tags.deep_view(), name@) is None,
        },
{
    let ghost all = tags.deep_view();
    let mut i: usize = 0;
    assert(all.skip(0) =~= all);
    while i < tags.len()
        invariant
            i <= tags@.len(),
            all == tags.deep_view(),
            all.len() == tags@.len(),
            tag_value(all.skip(i as int), name@) == tag_value(all, name@),
        decreases tags@.len() - i,
    {
        let tag: &Vec<String> = &tags[i];
        assert(all.skip(i as int)[0] == tag.deep_view());
        assert(all.skip(i as int).skip(1) =~= all.skip(i + 1));
        if tag.len() > 0 && same(tag[0].as_str(), name) {
            if tag.len() > 1 {
                return Some(&tag[1]);
            } else {
                return None;
            }
        }
        i = i + 1;
    }
    assert(all.skip(i as int).len() == 0);
    None
}

/// The values of all tags of the given name.
pub fn all_tags(tags: &Vec<Vec<String>>, name: &str) -> (r: Vec<String>)
    ensures
        r.deep_view() == tag_values(tags.deep_view(), name@),
{
    let ghost all = tags.deep_view();
    let mut r: Vec<String> = Vec::new();
    let mut i: usize = 0;
    assert(r.deep_view() =~= tag_values(all.take(0), name@));
    while i < tags.len()
        invariant
            i <= tags@.len(),
            all == tags.deep_view(),
            all.len() == tags@.len(),
            r.deep_view() == tag_values(all.take(i as int), name@),
        decreases tags@.len() - i,
    {
        let tag: &Vec<String> = &tags[i];
        let ghost r0 = r.deep_view();
        assert(all.take(i + 1).drop_last() =~= all.take(i as int));
        assert(all.take(i + 1).last() == tag.deep_view());
        if tag.len() > 1 && same(tag[0].as_str(), name) {
            r.push(tag[1].clone());
            assert(r.deep_view() =~= r0.push(tag@[1]@));
        }
        i = i + 1;
    }
    assert(all.take(i as int) =~= all);
    r
}

} // verus!
