//! Upload of photos to a public host.

use vstd::prelude::*;
use vstd::string::*;

use crate::error::AppError;
use crate::error::AppResult;
use crate::error::ErrorView;
use crate::error::refused_as;
use crate::text::contains_text;
use crate::text::occurs;
use crate::text::or_default;
use crate::text::or_text;
use crate::text::same;
use crate::text::starts_with;

verus! {

/// A field of the form that a photo comes in.
pub struct UploadField {
    pub name: Option<String>,
    pub content_type: Option<String>,
    pub data: Vec<u8>,
}

/// The field that carries the photo.
pub open spec fn is_file_name(name: Option<Seq<char>>) -> bool {
    or_text(name, ""@) == "file"@
}

/// Whether a field of the given name carries the photo.
pub fn is_file_field(name: &Option<String>) -> (r: bool)
    ensures
        r == is_file_name(name.deep_view()),
{
    let text: String = or_default(name, "");
    same(text.as_str(), "file")
}

/// The photo, as a host is sent it.
pub struct Photo {
    pub data: Vec<u8>,
    pub mime: String,
    pub file_name: String,
}

/// The largest photo taken, in bytes.
pub const MAX_PHOTO_BYTES: usize = 10_485_760;

/// Where the photo stands among the fields: in the last one that carries one.
pub open spec fn last_file(fields: Seq<UploadField>) -> Option<int>
    decreases fields.len(),
{
    if fields.len() == 0 {
        None
    } else if is_file_name(fields.last().name.deep_view()) {
        Some(fields.len() - 1)
    } else {
        last_file(fields.drop_last())
    }
}

/// Why a photo is not taken, if it is not.
pub open spec fn photo_refusal(fields: Seq<UploadField>) -> Option<ErrorView> {
    match last_file(fields) {
        None => Some(ErrorView::BadRequest("no file field in request"@)),
        Some(i) => if fields[i].data@.len() > MAX_PHOTO_BYTES {
            Some(ErrorView::BadRequest("file too large (max 10MB)"@))
        } else {
            None
        },
    }
}

/// The name under which a photo of the given type is sent on.
pub open spec fn photo_name(mime: Seq<char>) -> Seq<char> {
    if occurs(mime, "png"@) {
        "ulendo."@ + "png"@
    } else {
        "ulendo."@ + "jpg"@
    }
}

/// The photo in a form: the last field that carries one, a JPEG unless it says
/// otherwise.
pub fn upload_photo(fields: &Vec<UploadField>) -> (r: AppResult<Photo>)
    ensures
        refused_as(r, photo_refusal(fields@)),
        r matches Ok(photo) ==> {
            let field = fields@[last_file(fields@)->0];
            &&& photo.data@ == field.data@
            &&& photo.mime@ == or_text(field.content_type.deep_view(), "image/jpeg"@)
            &&& photo.file_name@ == photo_name(photo.mime@)
        },
{
    let mut i: usize = fields.len();
    assert(fields@.take(i as int) =~= fields@);
    while i > 0
        invariant
            i <= fields@.len(),
            last_file(fields@.take(i as int)) == last_file(fields@),
        decreases i,
    {
        assert(fields@.take(i as int).drop_last() =~= fields@.take(i - 1));
        let field: &UploadField = &fields[i - 1];
        if is_file_field(&field.name) {
            if field.data.len() > MAX_PHOTO_BYTES {
                return Err(AppError::bad_request("file too large (max 10MB)"));
            }
            let mime: String = or_default(&field.content_type, "image/jpeg");
            let mut file_name: String = "ulendo.".to_owned();
            if contains_text(mime.as_str(), "png") {
                file_name.append("png");
            } else {
                file_name.append("jpg");
            }
            return Ok(Photo { data: copy_bytes(&field.data), mime, file_name });
        }
        i = i - 1;
    }
    Err(AppError::bad_request("no file field in request"))
}

fn copy_bytes(data: &Vec<u8>) -> (r: Vec<u8>)
    ensures
        r@ == data@,
{
    let mut r: Vec<u8> = Vec::new();
    let mut i: usize = 0;
    while i < data.len()
        invariant
            i <= data@.len(),
            r@ == data@.take(i as int),
        decreases data@.len() - i,
    {
        r.push(data[i]);
        i = i + 1;
    }
    r
}

/// A link that is handed on: only to a secure address.
pub fn accept_link(link: Option<&str>) -> (r: Option<String>)
    ensures
        match r {
            Some(url) => crate::text::opt_view(link) == Some(url@) && "https://"@.is_prefix_of(url@),
            None => link is None || !"https://"@.is_prefix_of(link->0@),
        },
{
    match link {
        Some(url) => if starts_with(url, "https://") {
            Some(url.to_owned())
        } else {
            None
        },
        None => None,
    }
}

/// An entry of a reply's tags, where it is a text.
pub type TagEntry = Option<String>;

/// The tag begins with the given text.
pub open spec fn tag_is(tag: Seq<TagEntry>, name: Seq<char>) -> bool {
    tag.len() > 0 && tag[0].deep_view() == Some(name)
}

/// The second entry of the first tag called `url`, as far as it is a text.
pub open spec fn url_tag(tags: Seq<Vec<TagEntry>>) -> Option<Seq<char>>
    decreases tags.len(),
{
    if tags.len() == 0 {
        None
    } else if tag_is(tags[0]@, "url"@) {
        if tags[0]@.len() > 1 {
            tags[0]@[1].deep_view()
        } else {
            None
        }
    } else {
        url_tag(tags.skip(1))
    }
}

/// The link in a reply of the second host: in its tags, or else beside them.
pub fn link_in_reply(tags: &Vec<Vec<TagEntry>>, data_url: &Option<String>) -> (r: Option<String>)
    ensures
        r.deep_view() == (if url_tag(tags@) is Some {
            url_tag(tags@)
        } else {
            data_url.deep_view()
        }),
{
    let mut i: usize = 0;
    assert(tags@.skip(0) =~= tags@);
    while i < tags.len()
        invariant
            i <= tags@.len(),
            url_tag(tags@.skip(i as int)) == url_tag(tags@),
        decreases tags@.len() - i,
    {
        let tag: &Vec<TagEntry> = &tags[i];
        assert(tags@.skip(i as int)[0] == *tag);
        assert(tags@.skip(i as int).skip(1) =~= tags@.skip(i + 1));
        let named: bool = if tag.len() > 0 {
            match &tag[0] {
                Some(text) => same(text.as_str(), "url"),
                None => false,
            }
        } else {
            false
        };
        if named {
            if tag.len() > 1 && tag[1].is_some() {
                return crate::text::copy_option(&tag[1]);
            }
            return crate::text::copy_option(data_url);
        }
        i = i + 1;
    }
    assert(tags@.skip(i as int).len() == 0);
    crate::text::copy_option(data_url)
}

/// Where a photo was put.
pub struct Uploaded {
    pub url: String,
    pub provider: String,
}

/// What follows the first host's reply.
pub enum UploadStep {
    /// The first host took the photo.
    Done { answer: Uploaded },
    /// The second host is asked.
    AskSecondHost,
}

/// What follows the first host's reply: if it holds a link to a secure address, the
/// photo is there; otherwise the second host is asked.
pub fn first_host_replied(link: Option<&str>) -> (r: UploadStep)
    ensures
        match r {
            UploadStep::Done { answer } => {
                &&& link is Some
                &&& "https://"@.is_prefix_of(link->0@)
                &&& answer.url@ == link->0@
                &&& answer.provider@ == "imgur"@
            },
            UploadStep::AskSecondHost => link is None || !"https://"@.is_prefix_of(link->0@),
        },
{
    match accept_link(link) {
        Some(url) => UploadStep::Done { answer: Uploaded { url, provider: "imgur".to_owned() } },
        None => UploadStep::AskSecondHost,
    }
}

/// What follows the second host's reply: if it holds a link to a secure address, the
/// photo is there; otherwise it is nowhere.
pub fn second_host_replied(link: Option<&str>) -> (r: AppResult<Uploaded>)
    ensures
        refused_as(
            r,
            if link is Some && "https://"@.is_prefix_of(link->0@) {
                None
            } else {
                Some(ErrorView::BadRequest("all upload providers failed"@))
            },
        ),
        r matches Ok(up) ==> up.url@ == link->0@ && up.provider@ == "nostr.build"@,
{
    match accept_link(link) {
        Some(url) => Ok(Uploaded { url, provider: "nostr.build".to_owned() }),
        None => Err(AppError::bad_request("all upload providers failed")),
    }
}

} // verus!
