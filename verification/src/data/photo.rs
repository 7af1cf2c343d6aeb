//! The photos of events, which are kept in external storage.

use crate::error::{DenimError, DenimResult};
use crate::routes::sse::{uuid_hyphenated, uuid_text};
use vstd::prelude::*;
use vstd::string::*;

verus! {

/// One photo of an event.
#[derive(Clone, Debug)]
pub struct Photo {
    pub id: u128,
    pub event_id: u128,
    pub extension: String,
}

/// What is needed to add a photo.
#[derive(Clone, Debug)]
pub struct NewPhotoForm {
    pub bytes: Vec<u8>,
    pub content_type: String,
    pub extension: String,
    pub event_id: u128,
}

/// For how many seconds a link to a photo is good: five minutes.
pub const PHOTO_LINK_SECONDS: u32 = 300;

/// Where the photo `id` with file extension `extension` is kept.
pub open spec fn photo_path(id: u128, extension: Seq<char>) -> Seq<char> {
    "/photos/"@ + uuid_hyphenated(id) + "."@ + extension
}

/// Where the photo `id` with file extension `extension` is kept.
pub fn object_path(id: u128, extension: &str) -> (path: String)
    ensures
        path@ == photo_path(id, extension@),
{
    let mut path = String::from_str("/photos/");
    let id_text = uuid_text(id);
    path.append(id_text.as_str());
    path.append(".");
    path.append(extension);
    path
}

impl Photo {
    /// Where this photo is kept.
    pub fn get_s3_path(&self) -> (path: String)
        ensures
            path@ == photo_path(self.id, self.extension@),
    {
        object_path(self.id, self.extension.as_str())
    }
}

/// The classes of files that `infer` tells apart.
#[derive(Clone, Copy, Debug, PartialEq, Eq, Structural)]
pub enum FileClass {
    App,
    Archive,
    Audio,
    Book,
    Doc,
    Font,
    Image,
    Text,
    Video,
    Custom,
}

/// What the first bytes of a file say of it: its class, its content type,
/// and the extension that files of its kind have.
pub struct FileKind {
    pub class: FileClass,
    pub mime_type: Seq<char>,
    pub extension: Seq<char>,
}

/// What `infer` makes of the bytes of a file by the signatures that it
/// knows; nothing where it knows none that fits.
pub uninterp spec fn inferred_kind(bytes: Seq<u8>) -> Option<FileKind>;

/// `infer::get`, with the class, content type and extension of what it
/// found taken out. Trusted: what it finds is the named function of the
/// bytes.
#[verifier::external_body]
fn infer_kind(bytes: &[u8]) -> (kind: Option<(FileClass, &'static str, &'static str)>)
    ensures
        match kind {
            Some((class, mime_type, extension)) => inferred_kind(bytes@) == Some(
                FileKind { class, mime_type: mime_type@, extension: extension@ },
            ),
            None => inferred_kind(bytes@) is None,
        },
{
    let found = infer::get(bytes)?;
    let class = match found.matcher_type() {
        infer::MatcherType::App => FileClass::App,
        infer::MatcherType::Archive => FileClass::Archive,
        infer::MatcherType::Audio => FileClass::Audio,
        infer::MatcherType::Book => FileClass::Book,
        infer::MatcherType::Doc => FileClass::Doc,
        infer::MatcherType::Font => FileClass::Font,
        infer::MatcherType::Image => FileClass::Image,
        infer::MatcherType::Text => FileClass::Text,
        infer::MatcherType::Video => FileClass::Video,
        infer::MatcherType::Custom => FileClass::Custom,
    };
    Some((class, found.mime_type(), found.extension()))
}

/// What is needed to add the uploaded file `bytes` as a photo of the event
/// `event_id`. Only an image is taken; of any other file the kind is told,
/// where it is known.
pub fn new_photo(bytes: Vec<u8>, event_id: u128) -> (photo: DenimResult<NewPhotoForm>)
    ensures
        match inferred_kind(bytes@) {
            Some(kind) => if kind.class == FileClass::Image {
                photo matches Ok(form) && form.bytes == bytes && form.event_id == event_id
                    && form.content_type@ == kind.mime_type && form.extension@ == kind.extension
            } else {
                photo matches Err(DenimError::InvalidImage { found_mime: Some(mime) }) && mime@
                    == kind.mime_type
            },
            None => photo == Err::<NewPhotoForm, DenimError>(
                DenimError::InvalidImage { found_mime: None },
            ),
        },
{
    match infer_kind(bytes.as_slice()) {
        Some((FileClass::Image, mime_type, extension)) => Ok(
            NewPhotoForm {
                bytes,
                content_type: String::from_str(mime_type),
                extension: String::from_str(extension),
                event_id,
            },
        ),
        Some((_, mime_type, _)) => Err(
            DenimError::InvalidImage { found_mime: Some(String::from_str(mime_type)) },
        ),
        None => Err(DenimError::InvalidImage { found_mime: None }),
    }
}

} // verus!
