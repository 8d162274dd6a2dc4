//! Which file of an inbound message is meant: the identifier of the media
//! that the message carries.

use vstd::prelude::*;
use crate::grouping::top_level_type;
use crate::text::{chars_of, find_char, is_text, lemma_position, slice_chars, string_of};

verus! {

/// One rendering of a photo.
#[derive(Debug)]
pub struct PhotoSize {
    pub file_id: String,
    pub width: u32,
    pub height: u32,
}

/// The media that a message carries.
#[derive(Debug)]
pub enum MessageMedia {
    Video { file_id: String },
    Animation { file_id: String },
    Audio { file_id: String },
    VideoNote { file_id: String },
    /// A photo, in the renderings that the service offers.
    Photo { photo: Vec<PhotoSize> },
    /// A file, with the media type that the service names for it, if any.
    Document { file_id: String, mime_type: Option<String> },
    /// Anything else: text, a sticker, a location and so on.
    Other,
}

/// What kind of message it is.
#[derive(Debug)]
pub enum MessageKind {
    /// An ordinary message, with what it carries.
    Common(MessageMedia),
    /// A service message.
    Other,
}

/// The identifier of a file at the chat service.
#[derive(Debug)]
pub struct FileId(pub String);

/// Why a message names no file.
#[derive(Debug)]
pub enum FileIdError {
    UnknownMessageKind,
    PhotoMessageWithoutPhotos,
    DocumentMessageWithoutMimeType,
    UnsupportedMediaKind,
    /// The document is of this media type, which is none of image, video
    /// and audio.
    UnsupportedDocumentType(String),
}

impl FileIdError {
    /// The text of this error.
    pub open spec fn text(self) -> Seq<char> {
        match self {
            FileIdError::UnknownMessageKind => "Unknown message kind"@,
            FileIdError::PhotoMessageWithoutPhotos => "Photo message without photos"@,
            FileIdError::DocumentMessageWithoutMimeType => "Document message without mime type"@,
            FileIdError::UnsupportedMediaKind => "Unsupported media kind"@,
            FileIdError::UnsupportedDocumentType(_) => "Unsupported document type"@,
        }
    }

    /// The text of this error.
    pub fn message(&self) -> (text: String)
        ensures
            text@ == self.text(),
    {
        match self {
            FileIdError::UnknownMessageKind => string_of(&chars_of("Unknown message kind")),
            FileIdError::PhotoMessageWithoutPhotos => string_of(
                &chars_of("Photo message without photos"),
            ),
            FileIdError::DocumentMessageWithoutMimeType => string_of(
                &chars_of("Document message without mime type"),
            ),
            FileIdError::UnsupportedMediaKind => string_of(&chars_of("Unsupported media kind")),
            FileIdError::UnsupportedDocumentType(_) => string_of(
                &chars_of("Unsupported document type"),
            ),
        }
    }
}

/// How many pixels a rendering has.
pub open spec fn pixels(p: PhotoSize) -> int {
    p.width as int * p.height as int
}

/// Whether the rendering `a` is at least as large as `b`: it has more
/// pixels, or as many and is at least as wide.
pub open spec fn at_least_as_large(a: PhotoSize, b: PhotoSize) -> bool {
    pixels(a) > pixels(b) || (pixels(a) == pixels(b) && a.width >= b.width)
}

/// Whether the rendering in place `at` is a largest one of `photo`.
pub open spec fn is_largest(photo: Seq<PhotoSize>, at: int) -> bool {
    &&& 0 <= at < photo.len()
    &&& forall|j: int| 0 <= j < photo.len() ==> at_least_as_large(photo[at], #[trigger] photo[j])
}

/// Whether a document of the media type `mime` is taken: its top-level
/// type is image, video or audio.
pub open spec fn is_media_document(mime: Seq<char>) -> bool {
    let top = top_level_type(mime);
    top == "image"@ || top == "video"@ || top == "audio"@
}

/// Whether `result` is what `message` comes to.
pub open spec fn is_file_of(result: Result<FileId, FileIdError>, message: MessageKind) -> bool {
    match message {
        MessageKind::Other => result matches Err(FileIdError::UnknownMessageKind),
        MessageKind::Common(media) => match media {
            MessageMedia::Video { file_id } => result matches Ok(id) && id.0 == file_id,
            MessageMedia::Animation { file_id } => result matches Ok(id) && id.0 == file_id,
            MessageMedia::Audio { file_id } => result matches Ok(id) && id.0 == file_id,
            MessageMedia::VideoNote { file_id } => result matches Ok(id) && id.0 == file_id,
            MessageMedia::Photo { photo } => if photo.len() > 0 {
                result matches Ok(id) && exists|at: int|
                    is_largest(photo@, at) && id.0 == (#[trigger] photo@[at]).file_id
            } else {
                result matches Err(FileIdError::UnsupportedMediaKind)
            },
            MessageMedia::Document { file_id, mime_type } => match mime_type {
                None => result matches Err(FileIdError::DocumentMessageWithoutMimeType),
                Some(mime) => if is_media_document(mime@) {
                    result matches Ok(id) && id.0 == file_id
                } else {
                    result matches Err(FileIdError::UnsupportedDocumentType(m)) && m == mime
                },
            },
            MessageMedia::Other => result matches Err(FileIdError::UnsupportedMediaKind),
        },
    }
}

fn larger(a: &PhotoSize, b: &PhotoSize) -> (yes: bool)
    ensures
        yes == at_least_as_large(*a, *b),
{
    assert(a.width as int * a.height as int <= 0xFFFF_FFFF * 0xFFFF_FFFF) by (nonlinear_arith)
        requires
            0 <= a.width <= 0xFFFF_FFFF,
            0 <= a.height <= 0xFFFF_FFFF,
    ;
    assert(b.width as int * b.height as int <= 0xFFFF_FFFF * 0xFFFF_FFFF) by (nonlinear_arith)
        requires
            0 <= b.width <= 0xFFFF_FFFF,
            0 <= b.height <= 0xFFFF_FFFF,
    ;
    let pa: u64 = (a.width as u64) * (a.height as u64);
    let pb: u64 = (b.width as u64) * (b.height as u64);
    pa > pb || (pa == pb && a.width >= b.width)
}

proof fn lemma_larger_is_transitive(a: PhotoSize, b: PhotoSize, c: PhotoSize)
    requires
        at_least_as_large(a, b),
        at_least_as_large(b, c),
    ensures
        at_least_as_large(a, c),
{
}

/// The place of a largest rendering of `photo`: the first of them. There
/// is none where there is no rendering.
pub fn largest_photo(photo: &Vec<PhotoSize>) -> (found: Option<usize>)
    ensures
        match found {
            Some(at) => is_largest(photo@, at as int),
            None => photo.len() == 0,
        },
{
    if photo.len() == 0 {
        return None;
    }
    let mut best: usize = 0;
    let mut i: usize = 1;
    while i < photo.len()
        invariant
            1 <= i <= photo.len(),
            best < i,
            forall|j: int| 0 <= j < i ==> at_least_as_large(photo@[best as int], #[trigger] photo@[j]),
        decreases photo.len() - i,
    {
        if !larger(&photo[best], &photo[i]) {
            proof {
                assert forall|j: int| 0 <= j < i + 1 implies at_least_as_large(
                    photo@[i as int],
                    #[trigger] photo@[j],
                ) by {
                    if j < i {
                        lemma_larger_is_transitive(photo@[i as int], photo@[best as int], photo@[j]);
                    }
                }
            }
            best = i;
        }
        i += 1;
    }
    Some(best)
}

impl FileId {
    /// The file that `message` carries: its video, animation, audio or
    /// video note; the largest rendering of its photo; or its document,
    /// where that is an image, a video or audio.
    pub fn try_from(message: &MessageKind) -> (result: Result<FileId, FileIdError>)
        ensures
            is_file_of(result, *message),
    {
        let media = match message {
            MessageKind::Common(media) => media,
            MessageKind::Other => {
                return Err(FileIdError::UnknownMessageKind);
            },
        };
        match media {
            MessageMedia::Video { file_id } => Ok(FileId(file_id.clone())),
            MessageMedia::Animation { file_id } => Ok(FileId(file_id.clone())),
            MessageMedia::Audio { file_id } => Ok(FileId(file_id.clone())),
            MessageMedia::VideoNote { file_id } => Ok(FileId(file_id.clone())),
            MessageMedia::Photo { photo } => {
                match largest_photo(photo) {
                    Some(at) => Ok(FileId(photo[at].file_id.clone())),
                    None => Err(FileIdError::UnsupportedMediaKind),
                }
            },
            MessageMedia::Document { file_id, mime_type } => {
                match mime_type {
                    None => Err(FileIdError::DocumentMessageWithoutMimeType),
                    Some(mime) => {
                        let chars = chars_of(mime.as_str());
                        let cut = find_char(&chars, '/');
                        proof {
                            lemma_position(chars@, '/');
                        }
                        let top = slice_chars(&chars, 0, cut);
                        assert(top@ == top_level_type(mime@));
                        if is_text(&top, "image") || is_text(&top, "video") || is_text(&top, "audio") {
                            Ok(FileId(file_id.clone()))
                        } else {
                            Err(FileIdError::UnsupportedDocumentType(mime.clone()))
                        }
                    },
                }
            },
            MessageMedia::Other => Err(FileIdError::UnsupportedMediaKind),
        }
    }

    /// The file that `message` carries, if it carries one that is taken.
    pub fn from_message(message: &MessageKind) -> (id: Option<FileId>)
        ensures
            match id {
                Some(found) => is_file_of(Ok(found), *message),
                None => exists|e: FileIdError| is_file_of(Err(e), *message),
            },
    {
        match FileId::try_from(message) {
            Ok(id) => Some(id),
            Err(e) => {
                assert(is_file_of(Err(e), *message));
                None
            },
        }
    }

    /// The identifier as text.
    pub fn as_str(&self) -> (text: &str)
        ensures
            text@ == self.0@,
    {
        self.0.as_str()
    }
}

} // verus!
