//! Inbound messages and the attachment, if any, that can be downloaded from
//! one.

use vstd::prelude::*;

verus! {

/// Handle of a remote blob: the identifier it is fetched by, and the
/// identifier that stays the same for the same blob.
#[derive(Debug, PartialEq, Eq, Hash)]
pub struct FileReference {
    pub id: String,
    pub unique_id: String,
}

/// Mathematical value of a [`FileReference`].
pub struct FileReferenceView {
    pub id: Seq<char>,
    pub unique_id: Seq<char>,
}

impl View for FileReference {
    type V = FileReferenceView;

    open spec fn view(&self) -> FileReferenceView {
        FileReferenceView { id: self.id@, unique_id: self.unique_id@ }
    }
}

impl Clone for FileReference {
    fn clone(&self) -> (r: Self)
        ensures
            r@ == self@,
    {
        FileReference { id: self.id.clone(), unique_id: self.unique_id.clone() }
    }
}

/// What a message carries.
#[derive(Debug, PartialEq, Eq)]
pub enum Payload {
    /// Plain text.
    Text,
    /// A general file, with the name its sender declared, if any.
    Document { file: FileReference, file_name: Option<String> },
    /// A photo in several resolutions, the highest last.
    Photo { sizes: Vec<FileReference> },
    /// A video, with the name its sender declared, if any.
    Video { file: FileReference, file_name: Option<String> },
    /// A piece of music, with the name its sender declared, if any.
    Audio { file: FileReference, file_name: Option<String> },
    /// A voice note.
    Voice { file: FileReference },
    /// Any other content of an ordinary message: a sticker, a location, a
    /// contact.
    Other,
    /// No ordinary message at all: a notification of the platform, such as
    /// a change of membership.
    Service,
}

/// Mathematical value of a [`Payload`].
pub enum PayloadView {
    Text,
    Document { file: FileReferenceView, file_name: Option<Seq<char>> },
    Photo { sizes: Seq<FileReferenceView> },
    Video { file: FileReferenceView, file_name: Option<Seq<char>> },
    Audio { file: FileReferenceView, file_name: Option<Seq<char>> },
    Voice { file: FileReferenceView },
    Other,
    Service,
}

/// The characters of an optional name.
pub open spec fn name_view(name: Option<String>) -> Option<Seq<char>> {
    match name {
        Some(s) => Some(s@),
        None => None,
    }
}

/// The values of a list of references, in order.
pub open spec fn references_view(v: Seq<FileReference>) -> Seq<FileReferenceView> {
    Seq::new(v.len(), |i: int| v[i]@)
}

impl View for Payload {
    type V = PayloadView;

    open spec fn view(&self) -> PayloadView {
        match *self {
            Payload::Text => PayloadView::Text,
            Payload::Document { file, file_name } => PayloadView::Document {
                file: file@,
                file_name: name_view(file_name),
            },
            Payload::Photo { sizes } => PayloadView::Photo { sizes: references_view(sizes@) },
            Payload::Video { file, file_name } => PayloadView::Video {
                file: file@,
                file_name: name_view(file_name),
            },
            Payload::Audio { file, file_name } => PayloadView::Audio {
                file: file@,
                file_name: name_view(file_name),
            },
            Payload::Voice { file } => PayloadView::Voice { file: file@ },
            Payload::Other => PayloadView::Other,
            Payload::Service => PayloadView::Service,
        }
    }
}

/// One message as it arrives: the chat it came from and what it carries.
#[derive(Debug, PartialEq, Eq)]
pub struct InboundMessage {
    pub chat_id: i64,
    pub payload: Payload,
}

/// Mathematical value of an [`InboundMessage`].
pub struct InboundMessageView {
    pub chat_id: i64,
    pub payload: PayloadView,
}

impl View for InboundMessage {
    type V = InboundMessageView;

    open spec fn view(&self) -> InboundMessageView {
        InboundMessageView { chat_id: self.chat_id, payload: self.payload@ }
    }
}

/// A downloadable attachment: its handle and the name to suggest for it.
/// The name is not yet safe to use on a file system.
#[derive(Debug, PartialEq, Eq)]
pub struct ExtractedFile {
    pub reference: FileReference,
    pub suggested_name: String,
}

/// Mathematical value of an [`ExtractedFile`].
pub struct ExtractedFileView {
    pub reference: FileReferenceView,
    pub suggested_name: Seq<char>,
}

impl View for ExtractedFile {
    type V = ExtractedFileView;

    open spec fn view(&self) -> ExtractedFileView {
        ExtractedFileView { reference: self.reference@, suggested_name: self.suggested_name@ }
    }
}

impl Clone for ExtractedFile {
    fn clone(&self) -> (r: Self)
        ensures
            r@ == self@,
    {
        ExtractedFile {
            reference: self.reference.clone(),
            suggested_name: self.suggested_name.clone(),
        }
    }
}

/// The declared name if there is one and it is not empty, else `fallback`.
pub open spec fn declared_or(file_name: Option<Seq<char>>, fallback: Seq<char>) -> Seq<char> {
    match file_name {
        Some(name) if name.len() > 0 => name,
        _ => fallback,
    }
}

/// The attachment that a payload offers for download, with its suggested
/// name.
///
/// A document, a video and a piece of music go by their declared name, or
/// by a fixed name of their kind. A photo is taken in its last resolution
/// and named by that one's unique identifier with `.jpg`; a voice note is
/// named by its unique identifier with `.ogg`. Everything else offers
/// nothing, and so does a photo without resolutions.
pub open spec fn extracted(payload: PayloadView) -> Option<ExtractedFileView> {
    match payload {
        PayloadView::Document { file, file_name } => Some(
            ExtractedFileView {
                reference: file,
                suggested_name: declared_or(file_name, "unknown_document"@),
            },
        ),
        PayloadView::Photo { sizes } => if sizes.len() > 0 {
            Some(
                ExtractedFileView {
                    reference: sizes.last(),
                    suggested_name: sizes.last().unique_id + ".jpg"@,
                },
            )
        } else {
            None
        },
        PayloadView::Video { file, file_name } => Some(
            ExtractedFileView {
                reference: file,
                suggested_name: declared_or(file_name, "unknown_video.mp4"@),
            },
        ),
        PayloadView::Audio { file, file_name } => Some(
            ExtractedFileView {
                reference: file,
                suggested_name: declared_or(file_name, "unknown_audio.mp3"@),
            },
        ),
        PayloadView::Voice { file } => Some(
            ExtractedFileView { reference: file, suggested_name: file.unique_id + ".ogg"@ },
        ),
        PayloadView::Text | PayloadView::Other | PayloadView::Service => None,
    }
}

/// Whether a payload is one of the five kinds that can carry a file.
pub open spec fn is_attachment(payload: PayloadView) -> bool {
    payload is Document || payload is Photo || payload is Video || payload is Audio
        || payload is Voice
}

/// The declared name, or `fallback` where none or an empty one was declared.
pub fn name_or(file_name: &Option<String>, fallback: &str) -> (r: String)
    ensures
        r@ == declared_or(name_view(*file_name), fallback@),
{
    match file_name {
        Some(name) => {
            if !name.as_str().is_empty() {
                name.clone()
            } else {
                String::from_str(fallback)
            }
        },
        None => String::from_str(fallback),
    }
}

/// A name made of a blob's unique identifier and an extension.
pub fn name_from_unique_id(file: &FileReference, extension: &str) -> (r: String)
    ensures
        r@ == file@.unique_id + extension@,
{
    let mut name = file.unique_id.clone();
    name.append(extension);
    name
}

/// Classifies a message: the attachment to download and the name to suggest
/// for it, or `None` where the message carries no file this library
/// handles.
pub fn get_file_info_from_message(message: &InboundMessage) -> (r: Option<ExtractedFile>)
    ensures
        match r {
            Some(found) => extracted(message@.payload) == Some(found@),
            None => extracted(message@.payload) is None,
        },
{
    match &message.payload {
        Payload::Document { file, file_name } => Some(
            ExtractedFile {
                reference: file.clone(),
                suggested_name: name_or(file_name, "unknown_document"),
            },
        ),
        Payload::Photo { sizes } => {
            let n: usize = sizes.len();
            if n > 0 {
                let largest = &sizes[n - 1];
                Some(
                    ExtractedFile {
                        reference: largest.clone(),
                        suggested_name: name_from_unique_id(largest, ".jpg"),
                    },
                )
            } else {
                None
            }
        },
        Payload::Video { file, file_name } => Some(
            ExtractedFile {
                reference: file.clone(),
                suggested_name: name_or(file_name, "unknown_video.mp4"),
            },
        ),
        Payload::Audio { file, file_name } => Some(
            ExtractedFile {
                reference: file.clone(),
                suggested_name: name_or(file_name, "unknown_audio.mp3"),
            },
        ),
        Payload::Voice { file } => Some(
            ExtractedFile {
                reference: file.clone(),
                suggested_name: name_from_unique_id(file, ".ogg"),
            },
        ),
        Payload::Text | Payload::Other | Payload::Service => None,
    }
}

/// Whether the message is plain text.
pub fn is_text(message: &InboundMessage) -> (r: bool)
    ensures
        r == (message@.payload is Text),
{
    match &message.payload {
        Payload::Text => true,
        _ => false,
    }
}

/// Each of the five kinds of attachment yields a file with a name that is
/// not empty, a photo provided that it has a resolution at all.
pub proof fn lemma_extraction_complete(payload: PayloadView)
    requires
        is_attachment(payload),
        payload is Photo ==> payload->sizes.len() > 0,
    ensures
        extracted(payload) is Some,
        extracted(payload)->0.suggested_name.len() > 0,
{
    reveal_strlit("unknown_document");
    reveal_strlit("unknown_video.mp4");
    reveal_strlit("unknown_audio.mp3");
    reveal_strlit(".jpg");
    reveal_strlit(".ogg");
}

/// The reference that comes out is the one that went in: the file's own, or
/// for a photo that of its last resolution.
pub proof fn lemma_extraction_keeps_reference(payload: PayloadView)
    requires
        extracted(payload) is Some,
    ensures
        match payload {
            PayloadView::Document { file, .. } => extracted(payload)->0.reference == file,
            PayloadView::Photo { sizes } => extracted(payload)->0.reference == sizes.last(),
            PayloadView::Video { file, .. } => extracted(payload)->0.reference == file,
            PayloadView::Audio { file, .. } => extracted(payload)->0.reference == file,
            PayloadView::Voice { file } => extracted(payload)->0.reference == file,
            _ => false,
        },
{
}

/// Text, other content and notifications of the platform yield nothing.
pub proof fn lemma_extraction_excludes(payload: PayloadView)
    requires
        payload is Text || payload is Other || payload is Service,
    ensures
        extracted(payload) is None,
{
}

/// A document without a declared name is called `unknown_document`, and a
/// voice note goes by its unique identifier followed by `.ogg`.
pub proof fn lemma_fallback_names(file: FileReferenceView)
    ensures
        extracted(PayloadView::Document { file, file_name: None })->0.suggested_name
            == "unknown_document"@,
        extracted(PayloadView::Voice { file })->0.suggested_name == file.unique_id + ".ogg"@,
{
}

/// A photo without any resolution yields nothing.
pub proof fn lemma_empty_photo_yields_nothing()
    ensures
        extracted(PayloadView::Photo { sizes: Seq::empty() }) is None,
{
}

} // verus!
