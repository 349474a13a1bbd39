//! The decisions of one download, as a state machine.
//!
//! The machine itself touches neither network nor disk. Each state names the
//! one piece of outside work it waits for; whoever drives it performs that
//! work and reports the outcome as an [`Event`], and [`Pipeline::advance`]
//! decides what comes next.

use vstd::prelude::*;
use crate::media::{
    extracted, get_file_info_from_message, is_text, ExtractedFile, ExtractedFileView,
    InboundMessage, InboundMessageView,
};
use crate::sanitize::{is_safe_name, lemma_sanitized_is_safe, sanitized, SanitizedName};

verus! {

/// Where a download is stored: a file directly inside the download root.
#[derive(Debug, PartialEq, Eq)]
pub struct DestinationPath {
    pub root: String,
    pub file_name: SanitizedName,
}

/// Mathematical value of a [`DestinationPath`].
pub struct DestinationPathView {
    pub root: Seq<char>,
    pub file_name: Seq<char>,
}

impl View for DestinationPath {
    type V = DestinationPathView;

    open spec fn view(&self) -> DestinationPathView {
        DestinationPathView { root: self.root@, file_name: self.file_name@ }
    }
}

impl Clone for DestinationPath {
    fn clone(&self) -> (r: Self)
        ensures
            r@ == self@,
    {
        DestinationPath { root: self.root.clone(), file_name: self.file_name.clone() }
    }
}

impl DestinationPathView {
    /// The file name is a single safe component, so the path cannot leave
    /// the root.
    pub open spec fn is_direct_child(self) -> bool {
        is_safe_name(self.file_name)
    }
}

/// Why a download failed, with what is needed to tell which one it was.
#[derive(Debug, PartialEq, Eq)]
pub enum PipelineError {
    /// The blob store did not resolve the file's identifier.
    MetadataResolution { file_id: String, cause: String },
    /// The destination file could not be created.
    LocalIo { path: DestinationPath, cause: String },
    /// The bytes did not all arrive.
    Transfer { original_name: String, cause: String },
    /// A reply to the sender could not be sent.
    Responder { cause: String },
}

/// Mathematical value of a [`PipelineError`].
pub enum PipelineErrorView {
    MetadataResolution { file_id: Seq<char>, cause: Seq<char> },
    LocalIo { path: DestinationPathView, cause: Seq<char> },
    Transfer { original_name: Seq<char>, cause: Seq<char> },
    Responder { cause: Seq<char> },
}

impl View for PipelineError {
    type V = PipelineErrorView;

    open spec fn view(&self) -> PipelineErrorView {
        match *self {
            PipelineError::MetadataResolution { file_id, cause } => {
                PipelineErrorView::MetadataResolution { file_id: file_id@, cause: cause@ }
            },
            PipelineError::LocalIo { path, cause } => PipelineErrorView::LocalIo {
                path: path@,
                cause: cause@,
            },
            PipelineError::Transfer { original_name, cause } => PipelineErrorView::Transfer {
                original_name: original_name@,
                cause: cause@,
            },
            PipelineError::Responder { cause } => PipelineErrorView::Responder { cause: cause@ },
        }
    }
}

impl Clone for PipelineError {
    fn clone(&self) -> (r: Self)
        ensures
            r@ == self@,
    {
        match self {
            PipelineError::MetadataResolution { file_id, cause } => {
                PipelineError::MetadataResolution { file_id: file_id.clone(), cause: cause.clone() }
            },
            PipelineError::LocalIo { path, cause } => PipelineError::LocalIo {
                path: path.clone(),
                cause: cause.clone(),
            },
            PipelineError::Transfer { original_name, cause } => PipelineError::Transfer {
                original_name: original_name.clone(),
                cause: cause.clone(),
            },
            PipelineError::Responder { cause } => PipelineError::Responder { cause: cause.clone() },
        }
    }
}

/// The value of a final result.
pub open spec fn result_view(r: Result<(), PipelineError>) -> Result<(), PipelineErrorView> {
    match r {
        Ok(_) => Ok(()),
        Err(e) => Err(e@),
    }
}

/// The outcome of one piece of outside work. A failure carries its cause as
/// text.
#[derive(Debug, PartialEq, Eq)]
pub enum Event {
    /// The blob store resolved the identifier to a path on its side.
    Resolved { remote_path: String },
    ResolveFailed { cause: String },
    /// The destination file exists and is empty.
    Created,
    CreateFailed { cause: String },
    /// All bytes are in the destination file.
    Transferred,
    TransferFailed { cause: String },
    /// The reply was sent.
    Replied,
    ReplyFailed { cause: String },
}

/// Mathematical value of an [`Event`].
pub enum EventView {
    Resolved { remote_path: Seq<char> },
    ResolveFailed { cause: Seq<char> },
    Created,
    CreateFailed { cause: Seq<char> },
    Transferred,
    TransferFailed { cause: Seq<char> },
    Replied,
    ReplyFailed { cause: Seq<char> },
}

impl View for Event {
    type V = EventView;

    open spec fn view(&self) -> EventView {
        match *self {
            Event::Resolved { remote_path } => EventView::Resolved { remote_path: remote_path@ },
            Event::ResolveFailed { cause } => EventView::ResolveFailed { cause: cause@ },
            Event::Created => EventView::Created,
            Event::CreateFailed { cause } => EventView::CreateFailed { cause: cause@ },
            Event::Transferred => EventView::Transferred,
            Event::TransferFailed { cause } => EventView::TransferFailed { cause: cause@ },
            Event::Replied => EventView::Replied,
            Event::ReplyFailed { cause } => EventView::ReplyFailed { cause: cause@ },
        }
    }
}

/// The state of one message's handling. Every state but the last names the
/// outside work that is due.
#[derive(Debug, PartialEq, Eq)]
pub enum Pipeline {
    /// Due: resolve `file.reference.id` against the blob store.
    Resolving { chat_id: i64, file: ExtractedFile, destination: DestinationPath },
    /// Due: create or truncate the file at `destination`.
    Creating {
        chat_id: i64,
        original_name: String,
        remote_path: String,
        destination: DestinationPath,
    },
    /// Due: stream the blob at `remote_path` into the file at `destination`.
    Transferring {
        chat_id: i64,
        original_name: String,
        remote_path: String,
        destination: DestinationPath,
    },
    /// Due: send `text` to the chat `chat_id`.
    Replying { chat_id: i64, text: String },
    /// Nothing is due; `result` is what the handling returns.
    Finished { result: Result<(), PipelineError> },
}

/// Mathematical value of a [`Pipeline`].
pub enum PipelineView {
    Resolving { chat_id: i64, file: ExtractedFileView, destination: DestinationPathView },
    Creating {
        chat_id: i64,
        original_name: Seq<char>,
        remote_path: Seq<char>,
        destination: DestinationPathView,
    },
    Transferring {
        chat_id: i64,
        original_name: Seq<char>,
        remote_path: Seq<char>,
        destination: DestinationPathView,
    },
    Replying { chat_id: i64, text: Seq<char> },
    Finished { result: Result<(), PipelineErrorView> },
}

impl View for Pipeline {
    type V = PipelineView;

    open spec fn view(&self) -> PipelineView {
        match *self {
            Pipeline::Resolving { chat_id, file, destination } => PipelineView::Resolving {
                chat_id,
                file: file@,
                destination: destination@,
            },
            Pipeline::Creating { chat_id, original_name, remote_path, destination } => {
                PipelineView::Creating {
                    chat_id,
                    original_name: original_name@,
                    remote_path: remote_path@,
                    destination: destination@,
                }
            },
            Pipeline::Transferring { chat_id, original_name, remote_path, destination } => {
                PipelineView::Transferring {
                    chat_id,
                    original_name: original_name@,
                    remote_path: remote_path@,
                    destination: destination@,
                }
            },
            Pipeline::Replying { chat_id, text } => PipelineView::Replying { chat_id, text: text@ },
            Pipeline::Finished { result } => PipelineView::Finished {
                result: result_view(result),
            },
        }
    }
}

impl Clone for Pipeline {
    fn clone(&self) -> (r: Self)
        ensures
            r@ == self@,
    {
        match self {
            Pipeline::Resolving { chat_id, file, destination } => Pipeline::Resolving {
                chat_id: *chat_id,
                file: file.clone(),
                destination: destination.clone(),
            },
            Pipeline::Creating { chat_id, original_name, remote_path, destination } => {
                Pipeline::Creating {
                    chat_id: *chat_id,
                    original_name: original_name.clone(),
                    remote_path: remote_path.clone(),
                    destination: destination.clone(),
                }
            },
            Pipeline::Transferring { chat_id, original_name, remote_path, destination } => {
                Pipeline::Transferring {
                    chat_id: *chat_id,
                    original_name: original_name.clone(),
                    remote_path: remote_path.clone(),
                    destination: destination.clone(),
                }
            },
            Pipeline::Replying { chat_id, text } => Pipeline::Replying {
                chat_id: *chat_id,
                text: text.clone(),
            },
            Pipeline::Finished { result } => Pipeline::Finished {
                result: match result {
                    Ok(_) => Ok(()),
                    Err(e) => Err(e.clone()),
                },
            },
        }
    }
}

/// The reply to a message that carries text instead of a file.
pub open spec fn guidance_text() -> Seq<char> {
    "Please send me a file (document, photo, video, audio, or voice message). I received a text message or a type of message I don't handle for file saving."@
}

/// The reply that confirms a download, naming the file as it was stored.
pub open spec fn confirmation_text(file_name: Seq<char>) -> Seq<char> {
    "File '"@ + file_name + "' saved successfully!"@
}

/// The state in which the handling of a message starts.
///
/// A message with a file starts by resolving it, its destination being the
/// sanitized suggested name inside `root`. A text message is answered with
/// guidance. Anything else is finished at once, without any action.
pub open spec fn started(message: InboundMessageView, root: Seq<char>) -> PipelineView {
    match extracted(message.payload) {
        Some(file) => PipelineView::Resolving {
            chat_id: message.chat_id,
            file,
            destination: DestinationPathView {
                root,
                file_name: sanitized(file.suggested_name),
            },
        },
        None => if message.payload is Text {
            PipelineView::Replying { chat_id: message.chat_id, text: guidance_text() }
        } else {
            PipelineView::Finished { result: Ok(()) }
        },
    }
}

/// Whether `event` reports on the work that `state` waits for.
pub open spec fn answers(state: PipelineView, event: EventView) -> bool {
    match state {
        PipelineView::Resolving { .. } => event is Resolved || event is ResolveFailed,
        PipelineView::Creating { .. } => event is Created || event is CreateFailed,
        PipelineView::Transferring { .. } => event is Transferred || event is TransferFailed,
        PipelineView::Replying { .. } => event is Replied || event is ReplyFailed,
        PipelineView::Finished { .. } => false,
    }
}

/// The state after `event`.
///
/// Success moves on to the next piece of work: resolve, create, transfer,
/// confirm. A failure finishes with the error of the stage it happened in,
/// and nothing further is tried. An event that does not answer the work due
/// changes nothing.
pub open spec fn advanced(state: PipelineView, event: EventView) -> PipelineView {
    match (state, event) {
        (
            PipelineView::Resolving { chat_id, file, destination },
            EventView::Resolved { remote_path },
        ) => PipelineView::Creating {
            chat_id,
            original_name: file.suggested_name,
            remote_path,
            destination,
        },
        (PipelineView::Resolving { file, .. }, EventView::ResolveFailed { cause }) => {
            PipelineView::Finished {
                result: Err(
                    PipelineErrorView::MetadataResolution { file_id: file.reference.id, cause },
                ),
            }
        },
        (
            PipelineView::Creating { chat_id, original_name, remote_path, destination },
            EventView::Created,
        ) => PipelineView::Transferring { chat_id, original_name, remote_path, destination },
        (PipelineView::Creating { destination, .. }, EventView::CreateFailed { cause }) => {
            PipelineView::Finished {
                result: Err(PipelineErrorView::LocalIo { path: destination, cause }),
            }
        },
        (
            PipelineView::Transferring { chat_id, destination, .. },
            EventView::Transferred,
        ) => PipelineView::Replying { chat_id, text: confirmation_text(destination.file_name) },
        (
            PipelineView::Transferring { original_name, .. },
            EventView::TransferFailed { cause },
        ) => PipelineView::Finished {
            result: Err(PipelineErrorView::Transfer { original_name, cause }),
        },
        (PipelineView::Replying { .. }, EventView::Replied) => PipelineView::Finished {
            result: Ok(()),
        },
        (PipelineView::Replying { .. }, EventView::ReplyFailed { cause }) => {
            PipelineView::Finished { result: Err(PipelineErrorView::Responder { cause }) }
        },
        _ => state,
    }
}

/// The number of pieces of outside work that a state is at most away from
/// the end.
pub open spec fn remaining_work(state: PipelineView) -> nat {
    match state {
        PipelineView::Resolving { .. } => 4,
        PipelineView::Creating { .. } => 3,
        PipelineView::Transferring { .. } => 2,
        PipelineView::Replying { .. } => 1,
        PipelineView::Finished { .. } => 0,
    }
}

/// Every destination that a state mentions is a direct child of its root.
pub open spec fn stays_in_root(state: PipelineView) -> bool {
    match state {
        PipelineView::Resolving { destination, .. } => destination.is_direct_child(),
        PipelineView::Creating { destination, .. } => destination.is_direct_child(),
        PipelineView::Transferring { destination, .. } => destination.is_direct_child(),
        PipelineView::Replying { .. } => true,
        PipelineView::Finished { result } => match result {
            Err(PipelineErrorView::LocalIo { path, .. }) => path.is_direct_child(),
            _ => true,
        },
    }
}

/// The text that confirms the download of `file_name`.
pub fn confirmation(file_name: &str) -> (r: String)
    ensures
        r@ == confirmation_text(file_name@),
{
    let mut text = String::from_str("File '");
    text.append(file_name);
    text.append("' saved successfully!");
    text
}

/// Starts the handling of `message`, with downloads stored in
/// `download_root`.
pub fn handle_message(message: &InboundMessage, download_root: &str) -> (r: Pipeline)
    ensures
        r@ == started(message@, download_root@),
        stays_in_root(r@),
{
    match get_file_info_from_message(message) {
        Some(file) => {
            let file_name = SanitizedName::new(file.suggested_name.clone());
            proof {
                use_type_invariant(&file_name);
            }
            Pipeline::Resolving {
                chat_id: message.chat_id,
                file,
                destination: DestinationPath { root: String::from_str(download_root), file_name },
            }
        },
        None => {
            if is_text(message) {
                Pipeline::Replying {
                    chat_id: message.chat_id,
                    text: String::from_str(
                        "Please send me a file (document, photo, video, audio, or voice message). I received a text message or a type of message I don't handle for file saving.",
                    ),
                }
            } else {
                Pipeline::Finished { result: Ok(()) }
            }
        },
    }
}

impl Pipeline {
    /// Whether nothing is due any more.
    pub fn is_finished(&self) -> (r: bool)
        ensures
            r == (self@ is Finished),
    {
        match self {
            Pipeline::Finished { .. } => true,
            _ => false,
        }
    }

    /// Takes the outcome of the work that was due and decides what is due
    /// next.
    pub fn advance(self, event: Event) -> (r: Pipeline)
        ensures
            r@ == advanced(self@, event@),
            stays_in_root(r@),
    {
        match self {
            Pipeline::Resolving { chat_id, file, destination } => {
                proof {
                    use_type_invariant(&destination.file_name);
                }
                match event {
                    Event::Resolved { remote_path } => Pipeline::Creating {
                        chat_id,
                        original_name: file.suggested_name,
                        remote_path,
                        destination,
                    },
                    Event::ResolveFailed { cause } => Pipeline::Finished {
                        result: Err(
                            PipelineError::MetadataResolution { file_id: file.reference.id, cause },
                        ),
                    },
                    _ => Pipeline::Resolving { chat_id, file, destination },
                }
            },
            Pipeline::Creating { chat_id, original_name, remote_path, destination } => {
                proof {
                    use_type_invariant(&destination.file_name);
                }
                match event {
                    Event::Created => Pipeline::Transferring {
                        chat_id,
                        original_name,
                        remote_path,
                        destination,
                    },
                    Event::CreateFailed { cause } => Pipeline::Finished {
                        result: Err(PipelineError::LocalIo { path: destination, cause }),
                    },
                    _ => Pipeline::Creating { chat_id, original_name, remote_path, destination },
                }
            },
            Pipeline::Transferring { chat_id, original_name, remote_path, destination } => {
                proof {
                    use_type_invariant(&destination.file_name);
                }
                match event {
                    Event::Transferred => Pipeline::Replying {
                        chat_id,
                        text: confirmation(destination.file_name.as_str()),
                    },
                    Event::TransferFailed { cause } => Pipeline::Finished {
                        result: Err(PipelineError::Transfer { original_name, cause }),
                    },
                    _ => Pipeline::Transferring {
                        chat_id,
                        original_name,
                        remote_path,
                        destination,
                    },
                }
            },
            Pipeline::Replying { chat_id, text } => match event {
                Event::Replied => Pipeline::Finished { result: Ok(()) },
                Event::ReplyFailed { cause } => Pipeline::Finished {
                    result: Err(PipelineError::Responder { cause }),
                },
                _ => Pipeline::Replying { chat_id, text },
            },
            Pipeline::Finished { result } => {
                if let Err(PipelineError::LocalIo { path, .. }) = &result {
                    proof {
                        use_type_invariant(&path.file_name);
                    }
                }
                Pipeline::Finished { result }
            },
        }
    }
}

/// Wherever a message leads, the file is stored directly inside the root.
pub proof fn lemma_started_stays_in_root(message: InboundMessageView, root: Seq<char>)
    ensures
        stays_in_root(started(message, root)),
{
    if let Some(file) = extracted(message.payload) {
        lemma_sanitized_is_safe(file.suggested_name);
    }
}

/// No event leads out of the root.
pub proof fn lemma_advanced_stays_in_root(state: PipelineView, event: EventView)
    requires
        stays_in_root(state),
    ensures
        stays_in_root(advanced(state, event)),
{
}

/// An event that answers the work due brings the end nearer; any other
/// event changes nothing. So a handling ends after at most four pieces of
/// outside work, and a finished one stays as it is.
pub proof fn lemma_advanced_progress(state: PipelineView, event: EventView)
    ensures
        answers(state, event) ==> remaining_work(advanced(state, event)) < remaining_work(state),
        !answers(state, event) ==> advanced(state, event) == state,
{
}

/// A failure ends the handling at once, and each stage fails with its own
/// error: nothing is retried and no confirmation follows.
pub proof fn lemma_failure_finishes(state: PipelineView, event: EventView)
    requires
        answers(state, event),
        event is ResolveFailed || event is CreateFailed || event is TransferFailed
            || event is ReplyFailed,
    ensures
        advanced(state, event) is Finished,
        advanced(state, event)->result is Err,
        state is Resolving ==> advanced(state, event)->result->Err_0 is MetadataResolution,
        state is Creating ==> advanced(state, event)->result->Err_0 is LocalIo,
        state is Transferring ==> advanced(state, event)->result->Err_0 is Transfer,
        state is Replying ==> advanced(state, event)->result->Err_0 is Responder,
{
}

/// A download in which every piece of outside work succeeds: the file is
/// resolved by its identifier, stored under its sanitized name, confirmed to
/// the sender under that name, and the handling ends well.
pub proof fn lemma_successful_download(
    message: InboundMessageView,
    root: Seq<char>,
    remote_path: Seq<char>,
)
    requires
        extracted(message.payload) is Some,
    ensures
        ({
            let file = extracted(message.payload)->0;
            let destination = DestinationPathView {
                root,
                file_name: sanitized(file.suggested_name),
            };
            let resolving = started(message, root);
            let creating = advanced(resolving, EventView::Resolved { remote_path });
            let transferring = advanced(creating, EventView::Created);
            let replying = advanced(transferring, EventView::Transferred);
            &&& resolving == (PipelineView::Resolving {
                chat_id: message.chat_id,
                file,
                destination,
            })
            &&& creating == (PipelineView::Creating {
                chat_id: message.chat_id,
                original_name: file.suggested_name,
                remote_path,
                destination,
            })
            &&& transferring == (PipelineView::Transferring {
                chat_id: message.chat_id,
                original_name: file.suggested_name,
                remote_path,
                destination,
            })
            &&& replying == (PipelineView::Replying {
                chat_id: message.chat_id,
                text: confirmation_text(destination.file_name),
            })
            &&& advanced(replying, EventView::Replied) == (PipelineView::Finished {
                result: Ok(()),
            })
        }),
{
}

/// Each failure is reported with what identifies it: a failed resolution
/// with the file's identifier, a failed creation with the destination, a
/// failed transfer with the name as the sender gave it.
pub proof fn lemma_failure_attribution(
    message: InboundMessageView,
    root: Seq<char>,
    remote_path: Seq<char>,
    cause: Seq<char>,
)
    requires
        extracted(message.payload) is Some,
    ensures
        ({
            let file = extracted(message.payload)->0;
            let resolving = started(message, root);
            let creating = advanced(resolving, EventView::Resolved { remote_path });
            let transferring = advanced(creating, EventView::Created);
            let replying = advanced(transferring, EventView::Transferred);
            &&& advanced(resolving, EventView::ResolveFailed { cause }) == (PipelineView::Finished {
                result: Err(
                    PipelineErrorView::MetadataResolution { file_id: file.reference.id, cause },
                ),
            })
            &&& advanced(creating, EventView::CreateFailed { cause }) == (PipelineView::Finished {
                result: Err(
                    PipelineErrorView::LocalIo {
                        path: DestinationPathView {
                            root,
                            file_name: sanitized(file.suggested_name),
                        },
                        cause,
                    },
                ),
            })
            &&& advanced(transferring, EventView::TransferFailed { cause })
                == (PipelineView::Finished {
                result: Err(
                    PipelineErrorView::Transfer { original_name: file.suggested_name, cause },
                ),
            })
            &&& advanced(replying, EventView::ReplyFailed { cause }) == (PipelineView::Finished {
                result: Err(PipelineErrorView::Responder { cause }),
            })
        }),
{
}

/// A message without a file causes no file operation: text is answered with
/// the guidance, anything else with nothing at all.
pub proof fn lemma_no_file_no_download(message: InboundMessageView, root: Seq<char>)
    requires
        extracted(message.payload) is None,
    ensures
        message.payload is Text ==> started(message, root) == (PipelineView::Replying {
            chat_id: message.chat_id,
            text: guidance_text(),
        }),
        !(message.payload is Text) ==> started(message, root) == (PipelineView::Finished {
            result: Ok(()),
        }),
{
}

} // verus!
