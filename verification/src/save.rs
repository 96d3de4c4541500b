//! Saving the audio: deriving the suggested filename from the URL, and the
//! dialog-first flow — present the save dialog, and only once a path is
//! chosen download the bytes and write them, byte for byte, to that path.
//!
//! The flow is a linear state machine. The caller holds the [`SaveState`],
//! performs each [`SaveCommand`] (dialog, download, write — all outside this
//! crate), and reports what happened as a [`SaveEvent`].

use vstd::prelude::*;
use vstd::string::*;

use crate::error::TtsError;

verus! {

/// Everything after the last `/` of `u`; all of `u` when it has no `/`.
pub open spec fn after_last_slash(u: Seq<char>) -> Seq<char>
    decreases u.len(),
{
    if u.len() == 0 {
        Seq::<char>::empty()
    } else if u.last() == '/' {
        Seq::<char>::empty()
    } else {
        after_last_slash(u.drop_last()).push(u.last())
    }
}

/// The filename suggested in the save dialog: the part of the URL after its
/// last `/`; the whole URL when it has no `/`; the fixed fallback name for an
/// empty URL.
pub open spec fn spec_filename(u: Seq<char>) -> Seq<char> {
    if u.len() == 0 {
        "audio.mp3"@
    } else {
        after_last_slash(u)
    }
}

/// Law: when `k` sits just after the last `/` of `u` (or at the start of a
/// `u` without one), [`after_last_slash`] is exactly the suffix of `u` from
/// `k` — the derived filename is the substring after the last `/`.
pub proof fn lemma_after_last_slash_is_suffix(u: Seq<char>, k: int)
    requires
        0 <= k <= u.len(),
        forall|j: int| k <= j < u.len() ==> u[j] != '/',
        k == 0 || u[k - 1] == '/',
    ensures
        after_last_slash(u) == u.subrange(k, u.len() as int),
    decreases u.len(),
{
    if u.len() == 0 {
        assert(after_last_slash(u) =~= u.subrange(k, u.len() as int));
    } else if u.last() == '/' {
        assert(k == u.len());
        assert(after_last_slash(u) =~= u.subrange(k, u.len() as int));
    } else {
        assert(k < u.len());
        let v = u.drop_last();
        lemma_after_last_slash_is_suffix(v, k);
        assert(v.subrange(k, v.len() as int) =~= u.subrange(k, u.len() as int).drop_last());
        assert(after_last_slash(u) =~= u.subrange(k, u.len() as int));
    }
}

/// Derive the filename the save dialog is pre-filled with, per
/// [`spec_filename`].
pub fn derive_filename(url: &str) -> (r: String)
    ensures
        r@ == spec_filename(url@),
{
    let n = url.unicode_len();
    if n == 0 {
        return "audio.mp3".to_owned();
    }
    let mut cut: usize = 0;
    let mut i: usize = 0;
    while i < n
        invariant
            n == url@.len(),
            0 <= cut <= i <= n,
            cut == 0 || url@[cut - 1] == '/',
            forall|j: int| cut <= j < i ==> url@[j] != '/',
        decreases n - i,
    {
        if url.get_char(i) == '/' {
            cut = i + 1;
        }
        i += 1;
    }
    proof {
        lemma_after_last_slash_is_suffix(url@, cut as int);
    }
    url.substring_char(cut, n).to_owned()
}

/// Where the save flow stands while it waits on the outside world.
#[derive(Debug, Clone, PartialEq, Eq)]
pub enum SaveState {
    /// The dialog is up; `url` is what will be downloaded if a path is
    /// chosen.
    AwaitingDialog { url: String },
    /// A path was chosen before any network activity; the audio is being
    /// fetched.
    AwaitingDownload { path: String },
    /// The downloaded bytes are being written to the chosen path.
    AwaitingWrite,
    /// The flow is over; no further event is expected.
    Done,
}

/// What the outside world reports back to the flow.
#[derive(Debug, Clone, PartialEq, Eq)]
pub enum SaveEvent {
    /// The user chose `path` in the save dialog.
    DialogChosen { path: String },
    /// The user dismissed the dialog, or chose something that is not a
    /// filesystem path.
    DialogCancelled,
    /// The download completed with exactly these bytes.
    DownloadedBytes { bytes: Vec<u8> },
    /// The download could not complete at the transport level.
    TransportFailed { detail: String },
    /// The audio response arrived but reading its body failed.
    BodyReadFailed { detail: String },
    /// The write to the chosen path completed.
    Written,
    /// The write to the chosen path failed.
    WriteFailed { detail: String },
}

/// What the flow asks the outside world to do next.
#[derive(Debug, PartialEq, Eq)]
pub enum SaveCommand {
    /// Present the native save dialog, pre-filled with `suggested_name`.
    ShowDialog { suggested_name: String },
    /// Fetch the audio bytes at `url`.
    Download { url: String },
    /// Write exactly `bytes` to `path`, replacing any file already there.
    WriteFile { path: String, bytes: Vec<u8> },
    /// Stop and hand `result` to the caller.
    Finish { result: Result<(), TtsError> },
}

/// Which events a state can answer: the flow is linear — dialog first,
/// download second, write last, and nothing after the end.
pub open spec fn save_event_fits(s: SaveState, e: SaveEvent) -> bool {
    match (s, e) {
        (SaveState::AwaitingDialog { .. }, SaveEvent::DialogChosen { .. }) => true,
        (SaveState::AwaitingDialog { .. }, SaveEvent::DialogCancelled) => true,
        (SaveState::AwaitingDownload { .. }, SaveEvent::DownloadedBytes { .. }) => true,
        (SaveState::AwaitingDownload { .. }, SaveEvent::TransportFailed { .. }) => true,
        (SaveState::AwaitingDownload { .. }, SaveEvent::BodyReadFailed { .. }) => true,
        (SaveState::AwaitingWrite, SaveEvent::Written) => true,
        (SaveState::AwaitingWrite, SaveEvent::WriteFailed { .. }) => true,
        _ => false,
    }
}

/// Start saving the audio at `url`: the first command presents the save
/// dialog, before any network activity, so a cancel costs nothing.
pub fn save_begin(url: String) -> (r: (SaveState, SaveCommand))
    ensures
        r.0 matches SaveState::AwaitingDialog { url: u } && u@ == url@,
        r.1 matches SaveCommand::ShowDialog { suggested_name } && suggested_name@
            == spec_filename(url@),
{
    let suggested = derive_filename(url.as_str());
    (SaveState::AwaitingDialog { url }, SaveCommand::ShowDialog { suggested_name: suggested })
}

/// Advance the save flow by one reported event.
///
/// A cancelled dialog ends the flow at once as a success — nothing is
/// downloaded and nothing is written. A chosen path starts the download of
/// the state's URL. Downloaded bytes are passed to the write command exactly
/// as they arrived. Each failure ends the flow with the matching error.
pub fn save_step(state: SaveState, event: SaveEvent) -> (r: (SaveState, SaveCommand))
    requires
        save_event_fits(state, event),
    ensures
        event is DialogCancelled ==> (r.0 is Done && (r.1 matches SaveCommand::Finish { result }
            && result is Ok)),
        state matches SaveState::AwaitingDialog { url } ==> event matches SaveEvent::DialogChosen {
            path } ==> ((r.0 matches SaveState::AwaitingDownload { path: p } && p@ == path@) && (
        r.1 matches SaveCommand::Download { url: u } && u@ == url@)),
        state matches SaveState::AwaitingDownload { path } ==> event matches
            SaveEvent::DownloadedBytes { bytes } ==> (r.0 is AwaitingWrite && (r.1 matches
            SaveCommand::WriteFile { path: p, bytes: b } && p@ == path@ && b@ == bytes@)),
        event matches SaveEvent::TransportFailed { detail } ==> (r.0 is Done && (r.1 matches
            SaveCommand::Finish { result } && result matches Err(e) && e matches
            TtsError::DownloadFailure { detail: d } && d@ == detail@)),
        event matches SaveEvent::BodyReadFailed { detail } ==> (r.0 is Done && (r.1 matches
            SaveCommand::Finish { result } && result matches Err(e) && e matches
            TtsError::ReadFailure { detail: d } && d@ == detail@)),
        event is Written ==> (r.0 is Done && (r.1 matches SaveCommand::Finish { result } && result
            is Ok)),
        event matches SaveEvent::WriteFailed { detail } ==> (r.0 is Done && (r.1 matches
            SaveCommand::Finish { result } && result matches Err(e) && e matches
            TtsError::WriteFailure { detail: d } && d@ == detail@)),
{
    match (state, event) {
        (SaveState::AwaitingDialog { url: _ }, SaveEvent::DialogCancelled) => (
            SaveState::Done,
            SaveCommand::Finish { result: Ok(()) },
        ),
        (SaveState::AwaitingDialog { url }, SaveEvent::DialogChosen { path }) => (
            SaveState::AwaitingDownload { path },
            SaveCommand::Download { url },
        ),
        (SaveState::AwaitingDownload { path }, SaveEvent::DownloadedBytes { bytes }) => (
            SaveState::AwaitingWrite,
            SaveCommand::WriteFile { path, bytes },
        ),
        (SaveState::AwaitingDownload { path: _ }, SaveEvent::TransportFailed { detail }) => (
            SaveState::Done,
            SaveCommand::Finish { result: Err(TtsError::DownloadFailure { detail }) },
        ),
        (SaveState::AwaitingDownload { path: _ }, SaveEvent::BodyReadFailed { detail }) => (
            SaveState::Done,
            SaveCommand::Finish { result: Err(TtsError::ReadFailure { detail }) },
        ),
        (SaveState::AwaitingWrite, SaveEvent::Written) => (
            SaveState::Done,
            SaveCommand::Finish { result: Ok(()) },
        ),
        (SaveState::AwaitingWrite, SaveEvent::WriteFailed { detail }) => (
            SaveState::Done,
            SaveCommand::Finish { result: Err(TtsError::WriteFailure { detail }) },
        ),
        _ => unreached(),
    }
}

} // verus!
