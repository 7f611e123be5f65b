//! The clipboard sink.
//!
//! On platforms where the clipboard's content lives only as long as the handle
//! that put it there, the handle must be opened once and kept until the
//! process ends. The manager records that one opening: it is attempted on
//! first use, its outcome is final, and a failure is reported again on every
//! later use. The caller owns the handle itself and performs the operations;
//! it tells the manager how each went and gets back what to report.

use vstd::prelude::*;
use vstd::string::StringExecFns;
use vstd::string::StringSliceAdditionalSpecFns;

verus! {

/// Whether the handle has been opened.
#[derive(Debug, Clone)]
pub enum SinkState {
    /// No use so far: the handle is to be opened first.
    Uninitialized,
    /// The handle is open and stays so.
    Ready,
    /// Opening failed with this reason; it is not tried again.
    Failed { reason: String },
}

/// The state as contracts see it.
pub enum SinkView {
    Uninitialized,
    Ready,
    Failed { reason: Seq<char> },
}

impl View for SinkState {
    type V = SinkView;

    open spec fn view(&self) -> SinkView {
        match *self {
            SinkState::Uninitialized => SinkView::Uninitialized,
            SinkState::Ready => SinkView::Ready,
            SinkState::Failed { reason } => SinkView::Failed { reason: reason@ },
        }
    }
}

/// What went wrong at the clipboard.
#[derive(Debug, Clone)]
pub enum ClipboardError {
    /// The handle was never opened.
    NotInitialized,
    /// The handle could not be opened.
    Init { reason: String },
    /// The text could not be written.
    Write { reason: String },
    /// The text could not be read.
    Read { reason: String },
    /// The content could not be removed.
    Clear { reason: String },
}

/// An error as contracts see it.
pub enum ClipboardErrorView {
    NotInitialized,
    Init { reason: Seq<char> },
    Write { reason: Seq<char> },
    Read { reason: Seq<char> },
    Clear { reason: Seq<char> },
}

impl View for ClipboardError {
    type V = ClipboardErrorView;

    open spec fn view(&self) -> ClipboardErrorView {
        match *self {
            ClipboardError::NotInitialized => ClipboardErrorView::NotInitialized,
            ClipboardError::Init { reason } => ClipboardErrorView::Init { reason: reason@ },
            ClipboardError::Write { reason } => ClipboardErrorView::Write { reason: reason@ },
            ClipboardError::Read { reason } => ClipboardErrorView::Read { reason: reason@ },
            ClipboardError::Clear { reason } => ClipboardErrorView::Clear { reason: reason@ },
        }
    }
}

/// The message of an error.
pub open spec fn spec_message(e: ClipboardErrorView) -> Seq<char> {
    match e {
        ClipboardErrorView::NotInitialized => "Clipboard no inicializado"@,
        ClipboardErrorView::Init { reason } => "Error inicializando clipboard: "@ + reason,
        ClipboardErrorView::Write { reason } => "Error copiando al clipboard: "@ + reason,
        ClipboardErrorView::Read { reason } => "Error leyendo clipboard: "@ + reason,
        ClipboardErrorView::Clear { reason } => "Error limpiando clipboard: "@ + reason,
    }
}

impl ClipboardError {
    /// The message of the error.
    pub fn message(&self) -> (r: String)
        ensures
            r@ == spec_message(self@),
    {
        match self {
            ClipboardError::NotInitialized => String::from_str("Clipboard no inicializado"),
            ClipboardError::Init { reason } => String::from_str(
                "Error inicializando clipboard: ",
            ).concat(reason.as_str()),
            ClipboardError::Write { reason } => String::from_str(
                "Error copiando al clipboard: ",
            ).concat(reason.as_str()),
            ClipboardError::Read { reason } => String::from_str("Error leyendo clipboard: ").concat(
                reason.as_str(),
            ),
            ClipboardError::Clear { reason } => String::from_str(
                "Error limpiando clipboard: ",
            ).concat(reason.as_str()),
        }
    }
}

/// The error that a use of the sink in state `state` meets before the
/// operation itself, if any.
pub open spec fn spec_blocked(state: SinkView) -> Option<ClipboardErrorView> {
    match state {
        SinkView::Uninitialized => Some(ClipboardErrorView::NotInitialized),
        SinkView::Ready => None,
        SinkView::Failed { reason } => Some(ClipboardErrorView::Init { reason }),
    }
}

/// The state after the outcome of an opening is recorded: only the first
/// outcome counts.
pub open spec fn spec_after_init(state: SinkView, failure: Option<Seq<char>>) -> SinkView {
    match state {
        SinkView::Uninitialized => match failure {
            None => SinkView::Ready,
            Some(reason) => SinkView::Failed { reason },
        },
        other => other,
    }
}

/// Book-keeper of the process-wide clipboard handle.
#[derive(Debug)]
pub struct ClipboardManager {
    state: SinkState,
}

impl View for ClipboardManager {
    type V = SinkView;

    closed spec fn view(&self) -> SinkView {
        self.state@
    }
}

impl ClipboardManager {
    /// A manager whose handle has not been opened yet.
    pub fn new() -> (r: Self)
        ensures
            r@ == SinkView::Uninitialized,
    {
        ClipboardManager { state: SinkState::Uninitialized }
    }

    /// True when the handle is to be opened before the next operation.
    pub fn needs_init(&self) -> (r: bool)
        ensures
            r == (self@ is Uninitialized),
    {
        match self.state {
            SinkState::Uninitialized => true,
            _ => false,
        }
    }

    /// True when the handle is open.
    pub fn is_ready(&self) -> (r: bool)
        ensures
            r == (self@ is Ready),
    {
        match self.state {
            SinkState::Ready => true,
            _ => false,
        }
    }

    /// Records how the opening of the handle went; `failure` is the reason
    /// where it failed. Only the first outcome counts.
    pub fn init_finished(&mut self, failure: Option<String>)
        ensures
            final(self)@ == spec_after_init(
                old(self)@,
                match failure {
                    Some(reason) => Some(reason@),
                    None => None,
                },
            ),
    {
        if self.needs_init() {
            match failure {
                None => {
                    self.state = SinkState::Ready;
                },
                Some(reason) => {
                    self.state = SinkState::Failed { reason };
                },
            }
        }
    }

    /// The error that stands in the way of any operation, if one does.
    fn blocked(&self) -> (r: Option<ClipboardError>)
        ensures
            match r {
                Some(e) => Some(e@),
                None => None::<ClipboardErrorView>,
            } == spec_blocked(self@),
    {
        match &self.state {
            SinkState::Uninitialized => Some(ClipboardError::NotInitialized),
            SinkState::Ready => None,
            SinkState::Failed { reason } => Some(
                ClipboardError::Init { reason: String::from_str(reason.as_str()) },
            ),
        }
    }

    /// Reports on a write of `text`; `failure` is the reason where the write
    /// failed. On success the number of bytes written is returned.
    pub fn set_text(&self, text: &str, failure: Option<String>) -> (r: Result<usize, ClipboardError>)
        ensures
            spec_blocked(self@) is Some ==> r is Err && r->Err_0@ == spec_blocked(self@)->Some_0,
            spec_blocked(self@) is None && failure is None ==> r == Ok::<usize, ClipboardError>(
                text.spec_bytes().len() as usize,
            ),
            spec_blocked(self@) is None && failure is Some ==> r is Err && r->Err_0@ == (
            ClipboardErrorView::Write { reason: failure->Some_0@ }),
    {
        match self.blocked() {
            Some(e) => Err(e),
            None => match failure {
                None => Ok(text.len()),
                Some(reason) => Err(ClipboardError::Write { reason }),
            },
        }
    }

    /// Reports on a read; `outcome` is the text read or the reason why none
    /// was.
    pub fn get_text(&self, outcome: Result<String, String>) -> (r: Result<String, ClipboardError>)
        ensures
            spec_blocked(self@) is Some ==> r is Err && r->Err_0@ == spec_blocked(self@)->Some_0,
            spec_blocked(self@) is None && outcome is Ok ==> r == Ok::<String, ClipboardError>(
                outcome->Ok_0,
            ),
            spec_blocked(self@) is None && outcome is Err ==> r is Err && r->Err_0@ == (
            ClipboardErrorView::Read { reason: outcome->Err_0@ }),
    {
        match self.blocked() {
            Some(e) => Err(e),
            None => match outcome {
                Ok(text) => Ok(text),
                Err(reason) => Err(ClipboardError::Read { reason }),
            },
        }
    }

    /// Reports on the removal of the content; `failure` is the reason where
    /// it failed.
    pub fn clear(&self, failure: Option<String>) -> (r: Result<(), ClipboardError>)
        ensures
            spec_blocked(self@) is Some ==> r is Err && r->Err_0@ == spec_blocked(self@)->Some_0,
            spec_blocked(self@) is None && failure is None ==> r is Ok,
            spec_blocked(self@) is None && failure is Some ==> r is Err && r->Err_0@ == (
            ClipboardErrorView::Clear { reason: failure->Some_0@ }),
    {
        match self.blocked() {
            Some(e) => Err(e),
            None => match failure {
                None => Ok(()),
                Some(reason) => Err(ClipboardError::Clear { reason }),
            },
        }
    }
}

/// Reports on a write of `text` through `manager`.
pub fn copy_to_clipboard(manager: &ClipboardManager, text: &str, failure: Option<String>) -> (r:
    Result<usize, ClipboardError>)
    ensures
        spec_blocked(manager@) is Some ==> r is Err && r->Err_0@ == spec_blocked(manager@)->Some_0,
        spec_blocked(manager@) is None && failure is None ==> r == Ok::<usize, ClipboardError>(
            text.spec_bytes().len() as usize,
        ),
        spec_blocked(manager@) is None && failure is Some ==> r is Err && r->Err_0@ == (
        ClipboardErrorView::Write { reason: failure->Some_0@ }),
{
    manager.set_text(text, failure)
}

/// The handle is opened once and for all: after the first outcome has been
/// recorded no later one changes the state, so a handle that is ready stays
/// ready and a failure stays the failure it was.
pub proof fn lemma_init_is_final(
    state: SinkView,
    first: Option<Seq<char>>,
    second: Option<Seq<char>>,
)
    ensures
        !(spec_after_init(state, first) is Uninitialized),
        spec_after_init(spec_after_init(state, first), second) == spec_after_init(state, first),
        state is Ready ==> spec_after_init(state, first) is Ready,
{
}

} // verus!
