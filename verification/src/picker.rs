//! What goes into a file dialog and what comes out of it.
//!
//! The dialog itself is shown by the interface. This module says what the
//! interface is to ask for ([`DialogRequest`]), what a dialog can answer
//! ([`PickerOutcome`]), and where an answer waits until the interface
//! collects it ([`ResultSlot`]).

use vstd::prelude::*;
use vstd::string::StringExecFns;

use crate::direction::{DialogMode, FileDirection};
use crate::formats::offered_extensions;

verus! {

/// How a file dialog ended, with plain text in place of strings.
pub enum PickerOutcomeView {
    Picked(Seq<char>),
    Cancelled,
    Crashed,
}

/// How a file dialog ended.
#[derive(Debug, PartialEq, Eq)]
pub enum PickerOutcome {
    /// The user chose this file: a candidate, not validated yet.
    Picked(String),
    /// The user closed the dialog without choosing.
    Cancelled,
    /// The task that showed the dialog failed.
    Crashed,
}

impl View for PickerOutcome {
    type V = PickerOutcomeView;

    open spec fn view(&self) -> PickerOutcomeView {
        match self {
            PickerOutcome::Picked(candidate) => PickerOutcomeView::Picked(candidate@),
            PickerOutcome::Cancelled => PickerOutcomeView::Cancelled,
            PickerOutcome::Crashed => PickerOutcomeView::Crashed,
        }
    }
}

/// The outcome of a dialog that ran to its end, by what it returned.
pub open spec fn completed(candidate: Option<Seq<char>>) -> PickerOutcomeView {
    match candidate {
        Some(c) => PickerOutcomeView::Picked(c),
        None => PickerOutcomeView::Cancelled,
    }
}

impl PickerOutcome {
    /// The outcome of a dialog that ran to its end: the file it returned, or
    /// a cancellation where it returned none.
    pub fn completed(candidate: Option<String>) -> (outcome: PickerOutcome)
        ensures
            outcome@ == completed(candidate.deep_view()),
    {
        match candidate {
            Some(c) => PickerOutcome::Picked(c),
            None => PickerOutcome::Cancelled,
        }
    }
}

/// The place where the outcome of one direction's dialog waits to be
/// collected. It holds one outcome at most; a later outcome replaces an
/// earlier one that was not collected.
pub struct ResultSlot {
    outcome: Option<PickerOutcome>,
}

impl View for ResultSlot {
    type V = Option<PickerOutcomeView>;

    closed spec fn view(&self) -> Option<PickerOutcomeView> {
        match self.outcome {
            Some(outcome) => Some(outcome@),
            None => None,
        }
    }
}

impl ResultSlot {
    /// An empty slot.
    pub fn new() -> (slot: ResultSlot)
        ensures
            slot@ is None,
    {
        ResultSlot { outcome: None }
    }

    /// Puts an outcome into the slot, in place of what it held.
    pub fn write(&mut self, outcome: PickerOutcome)
        ensures
            final(self)@ == Some(outcome@),
    {
        self.outcome = Some(outcome);
    }

    /// Takes the outcome out of the slot, which is empty afterwards.
    pub fn take(&mut self) -> (outcome: Option<PickerOutcome>)
        ensures
            final(self)@ is None,
            match outcome {
                Some(o) => old(self)@ == Some(o@),
                None => old(self)@ is None,
            },
    {
        self.outcome.take()
    }

    /// Whether the slot holds no outcome.
    pub fn is_empty(&self) -> (empty: bool)
        ensures
            empty == self@ is None,
    {
        self.outcome.is_none()
    }
}

/// What a file dialog is asked for, with plain text in place of strings.
pub struct DialogRequestView {
    pub title: Seq<char>,
    pub directory: Seq<char>,
    pub filter_name: Seq<char>,
    pub extensions: Seq<Seq<char>>,
    pub mode: DialogMode,
}

/// What a file dialog is asked for.
#[derive(Debug, PartialEq, Eq)]
pub struct DialogRequest {
    /// The title of the dialog's window.
    pub title: String,
    /// The directory the dialog starts in.
    pub directory: String,
    /// The name of the dialog's one filter.
    pub filter_name: String,
    /// The extensions the filter lets through.
    pub extensions: Vec<String>,
    /// Whether a file is opened or saved.
    pub mode: DialogMode,
}

impl View for DialogRequest {
    type V = DialogRequestView;

    open spec fn view(&self) -> DialogRequestView {
        DialogRequestView {
            title: self.title@,
            directory: self.directory@,
            filter_name: self.filter_name@,
            extensions: self.extensions.deep_view(),
            mode: self.mode,
        }
    }
}

/// The request for a direction's dialog that starts in the given directory:
/// the title names the direction, the mode is the direction's, and the one
/// filter, "images", lets the extensions of the image formats through.
pub open spec fn dialog_request(direction: FileDirection, directory: Seq<char>) -> DialogRequestView {
    DialogRequestView {
        title: direction.name_spec() + " image"@,
        directory,
        filter_name: "images"@,
        extensions: offered_extensions(),
        mode: direction.mode_spec(),
    }
}

/// The directory a dialog starts in: the first that is there of the user's
/// pictures, downloads and home directories, and the root where none is.
pub open spec fn start_directory(
    pictures: Option<Seq<char>>,
    downloads: Option<Seq<char>>,
    home: Option<Seq<char>>,
) -> Seq<char> {
    match pictures {
        Some(dir) => dir,
        None => match downloads {
            Some(dir) => dir,
            None => match home {
                Some(dir) => dir,
                None => "/"@,
            },
        },
    }
}

/// Chooses the directory a dialog starts in from the user's directories that
/// were found: pictures before downloads before home, and the root where
/// none was found.
pub fn working_dir(
    pictures: Option<String>,
    downloads: Option<String>,
    home: Option<String>,
) -> (directory: String)
    ensures
        directory@ == start_directory(
            pictures.deep_view(),
            downloads.deep_view(),
            home.deep_view(),
        ),
{
    match pictures {
        Some(dir) => dir,
        None => match downloads {
            Some(dir) => dir,
            None => match home {
                Some(dir) => dir,
                None => String::from_str("/"),
            },
        },
    }
}

} // verus!
