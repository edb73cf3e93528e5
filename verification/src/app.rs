//! The file selection state machine.
//!
//! [`TemplateApp`] is the state behind the window: the selected files and,
//! for each direction, whether a dialog is awaited. It never shows a dialog
//! and never waits for one. The interface tells it what happened (the user
//! clicked "Browse", a dialog left an outcome in a [`ResultSlot`]) and is
//! told what to do (show a dialog, notify the user, which label to draw).

use vstd::prelude::*;
use vstd::string::StringExecFns;

use crate::direction::FileDirection;
use crate::files::{
    error_text, is_image_path, validation, ImageFile, ImageFileError, ImageFileErrorView,
};
use crate::formats::image_extensions;
use crate::picker::{dialog_request, DialogRequest, PickerOutcome, PickerOutcomeView, ResultSlot};
use crate::store::{holds_image_paths, selected, with_selection, SelectionStore};

verus! {

/// Something the user is to be notified of, as an error, with plain text in
/// place of strings.
pub enum NotificationView {
    Invalid(ImageFileErrorView),
    DialogCrashed,
}

/// Something the user is to be notified of, as an error.
#[derive(Debug, PartialEq, Eq)]
pub enum Notification {
    /// The file the user picked is no image file.
    Invalid(ImageFileError),
    /// The task that showed the dialog failed.
    DialogCrashed,
}

impl View for Notification {
    type V = NotificationView;

    open spec fn view(&self) -> NotificationView {
        match self {
            Notification::Invalid(error) => NotificationView::Invalid(error@),
            Notification::DialogCrashed => NotificationView::DialogCrashed,
        }
    }
}

/// The view of a notification that may be there.
pub open spec fn notification_view(notification: Option<Notification>) -> Option<NotificationView> {
    match notification {
        Some(n) => Some(n@),
        None => None,
    }
}

/// The text of a notification.
pub open spec fn notification_text(notification: NotificationView) -> Seq<char> {
    match notification {
        NotificationView::Invalid(error) => error_text(error),
        NotificationView::DialogCrashed =>
            "The file picker just crashed! Can't have shit in Detroit!!!"@,
    }
}

impl Notification {
    /// The notification as a sentence for the user.
    pub fn message(&self) -> (message: String)
        ensures
            message@ == notification_text(self@),
    {
        match self {
            Notification::Invalid(error) => error.to_string(),
            Notification::DialogCrashed => String::from_str(
                "The file picker just crashed! Can't have shit in Detroit!!!",
            ),
        }
    }
}

/// What the user is notified of when an outcome is collected: a crash, or
/// the reason a picked file is no image file. A cancellation and an accepted
/// pick pass in silence.
pub open spec fn notification_for(outcome: PickerOutcomeView) -> Option<NotificationView> {
    match outcome {
        PickerOutcomeView::Picked(candidate) => match validation(candidate) {
            Ok(_) => None,
            Err(error) => Some(NotificationView::Invalid(error)),
        },
        PickerOutcomeView::Cancelled => None,
        PickerOutcomeView::Crashed => Some(NotificationView::DialogCrashed),
    }
}

/// The state of the file selection: the path selected for each direction
/// that has one, and the directions whose dialog is awaited.
pub struct AppView {
    pub files: Map<FileDirection, Seq<char>>,
    pub pending: Set<FileDirection>,
}

impl AppView {
    /// The state at the very start: nothing selected, nothing awaited.
    pub open spec fn initial() -> AppView {
        AppView { files: Map::empty(), pending: Set::empty() }
    }

    /// The state that is restored from the paths that were selected when the
    /// state was last saved: those of them that are paths of image files are
    /// selected again, and nothing is awaited.
    pub open spec fn restored(input: Option<Seq<char>>, output: Option<Seq<char>>) -> AppView {
        let files = match input {
            Some(path) if is_image_path(path) => with_selection(
                Map::empty(),
                FileDirection::Input,
                path,
            ),
            _ => Map::empty(),
        };
        let files = match output {
            Some(path) if is_image_path(path) => with_selection(
                files,
                FileDirection::Output,
                path,
            ),
            _ => files,
        };
        AppView { files, pending: Set::empty() }
    }

    /// Whether every selected path is that of an image file.
    pub open spec fn wf(self) -> bool {
        holds_image_paths(self.files)
    }

    /// Whether a direction's dialog is awaited.
    pub open spec fn is_pending(self, direction: FileDirection) -> bool {
        self.pending.contains(direction)
    }

    /// Whether a dialog is to be shown: the user asked for one, and the
    /// direction awaits none.
    pub open spec fn spawns(self, direction: FileDirection, clicked: bool) -> bool {
        clicked && !self.is_pending(direction)
    }

    /// The state after the "Browse" button was drawn: where it was clicked,
    /// the direction's dialog is awaited.
    pub open spec fn after_click(self, direction: FileDirection, clicked: bool) -> AppView {
        if clicked {
            AppView { files: self.files, pending: self.pending.insert(direction) }
        } else {
            self
        }
    }

    /// The state after an outcome was collected for a direction: its dialog
    /// is awaited no longer, and a picked file that passes validation is
    /// selected for it. Any other outcome leaves the selection as it was.
    pub open spec fn after_outcome(
        self,
        direction: FileDirection,
        outcome: PickerOutcomeView,
    ) -> AppView {
        AppView {
            files: match outcome {
                PickerOutcomeView::Picked(candidate) if is_image_path(candidate) => with_selection(
                    self.files,
                    direction,
                    candidate,
                ),
                _ => self.files,
            },
            pending: self.pending.remove(direction),
        }
    }

    /// The state after a direction's slot was polled: where the dialog is
    /// awaited and the slot holds its outcome, the outcome is collected.
    pub open spec fn after_poll(
        self,
        direction: FileDirection,
        slot: Option<PickerOutcomeView>,
    ) -> AppView {
        match slot {
            Some(outcome) if self.is_pending(direction) => self.after_outcome(direction, outcome),
            _ => self,
        }
    }

    /// The slot after it was polled: empty where the dialog is awaited,
    /// untouched where it is not.
    pub open spec fn slot_after_poll(
        self,
        direction: FileDirection,
        slot: Option<PickerOutcomeView>,
    ) -> Option<PickerOutcomeView> {
        if self.is_pending(direction) {
            None
        } else {
            slot
        }
    }

    /// What the user is notified of after a direction's slot was polled.
    pub open spec fn notification_after_poll(
        self,
        direction: FileDirection,
        slot: Option<PickerOutcomeView>,
    ) -> Option<NotificationView> {
        match slot {
            Some(outcome) if self.is_pending(direction) => notification_for(outcome),
            _ => None,
        }
    }

    /// The label drawn for a direction: the selected path, or nothing.
    pub open spec fn label(self, direction: FileDirection) -> Seq<char> {
        match selected(self.files, direction) {
            Some(path) => path,
            None => Seq::empty(),
        }
    }

    /// The state after one frame of a direction's "Browse" row: first the
    /// click, then the poll.
    pub open spec fn after_browse(
        self,
        direction: FileDirection,
        clicked: bool,
        slot: Option<PickerOutcomeView>,
    ) -> AppView {
        self.after_click(direction, clicked).after_poll(direction, slot)
    }

    /// What one frame of a direction's "Browse" row asks of the interface.
    pub open spec fn browse_step(
        self,
        direction: FileDirection,
        clicked: bool,
        slot: Option<PickerOutcomeView>,
    ) -> BrowseStepView {
        BrowseStepView {
            spawn: self.spawns(direction, clicked),
            notification: self.after_click(direction, clicked).notification_after_poll(
                direction,
                slot,
            ),
            label: self.after_browse(direction, clicked, slot).label(direction),
        }
    }
}

/// What one frame of a "Browse" row asks of the interface, with plain text
/// in place of strings.
pub struct BrowseStepView {
    pub spawn: bool,
    pub notification: Option<NotificationView>,
    pub label: Seq<char>,
}

/// What one frame of a "Browse" row asks of the interface.
#[derive(Debug, PartialEq, Eq)]
pub struct BrowseStep {
    /// Whether a dialog is to be shown, its outcome to be written to the
    /// direction's slot.
    pub spawn: bool,
    /// What the user is to be notified of, if anything.
    pub notification: Option<Notification>,
    /// The label to draw beside the button.
    pub label: String,
}

impl View for BrowseStep {
    type V = BrowseStepView;

    open spec fn view(&self) -> BrowseStepView {
        BrowseStepView {
            spawn: self.spawn,
            notification: notification_view(self.notification),
            label: self.label@,
        }
    }
}

/// The state behind the window: the selected files and, for each direction,
/// whether a dialog is awaited.
pub struct TemplateApp {
    files: SelectionStore,
    input_file_asked: bool,
    output_file_asked: bool,
}

impl View for TemplateApp {
    type V = AppView;

    closed spec fn view(&self) -> AppView {
        let pending = if self.input_file_asked {
            Set::empty().insert(FileDirection::Input)
        } else {
            Set::empty()
        };
        AppView {
            files: self.files@,
            pending: if self.output_file_asked {
                pending.insert(FileDirection::Output)
            } else {
                pending
            },
        }
    }
}

impl Default for TemplateApp {
    /// The state at the very start: nothing selected, nothing awaited.
    fn default() -> (app: TemplateApp)
        ensures
            app@ == AppView::initial(),
            app@.wf(),
    {
        let app = TemplateApp {
            files: SelectionStore::new(),
            input_file_asked: false,
            output_file_asked: false,
        };
        assert(app@.pending =~= Set::empty());
        app
    }
}

impl TemplateApp {
    /// The state at the start of a run, given the paths that were selected
    /// when the state was last saved, if it was. A saved path is selected
    /// again where it still is the path of an image file, and dropped where
    /// it is not. No dialog is awaited.
    pub fn new(input: Option<String>, output: Option<String>) -> (app: TemplateApp)
        ensures
            app@ == AppView::restored(input.deep_view(), output.deep_view()),
            app@.wf(),
    {
        let mut app = TemplateApp::default();
        match input {
            Some(path) => match ImageFile::try_new(path.as_str()) {
                Ok(file) => {
                    app.files.set(FileDirection::Input, file);
                },
                Err(_) => {},
            },
            None => {},
        }
        match output {
            Some(path) => match ImageFile::try_new(path.as_str()) {
                Ok(file) => {
                    app.files.set(FileDirection::Output, file);
                },
                Err(_) => {},
            },
            None => {},
        }
        proof {
            assert(app@.pending =~= Set::empty());
            use_type_invariant(&app.files);
        }
        app
    }

    /// The file selected for a direction, if there is one. It is the path of
    /// an image file, as every selected path is.
    pub fn file(&self, direction: FileDirection) -> (file: Option<&ImageFile>)
        ensures
            match file {
                Some(f) => selected(self@.files, direction) == Some(f@) && is_image_path(f@),
                None => selected(self@.files, direction) is None,
            },
            self@.wf(),
    {
        self.files.get(direction)
    }

    /// Whether a direction's dialog is awaited.
    pub fn is_pending(&self, direction: FileDirection) -> (pending: bool)
        ensures
            pending == self@.is_pending(direction),
    {
        match direction {
            FileDirection::Input => self.input_file_asked,
            FileDirection::Output => self.output_file_asked,
        }
    }

    /// The label to draw for a direction: the selected path, or nothing.
    pub fn label(&self, direction: FileDirection) -> (label: String)
        ensures
            label@ == self@.label(direction),
    {
        match self.files.get(direction) {
            Some(file) => file.to_string(),
            None => String::new(),
        }
    }

    /// What to ask of the dialog that is shown for a direction, to start in
    /// the given directory.
    pub fn prompt(direction: FileDirection, directory: String) -> (request: DialogRequest)
        ensures
            request@ == dialog_request(direction, directory@),
    {
        DialogRequest {
            title: String::from_str(direction.name()).concat(" image"),
            directory,
            filter_name: String::from_str("images"),
            extensions: image_extensions(),
            mode: direction.mode(),
        }
    }

    fn set_pending(&mut self, direction: FileDirection, pending: bool)
        ensures
            final(self)@.files == old(self)@.files,
            final(self)@.pending == if pending {
                old(self)@.pending.insert(direction)
            } else {
                old(self)@.pending.remove(direction)
            },
    {
        match direction {
            FileDirection::Input => {
                self.input_file_asked = pending;
            },
            FileDirection::Output => {
                self.output_file_asked = pending;
            },
        }
        assert(self@.pending =~= if pending {
            old(self)@.pending.insert(direction)
        } else {
            old(self)@.pending.remove(direction)
        });
    }

    /// Collects the outcome of a direction's dialog. The dialog is awaited
    /// no longer. A picked file is validated: where it passes, it is
    /// selected for the direction; where it fails, the selection stays as it
    /// was and the user is notified of the reason. A cancellation changes
    /// nothing and notifies of nothing. A crash is notified of.
    pub fn collect(
        &mut self,
        direction: FileDirection,
        outcome: PickerOutcome,
    ) -> (notification: Option<Notification>)
        ensures
            final(self)@ == old(self)@.after_outcome(direction, outcome@),
            notification_view(notification) == notification_for(outcome@),
            final(self)@.wf(),
    {
        self.set_pending(direction, false);
        proof {
            use_type_invariant(&self.files);
        }
        match outcome {
            PickerOutcome::Picked(candidate) => match ImageFile::try_new(candidate.as_str()) {
                Ok(file) => {
                    self.files.set(direction, file);
                    None
                },
                Err(error) => Some(Notification::Invalid(error)),
            },
            PickerOutcome::Cancelled => None,
            PickerOutcome::Crashed => Some(Notification::DialogCrashed),
        }
    }

    /// Polls a direction's slot, without waiting. Where the direction's
    /// dialog is awaited and the slot holds an outcome, the outcome is taken
    /// out of the slot and collected as [`TemplateApp::collect`] says. Where
    /// the dialog is awaited and the slot is empty, nothing changes. Where
    /// no dialog is awaited, the slot is not looked at.
    pub fn poll(
        &mut self,
        direction: FileDirection,
        slot: &mut ResultSlot,
    ) -> (notification: Option<Notification>)
        ensures
            final(self)@ == old(self)@.after_poll(direction, old(slot)@),
            final(slot)@ == old(self)@.slot_after_poll(direction, old(slot)@),
            notification_view(notification) == old(self)@.notification_after_poll(
                direction,
                old(slot)@,
            ),
            final(self)@.wf(),
    {
        proof {
            use_type_invariant(&self.files);
        }
        if self.is_pending(direction) {
            match slot.take() {
                Some(outcome) => self.collect(direction, outcome),
                None => None,
            }
        } else {
            None
        }
    }

    /// One frame of a direction's "Browse" row. A click asks for a dialog
    /// unless the direction awaits one already; the dialog is then awaited.
    /// After that the direction's slot is polled as [`TemplateApp::poll`]
    /// says. The step tells the interface whether to show a dialog, what to
    /// notify the user of, and which label to draw.
    pub fn browse(
        &mut self,
        direction: FileDirection,
        clicked: bool,
        slot: &mut ResultSlot,
    ) -> (step: BrowseStep)
        ensures
            final(self)@ == old(self)@.after_browse(direction, clicked, old(slot)@),
            final(slot)@ == old(self)@.after_click(direction, clicked).slot_after_poll(
                direction,
                old(slot)@,
            ),
            step@ == old(self)@.browse_step(direction, clicked, old(slot)@),
            final(self)@.wf(),
    {
        let spawn = clicked && !self.is_pending(direction);
        if spawn {
            self.set_pending(direction, true);
        }
        assert(self@.pending =~= old(self)@.after_click(direction, clicked).pending);
        let notification = self.poll(direction, slot);
        let label = self.label(direction);
        BrowseStep { spawn, notification, label }
    }
}

/// An outcome is collected once. The poll that finds it in the slot of an
/// awaited dialog collects it and leaves the slot empty and the dialog no
/// longer awaited. Every poll after that, until a dialog is asked for again,
/// finds nothing: it changes nothing and notifies of nothing.
pub proof fn lemma_outcome_is_collected_once(
    app: AppView,
    direction: FileDirection,
    outcome: PickerOutcomeView,
)
    requires
        app.is_pending(direction),
    ensures
        app.after_poll(direction, Some(outcome)) == app.after_outcome(direction, outcome),
        app.notification_after_poll(direction, Some(outcome)) == notification_for(outcome),
        app.slot_after_poll(direction, Some(outcome)) is None,
        !app.after_poll(direction, Some(outcome)).is_pending(direction),
        app.after_poll(direction, Some(outcome)).after_poll(direction, None) == app.after_poll(
            direction,
            Some(outcome),
        ),
        app.after_poll(direction, Some(outcome)).slot_after_poll(direction, None) is None,
        app.after_poll(direction, Some(outcome)).notification_after_poll(direction, None) is None,
{
}

/// While a slot is empty, polling it changes nothing, leaves it empty and
/// notifies of nothing: an awaited dialog stays awaited.
pub proof fn lemma_empty_slot_changes_nothing(app: AppView, direction: FileDirection)
    ensures
        app.after_poll(direction, None) == app,
        app.slot_after_poll(direction, None) is None,
        app.notification_after_poll(direction, None) is None,
        app.after_browse(direction, false, None) == app,
{
}

/// An outcome that arrives for a direction whose dialog is not awaited is left
/// where it is, and nothing changes.
pub proof fn lemma_unawaited_outcome_is_left(
    app: AppView,
    direction: FileDirection,
    slot: Option<PickerOutcomeView>,
)
    requires
        !app.is_pending(direction),
    ensures
        app.after_poll(direction, slot) == app,
        app.slot_after_poll(direction, slot) == slot,
        app.notification_after_poll(direction, slot) is None,
{
}

/// A click asks for a dialog only where none is awaited. The dialog is then
/// awaited, and a second click asks for nothing.
pub proof fn lemma_click_asks_once(app: AppView, direction: FileDirection)
    ensures
        app.spawns(direction, true) <==> !app.is_pending(direction),
        !app.spawns(direction, false),
        app.after_click(direction, true).is_pending(direction),
        !app.after_click(direction, true).spawns(direction, true),
        app.is_pending(direction) ==> app.after_click(direction, true) == app,
        app.after_click(direction, true).files == app.files,
{
    if app.is_pending(direction) {
        assert(app.pending.insert(direction) =~= app.pending);
    }
}

/// A dialog is awaited from the click that asks for it until its outcome is
/// collected, and from then on no longer, whatever the outcome was.
pub proof fn lemma_pending_ends_with_outcome(
    app: AppView,
    direction: FileDirection,
    outcome: PickerOutcomeView,
)
    ensures
        !app.after_outcome(direction, outcome).is_pending(direction),
        app.after_outcome(direction, outcome).spawns(direction, true),
{
}

/// The selection changes only when a picked file passes validation: the
/// file is then selected for its direction. A rejected file, a cancellation
/// and a crash leave every selection as it was.
pub proof fn lemma_selection_changes_on_valid_pick_only(
    app: AppView,
    direction: FileDirection,
    outcome: PickerOutcomeView,
)
    ensures
        match outcome {
            PickerOutcomeView::Picked(candidate) if is_image_path(candidate) => {
                &&& selected(app.after_outcome(direction, outcome).files, direction) == Some(
                    candidate,
                )
                &&& notification_for(outcome) is None
            },
            _ => app.after_outcome(direction, outcome).files == app.files,
        },
        outcome is Cancelled ==> notification_for(outcome) is None,
        notification_for(outcome) is Some ==> app.after_outcome(direction, outcome).files
            == app.files,
{
}

/// The two directions do not interfere: a frame of one direction's row
/// changes neither the other direction's selection nor whether the other
/// direction's dialog is awaited.
pub proof fn lemma_directions_do_not_interfere(
    app: AppView,
    direction: FileDirection,
    other: FileDirection,
    clicked: bool,
    slot: Option<PickerOutcomeView>,
)
    requires
        other != direction,
    ensures
        selected(app.after_browse(direction, clicked, slot).files, other) == selected(
            app.files,
            other,
        ),
        app.after_browse(direction, clicked, slot).is_pending(other) == app.is_pending(other),
        app.after_browse(direction, clicked, slot).label(other) == app.label(other),
{
}

/// Only paths of image files are ever selected: none is at the start or
/// after a restore, and no frame selects one that is not.
pub proof fn lemma_selected_paths_are_image_paths(
    app: AppView,
    direction: FileDirection,
    clicked: bool,
    slot: Option<PickerOutcomeView>,
    input: Option<Seq<char>>,
    output: Option<Seq<char>>,
)
    ensures
        AppView::initial().wf(),
        AppView::restored(input, output).wf(),
        app.wf() ==> app.after_browse(direction, clicked, slot).wf(),
{
}

} // verus!
