//! The selection store: at most one image file for each direction.

use vstd::prelude::*;

use crate::direction::FileDirection;
use crate::files::{is_image_path, ImageFile};

verus! {

/// What a store holds for a direction, if anything.
pub open spec fn selected(
    store: Map<FileDirection, Seq<char>>,
    direction: FileDirection,
) -> Option<Seq<char>> {
    if store.contains_key(direction) {
        Some(store[direction])
    } else {
        None
    }
}

/// The store after a file was selected for a direction: the file takes the
/// place of what the direction held, and the other direction keeps its own.
pub open spec fn with_selection(
    store: Map<FileDirection, Seq<char>>,
    direction: FileDirection,
    path: Seq<char>,
) -> Map<FileDirection, Seq<char>> {
    store.insert(direction, path)
}

/// Whether every path in a store is that of an image file.
pub open spec fn holds_image_paths(store: Map<FileDirection, Seq<char>>) -> bool {
    forall|direction: FileDirection| #[trigger]
        store.contains_key(direction) ==> is_image_path(store[direction])
}

/// The files the user selected, one for each direction at most.
pub struct SelectionStore {
    input: Option<ImageFile>,
    output: Option<ImageFile>,
}

impl View for SelectionStore {
    type V = Map<FileDirection, Seq<char>>;

    closed spec fn view(&self) -> Map<FileDirection, Seq<char>> {
        let input = match self.input {
            Some(file) => Map::empty().insert(FileDirection::Input, file@),
            None => Map::empty(),
        };
        match self.output {
            Some(file) => input.insert(FileDirection::Output, file@),
            None => input,
        }
    }
}

impl SelectionStore {
    /// What holds of every store: each path in it passed validation.
    #[verifier::type_invariant]
    pub open spec fn holds_image_files(self) -> bool {
        holds_image_paths(self@)
    }

    /// A store with nothing selected.
    pub fn new() -> (store: SelectionStore)
        ensures
            store@ == Map::<FileDirection, Seq<char>>::empty(),
    {
        SelectionStore { input: None, output: None }
    }

    /// Selects a file for a direction, in place of what was selected for it.
    pub fn set(&mut self, direction: FileDirection, file: ImageFile)
        ensures
            final(self)@ == with_selection(old(self)@, direction, file@),
            holds_image_paths(final(self)@),
    {
        proof {
            use_type_invariant(&*self);
            use_type_invariant(&file);
            assert(self@.contains_key(FileDirection::Input) ==> is_image_path(
                self@[FileDirection::Input],
            ));
            assert(self@.contains_key(FileDirection::Output) ==> is_image_path(
                self@[FileDirection::Output],
            ));
        }
        match direction {
            FileDirection::Input => {
                self.input = Some(file);
            },
            FileDirection::Output => {
                self.output = Some(file);
            },
        }
        assert(self@ =~= with_selection(old(self)@, direction, file@));
    }

    /// The file selected for a direction, if there is one. It is the path of
    /// an image file, as every path in the store is.
    pub fn get(&self, direction: FileDirection) -> (file: Option<&ImageFile>)
        ensures
            match file {
                Some(f) => selected(self@, direction) == Some(f@) && is_image_path(f@),
                None => selected(self@, direction) is None,
            },
            holds_image_paths(self@),
    {
        proof {
            use_type_invariant(self);
        }
        match direction {
            FileDirection::Input => self.input.as_ref(),
            FileDirection::Output => self.output.as_ref(),
        }
    }
}

/// What was selected for a direction is what the store then holds for it.
pub proof fn lemma_selected_after_selection(
    store: Map<FileDirection, Seq<char>>,
    direction: FileDirection,
    path: Seq<char>,
)
    ensures
        selected(with_selection(store, direction, path), direction) == Some(path),
{
}

/// A second selection for a direction replaces the first: nothing of the
/// first is left.
pub proof fn lemma_selection_overwrites(
    store: Map<FileDirection, Seq<char>>,
    direction: FileDirection,
    first: Seq<char>,
    second: Seq<char>,
)
    ensures
        with_selection(with_selection(store, direction, first), direction, second)
            == with_selection(store, direction, second),
        selected(
            with_selection(with_selection(store, direction, first), direction, second),
            direction,
        ) == Some(second),
{
    assert(with_selection(with_selection(store, direction, first), direction, second)
        =~= with_selection(store, direction, second));
}

/// A selection for one direction leaves the other direction as it was.
pub proof fn lemma_selection_keeps_other_direction(
    store: Map<FileDirection, Seq<char>>,
    direction: FileDirection,
    other: FileDirection,
    path: Seq<char>,
)
    requires
        other != direction,
    ensures
        selected(with_selection(store, direction, path), other) == selected(store, other),
{
}

/// A store of image paths is still one after an image path was selected.
pub proof fn lemma_selection_keeps_image_paths(
    store: Map<FileDirection, Seq<char>>,
    direction: FileDirection,
    path: Seq<char>,
)
    requires
        holds_image_paths(store),
        is_image_path(path),
    ensures
        holds_image_paths(with_selection(store, direction, path)),
{
}

} // verus!
