//! The two directions a file can be picked for.

use vstd::prelude::*;

verus! {

/// Whether a file is picked to be read or to be written.
#[derive(Clone, Copy, Debug, PartialEq, Eq, Structural)]
pub enum FileDirection {
    Input,
    Output,
}

/// The kind of dialog a pick is made with.
#[derive(Clone, Copy, Debug, PartialEq, Eq, Structural)]
pub enum DialogMode {
    /// Choose a file that exists.
    Open,
    /// Choose where a file will be written.
    Save,
}

impl FileDirection {
    /// The direction's name as shown to the user.
    pub open spec fn name_spec(self) -> Seq<char> {
        match self {
            FileDirection::Input => "Input"@,
            FileDirection::Output => "Output"@,
        }
    }

    /// The dialog mode of the direction: files to read are opened, files to
    /// write are saved.
    pub open spec fn mode_spec(self) -> DialogMode {
        match self {
            FileDirection::Input => DialogMode::Open,
            FileDirection::Output => DialogMode::Save,
        }
    }

    /// The direction's name as shown to the user.
    pub fn name(self) -> (r: &'static str)
        ensures
            r@ == self.name_spec(),
    {
        match self {
            FileDirection::Input => "Input",
            FileDirection::Output => "Output",
        }
    }

    /// The dialog mode of the direction.
    pub fn mode(self) -> (r: DialogMode)
        ensures
            r == self.mode_spec(),
    {
        match self {
            FileDirection::Input => DialogMode::Open,
            FileDirection::Output => DialogMode::Save,
        }
    }

    /// Every direction, in the order the interface lists them.
    pub fn all() -> (r: Vec<FileDirection>)
        ensures
            r@ == seq![FileDirection::Input, FileDirection::Output],
    {
        let mut r: Vec<FileDirection> = Vec::new();
        r.push(FileDirection::Input);
        r.push(FileDirection::Output);
        assert(r@ =~= seq![FileDirection::Input, FileDirection::Output]);
        r
    }
}

} // verus!
