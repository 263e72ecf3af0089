//! The settings of the diary.

use vstd::prelude::*;

verus! {

/// The name of the file, in the diary's directory, that holds the settings.
pub const CONFIG_FILENAME: &'static str = "config.toml";

/// The settings that a new diary starts with, as they stand in its file.
pub const INITIAL_CONFIG: &'static str = "editor = 'vim'\nlist_max_count = 7";

/// The settings of the diary.
#[derive(Clone, Debug, PartialEq, Eq)]
pub struct Config {
    /// The command that starts the author's editor.
    pub editor: String,
    /// How many pages a listing shows where the author names no number.
    pub list_max_count: u32,
}

/// The command line that opens `file` in the editor `editor`.
pub open spec fn editor_command_of(editor: Seq<char>, file: Seq<char>) -> Seq<char> {
    editor + " "@ + file
}

impl Config {
    /// The command line, for the system's shell, that opens `file` in the editor.
    pub fn editor_command(&self, file: &str) -> (command: String)
        ensures
            command@ == editor_command_of(self.editor@, file@),
    {
        let mut command = self.editor.clone();
        command.append(" ");
        command.append(file);
        command
    }
}

} // verus!
