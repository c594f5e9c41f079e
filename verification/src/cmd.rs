//! The commands the tool runs on a server, and how their results are read.
//!
//! Running a command is left to the caller; this module says which command to
//! run and what its result means.

use vstd::prelude::*;
use crate::text::{ascii_chars, concat4, from_utf8_lossy, split_char, split_spec, trim_end, trim_end_spec, utf8_lossy};

verus! {

/// The kind of file system entry a check looks for.
#[derive(Clone, Copy, PartialEq, Eq, Structural, Debug)]
pub enum FSResourceType {
    File,
    Directory,
    Symlink,
}

/// The order in which a directory listing is sorted.
#[derive(Clone, Copy, PartialEq, Eq, Structural, Debug)]
pub enum SortOrder {
    Asc,
    Des,
}

/// What a command that ran on the server gave back.
#[derive(Debug, Clone, PartialEq, Eq)]
pub struct CommandOutput {
    /// Whether it exited successfully.
    pub success: bool,
    /// Its exit code, if it exited normally.
    pub code: Option<i32>,
    /// What it printed (empty when its output went to the terminal).
    pub stdout: Vec<u8>,
}

/// A command run on the server: its output, or the text of the error that
/// kept it from running.
pub type CommandResult = Result<CommandOutput, String>;

/// A command to run on the server.
#[derive(Debug, PartialEq, Eq)]
pub struct RemoteCommand {
    /// The shell command line.
    pub command: String,
    /// Whether its output goes straight to the terminal (else it is captured).
    pub inherit_output: bool,
}

/// `RemoteCommand` with its text as a character sequence.
pub struct RemoteCommandView {
    pub command: Seq<char>,
    pub inherit_output: bool,
}

impl View for RemoteCommand {
    type V = RemoteCommandView;

    open spec fn view(&self) -> RemoteCommandView {
        RemoteCommandView { command: self.command@, inherit_output: self.inherit_output }
    }
}

/// A command whose output is captured.
pub open spec fn captured(command: Seq<char>) -> RemoteCommandView {
    RemoteCommandView { command, inherit_output: false }
}

/// A command whose output goes to the terminal.
pub open spec fn inherited(command: Seq<char>) -> RemoteCommandView {
    RemoteCommandView { command, inherit_output: true }
}

/// The letter `test` takes for each kind of entry.
pub open spec fn resource_flag(t: FSResourceType) -> Seq<char> {
    match t {
        FSResourceType::File => "f"@,
        FSResourceType::Directory => "d"@,
        FSResourceType::Symlink => "L"@,
    }
}

/// The command that succeeds exactly when `path` is an entry of that kind.
pub open spec fn file_exists_command_spec(path: Seq<char>, t: FSResourceType) -> Seq<char> {
    "test -"@ + resource_flag(t) + " "@ + path
}

/// The sort command for each order.
pub open spec fn sort_command(o: SortOrder) -> Seq<char> {
    match o {
        SortOrder::Asc => "sort"@,
        SortOrder::Des => "sort -r"@,
    }
}

/// The command that lists the names of the entries of `dir`, one per line,
/// sorted.
pub open spec fn list_dir_command_spec(dir: Seq<char>, o: SortOrder) -> Seq<char> {
    "find "@ + dir + " -maxdepth 1 -mindepth 1 -printf '%f\n' | "@ + sort_command(o)
}

/// The names in the text of a listing: the text without its trailing
/// whitespace, split at line feeds; no names at all when the text holds
/// nothing but whitespace.
pub open spec fn names_in_listing(text: Seq<char>) -> Seq<Seq<char>> {
    let trimmed = trim_end_spec(text);
    if trimmed.len() == 0 {
        Seq::empty()
    } else {
        split_spec(trimmed, '\n')
    }
}

/// The names in a listing printed by that command, read as UTF-8.
pub open spec fn listed_names(stdout: Seq<u8>) -> Seq<Seq<char>> {
    names_in_listing(utf8_lossy(stdout))
}

/// The command that checks whether `file_path` is an entry of the given kind.
pub fn file_exists_command(file_path: &str, resource_type: FSResourceType) -> (r: String)
    ensures
        r@ == file_exists_command_spec(file_path@, resource_type),
{
    let flag: &str = match resource_type {
        FSResourceType::File => "f",
        FSResourceType::Directory => "d",
        FSResourceType::Symlink => "L",
    };
    concat4("test -", flag, " ", file_path)
}

/// Whether the entry exists, given the result of `file_exists_command`: the
/// command's success, or the error that kept it from running.
pub fn exec_remote_file_exists(result: &CommandResult) -> (r: Result<bool, String>)
    ensures
        match result {
            Ok(out) => r == Ok::<bool, String>(out.success),
            Err(e) => r matches Err(m) && m@ == e@,
        },
{
    match result {
        Ok(out) => Ok(out.success),
        Err(e) => Err(e.clone()),
    }
}

/// The command that lists the entries of `dir_path` in the given order.
pub fn list_dir_command(dir_path: &str, sort_order: SortOrder) -> (r: String)
    ensures
        r@ == list_dir_command_spec(dir_path@, sort_order),
{
    let sort: &str = match sort_order {
        SortOrder::Asc => "sort",
        SortOrder::Des => "sort -r",
    };
    concat4("find ", dir_path, " -maxdepth 1 -mindepth 1 -printf '%f\n' | ", sort)
}

/// The names of the entries, given the result of `list_dir_command`: the
/// lines of its output (none for an empty directory), or the error
/// that kept it from running. The exit status is not looked at.
pub fn exec_remote_fetch_sorted_filenames_in_dir(result: &CommandResult) -> (r: Result<Vec<String>, String>)
    ensures
        match result {
            Ok(out) => r matches Ok(names) && names@.map_values(|s: String| s@) == listed_names(out.stdout@),
            Err(e) => r matches Err(m) && m@ == e@,
        },
        result matches Ok(out) && (forall|i: int| 0 <= i < out.stdout@.len() ==> out.stdout@[i] < 128)
            ==> listed_names(result->Ok_0.stdout@) == names_in_listing(ascii_chars(result->Ok_0.stdout@)),
{
    match result {
        Ok(out) => {
            let text: String = from_utf8_lossy(out.stdout.as_slice());
            let trimmed: String = trim_end(text.as_str());
            if trimmed.as_str().is_empty() {
                let names: Vec<String> = Vec::new();
                proof {
                    assert(names@.map_values(|s: String| s@) =~= Seq::<Seq<char>>::empty());
                }
                Ok(names)
            } else {
                Ok(split_char(trimmed.as_str(), '\n'))
            }
        },
        Err(e) => Err(e.clone()),
    }
}

} // verus!
