//! How the editor is started on a remote directory.

use crate::request::{CodeOpenInfo, OpenInfoView};
use vstd::prelude::*;
use vstd::string::*;

verus! {

/// A program to start, with its arguments.
#[derive(Debug)]
pub struct EditorCommand {
    pub program: String,
    pub arguments: Vec<String>,
}

/// What an [`EditorCommand`] holds, as plain text.
pub struct EditorCommandView {
    pub program: Seq<char>,
    pub arguments: Seq<Seq<char>>,
}

impl View for EditorCommand {
    type V = EditorCommandView;

    open spec fn view(&self) -> EditorCommandView {
        EditorCommandView {
            program: self.program@,
            arguments: Seq::new(self.arguments@.len(), |i: int| self.arguments@[i]@),
        }
    }
}

/// Name of the editor's program: on Windows it is started through its
/// command script.
pub open spec fn editor_program(windows: bool) -> Seq<char> {
    if windows {
        "code.cmd"@
    } else {
        "code"@
    }
}

/// The authority under which the editor reaches a host over SSH.
pub open spec fn remote_authority(host: Seq<char>) -> Seq<char> {
    "ssh-remote+"@ + host
}

/// The command that opens the directory of `info` in a remote session on
/// the host of `info`.
pub open spec fn editor_command(info: OpenInfoView, windows: bool) -> EditorCommandView {
    EditorCommandView {
        program: editor_program(windows),
        arguments: seq!["--remote"@, remote_authority(info.origin_host), info.remote_dir_path],
    }
}

/// The command that opens the editor on the directory of `code_open_info`.
/// To run it is the caller's part.
pub fn open_vscode_command(code_open_info: CodeOpenInfo, windows: bool) -> (command: EditorCommand)
    ensures
        command@ == editor_command(code_open_info@, windows),
{
    let program = if windows {
        String::from_str("code.cmd")
    } else {
        String::from_str("code")
    };
    let authority = String::from_str("ssh-remote+").concat(
        code_open_info.remote_host_name.as_str(),
    );
    let mut arguments: Vec<String> = Vec::new();
    arguments.push(String::from_str("--remote"));
    arguments.push(authority);
    arguments.push(code_open_info.remote_dir_full_path);
    let command = EditorCommand { program, arguments };
    assert(command@.arguments =~= editor_command(code_open_info@, windows).arguments);
    command
}

} // verus!
