//! Revealing a path in the file manager of the host: which program is
//! started, and with which arguments.

use vstd::prelude::*;
use vstd::string::*;

verus! {

/// The families of hosts that reveal a path differently.
#[derive(Clone, Copy, Debug, PartialEq, Eq)]
pub enum Platform {
    /// Windows, where the explorer selects the path.
    Windows,
    /// macOS, where the finder reveals the path.
    MacOs,
    /// Any other Unix, where the folder is opened.
    OtherUnix,
}

/// What the file system says of the path that is to be revealed.
#[derive(Debug, PartialEq, Eq)]
pub struct PathFacts {
    /// Whether anything is at the path.
    pub exists: bool,
    /// Whether it is a directory.
    pub is_dir: bool,
    /// The path of the directory above it, where it has one.
    pub parent: Option<String>,
}

/// A program to start, with its arguments.
#[derive(Debug, PartialEq, Eq)]
pub struct RevealCommand {
    /// The name of the program.
    pub program: String,
    /// Its arguments, in order.
    pub args: Vec<String>,
}

/// Why a path was not revealed.
#[derive(Debug, PartialEq, Eq)]
pub enum RevealError {
    /// Nothing is at the path.
    PathMissing,
    /// The program could not be started; the text is the host's account of it.
    Launch(String),
}

impl RevealError {
    /// The text shown to the user.
    pub open spec fn message_text(self) -> Seq<char> {
        match self {
            RevealError::PathMissing => "路径不存在"@,
            RevealError::Launch(cause) => cause@,
        }
    }

    /// The text shown to the user.
    pub fn message(&self) -> (s: String)
        ensures
            s@ == self.message_text(),
    {
        match self {
            RevealError::PathMissing => String::from_str("路径不存在"),
            RevealError::Launch(cause) => cause.clone(),
        }
    }
}

/// The folder that is opened for `path` where the host cannot select a file:
/// the path itself if it is a directory or has none above it, else the
/// directory above it.
pub open spec fn folder_of(path: Seq<char>, facts: PathFacts) -> Seq<char> {
    if facts.is_dir {
        path
    } else {
        match facts.parent {
            Some(parent) => parent@,
            None => path,
        }
    }
}

/// Whether `cmd` is what reveals `path` on `platform`.
pub open spec fn reveals(
    cmd: RevealCommand,
    platform: Platform,
    path: Seq<char>,
    facts: PathFacts,
) -> bool {
    match platform {
        Platform::Windows => {
            &&& cmd.program@ == "explorer"@
            &&& cmd.args@.len() == 2
            &&& cmd.args@[0]@ == "/select,"@
            &&& cmd.args@[1]@ == path
        },
        Platform::MacOs => {
            &&& cmd.program@ == "open"@
            &&& cmd.args@.len() == 2
            &&& cmd.args@[0]@ == "-R"@
            &&& cmd.args@[1]@ == path
        },
        Platform::OtherUnix => {
            &&& cmd.program@ == "xdg-open"@
            &&& cmd.args@.len() == 1
            &&& cmd.args@[0]@ == folder_of(path, facts)
        },
    }
}

/// The command that reveals `path` in the file manager of `platform`, given
/// what the file system says of the path. A path at which nothing is has no
/// such command.
pub fn show_in_folder(platform: Platform, path: &str, facts: &PathFacts) -> (res: Result<
    RevealCommand,
    RevealError,
>)
    ensures
        match res {
            Ok(cmd) => facts.exists && reveals(cmd, platform, path@, *facts),
            Err(e) => !facts.exists && e == RevealError::PathMissing,
        },
{
    if !facts.exists {
        return Err(RevealError::PathMissing);
    }
    let mut args: Vec<String> = Vec::new();
    match platform {
        Platform::Windows => {
            args.push(String::from_str("/select,"));
            args.push(String::from_str(path));
            Ok(RevealCommand { program: String::from_str("explorer"), args })
        },
        Platform::MacOs => {
            args.push(String::from_str("-R"));
            args.push(String::from_str(path));
            Ok(RevealCommand { program: String::from_str("open"), args })
        },
        Platform::OtherUnix => {
            if facts.is_dir {
                args.push(String::from_str(path));
            } else {
                match &facts.parent {
                    Some(parent) => args.push(parent.clone()),
                    None => args.push(String::from_str(path)),
                }
            }
            Ok(RevealCommand { program: String::from_str("xdg-open"), args })
        },
    }
}

} // verus!
