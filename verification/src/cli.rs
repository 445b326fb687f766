//! The command line: which operation was asked for, and whether the
//! process may start on it at all.

use crate::text::{same_text, views};
use vstd::prelude::*;
use vstd::string::*;

verus! {

/// One of the three operations.
#[derive(Clone, Debug, PartialEq, Eq)]
pub enum Command {
    /// Unlock `device` under the mapper name `label` and mount it.
    Open { device: String, label: String },
    /// Unmount the volume known as `label` and lock it.
    Close { label: String },
    /// Wipe `device` and make a new encrypted volume on it.
    Format { device: String },
}

/// The mathematical value of a [`Command`].
pub enum CommandView {
    Open { device: Seq<char>, label: Seq<char> },
    Close { label: Seq<char> },
    Format { device: Seq<char> },
}

impl View for Command {
    type V = CommandView;

    open spec fn view(&self) -> CommandView {
        match self {
            Command::Open { device, label } => CommandView::Open { device: device@, label: label@ },
            Command::Close { label } => CommandView::Close { label: label@ },
            Command::Format { device } => CommandView::Format { device: device@ },
        }
    }
}

/// Why the process may not start on any operation.
#[derive(Clone, Copy, Debug, PartialEq, Eq, Structural)]
pub enum Barrier {
    /// `cryptsetup` is not installed.
    MissingTool,
    /// The process does not run as root.
    NotRoot,
}

/// What the process does once it has looked at its surroundings.
#[derive(Clone, Debug, PartialEq, Eq)]
pub enum Startup {
    /// Stop with an error.
    Refuse(Barrier),
    /// Print the usage text and stop.
    Usage,
    /// Carry out the command.
    Proceed(Command),
}

/// The mathematical value of a [`Startup`].
pub enum StartupView {
    Refuse(Barrier),
    Usage,
    Proceed(CommandView),
}

impl View for Startup {
    type V = StartupView;

    open spec fn view(&self) -> StartupView {
        match self {
            Startup::Refuse(b) => StartupView::Refuse(*b),
            Startup::Usage => StartupView::Usage,
            Startup::Proceed(c) => StartupView::Proceed(c@),
        }
    }
}

/// The command that the argument vector `args` spells, program name first.
///
/// `close` and `format` take one argument, `open` takes two; anything else
/// spells no command.
pub open spec fn parsed(args: Seq<Seq<char>>) -> Option<CommandView> {
    if args.len() == 3 && args[1] == "close"@ {
        Some(CommandView::Close { label: args[2] })
    } else if args.len() == 3 && args[1] == "format"@ {
        Some(CommandView::Format { device: args[2] })
    } else if args.len() == 4 && args[1] == "open"@ {
        Some(CommandView::Open { device: args[2], label: args[3] })
    } else {
        None
    }
}

/// The decision taken at startup: the tool must be installed, the process
/// must run as root (effective user id 0), and the arguments must spell a
/// command.  The checks are made in this order.
pub open spec fn startup_plan(args: Seq<Seq<char>>, tool_present: bool, uid: u32) -> StartupView {
    if !tool_present {
        StartupView::Refuse(Barrier::MissingTool)
    } else if uid != 0 {
        StartupView::Refuse(Barrier::NotRoot)
    } else {
        match parsed(args) {
            Some(c) => StartupView::Proceed(c),
            None => StartupView::Usage,
        }
    }
}

/// The text shown when the arguments spell no command.
pub open spec fn usage_text() -> Seq<char> {
    "Usage: ezluks [command] [args]\n\nCommands:\n    open [block device e.g /dev/sda1] [mapper label e.g my_drive]\n    close [mapper label e.g my_drive]\n    format [block device e.g /dev/sda1]\n"@
}

/// The text that reports `barrier`.
pub open spec fn barrier_text(barrier: Barrier) -> Seq<char> {
    match barrier {
        Barrier::MissingTool => "Could not find cryptsetup in your /usr/bin, aborting.."@,
        Barrier::NotRoot => "Not running as root, aborting.."@,
    }
}

/// The exit code of a process that ends as `s` says without running a
/// command; a process that proceeds ends with the code of its outcome.
pub open spec fn startup_code(s: StartupView) -> Option<u8> {
    match s {
        StartupView::Refuse(_) => Some(1u8),
        StartupView::Usage => Some(0u8),
        StartupView::Proceed(_) => None,
    }
}

/// Reads the command out of the argument vector, program name first.
pub fn parse(args: &Vec<String>) -> (r: Option<Command>)
    ensures
        match r {
            Some(c) => parsed(views(args@)) == Some(c@),
            None => parsed(views(args@)) is None,
        },
{
    let n: usize = args.len();
    if n == 3 && same_text(args[1].as_str(), "close") {
        Some(Command::Close { label: args[2].clone() })
    } else if n == 3 && same_text(args[1].as_str(), "format") {
        Some(Command::Format { device: args[2].clone() })
    } else if n == 4 && same_text(args[1].as_str(), "open") {
        Some(Command::Open { device: args[2].clone(), label: args[3].clone() })
    } else {
        None
    }
}

/// Decides what the process does, given its arguments, whether
/// `cryptsetup` was found and the effective user id it runs under.
pub fn startup(args: &Vec<String>, tool_present: bool, uid: u32) -> (r: Startup)
    ensures
        r@ == startup_plan(views(args@), tool_present, uid),
{
    if !tool_present {
        Startup::Refuse(Barrier::MissingTool)
    } else if uid != 0 {
        Startup::Refuse(Barrier::NotRoot)
    } else {
        match parse(args) {
            Some(c) => Startup::Proceed(c),
            None => Startup::Usage,
        }
    }
}

/// Returns the usage text.
pub fn usage() -> (r: String)
    ensures
        r@ == usage_text(),
{
    String::from_str(
        "Usage: ezluks [command] [args]\n\nCommands:\n    open [block device e.g /dev/sda1] [mapper label e.g my_drive]\n    close [mapper label e.g my_drive]\n    format [block device e.g /dev/sda1]\n",
    )
}

impl Barrier {
    /// Returns the text that reports this barrier.
    pub fn message(&self) -> (r: String)
        ensures
            r@ == barrier_text(*self),
    {
        match self {
            Barrier::MissingTool => String::from_str(
                "Could not find cryptsetup in your /usr/bin, aborting..",
            ),
            Barrier::NotRoot => String::from_str("Not running as root, aborting.."),
        }
    }
}

impl Startup {
    /// Returns the exit code of a process that stops here, and `None`
    /// where it goes on to run a command.
    pub fn exit_code(&self) -> (r: Option<u8>)
        ensures
            r == startup_code(self@),
    {
        match self {
            Startup::Refuse(_) => Some(1u8),
            Startup::Usage => Some(0u8),
            Startup::Proceed(_) => None,
        }
    }
}

} // verus!
