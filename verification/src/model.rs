//! The three workflows as one state machine over mathematical values.
//!
//! A workflow never acts by itself.  In every state it has one request
//! pending ([`action_of`]); the driver carries the request out and reports
//! back with an event, and [`next`] says in which state the workflow is
//! then.  Once a workflow has ended its only request is to finish.

use crate::cli::CommandView;
use crate::commands::{initialize_argv, lock_argv, mkfs_argv, mount_argv, umount_argv, unlock_argv};
use crate::paths::{formatter_path, mapper_device, mount_point, PathConventionView};
use crate::prompt::{
    confirm_prompt, confirms, filesystem_of, filesystem_prompt, label_of, label_prompt,
    retry_prompt,
};
use crate::text::joined;
use vstd::prelude::*;

verus! {

/// Which of the three workflows is running.
#[derive(Clone, Copy, Debug, PartialEq, Eq, Structural)]
pub enum Kind {
    Open,
    Close,
    Format,
}

/// What a workflow is waiting for.
#[derive(Clone, Copy, Debug, PartialEq, Eq, Structural)]
pub enum Phase {
    /// Open, format: whether the block device exists.
    DeviceProbe,
    /// Format: the line that confirms the wipe.
    Confirming,
    /// Format: the end of `cryptsetup luksFormat`.
    Initializing,
    /// Format: the line that names the new volume.
    Labeling,
    /// Open, format: the end of `cryptsetup open`.
    Unlocking,
    /// Format: the line that names the file-system type.
    ChoosingFs,
    /// Format: that line once more, the last formatter not being installed.
    RechoosingFs,
    /// Format: whether the formatter is installed.
    FormatterProbe,
    /// Format: the end of the formatter.
    MakingFs,
    /// Open, format: whether the mount point exists.
    MountProbe,
    /// Open, format: the number of entries in the mount point.
    Listing,
    /// Open, format: the creation of the mount point.
    Creating,
    /// Open, format: the end of `mount`.
    Mounting,
    /// Open, format: the end of the `cryptsetup close` that takes back
    /// the unlocking, the mount point being in use.
    Unwinding,
    /// Close: whether the mount point exists.
    TargetProbe,
    /// Close: the end of `umount`.
    Unmounting,
    /// Close: the end of `cryptsetup close`.
    Locking,
}

/// How a workflow ended.
#[derive(Clone, Copy, Debug, PartialEq, Eq, Structural)]
pub enum Outcome {
    /// The volume is unlocked and mounted.
    Mounted,
    /// The volume is unmounted and locked.
    Closed,
    /// A path that has to exist does not.
    MissingPath,
    /// The user did not confirm the wipe.
    NotConfirmed,
    /// A program ended with a failure, or could not be started.
    CommandFailed,
    /// The mount point holds entries; the volume was locked again.
    MountPointBusy,
    /// The driver could not carry out a request, or answered another one.
    Fault,
}

/// The state of a workflow.
pub struct WorkflowView {
    pub paths: PathConventionView,
    pub kind: Kind,
    /// The block device; empty when closing.
    pub device: Seq<char>,
    /// The mapper label; empty until known.
    pub label: Seq<char>,
    /// The formatter chosen last; empty until one is chosen.
    pub formatter: Seq<char>,
    pub phase: Phase,
    /// The outcome, once there is one; the phase is then the one in which
    /// the workflow ended.
    pub ended: Option<Outcome>,
}

/// What the driver reports.
pub enum EventView {
    /// A path exists, or does not.
    Found(bool),
    /// A directory was read and holds this many entries.
    Entries(nat),
    /// A line was read from the terminal, line ending included.
    Line(Seq<char>),
    /// A program ran and ended with this exit code, or without one, being
    /// killed.  The code 0 is a success, all else a failure.
    Exited(Option<i32>),
    /// A directory was created.
    Made,
    /// The request could not be carried out.
    Fault,
}

/// What the driver is asked to do.
pub enum ActionView {
    /// Report whether `path` exists.
    Probe { path: Seq<char> },
    /// Read the directory `path` and report the number of its entries.
    List { path: Seq<char> },
    /// Show `prompt` and read one line from the terminal.
    Ask { prompt: Seq<char> },
    /// Run the program `argv[0]` with the other strings as its arguments,
    /// on the terminal of this process, and report how it ended.
    Run { argv: Seq<Seq<char>> },
    /// Create the directory `path` and the missing directories above it.
    MakeDir { path: Seq<char> },
    /// Show `message` and end the process.
    Finish { outcome: Outcome, message: Seq<char> },
}

/// The exit code of a process whose workflow ended with `outcome`.
pub open spec fn exit_code_of(outcome: Outcome) -> u8 {
    match outcome {
        Outcome::Mounted | Outcome::Closed => 0u8,
        _ => 1u8,
    }
}

/// The state in which a workflow starts.
pub open spec fn initial(paths: PathConventionView, command: CommandView) -> WorkflowView {
    match command {
        CommandView::Open { device, label } => WorkflowView {
            paths,
            kind: Kind::Open,
            device,
            label,
            formatter: Seq::empty(),
            phase: Phase::DeviceProbe,
            ended: None,
        },
        CommandView::Close { label } => WorkflowView {
            paths,
            kind: Kind::Close,
            device: Seq::empty(),
            label,
            formatter: Seq::empty(),
            phase: Phase::TargetProbe,
            ended: None,
        },
        CommandView::Format { device } => WorkflowView {
            paths,
            kind: Kind::Format,
            device,
            label: Seq::empty(),
            formatter: Seq::empty(),
            phase: Phase::DeviceProbe,
            ended: None,
        },
    }
}

/// The mount point of the volume that `w` works on.
pub open spec fn target(w: WorkflowView) -> Seq<char> {
    mount_point(w.paths, w.label)
}

/// What `w` asks for while it has not ended.
pub open spec fn request(w: WorkflowView) -> ActionView {
    match w.phase {
        Phase::DeviceProbe => ActionView::Probe { path: w.device },
        Phase::Confirming => ActionView::Ask { prompt: confirm_prompt(w.device) },
        Phase::Initializing => ActionView::Run { argv: initialize_argv(w.device) },
        Phase::Labeling => ActionView::Ask { prompt: label_prompt() },
        Phase::Unlocking => ActionView::Run { argv: unlock_argv(w.device, w.label) },
        Phase::ChoosingFs => ActionView::Ask { prompt: filesystem_prompt() },
        Phase::RechoosingFs => ActionView::Ask { prompt: retry_prompt(w.formatter) },
        Phase::FormatterProbe => ActionView::Probe { path: w.formatter },
        Phase::MakingFs => ActionView::Run {
            argv: mkfs_argv(w.formatter, mapper_device(w.label)),
        },
        Phase::MountProbe => ActionView::Probe { path: target(w) },
        Phase::Listing => ActionView::List { path: target(w) },
        Phase::Creating => ActionView::MakeDir { path: target(w) },
        Phase::Mounting => ActionView::Run {
            argv: mount_argv(mapper_device(w.label), target(w)),
        },
        Phase::Unwinding => ActionView::Run { argv: lock_argv(w.label) },
        Phase::TargetProbe => ActionView::Probe { path: target(w) },
        Phase::Unmounting => ActionView::Run { argv: umount_argv(target(w)) },
        Phase::Locking => ActionView::Run { argv: lock_argv(w.label) },
    }
}

/// The path, the command line or the stream that `action` is about.
pub open spec fn concern(action: ActionView) -> Seq<char> {
    match action {
        ActionView::Probe { path } => path,
        ActionView::List { path } => path,
        ActionView::MakeDir { path } => path,
        ActionView::Run { argv } => joined(argv, " "@),
        ActionView::Ask { .. } => "standard input"@,
        ActionView::Finish { .. } => Seq::empty(),
    }
}

/// What could not be done when `action` could not be carried out.
pub open spec fn verb(action: ActionView) -> Seq<char> {
    match action {
        ActionView::Probe { .. } => "examine"@,
        ActionView::List { .. } => "list"@,
        ActionView::MakeDir { .. } => "create"@,
        ActionView::Run { .. } => "run"@,
        ActionView::Ask { .. } => "read"@,
        ActionView::Finish { .. } => "finish"@,
    }
}

/// The report that the mount point `path` is in use.
pub open spec fn busy_text(path: Seq<char>) -> Seq<char> {
    path + " already exists and is not empty, closing with cryptsetup and aborting.."@
}

/// The report that the command line `line` failed.
pub open spec fn failed_text(line: Seq<char>) -> Seq<char> {
    "Command '"@ + line + "' failed\nAborting.."@
}

/// The message with which `w` ends when its outcome is `outcome`.  Every
/// report of a failure names the path or the command line that failed.
pub open spec fn report(w: WorkflowView, outcome: Outcome) -> Seq<char> {
    match outcome {
        Outcome::Mounted => if w.kind == Kind::Format {
            "Successfully formatted your new drive and mounted to "@ + target(w) + "!"@
        } else {
            "Successfully decrypted and mounted drive to "@ + target(w) + "!"@
        },
        Outcome::Closed => "Successfully closed "@ + w.label + "!"@,
        Outcome::MissingPath => "Could not find path '"@ + concern(request(w)) + "', aborting.."@,
        Outcome::NotConfirmed => "User did not confirm formatting of drive, aborting.."@,
        Outcome::CommandFailed => if w.phase == Phase::Unwinding {
            busy_text(target(w)) + "\n"@ + failed_text(concern(request(w)))
        } else {
            failed_text(concern(request(w)))
        },
        Outcome::MountPointBusy => busy_text(target(w)),
        Outcome::Fault => "Could not "@ + verb(request(w)) + " "@ + concern(request(w))
            + ", aborting.."@,
    }
}

/// What `w` asks of the driver.
pub open spec fn action_of(w: WorkflowView) -> ActionView {
    match w.ended {
        Some(outcome) => ActionView::Finish { outcome, message: report(w, outcome) },
        None => request(w),
    }
}

/// `w` in another phase.
pub open spec fn moved(w: WorkflowView, phase: Phase) -> WorkflowView {
    WorkflowView { phase, ..w }
}

/// `w` ended with `outcome`, in the phase it is in.
pub open spec fn ended_with(w: WorkflowView, outcome: Outcome) -> WorkflowView {
    WorkflowView { ended: Some(outcome), ..w }
}

/// The state after the program that `w` waits for: `then` if it ended
/// with the exit code 0, else the end of the workflow.
pub open spec fn after_run(w: WorkflowView, e: EventView, then: WorkflowView) -> WorkflowView {
    if e == EventView::Exited(Some(0i32)) {
        then
    } else {
        ended_with(w, Outcome::CommandFailed)
    }
}

/// The state of `w` after the driver has reported `e`.
///
/// A workflow that has ended stays as it is.  An event that does not
/// answer the pending request ends the workflow with a fault; where a
/// program was to run, with a failed command.
pub open spec fn next(w: WorkflowView, e: EventView) -> WorkflowView {
    if w.ended is Some {
        w
    } else {
        match w.phase {
            Phase::DeviceProbe => match e {
                EventView::Found(found) => if !found {
                    ended_with(w, Outcome::MissingPath)
                } else if w.kind == Kind::Format {
                    moved(w, Phase::Confirming)
                } else {
                    moved(w, Phase::Unlocking)
                },
                _ => ended_with(w, Outcome::Fault),
            },
            Phase::Confirming => match e {
                EventView::Line(line) => if confirms(line) {
                    moved(w, Phase::Initializing)
                } else {
                    ended_with(w, Outcome::NotConfirmed)
                },
                _ => ended_with(w, Outcome::Fault),
            },
            Phase::Initializing => after_run(w, e, moved(w, Phase::Labeling)),
            Phase::Labeling => match e {
                EventView::Line(line) => WorkflowView {
                    label: label_of(line),
                    phase: Phase::Unlocking,
                    ..w
                },
                _ => ended_with(w, Outcome::Fault),
            },
            Phase::Unlocking => after_run(
                w,
                e,
                if w.kind == Kind::Format {
                    moved(w, Phase::ChoosingFs)
                } else {
                    moved(w, Phase::MountProbe)
                },
            ),
            Phase::ChoosingFs | Phase::RechoosingFs => match e {
                EventView::Line(line) => WorkflowView {
                    formatter: formatter_path(filesystem_of(line)),
                    phase: Phase::FormatterProbe,
                    ..w
                },
                _ => ended_with(w, Outcome::Fault),
            },
            Phase::FormatterProbe => match e {
                EventView::Found(found) => if found {
                    moved(w, Phase::MakingFs)
                } else {
                    moved(w, Phase::RechoosingFs)
                },
                _ => ended_with(w, Outcome::Fault),
            },
            Phase::MakingFs => after_run(w, e, moved(w, Phase::MountProbe)),
            Phase::MountProbe => match e {
                EventView::Found(found) => if found {
                    moved(w, Phase::Listing)
                } else {
                    moved(w, Phase::Creating)
                },
                _ => ended_with(w, Outcome::Fault),
            },
            Phase::Listing => match e {
                EventView::Entries(n) => if n == 0 {
                    moved(w, Phase::Mounting)
                } else {
                    moved(w, Phase::Unwinding)
                },
                _ => ended_with(w, Outcome::Fault),
            },
            Phase::Creating => match e {
                EventView::Made => moved(w, Phase::Mounting),
                _ => ended_with(w, Outcome::Fault),
            },
            Phase::Mounting => after_run(w, e, ended_with(w, Outcome::Mounted)),
            Phase::Unwinding => after_run(w, e, ended_with(w, Outcome::MountPointBusy)),
            Phase::TargetProbe => match e {
                EventView::Found(found) => if found {
                    moved(w, Phase::Unmounting)
                } else {
                    ended_with(w, Outcome::MissingPath)
                },
                _ => ended_with(w, Outcome::Fault),
            },
            Phase::Unmounting => after_run(w, e, moved(w, Phase::Locking)),
            Phase::Locking => after_run(w, e, ended_with(w, Outcome::Closed)),
        }
    }
}

} // verus!
