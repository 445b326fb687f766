//! The workflows in executable form.
//!
//! A [`Workflow`] is driven in a loop: take the pending [`Action`], carry
//! it out, and feed the [`Event`] that reports on it.  The loop ends with
//! [`Action::Finish`].

use crate::cli::Command;
use crate::commands::{initialize, lock, mkfs, mount, umount, unlock};
use crate::model::{
    action_of, concern, exit_code_of, initial, next, report, request, verb, ActionView, EventView,
    Kind, Outcome, Phase, WorkflowView,
};
use crate::paths::{formatter, mapper_path, PathConvention};
use crate::prompt::{
    ask_confirmation, ask_filesystem, ask_filesystem_again, ask_label, is_confirmation,
    read_filesystem, read_label,
};
use crate::text::{join, views};
use vstd::prelude::*;
use vstd::string::*;

verus! {

/// What the driver reports.
#[derive(Clone, Debug, PartialEq, Eq)]
pub enum Event {
    /// A path exists, or does not.
    Found(bool),
    /// A directory was read and holds this many entries.
    Entries(usize),
    /// A line was read from the terminal, line ending included; the empty
    /// string at the end of the input.
    Line(String),
    /// A program ran and ended with this exit code, or without one, being
    /// killed.  The code 0 is a success, all else a failure.
    Exited(Option<i32>),
    /// A directory was created.
    Made,
    /// The request could not be carried out.
    Fault,
}

impl View for Event {
    type V = EventView;

    open spec fn view(&self) -> EventView {
        match self {
            Event::Found(found) => EventView::Found(*found),
            Event::Entries(n) => EventView::Entries(*n as nat),
            Event::Line(line) => EventView::Line(line@),
            Event::Exited(code) => EventView::Exited(*code),
            Event::Made => EventView::Made,
            Event::Fault => EventView::Fault,
        }
    }
}

/// What the driver is asked to do.
#[derive(Clone, Debug, PartialEq, Eq)]
pub enum Action {
    /// Report whether `path` exists, with [`Event::Found`].
    Probe { path: String },
    /// Read the directory `path` and report the number of its entries,
    /// with [`Event::Entries`].
    List { path: String },
    /// Show `prompt`, read one line from the terminal and report it, with
    /// [`Event::Line`].
    Ask { prompt: String },
    /// Run the program `argv[0]` with the other strings as its arguments,
    /// on the terminal of this process, and report how it ended, with
    /// [`Event::Exited`].
    Run { argv: Vec<String> },
    /// Create the directory `path` and the missing directories above it,
    /// and report that with [`Event::Made`].
    MakeDir { path: String },
    /// Show `message` and end the process.
    Finish { outcome: Outcome, message: String },
}

impl View for Action {
    type V = ActionView;

    open spec fn view(&self) -> ActionView {
        match self {
            Action::Probe { path } => ActionView::Probe { path: path@ },
            Action::List { path } => ActionView::List { path: path@ },
            Action::Ask { prompt } => ActionView::Ask { prompt: prompt@ },
            Action::Run { argv } => ActionView::Run { argv: views(argv@) },
            Action::MakeDir { path } => ActionView::MakeDir { path: path@ },
            Action::Finish { outcome, message } => ActionView::Finish {
                outcome: *outcome,
                message: message@,
            },
        }
    }
}

impl Outcome {
    /// Returns the exit code of a process whose workflow ended like this:
    /// 0 after a success, 1 after any failure.
    pub fn exit_code(&self) -> (r: u8)
        ensures
            r == exit_code_of(*self),
    {
        match self {
            Outcome::Mounted => 0,
            Outcome::Closed => 0,
            _ => 1,
        }
    }
}

impl Action {
    /// Returns the path, the command line or the stream that this action
    /// is about.
    pub fn concern(&self) -> (r: String)
        ensures
            r@ == concern(self@),
    {
        match self {
            Action::Probe { path } => path.clone(),
            Action::List { path } => path.clone(),
            Action::MakeDir { path } => path.clone(),
            Action::Run { argv } => join(argv, " "),
            Action::Ask { .. } => String::from_str("standard input"),
            Action::Finish { .. } => String::new(),
        }
    }

    /// Returns the word for what this action does.
    fn verb(&self) -> (r: String)
        ensures
            r@ == verb(self@),
    {
        match self {
            Action::Probe { .. } => String::from_str("examine"),
            Action::List { .. } => String::from_str("list"),
            Action::MakeDir { .. } => String::from_str("create"),
            Action::Run { .. } => String::from_str("run"),
            Action::Ask { .. } => String::from_str("read"),
            Action::Finish { .. } => String::from_str("finish"),
        }
    }
}

/// A workflow under way.
#[derive(Debug)]
pub struct Workflow {
    paths: PathConvention,
    kind: Kind,
    device: String,
    label: String,
    formatter: String,
    phase: Phase,
    ended: Option<Outcome>,
}

impl View for Workflow {
    type V = WorkflowView;

    closed spec fn view(&self) -> WorkflowView {
        WorkflowView {
            paths: self.paths@,
            kind: self.kind,
            device: self.device@,
            label: self.label@,
            formatter: self.formatter@,
            phase: self.phase,
            ended: self.ended,
        }
    }
}

/// Tells whether `event` reports a program that ended with success.
fn succeeded(event: &Event) -> (r: bool)
    ensures
        r == (event@ == EventView::Exited(Some(0i32))),
{
    match event {
        Event::Exited(Some(code)) => *code == 0,
        _ => false,
    }
}

impl Workflow {
    /// Starts the workflow for `command`, with mount points as `paths`
    /// says.
    pub fn new(paths: PathConvention, command: Command) -> (w: Workflow)
        ensures
            w@ == initial(paths@, command@),
    {
        match command {
            Command::Open { device, label } => Workflow {
                paths,
                kind: Kind::Open,
                device,
                label,
                formatter: String::new(),
                phase: Phase::DeviceProbe,
                ended: None,
            },
            Command::Close { label } => Workflow {
                paths,
                kind: Kind::Close,
                device: String::new(),
                label,
                formatter: String::new(),
                phase: Phase::TargetProbe,
                ended: None,
            },
            Command::Format { device } => Workflow {
                paths,
                kind: Kind::Format,
                device,
                label: String::new(),
                formatter: String::new(),
                phase: Phase::DeviceProbe,
                ended: None,
            },
        }
    }

    /// Returns the outcome, once the workflow has ended.
    pub fn outcome(&self) -> (r: Option<Outcome>)
        ensures
            r == self@.ended,
    {
        self.ended
    }

    /// Returns what the workflow asks for while it has not ended.
    fn request(&self) -> (a: Action)
        ensures
            a@ == request(self@),
    {
        match self.phase {
            Phase::DeviceProbe => Action::Probe { path: self.device.clone() },
            Phase::Confirming => Action::Ask { prompt: ask_confirmation(self.device.as_str()) },
            Phase::Initializing => Action::Run { argv: initialize(self.device.as_str()) },
            Phase::Labeling => Action::Ask { prompt: ask_label() },
            Phase::Unlocking => Action::Run {
                argv: unlock(self.device.as_str(), self.label.as_str()),
            },
            Phase::ChoosingFs => Action::Ask { prompt: ask_filesystem() },
            Phase::RechoosingFs => Action::Ask {
                prompt: ask_filesystem_again(self.formatter.as_str()),
            },
            Phase::FormatterProbe => Action::Probe { path: self.formatter.clone() },
            Phase::MakingFs => Action::Run {
                argv: mkfs(self.formatter.as_str(), mapper_path(self.label.as_str()).as_str()),
            },
            Phase::MountProbe => Action::Probe { path: self.target() },
            Phase::Listing => Action::List { path: self.target() },
            Phase::Creating => Action::MakeDir { path: self.target() },
            Phase::Mounting => Action::Run {
                argv: mount(mapper_path(self.label.as_str()).as_str(), self.target().as_str()),
            },
            Phase::Unwinding => Action::Run { argv: lock(self.label.as_str()) },
            Phase::TargetProbe => Action::Probe { path: self.target() },
            Phase::Unmounting => Action::Run { argv: umount(self.target().as_str()) },
            Phase::Locking => Action::Run { argv: lock(self.label.as_str()) },
        }
    }

    /// Returns the mount point of the volume.
    fn target(&self) -> (r: String)
        ensures
            r@ == crate::model::target(self@),
    {
        self.paths.mount_point(self.label.as_str())
    }

    /// Returns the report that the mount point is in use.
    fn busy(&self) -> (r: String)
        ensures
            r@ == crate::model::busy_text(crate::model::target(self@)),
    {
        self.target().concat(
            " already exists and is not empty, closing with cryptsetup and aborting..",
        )
    }

    /// Returns the message with which the workflow ends when its outcome
    /// is `outcome`.
    fn report(&self, outcome: Outcome) -> (r: String)
        ensures
            r@ == report(self@, outcome),
    {
        match outcome {
            Outcome::Mounted => {
                let head = match self.kind {
                    Kind::Format => "Successfully formatted your new drive and mounted to ",
                    _ => "Successfully decrypted and mounted drive to ",
                };
                String::from_str(head).concat(self.target().as_str()).concat("!")
            },
            Outcome::Closed => String::from_str("Successfully closed ").concat(
                self.label.as_str(),
            ).concat("!"),
            Outcome::MissingPath => String::from_str("Could not find path '").concat(
                self.request().concern().as_str(),
            ).concat("', aborting.."),
            Outcome::NotConfirmed => String::from_str(
                "User did not confirm formatting of drive, aborting..",
            ),
            Outcome::CommandFailed => {
                let failed = String::from_str("Command '").concat(
                    self.request().concern().as_str(),
                ).concat("' failed\nAborting..");
                match self.phase {
                    Phase::Unwinding => self.busy().concat("\n").concat(failed.as_str()),
                    _ => failed,
                }
            },
            Outcome::MountPointBusy => self.busy(),
            Outcome::Fault => {
                let pending = self.request();
                String::from_str("Could not ").concat(pending.verb().as_str()).concat(" ").concat(
                    pending.concern().as_str(),
                ).concat(", aborting..")
            },
        }
    }

    /// Returns what the workflow asks of the driver now.
    pub fn pending(&self) -> (a: Action)
        ensures
            a@ == action_of(self@),
    {
        match self.ended {
            Some(outcome) => Action::Finish { outcome, message: self.report(outcome) },
            None => self.request(),
        }
    }

    /// Takes the driver's report on the pending action and moves on.
    pub fn feed(&mut self, event: &Event)
        ensures
            final(self)@ == next(old(self)@, event@),
    {
        if self.ended.is_some() {
            return ;
        }
        match self.phase {
            Phase::DeviceProbe => match event {
                Event::Found(found) => {
                    if !*found {
                        self.ended = Some(Outcome::MissingPath);
                    } else {
                        match self.kind {
                            Kind::Format => {
                                self.phase = Phase::Confirming;
                            },
                            _ => {
                                self.phase = Phase::Unlocking;
                            },
                        }
                    }
                },
                _ => {
                    self.ended = Some(Outcome::Fault);
                },
            },
            Phase::Confirming => match event {
                Event::Line(line) => {
                    if is_confirmation(line.as_str()) {
                        self.phase = Phase::Initializing;
                    } else {
                        self.ended = Some(Outcome::NotConfirmed);
                    }
                },
                _ => {
                    self.ended = Some(Outcome::Fault);
                },
            },
            Phase::Initializing => {
                if succeeded(event) {
                    self.phase = Phase::Labeling;
                } else {
                    self.ended = Some(Outcome::CommandFailed);
                }
            },
            Phase::Labeling => match event {
                Event::Line(line) => {
                    self.label = read_label(line.as_str());
                    self.phase = Phase::Unlocking;
                },
                _ => {
                    self.ended = Some(Outcome::Fault);
                },
            },
            Phase::Unlocking => {
                if succeeded(event) {
                    match self.kind {
                        Kind::Format => {
                            self.phase = Phase::ChoosingFs;
                        },
                        _ => {
                            self.phase = Phase::MountProbe;
                        },
                    }
                } else {
                    self.ended = Some(Outcome::CommandFailed);
                }
            },
            Phase::ChoosingFs | Phase::RechoosingFs => match event {
                Event::Line(line) => {
                    self.formatter = formatter(read_filesystem(line.as_str()).as_str());
                    self.phase = Phase::FormatterProbe;
                },
                _ => {
                    self.ended = Some(Outcome::Fault);
                },
            },
            Phase::FormatterProbe => match event {
                Event::Found(found) => {
                    if *found {
                        self.phase = Phase::MakingFs;
                    } else {
                        self.phase = Phase::RechoosingFs;
                    }
                },
                _ => {
                    self.ended = Some(Outcome::Fault);
                },
            },
            Phase::MakingFs => {
                if succeeded(event) {
                    self.phase = Phase::MountProbe;
                } else {
                    self.ended = Some(Outcome::CommandFailed);
                }
            },
            Phase::MountProbe => match event {
                Event::Found(found) => {
                    if *found {
                        self.phase = Phase::Listing;
                    } else {
                        self.phase = Phase::Creating;
                    }
                },
                _ => {
                    self.ended = Some(Outcome::Fault);
                },
            },
            Phase::Listing => match event {
                Event::Entries(n) => {
                    if *n == 0 {
                        self.phase = Phase::Mounting;
                    } else {
                        self.phase = Phase::Unwinding;
                    }
                },
                _ => {
                    self.ended = Some(Outcome::Fault);
                },
            },
            Phase::Creating => match event {
                Event::Made => {
                    self.phase = Phase::Mounting;
                },
                _ => {
                    self.ended = Some(Outcome::Fault);
                },
            },
            Phase::Mounting => {
                if succeeded(event) {
                    self.ended = Some(Outcome::Mounted);
                } else {
                    self.ended = Some(Outcome::CommandFailed);
                }
            },
            Phase::Unwinding => {
                if succeeded(event) {
                    self.ended = Some(Outcome::MountPointBusy);
                } else {
                    self.ended = Some(Outcome::CommandFailed);
                }
            },
            Phase::TargetProbe => match event {
                Event::Found(found) => {
                    if *found {
                        self.phase = Phase::Unmounting;
                    } else {
                        self.ended = Some(Outcome::MissingPath);
                    }
                },
                _ => {
                    self.ended = Some(Outcome::Fault);
                },
            },
            Phase::Unmounting => {
                if succeeded(event) {
                    self.phase = Phase::Locking;
                } else {
                    self.ended = Some(Outcome::CommandFailed);
                }
            },
            Phase::Locking => {
                if succeeded(event) {
                    self.ended = Some(Outcome::Closed);
                } else {
                    self.ended = Some(Outcome::CommandFailed);
                }
            },
        }
    }
}

} // verus!
