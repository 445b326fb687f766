//! What holds of every run of a workflow, whatever the driver reports.

use crate::cli::CommandView;
use crate::commands::{lock_argv, mkfs_argv, mount_argv, umount_argv, unlock_argv};
use crate::model::{
    action_of, busy_text, concern, exit_code_of, initial, next, report, request, target, verb,
    ActionView, EventView, Kind, Outcome, Phase, WorkflowView,
};
use crate::paths::{formatter_path, mapper_device, mount_point, PathConventionView};
use crate::prompt::{confirms, filesystem_of, retry_prompt};
use crate::run::{after, lemma_after_nothing, lemma_after_step, lemma_kept, requests};
use vstd::prelude::*;

verus! {

/// An action that changes something outside the process: a program of
/// the toolchain is run, or a directory is made.
pub open spec fn is_mutating(a: ActionView) -> bool {
    a is Run || a is MakeDir
}

/// The action runs the program named `program`.
pub open spec fn invokes(a: ActionView, program: Seq<char>) -> bool {
    a matches ActionView::Run { argv } && argv.len() > 0 && argv[0] == program
}

/// The action ends the process with a success.
pub open spec fn succeeds(a: ActionView) -> bool {
    a matches ActionView::Finish { outcome, message } && exit_code_of(outcome) == 0
}

/// The workflow has not ended and waits in `phase`.
pub open spec fn live_in(w: WorkflowView, phase: Phase) -> bool {
    w.ended is None && w.phase == phase
}

/// `part` stands somewhere in `text`.
pub open spec fn occurs_in(part: Seq<char>, text: Seq<char>) -> bool {
    exists|i: int|
        0 <= i && i + part.len() <= text.len() && #[trigger] text.subrange(i, i + part.len())
            == part
}

/// What is written between two texts occurs in the whole.
proof fn lemma_occurs_between(before: Seq<char>, part: Seq<char>, after: Seq<char>)
    ensures
        occurs_in(part, before + part + after),
{
    let text = before + part + after;
    let i = before.len() as int;
    assert(text.subrange(i, i + part.len()) =~= part);
}

/// Every message with which a workflow ends names what it is about: a
/// success the mount point or the label, a failure the path or the
/// command line that failed.  Only the report of a refused confirmation
/// names nothing.
pub proof fn law_reports_name_their_subject(w: WorkflowView, outcome: Outcome)
    ensures
        outcome == Outcome::Mounted || outcome == Outcome::MountPointBusy ==> occurs_in(
            target(w),
            report(w, outcome),
        ),
        outcome == Outcome::Closed ==> occurs_in(w.label, report(w, outcome)),
        outcome == Outcome::MissingPath || outcome == Outcome::CommandFailed || outcome
            == Outcome::Fault ==> occurs_in(concern(request(w)), report(w, outcome)),
{
    let subject = concern(request(w));
    match outcome {
        Outcome::Mounted => {
            lemma_occurs_between(
                "Successfully formatted your new drive and mounted to "@,
                target(w),
                "!"@,
            );
            lemma_occurs_between("Successfully decrypted and mounted drive to "@, target(w), "!"@);
        },
        Outcome::Closed => {
            lemma_occurs_between("Successfully closed "@, w.label, "!"@);
        },
        Outcome::MissingPath => {
            lemma_occurs_between("Could not find path '"@, subject, "', aborting.."@);
        },
        Outcome::NotConfirmed => {},
        Outcome::CommandFailed => {
            let after = "' failed\nAborting.."@;
            if w.phase == Phase::Unwinding {
                let before = busy_text(target(w)) + "\n"@ + "Command '"@;
                lemma_occurs_between(before, subject, after);
                assert(report(w, outcome) =~= before + subject + after);
            } else {
                lemma_occurs_between("Command '"@, subject, after);
            }
        },
        Outcome::MountPointBusy => {
            let before = Seq::<char>::empty();
            let after = " already exists and is not empty, closing with cryptsetup and aborting.."@;
            lemma_occurs_between(before, target(w), after);
            assert(before + target(w) + after =~= busy_text(target(w)));
        },
        Outcome::Fault => {
            lemma_occurs_between(
                "Could not "@ + verb(request(w)) + " "@,
                subject,
                ", aborting.."@,
            );
        },
    }
}

/// How far a workflow has come.  No step takes it back, and every step
/// takes it further but the one between asking for a file-system type
/// again and looking for its formatter.
pub open spec fn progress(w: WorkflowView) -> nat {
    if w.ended is Some {
        20
    } else {
        match w.phase {
            Phase::DeviceProbe => 0,
            Phase::Confirming => 1,
            Phase::Initializing => 2,
            Phase::Labeling => 3,
            Phase::Unlocking => 4,
            Phase::ChoosingFs => 5,
            Phase::RechoosingFs => 6,
            Phase::FormatterProbe => 6,
            Phase::MakingFs => 7,
            Phase::MountProbe => 8,
            Phase::Listing => 9,
            Phase::Creating => 10,
            Phase::Mounting => 11,
            Phase::Unwinding => 12,
            Phase::TargetProbe => 0,
            Phase::Unmounting => 1,
            Phase::Locking => 2,
        }
    }
}

/// The formatter, once one is chosen, is a program `/usr/bin/mkfs.*`.
pub open spec fn formatter_chosen_well(w: WorkflowView) -> bool {
    w.formatter.len() == 0 || exists|fs: Seq<char>| w.formatter == formatter_path(fs)
}

/// No step takes a workflow back.
pub proof fn lemma_progress(w: WorkflowView, e: EventView)
    ensures
        progress(w) <= progress(next(w, e)),
        w.ended is None && w.phase != Phase::RechoosingFs && w.phase != Phase::FormatterProbe
            ==> progress(w) < progress(next(w, e)),
{
}

/// A later state of a run is not behind an earlier one.
pub proof fn lemma_progress_along(w: WorkflowView, events: Seq<EventView>, i: int, j: int)
    requires
        0 <= i <= j <= events.len(),
    ensures
        progress(after(w, events.take(i))) <= progress(after(w, events.take(j))),
{
    let floor = progress(after(w, events.take(i)));
    let inv = |v: WorkflowView| floor <= progress(v);
    assert forall|v: WorkflowView, e: EventView| inv(v) implies inv(#[trigger] next(v, e)) by {
        lemma_progress(v, e);
    }
    lemma_kept(inv, w, events, i, j);
}

/// A workflow that has ended stays as it is.
pub proof fn lemma_ended_stays(w: WorkflowView, events: Seq<EventView>, k: int, j: int)
    requires
        0 <= k <= j <= events.len(),
        after(w, events.take(k)).ended is Some,
    ensures
        after(w, events.take(j)) == after(w, events.take(k)),
{
    let end = after(w, events.take(k));
    let inv = |v: WorkflowView| v == end;
    lemma_kept(inv, w, events, k, j);
}

/// Every state of a run from the start has a well-chosen formatter.
pub proof fn lemma_formatter_along(
    paths: PathConventionView,
    command: CommandView,
    events: Seq<EventView>,
    j: int,
)
    requires
        0 <= j <= events.len(),
    ensures
        formatter_chosen_well(after(initial(paths, command), events.take(j))),
{
    let inv = |v: WorkflowView| formatter_chosen_well(v);
    lemma_after_nothing(initial(paths, command), events);
    lemma_kept(inv, initial(paths, command), events, 0, j);
}

/// `mount` is run in one phase only.
pub proof fn lemma_mount_only_when_mounting(w: WorkflowView)
    requires
        formatter_chosen_well(w),
    ensures
        invokes(action_of(w), "mount"@) <==> live_in(w, Phase::Mounting),
{
    reveal_strlit("mount");
    reveal_strlit("umount");
    reveal_strlit("cryptsetup");
    reveal_strlit("/usr/bin/mkfs.");
    if w.formatter.len() > 0 {
        let fs = choose|fs: Seq<char>| w.formatter == formatter_path(fs);
        assert(w.formatter[0] == '/');
    }
    assert("mount"@[0] == 'm');
    assert("umount"@[0] == 'u');
    assert("cryptsetup"@[0] == 'c');
}

/// While opening a volume the workflow keeps the device and the label it
/// was started with.
pub proof fn law_open_keeps_its_names(
    paths: PathConventionView,
    device: Seq<char>,
    label: Seq<char>,
    events: Seq<EventView>,
    j: int,
)
    requires
        0 <= j <= events.len(),
    ensures
        ({
            let w = after(initial(paths, (CommandView::Open { device, label })), events.take(j));
            w.kind == Kind::Open && w.paths == paths && w.device == device && w.label == label
        }),
{
    let start = initial(paths, (CommandView::Open { device, label }));
    let inv = |v: WorkflowView|
        v.kind == Kind::Open && v.paths == paths && v.device == device && v.label == label
            && v.phase != Phase::Confirming && v.phase != Phase::Initializing && v.phase
            != Phase::Labeling;
    lemma_after_nothing(start, events);
    lemma_kept(inv, start, events, 0, j);
}

/// Where the block device does not exist, `open` and `format` end at once
/// with that finding and ask for nothing that changes anything: no
/// program is run and no directory is made, whatever the driver reports
/// afterwards.
pub proof fn law_missing_device_touches_nothing(
    paths: PathConventionView,
    command: CommandView,
    events: Seq<EventView>,
)
    requires
        !(command is Close),
        events.len() > 0,
        events[0] == EventView::Found(false),
    ensures
        ({
            let r = requests(initial(paths, command), events);
            let device = initial(paths, command).device;
            &&& r[0] == (ActionView::Probe { path: device })
            &&& forall|k: int| 0 <= k <= events.len() ==> !is_mutating(#[trigger] r[k])
            &&& forall|k: int|
                1 <= k <= events.len() ==> #[trigger] r[k] == (ActionView::Finish {
                    outcome: Outcome::MissingPath,
                    message: "Could not find path '"@ + device + "', aborting.."@,
                })
        }),
{
    let start = initial(paths, command);
    let r = requests(start, events);
    lemma_after_nothing(start, events);
    lemma_after_step(start, events, 0);
    assert forall|k: int| 1 <= k <= events.len() implies #[trigger] r[k] == (ActionView::Finish {
        outcome: Outcome::MissingPath,
        message: "Could not find path '"@ + start.device + "', aborting.."@,
    }) by {
        lemma_ended_stays(start, events, 1, k);
    }
}

/// Where the mount point does not exist, `close` ends at once with that
/// finding: neither `umount` nor `cryptsetup close` is run, nor anything
/// else.
pub proof fn law_missing_mount_point_closes_nothing(
    paths: PathConventionView,
    label: Seq<char>,
    events: Seq<EventView>,
)
    requires
        events.len() > 0,
        events[0] == EventView::Found(false),
    ensures
        ({
            let r = requests(initial(paths, (CommandView::Close { label })), events);
            let path = mount_point(paths, label);
            &&& r[0] == (ActionView::Probe { path })
            &&& forall|k: int| 0 <= k <= events.len() ==> !is_mutating(#[trigger] r[k])
            &&& forall|k: int|
                1 <= k <= events.len() ==> #[trigger] r[k] == (ActionView::Finish {
                    outcome: Outcome::MissingPath,
                    message: "Could not find path '"@ + path + "', aborting.."@,
                })
        }),
{
    let start = initial(paths, (CommandView::Close { label }));
    let r = requests(start, events);
    let path = mount_point(paths, label);
    lemma_after_nothing(start, events);
    lemma_after_step(start, events, 0);
    assert forall|k: int| 1 <= k <= events.len() implies #[trigger] r[k] == (ActionView::Finish {
        outcome: Outcome::MissingPath,
        message: "Could not find path '"@ + path + "', aborting.."@,
    }) by {
        lemma_ended_stays(start, events, 1, k);
    }
}

/// Nothing is wiped, and nothing else is changed, before the user has
/// confirmed: where `format` asks for anything that changes something,
/// the device was found and the line read next confirmed the wipe.
pub proof fn law_wipe_waits_for_confirmation(
    paths: PathConventionView,
    device: Seq<char>,
    events: Seq<EventView>,
    j: int,
)
    requires
        0 <= j <= events.len(),
        is_mutating(requests(initial(paths, (CommandView::Format { device })), events)[j]),
    ensures
        2 <= j,
        events[0] == EventView::Found(true),
        events[1] matches EventView::Line(line) && confirms(line),
{
    let start = initial(paths, (CommandView::Format { device }));
    lemma_after_nothing(start, events);
    if j >= 1 {
        lemma_after_step(start, events, 0);
        if after(start, events.take(1)).ended is Some {
            lemma_ended_stays(start, events, 1, j);
        } else if j >= 2 {
            lemma_after_step(start, events, 1);
            if after(start, events.take(2)).ended is Some {
                lemma_ended_stays(start, events, 2, j);
            }
        }
    }
}

/// `close` locks the volume only after it has unmounted it: where
/// `cryptsetup` is run at all, the mount point was found and `umount`
/// ended with the exit code 0 just before.
pub proof fn law_close_locks_only_after_unmounting(
    paths: PathConventionView,
    label: Seq<char>,
    events: Seq<EventView>,
    j: int,
)
    requires
        0 <= j <= events.len(),
        invokes(requests(initial(paths, (CommandView::Close { label })), events)[j], "cryptsetup"@),
    ensures
        ({
            let r = requests(initial(paths, (CommandView::Close { label })), events);
            &&& j == 2
            &&& events[0] == EventView::Found(true)
            &&& r[1] == (ActionView::Run { argv: umount_argv(mount_point(paths, label)) })
            &&& events[1] == EventView::Exited(Some(0i32))
            &&& r[2] == (ActionView::Run { argv: lock_argv(label) })
        }),
{
    reveal_strlit("umount");
    reveal_strlit("cryptsetup");
    assert("umount"@[0] == 'u');
    assert("cryptsetup"@[0] == 'c');
    let start = initial(paths, (CommandView::Close { label }));
    lemma_after_nothing(start, events);
    if j >= 1 {
        lemma_after_step(start, events, 0);
        if after(start, events.take(1)).ended is Some {
            lemma_ended_stays(start, events, 1, j);
        } else if j >= 2 {
            lemma_after_step(start, events, 1);
            if after(start, events.take(2)).ended is Some {
                lemma_ended_stays(start, events, 2, j);
            } else if j >= 3 {
                lemma_after_step(start, events, 2);
                lemma_ended_stays(start, events, 3, j);
            }
        }
    }
}

/// A formatter is run only when the driver has just found it installed,
/// and it is the formatter of the file system that the line read before
/// that finding names.
pub proof fn law_formatter_runs_only_when_found(
    paths: PathConventionView,
    command: CommandView,
    events: Seq<EventView>,
    j: int,
)
    requires
        0 <= j <= events.len(),
        live_in(after(initial(paths, command), events.take(j)), Phase::MakingFs),
    ensures
        ({
            let w = after(initial(paths, command), events.take(j));
            let r = requests(initial(paths, command), events);
            &&& 2 <= j
            &&& events[j - 2] matches EventView::Line(line) && w.formatter == formatter_path(
                filesystem_of(line),
            )
            &&& r[j - 1] == (ActionView::Probe { path: w.formatter })
            &&& events[j - 1] == EventView::Found(true)
            &&& r[j] == (ActionView::Run { argv: mkfs_argv(w.formatter, mapper_device(w.label)) })
        }),
{
    let start = initial(paths, command);
    lemma_after_nothing(start, events);
    lemma_after_step(start, events, j - 1);
    lemma_after_step(start, events, j - 2);
}

/// A formatter that is not installed is reported and the question is
/// put again: where the file-system type is asked for once more, the
/// driver has just found the formatter missing that the line read before
/// names, and the new question names that formatter.
pub proof fn law_missing_formatter_is_asked_again(
    paths: PathConventionView,
    command: CommandView,
    events: Seq<EventView>,
    j: int,
)
    requires
        0 <= j <= events.len(),
        live_in(after(initial(paths, command), events.take(j)), Phase::RechoosingFs),
    ensures
        ({
            let w = after(initial(paths, command), events.take(j));
            let r = requests(initial(paths, command), events);
            &&& 2 <= j
            &&& events[j - 2] matches EventView::Line(line) && w.formatter == formatter_path(
                filesystem_of(line),
            )
            &&& r[j - 1] == (ActionView::Probe { path: w.formatter })
            &&& events[j - 1] == EventView::Found(false)
            &&& r[j] == (ActionView::Ask { prompt: retry_prompt(w.formatter) })
        }),
{
    let start = initial(paths, command);
    lemma_after_nothing(start, events);
    lemma_after_step(start, events, j - 1);
    lemma_after_step(start, events, j - 2);
}

/// Where the mount point exists and holds an entry, the volume is locked
/// again with `cryptsetup close` under its label (when opening, the
/// label given on the command line) and the run fails: `mount` is run
/// nowhere in it, it does not end with a success, and once the driver has
/// reported on the locking nothing is left but to finish.
pub proof fn law_busy_mount_point_is_never_mounted(
    paths: PathConventionView,
    command: CommandView,
    events: Seq<EventView>,
    k: int,
    entries: nat,
)
    requires
        0 <= k < events.len(),
        live_in(after(initial(paths, command), events.take(k)), Phase::Listing),
        events[k] == EventView::Entries(entries),
        entries > 0,
    ensures
        ({
            let w = after(initial(paths, command), events.take(k));
            let r = requests(initial(paths, command), events);
            &&& r[k] == (ActionView::List { path: target(w) })
            &&& r[k + 1] == (ActionView::Run { argv: lock_argv(w.label) })
            &&& forall|i: int| 0 <= i <= events.len() ==> !invokes(#[trigger] r[i], "mount"@)
            &&& forall|i: int| 0 <= i <= events.len() ==> !succeeds(#[trigger] r[i])
            &&& forall|i: int| k + 2 <= i <= events.len() ==> #[trigger] r[i] is Finish
            &&& command matches CommandView::Open { device, label } ==> w.label == label
        }),
{
    let start = initial(paths, command);
    let w = after(start, events.take(k));
    let r = requests(start, events);
    if let CommandView::Open { device, label } = command {
        law_open_keeps_its_names(paths, device, label, events, k);
    }
    lemma_after_step(start, events, k);
    let undo = after(start, events.take(k + 1));
    assert(live_in(undo, Phase::Unwinding));
    let inv = |v: WorkflowView|
        v.phase == Phase::Unwinding && (v.ended is None || v.ended == Some(Outcome::MountPointBusy)
            || v.ended == Some(Outcome::CommandFailed));
    assert forall|i: int| 0 <= i <= events.len() implies !invokes(#[trigger] r[i], "mount"@)
        && !succeeds(r[i]) by {
        let v = after(start, events.take(i));
        lemma_formatter_along(paths, command, events, i);
        lemma_mount_only_when_mounting(v);
        if i <= k {
            lemma_progress_along(start, events, i, k);
        } else {
            lemma_kept(inv, start, events, k + 1, i);
        }
    }
    assert forall|i: int| k + 2 <= i <= events.len() implies #[trigger] r[i] is Finish by {
        lemma_after_step(start, events, k + 1);
        lemma_ended_stays(start, events, k + 2, i);
    }
}

/// Where the mount point does not exist, it is made, once, and `mount`
/// is run only after that: the one request to make a directory in the
/// whole run comes right after the finding, and the one request to run
/// `mount`, if any, right after the directory was made.
pub proof fn law_absent_mount_point_is_made_once(
    paths: PathConventionView,
    command: CommandView,
    events: Seq<EventView>,
    k: int,
)
    requires
        0 <= k < events.len(),
        live_in(after(initial(paths, command), events.take(k)), Phase::MountProbe),
        events[k] == EventView::Found(false),
    ensures
        ({
            let w = after(initial(paths, command), events.take(k));
            let r = requests(initial(paths, command), events);
            &&& r[k] == (ActionView::Probe { path: target(w) })
            &&& r[k + 1] == (ActionView::MakeDir { path: target(w) })
            &&& forall|i: int| 0 <= i <= events.len() && #[trigger] r[i] is MakeDir ==> i == k + 1
            &&& forall|i: int|
                0 <= i <= events.len() && invokes(#[trigger] r[i], "mount"@) ==> {
                    &&& i == k + 2
                    &&& events[k + 1] == EventView::Made
                    &&& r[i] == (ActionView::Run {
                        argv: mount_argv(mapper_device(w.label), target(w)),
                    })
                }
        }),
{
    let start = initial(paths, command);
    let w = after(start, events.take(k));
    let r = requests(start, events);
    lemma_after_step(start, events, k);
    assert(live_in(after(start, events.take(k + 1)), Phase::Creating));
    assert forall|i: int| 0 <= i <= events.len() && #[trigger] r[i] is MakeDir implies i == k
        + 1 by {
        if i <= k {
            lemma_progress_along(start, events, i, k);
        } else if i >= k + 2 {
            lemma_after_step(start, events, k + 1);
            lemma_progress(after(start, events.take(k + 1)), events[k + 1]);
            lemma_progress_along(start, events, k + 2, i);
        }
    }
    assert forall|i: int| 0 <= i <= events.len() && invokes(#[trigger] r[i], "mount"@) implies {
        &&& i == k + 2
        &&& events[k + 1] == EventView::Made
        &&& r[i] == (ActionView::Run { argv: mount_argv(mapper_device(w.label), target(w)) })
    } by {
        let v = after(start, events.take(i));
        lemma_formatter_along(paths, command, events, i);
        lemma_mount_only_when_mounting(v);
        if i <= k + 1 {
            lemma_progress_along(start, events, i, k + 1);
        } else {
            lemma_after_step(start, events, k + 1);
            if i >= k + 3 {
                lemma_after_step(start, events, k + 2);
                lemma_progress(after(start, events.take(k + 2)), events[k + 2]);
                lemma_progress_along(start, events, k + 3, i);
            }
        }
    }
}

/// Opening a volume whose device exists and whose mount point does not:
/// the volume is unlocked, the mount point is made, the volume is
/// mounted on it, and the run ends with a success that names the mount
/// point.
pub proof fn law_open_on_a_fresh_mount_point(
    paths: PathConventionView,
    device: Seq<char>,
    label: Seq<char>,
)
    ensures
        ({
            let path = mount_point(paths, label);
            requests(
                initial(paths, (CommandView::Open { device, label })),
                seq![
                    EventView::Found(true),
                    EventView::Exited(Some(0i32)),
                    EventView::Found(false),
                    EventView::Made,
                    EventView::Exited(Some(0i32)),
                ],
            ) == seq![
                (ActionView::Probe { path: device }),
                (ActionView::Run { argv: unlock_argv(device, label) }),
                (ActionView::Probe { path }),
                (ActionView::MakeDir { path }),
                (ActionView::Run { argv: mount_argv(mapper_device(label), path) }),
                (ActionView::Finish {
                    outcome: Outcome::Mounted,
                    message: "Successfully decrypted and mounted drive to "@ + path + "!"@,
                }),
            ]
        }),
{
    let start = initial(paths, (CommandView::Open { device, label }));
    let events = seq![
        EventView::Found(true),
        EventView::Exited(Some(0i32)),
        EventView::Found(false),
        EventView::Made,
        EventView::Exited(Some(0i32)),
    ];
    lemma_after_nothing(start, events);
    lemma_after_step(start, events, 0);
    lemma_after_step(start, events, 1);
    lemma_after_step(start, events, 2);
    lemma_after_step(start, events, 3);
    lemma_after_step(start, events, 4);
    let path = mount_point(paths, label);
    let expected = seq![
        (ActionView::Probe { path: device }),
        (ActionView::Run { argv: unlock_argv(device, label) }),
        (ActionView::Probe { path }),
        (ActionView::MakeDir { path }),
        (ActionView::Run { argv: mount_argv(mapper_device(label), path) }),
        (ActionView::Finish {
            outcome: Outcome::Mounted,
            message: "Successfully decrypted and mounted drive to "@ + path + "!"@,
        }),
    ];
    assert(requests(start, events) =~= expected);
}

} // verus!
