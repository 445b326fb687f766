use ezluks::cli::Command;
use ezluks::model::Outcome;
use ezluks::paths::PathConvention;
use ezluks::run::replay;
use ezluks::workflow::{Action, Event, Workflow};

fn s(text: &str) -> String {
    String::from(text)
}

fn open(device: &str, label: &str) -> Command {
    Command::Open { device: s(device), label: s(label) }
}

fn close(label: &str) -> Command {
    Command::Close { label: s(label) }
}

fn format(device: &str) -> Command {
    Command::Format { device: s(device) }
}

fn probe(path: &str) -> Action {
    Action::Probe { path: s(path) }
}

fn list(path: &str) -> Action {
    Action::List { path: s(path) }
}

fn make_dir(path: &str) -> Action {
    Action::MakeDir { path: s(path) }
}

fn ask(prompt: &str) -> Action {
    Action::Ask { prompt: s(prompt) }
}

fn run(argv: &[&str]) -> Action {
    Action::Run { argv: argv.iter().map(|w| s(w)).collect() }
}

fn finish(outcome: Outcome, message: &str) -> Action {
    Action::Finish { outcome, message: s(message) }
}

fn line(text: &str) -> Event {
    Event::Line(s(text))
}

fn is_mutating(action: &Action) -> bool {
    matches!(action, Action::Run { .. } | Action::MakeDir { .. })
}

fn invokes(action: &Action, program: &str) -> bool {
    match action {
        Action::Run { argv } => argv.first().map(|p| p == program).unwrap_or(false),
        _ => false,
    }
}

fn closes(action: &Action, label: &str) -> bool {
    *action == run(&["cryptsetup", "close", label])
}

const CONFIRM: &str = "Are you SURE you want to luksFormat /dev/sdX1? THIS *WILL* WIPE ALL DATA ON IT!\nEnter the string yes in all capitals to continue: ";
const LABEL: &str = "Give your new luks volume a mapper label: ";
const FILESYSTEM: &str = "What file system would you like this drive to have?\n(default = ext4): ";

/// The events that take `format /dev/sdX1` up to the probe of the mount
/// point of the new volume `vault`, with `ext4` as its file system.
fn provisioned() -> Vec<Event> {
    vec![
        Event::Found(true),
        line("YES\n"),
        Event::Exited(Some(0)),
        line("vault\n"),
        Event::Exited(Some(0)),
        line("\n"),
        Event::Found(true),
        Event::Exited(Some(0)),
    ]
}

#[test]
fn open_unlocks_creates_the_mount_point_and_mounts() {
    let events = vec![
        Event::Found(true),
        Event::Exited(Some(0)),
        Event::Found(false),
        Event::Made,
        Event::Exited(Some(0)),
    ];
    let actions = replay(PathConvention::Fixed, open("/dev/sdX1", "vault"), &events);
    assert_eq!(
        actions,
        vec![
            probe("/dev/sdX1"),
            run(&["cryptsetup", "open", "/dev/sdX1", "vault"]),
            probe("/mnt/vault"),
            make_dir("/mnt/vault"),
            run(&["mount", "/dev/mapper/vault", "/mnt/vault"]),
            finish(Outcome::Mounted, "Successfully decrypted and mounted drive to /mnt/vault!"),
        ]
    );
    match &actions[5] {
        Action::Finish { outcome, message } => {
            assert_eq!(outcome.exit_code(), 0);
            assert!(message.contains("/mnt/vault"));
        }
        other => panic!("the run did not finish: {:?}", other),
    }
}

#[test]
fn open_mounts_under_the_users_media_directory() {
    let events = vec![
        Event::Found(true),
        Event::Exited(Some(0)),
        Event::Found(false),
        Event::Made,
        Event::Exited(Some(0)),
    ];
    let paths = PathConvention::PerUser { user: s("alice") };
    let actions = replay(paths, open("/dev/sdb2", "my_drive"), &events);
    assert_eq!(
        actions,
        vec![
            probe("/dev/sdb2"),
            run(&["cryptsetup", "open", "/dev/sdb2", "my_drive"]),
            probe("/run/media/alice/my_drive"),
            make_dir("/run/media/alice/my_drive"),
            run(&["mount", "/dev/mapper/my_drive", "/run/media/alice/my_drive"]),
            finish(
                Outcome::Mounted,
                "Successfully decrypted and mounted drive to /run/media/alice/my_drive!"
            ),
        ]
    );
}

#[test]
fn open_mounts_on_an_existing_empty_directory_without_making_it() {
    let events = vec![
        Event::Found(true),
        Event::Exited(Some(0)),
        Event::Found(true),
        Event::Entries(0),
        Event::Exited(Some(0)),
    ];
    let actions = replay(PathConvention::Fixed, open("/dev/sdX1", "vault"), &events);
    assert_eq!(
        actions,
        vec![
            probe("/dev/sdX1"),
            run(&["cryptsetup", "open", "/dev/sdX1", "vault"]),
            probe("/mnt/vault"),
            list("/mnt/vault"),
            run(&["mount", "/dev/mapper/vault", "/mnt/vault"]),
            finish(Outcome::Mounted, "Successfully decrypted and mounted drive to /mnt/vault!"),
        ]
    );
    assert!(actions.iter().all(|a| !matches!(a, Action::MakeDir { .. })));
}

#[test]
fn open_of_a_missing_device_touches_nothing() {
    for label in ["vault", "", "a b"] {
        let events = vec![
            Event::Found(false),
            Event::Exited(Some(0)),
            Event::Found(false),
            Event::Made,
            Event::Exited(Some(0)),
        ];
        let actions = replay(PathConvention::Fixed, open("/dev/nope", label), &events);
        assert_eq!(actions.len(), 6);
        assert_eq!(actions[0], probe("/dev/nope"));
        for action in &actions[1..] {
            assert_eq!(
                *action,
                finish(Outcome::MissingPath, "Could not find path '/dev/nope', aborting..")
            );
        }
        assert!(actions.iter().all(|a| !is_mutating(a)));
    }
}

#[test]
fn format_of_a_missing_device_touches_nothing() {
    let events = vec![Event::Found(false), line("YES\n"), Event::Exited(Some(0))];
    let actions = replay(PathConvention::Fixed, format("/dev/nope"), &events);
    assert_eq!(actions[0], probe("/dev/nope"));
    assert_eq!(
        actions[1],
        finish(Outcome::MissingPath, "Could not find path '/dev/nope', aborting..")
    );
    assert_eq!(actions[1], actions[2]);
    assert_eq!(actions[1], actions[3]);
    assert!(actions.iter().all(|a| !is_mutating(a)));
    assert!(actions.iter().all(|a| !matches!(a, Action::Ask { .. })));
}

#[test]
fn close_unmounts_and_then_locks() {
    let events = vec![Event::Found(true), Event::Exited(Some(0)), Event::Exited(Some(0))];
    let actions = replay(PathConvention::Fixed, close("vault"), &events);
    assert_eq!(
        actions,
        vec![
            probe("/mnt/vault"),
            run(&["umount", "/mnt/vault"]),
            run(&["cryptsetup", "close", "vault"]),
            finish(Outcome::Closed, "Successfully closed vault!"),
        ]
    );
    let paths = PathConvention::PerUser { user: s("bob") };
    let actions = replay(paths, close("vault"), &events);
    assert_eq!(actions[0], probe("/run/media/bob/vault"));
    assert_eq!(actions[1], run(&["umount", "/run/media/bob/vault"]));
}

#[test]
fn close_without_a_mount_point_runs_nothing() {
    let events = vec![Event::Found(false), Event::Exited(Some(0)), Event::Exited(Some(0))];
    let actions = replay(PathConvention::Fixed, close("vault"), &events);
    assert_eq!(actions[0], probe("/mnt/vault"));
    assert_eq!(
        actions[1],
        finish(Outcome::MissingPath, "Could not find path '/mnt/vault', aborting..")
    );
    assert!(actions.iter().all(|a| !invokes(a, "umount")));
    assert!(actions.iter().all(|a| !invokes(a, "cryptsetup")));
    assert!(actions.iter().all(|a| !is_mutating(a)));
}

#[test]
fn close_does_not_lock_after_a_failed_unmount() {
    let events = vec![Event::Found(true), Event::Exited(Some(1)), Event::Exited(Some(0))];
    let actions = replay(PathConvention::Fixed, close("vault"), &events);
    assert_eq!(
        actions[2],
        finish(Outcome::CommandFailed, "Command 'umount /mnt/vault' failed\nAborting..")
    );
    assert_eq!(actions[3], actions[2]);
    assert!(actions.iter().all(|a| !closes(a, "vault")));
}

#[test]
fn close_reports_a_failed_lock() {
    let events = vec![Event::Found(true), Event::Exited(Some(0)), Event::Exited(Some(1))];
    let actions = replay(PathConvention::Fixed, close("vault"), &events);
    assert_eq!(
        actions[3],
        finish(Outcome::CommandFailed, "Command 'cryptsetup close vault' failed\nAborting..")
    );
}

#[test]
fn format_asks_before_it_wipes() {
    for refusal in ["yes", "", "YES ", "yes\n", "\n", "YES \n", " YES\n", "no\n"] {
        let events = vec![Event::Found(true), line(refusal), Event::Exited(Some(0))];
        let actions = replay(PathConvention::Fixed, format("/dev/sdX1"), &events);
        assert_eq!(actions[0], probe("/dev/sdX1"));
        assert_eq!(actions[1], ask(CONFIRM));
        assert_eq!(
            actions[2],
            finish(
                Outcome::NotConfirmed,
                "User did not confirm formatting of drive, aborting.."
            ),
            "after {:?}",
            refusal
        );
        assert_eq!(actions[3], actions[2]);
        assert!(actions.iter().all(|a| !is_mutating(a)));
    }
    for consent in ["YES", "YES\n", "YES\r\n"] {
        let events = vec![Event::Found(true), line(consent)];
        let actions = replay(PathConvention::Fixed, format("/dev/sdX1"), &events);
        assert_eq!(actions[2], run(&["cryptsetup", "luksFormat", "/dev/sdX1"]), "after {:?}", consent);
    }
}

#[test]
fn format_asks_again_for_a_file_system_that_has_no_formatter() {
    let events = vec![
        Event::Found(true),
        line("YES\n"),
        Event::Exited(Some(0)),
        line("vault\n"),
        Event::Exited(Some(0)),
        line("bogusfs"),
        Event::Found(false),
        line(""),
        Event::Found(true),
        Event::Exited(Some(0)),
        Event::Found(false),
        Event::Made,
        Event::Exited(Some(0)),
    ];
    let actions = replay(PathConvention::Fixed, format("/dev/sdX1"), &events);
    assert_eq!(
        actions,
        vec![
            probe("/dev/sdX1"),
            ask(CONFIRM),
            run(&["cryptsetup", "luksFormat", "/dev/sdX1"]),
            ask(LABEL),
            run(&["cryptsetup", "open", "/dev/sdX1", "vault"]),
            ask(FILESYSTEM),
            probe("/usr/bin/mkfs.bogusfs"),
            ask("Could not find /usr/bin/mkfs.bogusfs, please try again.\nWhat file system would you like this drive to have?\n(default = ext4): "),
            probe("/usr/bin/mkfs.ext4"),
            run(&["/usr/bin/mkfs.ext4", "/dev/mapper/vault"]),
            probe("/mnt/vault"),
            make_dir("/mnt/vault"),
            run(&["mount", "/dev/mapper/vault", "/mnt/vault"]),
            finish(
                Outcome::Mounted,
                "Successfully formatted your new drive and mounted to /mnt/vault!"
            ),
        ]
    );
    let formatted: Vec<&Action> =
        actions.iter().filter(|a| invokes(a, "/usr/bin/mkfs.ext4")).collect();
    assert_eq!(formatted.len(), 1);
    assert!(actions.iter().all(|a| !invokes(a, "/usr/bin/mkfs.bogusfs")));
}

#[test]
fn format_keeps_asking_while_no_formatter_is_found() {
    let mut events = vec![
        Event::Found(true),
        line("YES\n"),
        Event::Exited(Some(0)),
        line("vault\n"),
        Event::Exited(Some(0)),
    ];
    for round in 0..50 {
        events.push(line(&format!("fs{}\n", round)));
        events.push(Event::Found(false));
    }
    let actions = replay(PathConvention::Fixed, format("/dev/sdX1"), &events);
    assert_eq!(actions.len(), 106);
    assert_eq!(actions[5], ask(FILESYSTEM));
    for round in 0..50 {
        let missing = format!("/usr/bin/mkfs.fs{}", round);
        assert_eq!(actions[6 + 2 * round], probe(&missing));
        assert_eq!(
            actions[7 + 2 * round],
            ask(&format!("Could not find {}, please try again.\n{}", missing, FILESYSTEM))
        );
    }
    assert!(actions.iter().all(|a| !matches!(a, Action::Finish { .. })));
}

#[test]
fn format_takes_the_file_system_that_the_user_names() {
    let mut events = provisioned();
    events[5] = line("  btrfs \n");
    let actions = replay(PathConvention::Fixed, format("/dev/sdX1"), &events);
    assert_eq!(actions[6], probe("/usr/bin/mkfs.btrfs"));
    assert_eq!(actions[7], run(&["/usr/bin/mkfs.btrfs", "/dev/mapper/vault"]));
    assert_eq!(actions[8], probe("/mnt/vault"));
}

#[test]
fn format_accepts_an_empty_label() {
    let mut events = provisioned();
    events[3] = line(" \n");
    events.push(Event::Found(false));
    let actions = replay(PathConvention::Fixed, format("/dev/sdX1"), &events);
    assert_eq!(actions[4], run(&["cryptsetup", "open", "/dev/sdX1", ""]));
    assert_eq!(actions[7], run(&["/usr/bin/mkfs.ext4", "/dev/mapper/"]));
    assert_eq!(actions[8], probe("/mnt/"));
    assert_eq!(actions[9], make_dir("/mnt/"));
}

#[test]
fn format_leaves_the_volume_unlocked_when_the_formatter_fails() {
    let mut events = provisioned();
    events[7] = Event::Exited(Some(1));
    events.push(Event::Exited(Some(0)));
    let actions = replay(PathConvention::Fixed, format("/dev/sdX1"), &events);
    assert_eq!(
        actions[8],
        finish(
            Outcome::CommandFailed,
            "Command '/usr/bin/mkfs.ext4 /dev/mapper/vault' failed\nAborting.."
        )
    );
    assert_eq!(actions[9], actions[8]);
    assert!(actions.iter().all(|a| !closes(a, "vault")));
}

#[test]
fn format_stops_when_the_device_cannot_be_initialized_or_unlocked() {
    let events = vec![Event::Found(true), line("YES\n"), Event::Exited(Some(1))];
    let actions = replay(PathConvention::Fixed, format("/dev/sdX1"), &events);
    assert_eq!(
        actions[3],
        finish(
            Outcome::CommandFailed,
            "Command 'cryptsetup luksFormat /dev/sdX1' failed\nAborting.."
        )
    );
    let events = vec![
        Event::Found(true),
        line("YES\n"),
        Event::Exited(Some(0)),
        line("vault\n"),
        Event::Exited(Some(1)),
    ];
    let actions = replay(PathConvention::Fixed, format("/dev/sdX1"), &events);
    assert_eq!(
        actions[5],
        finish(
            Outcome::CommandFailed,
            "Command 'cryptsetup open /dev/sdX1 vault' failed\nAborting.."
        )
    );
}

#[test]
fn open_locks_again_when_the_mount_point_is_in_use() {
    for entries in [1usize, 2, usize::MAX] {
        let events = vec![
            Event::Found(true),
            Event::Exited(Some(0)),
            Event::Found(true),
            Event::Entries(entries),
            Event::Exited(Some(0)),
            Event::Exited(Some(0)),
        ];
        let actions = replay(PathConvention::Fixed, open("/dev/sdX1", "vault"), &events);
        assert_eq!(actions[3], list("/mnt/vault"));
        assert_eq!(actions[4], run(&["cryptsetup", "close", "vault"]));
        assert_eq!(
            actions[5],
            finish(
                Outcome::MountPointBusy,
                "/mnt/vault already exists and is not empty, closing with cryptsetup and aborting.."
            )
        );
        assert_eq!(actions[6], actions[5]);
        assert_eq!(Outcome::MountPointBusy.exit_code(), 1);
        assert!(actions.iter().all(|a| !invokes(a, "mount")));
        assert!(actions.iter().all(|a| !matches!(a, Action::MakeDir { .. })));
    }
}

#[test]
fn format_locks_again_when_the_mount_point_is_in_use() {
    let mut events = provisioned();
    events.push(Event::Found(true));
    events.push(Event::Entries(3));
    events.push(Event::Exited(Some(0)));
    let paths = PathConvention::PerUser { user: s("alice") };
    let actions = replay(paths, format("/dev/sdX1"), &events);
    assert_eq!(actions[8], probe("/run/media/alice/vault"));
    assert_eq!(actions[9], list("/run/media/alice/vault"));
    assert_eq!(actions[10], run(&["cryptsetup", "close", "vault"]));
    assert_eq!(
        actions[11],
        finish(
            Outcome::MountPointBusy,
            "/run/media/alice/vault already exists and is not empty, closing with cryptsetup and aborting.."
        )
    );
    assert!(actions.iter().all(|a| !invokes(a, "mount")));
}

#[test]
fn a_failed_lock_after_a_busy_mount_point_reports_both() {
    let events = vec![
        Event::Found(true),
        Event::Exited(Some(0)),
        Event::Found(true),
        Event::Entries(1),
        Event::Exited(Some(1)),
    ];
    let actions = replay(PathConvention::Fixed, open("/dev/sdX1", "vault"), &events);
    assert_eq!(
        actions[5],
        finish(
            Outcome::CommandFailed,
            "/mnt/vault already exists and is not empty, closing with cryptsetup and aborting..\nCommand 'cryptsetup close vault' failed\nAborting.."
        )
    );
    assert!(actions.iter().all(|a| !invokes(a, "mount")));
}

#[test]
fn the_mount_point_is_made_once_and_before_the_mount() {
    let mut events = provisioned();
    events.push(Event::Found(false));
    events.push(Event::Made);
    events.push(Event::Exited(Some(0)));
    events.push(Event::Made);
    for (paths, command, script) in [
        (
            PathConvention::Fixed,
            open("/dev/sdX1", "vault"),
            vec![
                Event::Found(true),
                Event::Exited(Some(0)),
                Event::Found(false),
                Event::Made,
                Event::Exited(Some(0)),
                Event::Made,
            ],
        ),
        (PathConvention::Fixed, format("/dev/sdX1"), events),
    ] {
        let actions = replay(paths, command, &script);
        let made: Vec<usize> = (0..actions.len())
            .filter(|i| matches!(actions[*i], Action::MakeDir { .. }))
            .collect();
        let mounted: Vec<usize> =
            (0..actions.len()).filter(|i| invokes(&actions[*i], "mount")).collect();
        assert_eq!(made.len(), 1);
        assert_eq!(mounted.len(), 1);
        assert_eq!(actions[made[0]], make_dir("/mnt/vault"));
        assert_eq!(mounted[0], made[0] + 1);
    }
}

#[test]
fn a_failed_mount_is_reported() {
    let events = vec![
        Event::Found(true),
        Event::Exited(Some(0)),
        Event::Found(false),
        Event::Made,
        Event::Exited(Some(1)),
    ];
    let actions = replay(PathConvention::Fixed, open("/dev/sdX1", "vault"), &events);
    assert_eq!(
        actions[5],
        finish(
            Outcome::CommandFailed,
            "Command 'mount /dev/mapper/vault /mnt/vault' failed\nAborting.."
        )
    );
}

#[test]
fn a_failed_unlock_is_reported() {
    let events = vec![Event::Found(true), Event::Exited(Some(1)), Event::Found(false)];
    let actions = replay(PathConvention::Fixed, open("/dev/sdX1", "vault"), &events);
    assert_eq!(
        actions[2],
        finish(
            Outcome::CommandFailed,
            "Command 'cryptsetup open /dev/sdX1 vault' failed\nAborting.."
        )
    );
    assert_eq!(actions[3], actions[2]);
}

#[test]
fn a_directory_that_cannot_be_read_or_made_ends_the_run() {
    let events =
        vec![Event::Found(true), Event::Exited(Some(0)), Event::Found(true), Event::Fault];
    let actions = replay(PathConvention::Fixed, open("/dev/sdX1", "vault"), &events);
    assert_eq!(actions[4], finish(Outcome::Fault, "Could not list /mnt/vault, aborting.."));
    let events =
        vec![Event::Found(true), Event::Exited(Some(0)), Event::Found(false), Event::Fault];
    let actions = replay(PathConvention::Fixed, open("/dev/sdX1", "vault"), &events);
    assert_eq!(actions[4], finish(Outcome::Fault, "Could not create /mnt/vault, aborting.."));
    assert_eq!(Outcome::Fault.exit_code(), 1);
}

#[test]
fn a_line_that_cannot_be_read_ends_the_run() {
    let events = vec![Event::Found(true), Event::Fault];
    let actions = replay(PathConvention::Fixed, format("/dev/sdX1"), &events);
    assert_eq!(actions[2], finish(Outcome::Fault, "Could not read standard input, aborting.."));
    let mut events = provisioned();
    events[3] = Event::Fault;
    let actions = replay(PathConvention::Fixed, format("/dev/sdX1"), &events);
    assert_eq!(actions[4], finish(Outcome::Fault, "Could not read standard input, aborting.."));
    let mut events = provisioned();
    events[5] = Event::Fault;
    let actions = replay(PathConvention::Fixed, format("/dev/sdX1"), &events);
    assert_eq!(actions[6], finish(Outcome::Fault, "Could not read standard input, aborting.."));
}

#[test]
fn a_program_that_cannot_be_started_counts_as_failed() {
    let events = vec![Event::Found(true), Event::Fault];
    let actions = replay(PathConvention::Fixed, close("vault"), &events);
    assert_eq!(
        actions[2],
        finish(Outcome::CommandFailed, "Command 'umount /mnt/vault' failed\nAborting..")
    );
}

#[test]
fn an_event_out_of_turn_ends_the_run_with_a_fault() {
    let actions = replay(PathConvention::Fixed, open("/dev/sdX1", "vault"), &vec![Event::Made]);
    assert_eq!(actions[1], finish(Outcome::Fault, "Could not examine /dev/sdX1, aborting.."));
    let actions = replay(PathConvention::Fixed, close("vault"), &vec![line("YES\n")]);
    assert_eq!(actions[1], finish(Outcome::Fault, "Could not examine /mnt/vault, aborting.."));
    let mut events = provisioned();
    events[6] = Event::Entries(0);
    let actions = replay(PathConvention::Fixed, format("/dev/sdX1"), &events);
    assert_eq!(
        actions[7],
        finish(Outcome::Fault, "Could not examine /usr/bin/mkfs.ext4, aborting..")
    );
    let actions = replay(
        PathConvention::Fixed,
        open("/dev/sdX1", "vault"),
        &vec![Event::Found(true), Event::Found(true)],
    );
    assert_eq!(
        actions[2],
        finish(
            Outcome::CommandFailed,
            "Command 'cryptsetup open /dev/sdX1 vault' failed\nAborting.."
        )
    );
}

#[test]
fn a_workflow_driven_by_hand_asks_what_replay_records() {
    let events = provisioned();
    let recorded = replay(PathConvention::Fixed, format("/dev/sdX1"), &events);
    let mut workflow = Workflow::new(PathConvention::Fixed, format("/dev/sdX1"));
    assert_eq!(workflow.outcome(), None);
    assert_eq!(workflow.pending(), recorded[0]);
    assert_eq!(workflow.pending(), recorded[0]);
    for (i, event) in events.iter().enumerate() {
        workflow.feed(event);
        assert_eq!(workflow.pending(), recorded[i + 1]);
    }
    assert_eq!(workflow.outcome(), None);
    assert_eq!(recorded.len(), events.len() + 1);
}

#[test]
fn a_workflow_that_has_ended_stays_as_it_is() {
    let mut workflow = Workflow::new(PathConvention::Fixed, close("vault"));
    workflow.feed(&Event::Found(true));
    workflow.feed(&Event::Exited(Some(0)));
    workflow.feed(&Event::Exited(Some(0)));
    assert_eq!(workflow.outcome(), Some(Outcome::Closed));
    let end = workflow.pending();
    for event in [
        Event::Found(true),
        Event::Found(false),
        Event::Entries(0),
        line("YES"),
        Event::Exited(Some(1)),
        Event::Made,
        Event::Fault,
    ] {
        workflow.feed(&event);
        assert_eq!(workflow.outcome(), Some(Outcome::Closed));
        assert_eq!(workflow.pending(), end);
    }
}

#[test]
fn replay_without_events_records_the_first_request() {
    let none: Vec<Event> = Vec::new();
    assert_eq!(replay(PathConvention::Fixed, open("/dev/sdX1", "v"), &none), vec![probe("/dev/sdX1")]);
    assert_eq!(replay(PathConvention::Fixed, format("/dev/sdX1"), &none), vec![probe("/dev/sdX1")]);
    assert_eq!(replay(PathConvention::Fixed, close("v"), &none), vec![probe("/mnt/v")]);
}

#[test]
fn only_the_two_successes_exit_with_zero() {
    assert_eq!(Outcome::Mounted.exit_code(), 0);
    assert_eq!(Outcome::Closed.exit_code(), 0);
    assert_eq!(Outcome::MissingPath.exit_code(), 1);
    assert_eq!(Outcome::NotConfirmed.exit_code(), 1);
    assert_eq!(Outcome::CommandFailed.exit_code(), 1);
    assert_eq!(Outcome::MountPointBusy.exit_code(), 1);
    assert_eq!(Outcome::Fault.exit_code(), 1);
}

#[test]
fn the_concern_of_an_action() {
    assert_eq!(probe("/dev/sdX1").concern(), "/dev/sdX1");
    assert_eq!(list("/mnt/vault").concern(), "/mnt/vault");
    assert_eq!(make_dir("/mnt/vault").concern(), "/mnt/vault");
    assert_eq!(run(&["cryptsetup", "close", "vault"]).concern(), "cryptsetup close vault");
    assert_eq!(ask(LABEL).concern(), "standard input");
    assert_eq!(finish(Outcome::Closed, "Successfully closed vault!").concern(), "");
}

#[test]
fn only_the_exit_code_zero_is_a_success() {
    for code in [Some(1), Some(2), Some(-1), Some(255), Some(i32::MAX), Some(i32::MIN), None] {
        let events = vec![Event::Found(true), Event::Exited(code)];
        let actions = replay(PathConvention::Fixed, close("vault"), &events);
        assert_eq!(
            actions[2],
            finish(Outcome::CommandFailed, "Command 'umount /mnt/vault' failed\nAborting.."),
            "after {:?}",
            code
        );
    }
    let events = vec![Event::Found(true), Event::Exited(Some(0))];
    let actions = replay(PathConvention::Fixed, close("vault"), &events);
    assert_eq!(actions[2], run(&["cryptsetup", "close", "vault"]));
}
