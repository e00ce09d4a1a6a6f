use dirserve::scan::{DirListing, FileKind, ScanEntry};
use dirserve::sync::{report_of, Action, Event, Phase, Synchronizer, CYCLE_DELAY_SECS};

fn file(path: &str) -> ScanEntry {
    ScanEntry {
        relative: Some(path.to_string()),
        kind: Some(FileKind { is_file: true, is_symlink: false }),
    }
}

fn listing(entries: Vec<ScanEntry>) -> Result<DirListing, String> {
    Ok(DirListing { entries, failure: None })
}

fn machine_in(phase: Phase) -> Synchronizer {
    let (mut machine, _) = Synchronizer::new("/srv".to_string());
    match phase {
        Phase::Root => {}
        Phase::Scan => {
            machine.step(Event::RootChecked(true));
        }
        Phase::Write => {
            machine.step(Event::RootChecked(true));
            machine.step(Event::Scanned(listing(Vec::new())));
        }
        Phase::Report => {
            machine.step(Event::RootChecked(false));
        }
        Phase::Sleep => {
            machine.step(Event::Slept);
        }
    }
    assert_eq!(machine.phase(), phase);
    machine
}

#[test]
fn new_machine_waits_for_the_root() {
    let (machine, first) = Synchronizer::new("/srv/www".to_string());
    assert_eq!(first, Action::CheckRoot);
    assert_eq!(machine.phase(), Phase::Root);
    assert_eq!(machine.root(), "/srv/www");
}

#[test]
fn delay_is_one_second() {
    assert_eq!(CYCLE_DELAY_SECS, 1);
}

#[test]
fn full_cycle_writes_the_listing() {
    let (mut machine, _) = Synchronizer::new("/srv".to_string());
    assert_eq!(machine.step(Event::RootChecked(true)), Action::Scan);
    assert_eq!(machine.phase(), Phase::Scan);
    let action = machine.step(Event::Scanned(listing(vec![file("a.css"), file("b.js")])));
    assert_eq!(
        action,
        Action::Write(
            "<!DOCTYPE html><html><head></head><body><main><ul>\
             <li><a href=\"/a.css\">a.css</a></li>\
             <li><a href=\"/b.js\">b.js</a></li>\
             </ul></body></html>"
                .to_string()
        )
    );
    assert_eq!(machine.phase(), Phase::Write);
    assert_eq!(machine.step(Event::Written(Ok(()))), Action::Sleep(1));
    assert_eq!(machine.phase(), Phase::Sleep);
    assert_eq!(machine.step(Event::Slept), Action::CheckRoot);
    assert_eq!(machine.phase(), Phase::Root);
    assert_eq!(machine.root(), "/srv");
}

#[test]
fn empty_directory_writes_the_empty_listing() {
    let mut machine = machine_in(Phase::Scan);
    assert_eq!(
        machine.step(Event::Scanned(listing(Vec::new()))),
        Action::Write(
            "<!DOCTYPE html><html><head></head><body><main><ul></ul></body></html>".to_string()
        )
    );
}

#[test]
fn missing_root_skips_the_cycle() {
    let (mut machine, _) = Synchronizer::new("/srv/gone".to_string());
    assert_eq!(
        machine.step(Event::RootChecked(false)),
        Action::Warn("Root no longer exists at /srv/gone".to_string())
    );
    assert_eq!(machine.phase(), Phase::Report);
    assert_eq!(machine.step(Event::Reported), Action::Sleep(1));
    assert_eq!(machine.phase(), Phase::Sleep);
    assert_eq!(machine.step(Event::Slept), Action::CheckRoot);
}

#[test]
fn missing_root_asks_for_no_write() {
    let (mut machine, _) = Synchronizer::new("/srv".to_string());
    let mut actions = vec![machine.step(Event::RootChecked(false))];
    actions.push(machine.step(Event::Reported));
    for action in &actions {
        assert!(!matches!(action, Action::Write(_)));
        assert!(!matches!(action, Action::Report(_)));
        assert!(!matches!(action, Action::Scan));
    }
}

#[test]
fn failed_scan_is_reported_and_nothing_is_written() {
    let mut machine = machine_in(Phase::Scan);
    assert_eq!(
        machine.step(Event::Scanned(Err("Permission denied (os error 13)".to_string()))),
        Action::Report(
            "Error in index generation: Error reading /srv: Permission denied (os error 13)"
                .to_string()
        )
    );
    assert_eq!(machine.phase(), Phase::Report);
    assert_eq!(machine.step(Event::Reported), Action::Sleep(1));
    assert_eq!(machine.step(Event::Slept), Action::CheckRoot);
}

#[test]
fn scan_that_ended_early_is_reported() {
    let mut machine = machine_in(Phase::Scan);
    let read = Ok(DirListing { entries: vec![file("a")], failure: Some("broken".to_string()) });
    assert_eq!(
        machine.step(Event::Scanned(read)),
        Action::Report(
            "Error in index generation: Error looking up next entry: broken".to_string()
        )
    );
    assert_eq!(machine.phase(), Phase::Report);
}

#[test]
fn failed_write_is_reported() {
    let mut machine = machine_in(Phase::Write);
    assert_eq!(
        machine.step(Event::Written(Err("No space left on device (os error 28)".to_string()))),
        Action::Report(
            "Error in index generation: No space left on device (os error 28)".to_string()
        )
    );
    assert_eq!(machine.phase(), Phase::Report);
    assert_eq!(machine.step(Event::Reported), Action::Sleep(1));
    assert_eq!(machine.step(Event::Slept), Action::CheckRoot);
}

#[test]
fn report_text() {
    assert_eq!(report_of("boom"), "Error in index generation: boom");
    assert_eq!(report_of(""), "Error in index generation: ");
}

#[test]
fn stray_events_abandon_the_cycle() {
    for phase in [Phase::Root, Phase::Scan, Phase::Write, Phase::Report, Phase::Sleep] {
        let strays = vec![
            Event::RootChecked(true),
            Event::RootChecked(false),
            Event::Scanned(listing(vec![file("a")])),
            Event::Scanned(Err("e".to_string())),
            Event::Written(Ok(())),
            Event::Written(Err("e".to_string())),
            Event::Reported,
            Event::Slept,
        ];
        for event in strays {
            let awaited = match (&phase, &event) {
                (Phase::Root, Event::RootChecked(_)) => true,
                (Phase::Scan, Event::Scanned(_)) => true,
                (Phase::Write, Event::Written(_)) => true,
                (Phase::Report, Event::Reported) => true,
                (Phase::Sleep, Event::Slept) => true,
                _ => false,
            };
            if awaited {
                continue;
            }
            let mut machine = machine_in(phase);
            assert_eq!(machine.step(event), Action::Sleep(1));
            assert_eq!(machine.phase(), Phase::Sleep);
        }
    }
}

#[test]
fn every_cycle_ends_in_sleep_and_the_loop_goes_on() {
    let answers: Vec<Vec<Event>> = vec![
        vec![Event::RootChecked(false), Event::Reported],
        vec![Event::RootChecked(true), Event::Scanned(Err("e".to_string())), Event::Reported],
        vec![
            Event::RootChecked(true),
            Event::Scanned(listing(vec![file("a")])),
            Event::Written(Err("e".to_string())),
            Event::Reported,
        ],
        vec![
            Event::RootChecked(true),
            Event::Scanned(listing(vec![file("a")])),
            Event::Written(Ok(())),
        ],
    ];
    let (mut machine, _) = Synchronizer::new("/srv".to_string());
    for cycle in answers {
        assert_eq!(machine.phase(), Phase::Root);
        let count = cycle.len();
        assert!(count <= 4);
        let mut last = Action::CheckRoot;
        for event in cycle {
            last = machine.step(event);
        }
        assert_eq!(last, Action::Sleep(1));
        assert_eq!(machine.phase(), Phase::Sleep);
        assert_eq!(machine.step(Event::Slept), Action::CheckRoot);
    }
}
