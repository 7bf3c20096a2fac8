use archbelt::config::WatchState;
use archbelt::report::{Finding, Severity};
use archbelt::writer::{Action, Outcome, Writer};
use archbelt::yank::{ExtractionPlan, PlannedWrite, YankError};

fn planned(root: Option<&str>, files: &[(&str, &str)]) -> ExtractionPlan {
    ExtractionPlan {
        root: root.map(|r| r.to_string()),
        writes: files
            .iter()
            .map(|(p, c)| PlannedWrite { path: p.to_string(), content: c.to_string() })
            .collect(),
    }
}

fn label(action: &Action) -> String {
    match action {
        Action::Enter(name) => format!("enter {}", name),
        Action::Write(w) => format!("write {} = {}", w.path, w.content),
        Action::Leave => "leave".to_string(),
        Action::Stop(o) => format!("stop {:?}", o),
    }
}

fn drive_run(plan: ExtractionPlan, results: &[bool]) -> (Vec<String>, Writer) {
    let (mut writer, first) = Writer::begin(plan);
    let mut seen = vec![label(&first)];
    for ok in results {
        let next = writer.advance(*ok);
        seen.push(label(&next));
    }
    (seen, writer)
}

#[test]
fn rooted_run_enters_writes_leaves_and_stops() {
    let (seen, writer) =
        drive_run(planned(Some("Ship"), &[("a/x.xc", "1"), ("b/y.xc", "2")]), &[true, true, true, true]);
    assert_eq!(
        seen,
        vec!["enter Ship", "write a/x.xc = 1", "write b/y.xc = 2", "leave", "stop Written(2)"]
    );
    assert_eq!(writer.outcome(), Some(Outcome::Written(2)));
    assert_eq!(writer.failed_path(), None);
}

#[test]
fn unrooted_run_only_writes() {
    let (seen, writer) = drive_run(planned(None, &[("x.xc", "1"), ("y.xc", "2")]), &[true, true]);
    assert_eq!(seen, vec!["write x.xc = 1", "write y.xc = 2", "stop Written(2)"]);
    assert_eq!(writer.outcome(), Some(Outcome::Written(2)));
}

#[test]
fn empty_plan_stops_at_once_without_entering() {
    let (seen, writer) = drive_run(planned(Some("Ship"), &[]), &[]);
    assert_eq!(seen, vec!["stop NoArtifacts"]);
    assert_eq!(writer.outcome(), Some(Outcome::NoArtifacts));
    assert_eq!(writer.failed_path(), None);
}

#[test]
fn failed_write_restores_the_root_and_skips_the_rest() {
    let (seen, writer) = drive_run(
        planned(Some("Ship"), &[("a.xc", "1"), ("b.xc", "2"), ("c.xc", "3")]),
        &[true, true, false, true],
    );
    assert_eq!(
        seen,
        vec!["enter Ship", "write a.xc = 1", "write b.xc = 2", "leave", "stop WriteFailed(1)"]
    );
    assert_eq!(writer.outcome(), Some(Outcome::WriteFailed(1)));
    assert_eq!(writer.failed_path(), Some("b.xc".to_string()));
    assert_eq!(Outcome::WriteFailed(1).error(), Some(YankError::IoError));
}

#[test]
fn failed_first_write_without_root_stops() {
    let (seen, writer) = drive_run(planned(None, &[("a.xc", "1"), ("b.xc", "2")]), &[false]);
    assert_eq!(seen, vec!["write a.xc = 1", "stop WriteFailed(0)"]);
    assert_eq!(writer.failed_path(), Some("a.xc".to_string()));
}

#[test]
fn failed_enter_writes_nothing() {
    let (seen, writer) = drive_run(planned(Some("Ship"), &[("a.xc", "1")]), &[false]);
    assert_eq!(seen, vec!["enter Ship", "stop RootFailed"]);
    assert_eq!(writer.outcome(), Some(Outcome::RootFailed));
    assert_eq!(writer.failed_path(), Some("Ship".to_string()));
    assert_eq!(Outcome::RootFailed.error(), Some(YankError::IoError));
}

#[test]
fn failed_restore_is_reported() {
    let (seen, writer) = drive_run(planned(Some("Ship"), &[("a.xc", "1")]), &[true, true, false]);
    assert_eq!(seen, vec!["enter Ship", "write a.xc = 1", "leave", "stop RestoreFailed"]);
    assert_eq!(writer.outcome(), Some(Outcome::RestoreFailed));
    assert_eq!(writer.failed_path(), Some("Ship".to_string()));
    assert_eq!(Outcome::RestoreFailed.error(), Some(YankError::IoError));
}

#[test]
fn failed_restore_after_failed_write() {
    let (seen, _) = drive_run(planned(Some("Ship"), &[("a.xc", "1")]), &[true, false, false]);
    assert_eq!(seen, vec!["enter Ship", "write a.xc = 1", "leave", "stop RestoreFailed"]);
}

#[test]
fn finished_run_stays_finished() {
    let (seen, writer) = drive_run(planned(None, &[("a.xc", "1")]), &[true, false, true]);
    assert_eq!(seen, vec!["write a.xc = 1", "stop Written(1)", "stop Written(1)", "stop Written(1)"]);
    assert_eq!(writer.outcome(), Some(Outcome::Written(1)));
}

#[test]
fn running_writer_has_no_outcome_yet() {
    let (writer, _) = Writer::begin(planned(Some("Ship"), &[("a.xc", "1")]));
    assert_eq!(writer.outcome(), None);
    assert_eq!(writer.failed_path(), None);
    assert_eq!(label(&writer.action()), "enter Ship");
}

#[test]
fn every_run_leaves_the_root_it_entered() {
    let files = [("a.xc", "1"), ("b.xc", "2"), ("c.xc", "3")];
    for code in 0..64u32 {
        let results: Vec<bool> = (0..6).map(|bit| code & (1 << bit) != 0).collect();
        let (mut writer, mut action) = Writer::begin(planned(Some("Ship"), &files));
        let mut held = false;
        let mut restore_failed = false;
        for ok in &results {
            match &action {
                Action::Enter(_) => held = *ok,
                Action::Leave => {
                    if *ok {
                        held = false
                    } else {
                        restore_failed = true
                    }
                }
                _ => {}
            }
            action = writer.advance(*ok);
        }
        assert!(writer.outcome().is_some());
        assert!(!held || restore_failed);
        assert_eq!(restore_failed, writer.outcome() == Some(Outcome::RestoreFailed));
    }
}

fn files_after_run(plan: ExtractionPlan, files: &mut Vec<(String, String)>) -> Outcome {
    let (mut writer, mut action) = Writer::begin(plan);
    let mut root = String::new();
    loop {
        match action {
            Action::Enter(name) => root = format!("{}/", name),
            Action::Write(w) => {
                let path = format!("{}{}", root, w.path);
                files.retain(|(p, _)| *p != path);
                files.push((path, w.content));
            }
            Action::Leave => root.clear(),
            Action::Stop(o) => return o,
        }
        action = writer.advance(true);
    }
}

#[test]
fn running_twice_leaves_the_same_files() {
    let plan = || planned(Some("Ship"), &[("a/f.xc", "1"), ("b/g.xc", "2"), ("a/f.xc", "3")]);
    let mut files = vec![("Ship/old.xc".to_string(), "kept".to_string())];
    assert_eq!(files_after_run(plan(), &mut files), Outcome::Written(3));
    let mut once = files.clone();
    once.sort();
    assert_eq!(
        once,
        vec![
            ("Ship/a/f.xc".to_string(), "3".to_string()),
            ("Ship/b/g.xc".to_string(), "2".to_string()),
            ("Ship/old.xc".to_string(), "kept".to_string()),
        ]
    );
    assert_eq!(files_after_run(plan(), &mut files), Outcome::Written(3));
    files.sort();
    assert_eq!(files, once);
}

#[test]
fn written_outcome_is_no_error() {
    assert_eq!(Outcome::Written(3).error(), None);
    assert_eq!(Finding::of_outcome(Outcome::Written(3)), Finding::Written);
    assert_eq!(Finding::of_outcome(Outcome::WriteFailed(0)), Finding::Failed(YankError::IoError));
    assert_eq!(Finding::of_outcome(Outcome::RootFailed), Finding::Failed(YankError::IoError));
    assert_eq!(Finding::of_outcome(Outcome::RestoreFailed), Finding::Failed(YankError::IoError));
}

#[test]
fn severity_of_a_single_run() {
    let w = WatchState::Disabled;
    assert_eq!(Finding::Written.severity(w), Severity::Success);
    assert_eq!(Finding::NoArtifacts.severity(w), Severity::Success);
    assert_eq!(Finding::Failed(YankError::InputNotFound).severity(w), Severity::Fatal);
    assert_eq!(Finding::Failed(YankError::ParseError).severity(w), Severity::Fatal);
    assert_eq!(Finding::Failed(YankError::IoError).severity(w), Severity::Fatal);
    assert_eq!(Finding::Failed(YankError::WatchSetupError).severity(w), Severity::Fatal);
}

#[test]
fn severity_inside_a_watch() {
    for w in [WatchState::Watching, WatchState::Requested] {
        assert_eq!(Finding::Written.severity(w), Severity::Success);
        assert_eq!(Finding::NoArtifacts.severity(w), Severity::Warning);
        assert_eq!(Finding::Failed(YankError::InputNotFound).severity(w), Severity::Warning);
        assert_eq!(Finding::Failed(YankError::ParseError).severity(w), Severity::Warning);
        assert_eq!(Finding::Failed(YankError::IoError).severity(w), Severity::Fatal);
        assert_eq!(Finding::Failed(YankError::WatchSetupError).severity(w), Severity::Fatal);
    }
}

#[test]
fn report_names_cause_and_path() {
    assert_eq!(
        Finding::Failed(YankError::InputNotFound).report("bp/Ship.json"),
        "blueprint not found: bp/Ship.json"
    );
    assert_eq!(
        Finding::Failed(YankError::ParseError).report("bp/Ship.json"),
        "unable to parse blueprint: bp/Ship.json"
    );
    assert_eq!(Finding::Failed(YankError::IoError).report("core/main.xc"), "unable to write: core/main.xc");
    assert_eq!(Finding::Failed(YankError::WatchSetupError).report("bp"), "unable to watch: bp");
    assert_eq!(Finding::NoArtifacts.report("Ship.json"), "no files found: Ship.json");
    assert_eq!(Finding::Written.report(""), "files written: ");
    assert_eq!(Finding::NoArtifacts.cause(), "no files found");
}
