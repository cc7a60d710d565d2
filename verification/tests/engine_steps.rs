use plnk::engine::{Action, Engine, Event, Stage, Step};
use plnk::error::PlnkError;
use plnk::files::HostFiles;

fn domains(names: &[&str]) -> Vec<String> {
    names.iter().map(|name| name.to_string()).collect()
}

fn text(s: &str) -> Event {
    Event::Text(s.to_string())
}

/// Hands the events to the machine one after the other; gives the actions
/// that it asked for, and its result if it came to an end.
fn feed(first: Step, events: Vec<Event>) -> (Vec<Action>, Option<Result<(), PlnkError>>) {
    let mut asked = Vec::new();
    let mut step = first;
    let mut events = events.into_iter();
    loop {
        match step {
            Step::Finish(result) => return (asked, Some(result)),
            Step::Ask(engine, action) => {
                asked.push(action);
                match events.next() {
                    Some(event) => step = engine.step(event),
                    None => return (asked, None),
                }
            }
        }
    }
}

#[test]
fn block_asks_for_read_copy_and_append() {
    let wanted = domains(&["ads.example", "tracker.example"]);
    let (asked, result) = feed(
        Engine::block(&wanted),
        vec![text("old\n"), text("old\n"), Event::Done, Event::Done],
    );
    assert_eq!(
        asked,
        vec![
            Action::ReadHosts,
            Action::ReadHosts,
            Action::WriteBackup("old\n".to_string()),
            Action::AppendHosts(
                "\n# plnk url blocking\n127.0.0.1 ads.example\n127.0.0.1 tracker.example\n"
                    .to_string()
            ),
        ]
    );
    assert_eq!(result, Some(Ok(())));
}

#[test]
fn block_goes_through_its_stages() {
    let wanted = domains(&["ads.example"]);
    let engine = match Engine::block(&wanted) {
        Step::Ask(engine, Action::ReadHosts) => engine,
        other => panic!("{:?}", other),
    };
    assert_eq!(engine.stage(), Stage::Detect);
    let engine = match engine.step(text("")) {
        Step::Ask(engine, Action::ReadHosts) => engine,
        other => panic!("{:?}", other),
    };
    assert_eq!(engine.stage(), Stage::Snapshot);
    let engine = match engine.step(text("")) {
        Step::Ask(engine, Action::WriteBackup(_)) => engine,
        other => panic!("{:?}", other),
    };
    assert_eq!(engine.stage(), Stage::Save);
    let engine = match engine.step(Event::Done) {
        Step::Ask(engine, Action::AppendHosts(_)) => engine,
        other => panic!("{:?}", other),
    };
    assert_eq!(engine.stage(), Stage::Append);
    assert!(matches!(engine.step(Event::Done), Step::Finish(Ok(()))));
}

#[test]
fn block_without_domains_asks_for_nothing() {
    let (asked, result) = feed(Engine::block(&[]), vec![]);
    assert_eq!(asked, Vec::<Action>::new());
    assert_eq!(result, Some(Err(PlnkError::EmptyDomainSet)));
}

#[test]
fn block_stops_when_already_blocked() {
    let wanted = domains(&["ads.example"]);
    let (asked, result) =
        feed(Engine::block(&wanted), vec![text("127.0.0.1 localhost\n127.0.0.1 ads.example x\n")]);
    assert_eq!(asked, vec![Action::ReadHosts]);
    assert_eq!(result, Some(Err(PlnkError::AlreadyBlocked)));
}

#[test]
fn block_stops_when_the_host_file_cannot_be_read() {
    let wanted = domains(&["ads.example"]);
    let (asked, result) = feed(Engine::block(&wanted), vec![Event::Failed]);
    assert_eq!(asked, vec![Action::ReadHosts]);
    assert_eq!(result, Some(Err(PlnkError::HostsUnreadable)));
}

#[test]
fn a_failed_backup_prevents_the_append() {
    let wanted = domains(&["ads.example"]);
    let (asked, result) = feed(Engine::block(&wanted), vec![text("old\n"), Event::Failed]);
    assert_eq!(asked, vec![Action::ReadHosts, Action::ReadHosts]);
    assert_eq!(result, Some(Err(PlnkError::BackupSourceUnreadable)));

    let (asked, result) =
        feed(Engine::block(&wanted), vec![text("old\n"), text("old\n"), Event::Failed]);
    assert_eq!(
        asked,
        vec![Action::ReadHosts, Action::ReadHosts, Action::WriteBackup("old\n".to_string())]
    );
    assert_eq!(result, Some(Err(PlnkError::BackupNotWritten)));
}

#[test]
fn a_failed_append_is_reported() {
    let wanted = domains(&["ads.example"]);
    let (asked, result) = feed(
        Engine::block(&wanted),
        vec![text("old\n"), text("old\n"), Event::Done, Event::Failed],
    );
    assert_eq!(asked.len(), 4);
    assert_eq!(result, Some(Err(PlnkError::HostsNotWritable)));
}

#[test]
fn the_backup_holds_what_was_read_for_it() {
    let wanted = domains(&["ads.example"]);
    let (asked, _) = feed(Engine::block(&wanted), vec![text("first\n"), text("second\n")]);
    assert_eq!(asked[2], Action::WriteBackup("second\n".to_string()));
}

#[test]
fn unblock_probes_then_moves() {
    let (asked, result) = feed(Engine::unblock(), vec![Event::Found(true), Event::Done]);
    assert_eq!(asked, vec![Action::ProbeBackup, Action::RestoreBackup]);
    assert_eq!(result, Some(Ok(())));
}

#[test]
fn unblock_without_backup_moves_nothing() {
    let (asked, result) = feed(Engine::unblock(), vec![Event::Found(false)]);
    assert_eq!(asked, vec![Action::ProbeBackup]);
    assert_eq!(result, Some(Err(PlnkError::NoBackupFound)));
}

#[test]
fn a_failed_move_is_reported() {
    let (asked, result) = feed(Engine::unblock(), vec![Event::Found(true), Event::Failed]);
    assert_eq!(asked, vec![Action::ProbeBackup, Action::RestoreBackup]);
    assert_eq!(result, Some(Err(PlnkError::RestoreFailed)));
}

#[test]
fn backup_reads_then_writes() {
    let (asked, result) = feed(Engine::backup(), vec![text("old\n"), Event::Done]);
    assert_eq!(asked, vec![Action::ReadHosts, Action::WriteBackup("old\n".to_string())]);
    assert_eq!(result, Some(Ok(())));
    let (_, result) = feed(Engine::backup(), vec![Event::Failed]);
    assert_eq!(result, Some(Err(PlnkError::BackupSourceUnreadable)));
    let (_, result) = feed(Engine::backup(), vec![text("old\n"), Event::Failed]);
    assert_eq!(result, Some(Err(PlnkError::BackupNotWritten)));
}

#[test]
fn an_event_of_another_kind_ends_the_operation() {
    let wanted = domains(&["ads.example"]);
    let (_, result) = feed(Engine::block(&wanted), vec![Event::Done]);
    assert_eq!(result, Some(Err(PlnkError::HostsUnreadable)));
    let (_, result) = feed(Engine::block(&wanted), vec![text(""), Event::Found(true)]);
    assert_eq!(result, Some(Err(PlnkError::BackupSourceUnreadable)));
    let (_, result) = feed(Engine::block(&wanted), vec![text(""), text(""), text("")]);
    assert_eq!(result, Some(Err(PlnkError::BackupNotWritten)));
    let (_, result) = feed(Engine::unblock(), vec![Event::Done]);
    assert_eq!(result, Some(Err(PlnkError::NoBackupFound)));
    let (_, result) = feed(Engine::unblock(), vec![Event::Found(true), Event::Found(true)]);
    assert_eq!(result, Some(Err(PlnkError::RestoreFailed)));
}

#[test]
fn actions_on_files_in_memory() {
    let mut files = HostFiles::new("a\n".to_string());
    assert_eq!(files.perform(Action::ReadHosts), Event::Text("a\n".to_string()));
    assert_eq!(files.perform(Action::ProbeBackup), Event::Found(false));
    assert_eq!(files.perform(Action::RestoreBackup), Event::Failed);
    assert_eq!(files, HostFiles::new("a\n".to_string()));
    assert_eq!(files.perform(Action::WriteBackup("b\n".to_string())), Event::Done);
    assert_eq!(files.backup, Some("b\n".to_string()));
    assert_eq!(files.perform(Action::ProbeBackup), Event::Found(true));
    assert_eq!(files.perform(Action::AppendHosts("c\n".to_string())), Event::Done);
    assert_eq!(files.hosts, "a\nc\n");
    assert_eq!(files.perform(Action::RestoreBackup), Event::Done);
    assert_eq!(files, HostFiles::new("b\n".to_string()));
}

#[test]
fn run_takes_an_operation_to_its_end() {
    let mut files = HostFiles::new("a\n".to_string());
    assert_eq!(files.run(Engine::block(&domains(&["ads.example"]))), Ok(()));
    assert_eq!(files.hosts, "a\n\n# plnk url blocking\n127.0.0.1 ads.example\n");
    assert_eq!(files.run(Step::Finish(Err(PlnkError::NotRoot))), Err(PlnkError::NotRoot));
    assert_eq!(files.run(Engine::unblock()), Ok(()));
    assert_eq!(files, HostFiles::new("a\n".to_string()));
}
