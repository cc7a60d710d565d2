//! The host file and its backup as two texts in memory, and the operations
//! run on them from start to end.

use crate::engine::{Action, ActionView, Engine, Event, EventView, Step, StepView};
use crate::error::PlnkError;
use crate::hosts::{block_text, content_blocked};
use vstd::prelude::*;
use vstd::string::StringExecFns;

verus! {

/// The host file and its backup.
#[derive(Clone, Debug, PartialEq, Eq)]
pub struct HostFiles {
    /// The text of the host file.
    pub hosts: String,
    /// The text of the backup file, where there is one.
    pub backup: Option<String>,
}

/// The two files as contracts see them.
pub struct FilesView {
    pub hosts: Seq<char>,
    pub backup: Option<Seq<char>>,
}

impl View for HostFiles {
    type V = FilesView;

    open spec fn view(&self) -> FilesView {
        FilesView {
            hosts: self.hosts@,
            backup: match self.backup {
                Some(text) => Some(text@),
                None => None,
            },
        }
    }
}

impl FilesView {
    /// What `action` leaves of the files, and what comes of it. Reading,
    /// writing and appending never fail here; restoring fails where there is
    /// no backup.
    pub open spec fn perform(self, action: ActionView) -> (FilesView, EventView) {
        match action {
            ActionView::ReadHosts => (self, EventView::Text(self.hosts)),
            ActionView::WriteBackup(text) => (
                FilesView { hosts: self.hosts, backup: Some(text) },
                EventView::Done,
            ),
            ActionView::AppendHosts(text) => (
                FilesView { hosts: self.hosts + text, backup: self.backup },
                EventView::Done,
            ),
            ActionView::ProbeBackup => (self, EventView::Found(self.backup is Some)),
            ActionView::RestoreBackup => match self.backup {
                Some(text) => (FilesView { hosts: text, backup: None }, EventView::Done),
                None => (self, EventView::Failed),
            },
        }
    }

    /// What the operation that stands at `step` leaves of the files once it
    /// is over, and its result.
    pub open spec fn run(self, step: StepView) -> (FilesView, Result<(), PlnkError>)
        decreases step.actions_left(),
    {
        match step {
            StepView::Finish(result) => (self, result),
            StepView::Ask(engine, action) => {
                let (files, event) = self.perform(action);
                files.run(engine.next(event))
            },
        }
    }

    /// What blocking `domains` leaves of the files, and its result. With no
    /// domain, or with a host file that already redirects one of them,
    /// nothing changes. Else the backup holds the text that the host file
    /// had, and the host file holds that text and then the marker and the
    /// entries.
    pub open spec fn blocked(self, domains: Seq<Seq<char>>) -> (FilesView, Result<(), PlnkError>) {
        if domains.len() == 0 {
            (self, Err(PlnkError::EmptyDomainSet))
        } else if content_blocked(self.hosts, domains) {
            (self, Err(PlnkError::AlreadyBlocked))
        } else {
            (
                FilesView { hosts: self.hosts + block_text(domains), backup: Some(self.hosts) },
                Ok(()),
            )
        }
    }

    /// What copying the host file leaves of the files, and its result.
    pub open spec fn backed_up(self) -> (FilesView, Result<(), PlnkError>) {
        (FilesView { hosts: self.hosts, backup: Some(self.hosts) }, Ok(()))
    }

    /// What unblocking leaves of the files, and its result. Without a backup
    /// nothing changes. Else the host file holds the text of the backup,
    /// whatever it held, and the backup is gone.
    pub open spec fn restored(self) -> (FilesView, Result<(), PlnkError>) {
        match self.backup {
            Some(text) => (FilesView { hosts: text, backup: None }, Ok(())),
            None => (self, Err(PlnkError::NoBackupFound)),
        }
    }
}

impl HostFiles {
    /// A host file that reads `hosts`, without a backup.
    pub fn new(hosts: String) -> (files: HostFiles)
        ensures
            files@ == (FilesView { hosts: hosts@, backup: None }),
    {
        HostFiles { hosts, backup: None }
    }

    /// Carries out `action` on the two texts.
    pub fn perform(&mut self, action: Action) -> (event: Event)
        ensures
            (final(self)@, event@) == old(self)@.perform(action@),
    {
        match action {
            Action::ReadHosts => Event::Text(self.hosts.clone()),
            Action::WriteBackup(text) => {
                self.backup = Some(text);
                Event::Done
            },
            Action::AppendHosts(text) => {
                self.hosts.append(text.as_str());
                Event::Done
            },
            Action::ProbeBackup => Event::Found(self.backup.is_some()),
            Action::RestoreBackup => match self.backup.take() {
                Some(text) => {
                    self.hosts = text;
                    Event::Done
                },
                None => Event::Failed,
            },
        }
    }

    /// Runs the operation that stands at `step` to its end.
    pub fn run(&mut self, step: Step) -> (result: Result<(), PlnkError>)
        ensures
            (final(self)@, result) == old(self)@.run(step@),
    {
        let ghost first = step@;
        let mut current = step;
        loop
            invariant
                first == step@,
                self@.run(current@) == old(self)@.run(first),
            decreases current@.actions_left(),
        {
            match current {
                Step::Finish(result) => {
                    return result;
                },
                Step::Ask(engine, action) => {
                    let event = self.perform(action);
                    current = engine.step(event);
                },
            }
        }
    }
}

/// Run from its start to its end, blocking leaves what `blocked` says.
pub proof fn lemma_block_runs(files: FilesView, domains: Seq<Seq<char>>)
    ensures
        files.run(StepView::block(domains)) == files.blocked(domains),
{
    reveal_with_fuel(FilesView::run, 5);
}

/// Run from its start to its end, copying leaves what `backed_up` says.
pub proof fn lemma_backup_runs(files: FilesView)
    ensures
        files.run(StepView::backup()) == files.backed_up(),
{
    reveal_with_fuel(FilesView::run, 3);
}

/// Run from its start to its end, unblocking leaves what `restored` says.
pub proof fn lemma_unblock_runs(files: FilesView)
    ensures
        files.run(StepView::unblock()) == files.restored(),
{
    reveal_with_fuel(FilesView::run, 3);
}

/// Blocks `domains` in `files`.
pub fn block_domains(files: &mut HostFiles, domains: &[String]) -> (result: Result<(), PlnkError>)
    ensures
        (final(files)@, result) == old(files)@.blocked(domains.deep_view()),
        domains.len() == 0 ==> result == Err::<(), PlnkError>(PlnkError::EmptyDomainSet)
            && final(files)@ == old(files)@,
        result is Ok <==> domains.len() > 0 && !content_blocked(
            old(files)@.hosts,
            domains.deep_view(),
        ),
        result is Err ==> final(files)@ == old(files)@,
{
    proof {
        lemma_block_runs(files@, domains.deep_view());
    }
    files.run(Engine::block(domains))
}

/// Copies the host file of `files` to its backup.
pub fn backup_hosts(files: &mut HostFiles) -> (result: Result<(), PlnkError>)
    ensures
        (final(files)@, result) == old(files)@.backed_up(),
{
    proof {
        lemma_backup_runs(files@);
    }
    files.run(Engine::backup())
}

/// Restores the host file of `files` from its backup.
pub fn restore_hosts(files: &mut HostFiles) -> (result: Result<(), PlnkError>)
    ensures
        (final(files)@, result) == old(files)@.restored(),
        old(files)@.backup is None ==> result == Err::<(), PlnkError>(PlnkError::NoBackupFound)
            && final(files)@ == old(files)@,
        result is Ok ==> final(files)@.backup is None,
{
    proof {
        lemma_unblock_runs(files@);
    }
    files.run(Engine::unblock())
}

} // verus!
