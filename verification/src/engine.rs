//! Blocking and unblocking as a machine that touches no file itself: it asks
//! for one action on the files at a time, takes what came of it, and decides
//! what follows.

use crate::error::PlnkError;
use crate::hosts::{block_entries, block_text, check_already_blocked, content_blocked};
use vstd::prelude::*;

verus! {

/// What the machine asks to be done to the files.
#[derive(Clone, Debug, PartialEq, Eq)]
pub enum Action {
    /// Read the whole host file as text.
    ReadHosts,
    /// Write the text to the backup file, in place of what it held.
    WriteBackup(String),
    /// Append the text to the host file.
    AppendHosts(String),
    /// Tell whether the backup file exists.
    ProbeBackup,
    /// Move the backup file onto the host file, in one step.
    RestoreBackup,
}

/// An action, with its text as a sequence of characters.
pub enum ActionView {
    ReadHosts,
    WriteBackup(Seq<char>),
    AppendHosts(Seq<char>),
    ProbeBackup,
    RestoreBackup,
}

impl View for Action {
    type V = ActionView;

    open spec fn view(&self) -> ActionView {
        match self {
            Action::ReadHosts => ActionView::ReadHosts,
            Action::WriteBackup(text) => ActionView::WriteBackup(text@),
            Action::AppendHosts(text) => ActionView::AppendHosts(text@),
            Action::ProbeBackup => ActionView::ProbeBackup,
            Action::RestoreBackup => ActionView::RestoreBackup,
        }
    }
}

/// What came of the action that was asked for.
#[derive(Clone, Debug, PartialEq, Eq)]
pub enum Event {
    /// The file was read; this is its text.
    Text(String),
    /// Whether the file exists.
    Found(bool),
    /// The action was carried out.
    Done,
    /// The action could not be carried out.
    Failed,
}

/// An event, with its text as a sequence of characters.
pub enum EventView {
    Text(Seq<char>),
    Found(bool),
    Done,
    Failed,
}

impl View for Event {
    type V = EventView;

    open spec fn view(&self) -> EventView {
        match self {
            Event::Text(text) => EventView::Text(text@),
            Event::Found(found) => EventView::Found(*found),
            Event::Done => EventView::Done,
            Event::Failed => EventView::Failed,
        }
    }
}

/// What the machine waits for.
#[derive(Clone, Copy, Debug, PartialEq, Eq, Structural)]
pub enum Stage {
    /// For the text of the host file, to look for entries of the domains.
    Detect,
    /// For the text of the host file, to copy it.
    Snapshot,
    /// For the copy to be written.
    Save,
    /// For the entries to be appended.
    Append,
    /// For word on whether there is a copy.
    Probe,
    /// For the copy to be moved onto the host file.
    Restore,
}

/// A machine in the middle of an operation.
#[derive(Debug)]
pub struct Engine {
    stage: Stage,
    domains: Vec<String>,
}

/// A machine as contracts see it: what it waits for, and the domains that it
/// is to block. The latter are empty where it only copies or restores.
pub struct EngineView {
    pub stage: Stage,
    pub domains: Seq<Seq<char>>,
}

impl View for Engine {
    type V = EngineView;

    closed spec fn view(&self) -> EngineView {
        EngineView { stage: self.stage, domains: self.domains.deep_view() }
    }
}

/// Where an operation stands: it asks for an action, or it is over.
#[derive(Debug)]
pub enum Step {
    /// The action is to be carried out, and what came of it handed to the
    /// machine.
    Ask(Engine, Action),
    /// The operation is over, with this result.
    Finish(Result<(), PlnkError>),
}

/// A step as contracts see it.
pub enum StepView {
    Ask(EngineView, ActionView),
    Finish(Result<(), PlnkError>),
}

impl View for Step {
    type V = StepView;

    open spec fn view(&self) -> StepView {
        match self {
            Step::Ask(engine, action) => StepView::Ask(engine@, action@),
            Step::Finish(result) => StepView::Finish(*result),
        }
    }
}

impl EngineView {
    /// The machine at another stage.
    pub open spec fn at(self, stage: Stage) -> EngineView {
        EngineView { stage, domains: self.domains }
    }

    /// What follows `event`. Each stage goes on only on the one event that
    /// lets it; on every other event the operation is over, with the failure
    /// of that stage.
    pub open spec fn next(self, event: EventView) -> StepView {
        match self.stage {
            Stage::Detect => match event {
                EventView::Text(content) => if content_blocked(content, self.domains) {
                    StepView::Finish(Err(PlnkError::AlreadyBlocked))
                } else {
                    StepView::Ask(self.at(Stage::Snapshot), ActionView::ReadHosts)
                },
                _ => StepView::Finish(Err(PlnkError::HostsUnreadable)),
            },
            Stage::Snapshot => match event {
                EventView::Text(content) => StepView::Ask(
                    self.at(Stage::Save),
                    ActionView::WriteBackup(content),
                ),
                _ => StepView::Finish(Err(PlnkError::BackupSourceUnreadable)),
            },
            Stage::Save => match event {
                EventView::Done => if self.domains.len() == 0 {
                    StepView::Finish(Ok(()))
                } else {
                    StepView::Ask(
                        self.at(Stage::Append),
                        ActionView::AppendHosts(block_text(self.domains)),
                    )
                },
                _ => StepView::Finish(Err(PlnkError::BackupNotWritten)),
            },
            Stage::Append => match event {
                EventView::Done => StepView::Finish(Ok(())),
                _ => StepView::Finish(Err(PlnkError::HostsNotWritable)),
            },
            Stage::Probe => match event {
                EventView::Found(true) => StepView::Ask(
                    self.at(Stage::Restore),
                    ActionView::RestoreBackup,
                ),
                _ => StepView::Finish(Err(PlnkError::NoBackupFound)),
            },
            Stage::Restore => match event {
                EventView::Done => StepView::Finish(Ok(())),
                _ => StepView::Finish(Err(PlnkError::RestoreFailed)),
            },
        }
    }
}

impl StepView {
    /// How blocking `domains` starts: with no domain it is over at once;
    /// else the host file is read.
    pub open spec fn block(domains: Seq<Seq<char>>) -> StepView {
        if domains.len() == 0 {
            StepView::Finish(Err(PlnkError::EmptyDomainSet))
        } else {
            StepView::Ask(EngineView { stage: Stage::Detect, domains }, ActionView::ReadHosts)
        }
    }

    /// How copying the host file starts.
    pub open spec fn backup() -> StepView {
        StepView::Ask(
            EngineView { stage: Stage::Snapshot, domains: Seq::empty() },
            ActionView::ReadHosts,
        )
    }

    /// How unblocking starts.
    pub open spec fn unblock() -> StepView {
        StepView::Ask(
            EngineView { stage: Stage::Probe, domains: Seq::empty() },
            ActionView::ProbeBackup,
        )
    }

    /// A bound on the number of actions that are still asked for.
    pub open spec fn actions_left(self) -> nat {
        match self {
            StepView::Finish(_) => 0,
            StepView::Ask(engine, _) => match engine.stage {
                Stage::Detect => 4,
                Stage::Snapshot => 3,
                Stage::Save => 2,
                Stage::Append => 1,
                Stage::Probe => 2,
                Stage::Restore => 1,
            },
        }
    }
}

/// A copy of `domains`.
fn copy_domains(domains: &[String]) -> (copy: Vec<String>)
    ensures
        copy@ == domains@,
{
    let mut copy: Vec<String> = Vec::new();
    let mut i: usize = 0;
    while i < domains.len()
        invariant
            i <= domains.len(),
            copy@ == domains@.take(i as int),
        decreases domains.len() - i,
    {
        copy.push(domains[i].clone());
        assert(domains@.take(i as int + 1) == domains@.take(i as int).push(domains@[i as int]));
        i = i + 1;
    }
    assert(domains@.take(i as int) == domains@);
    copy
}

impl Engine {
    /// What the machine waits for.
    pub fn stage(&self) -> (stage: Stage)
        ensures
            stage == self@.stage,
    {
        self.stage
    }

    /// Starts to block `domains`.
    pub fn block(domains: &[String]) -> (step: Step)
        ensures
            step@ == StepView::block(domains.deep_view()),
    {
        if domains.len() == 0 {
            return Step::Finish(Err(PlnkError::EmptyDomainSet));
        }
        let engine = Engine { stage: Stage::Detect, domains: copy_domains(domains) };
        assert(engine@.domains =~= domains.deep_view());
        Step::Ask(engine, Action::ReadHosts)
    }

    /// Starts to copy the host file.
    pub fn backup() -> (step: Step)
        ensures
            step@ == StepView::backup(),
    {
        let engine = Engine { stage: Stage::Snapshot, domains: Vec::new() };
        assert(engine@.domains =~= Seq::empty());
        Step::Ask(engine, Action::ReadHosts)
    }

    /// Starts to unblock.
    pub fn unblock() -> (step: Step)
        ensures
            step@ == StepView::unblock(),
    {
        let engine = Engine { stage: Stage::Probe, domains: Vec::new() };
        assert(engine@.domains =~= Seq::empty());
        Step::Ask(engine, Action::ProbeBackup)
    }

    /// Takes what came of the action that was asked for last, and says what
    /// follows.
    pub fn step(self, event: Event) -> (step: Step)
        ensures
            step@ == self@.next(event@),
    {
        let ghost before = self@;
        let Engine { stage, domains } = self;
        assert(domains.deep_view() == before.domains);
        match stage {
            Stage::Detect => match event {
                Event::Text(content) => {
                    let wanted = domains.as_slice();
                    assert(wanted.deep_view() =~= before.domains);
                    if check_already_blocked(content.as_str(), wanted) {
                        Step::Finish(Err(PlnkError::AlreadyBlocked))
                    } else {
                        Step::Ask(Engine { stage: Stage::Snapshot, domains }, Action::ReadHosts)
                    }
                },
                _ => Step::Finish(Err(PlnkError::HostsUnreadable)),
            },
            Stage::Snapshot => match event {
                Event::Text(content) => Step::Ask(
                    Engine { stage: Stage::Save, domains },
                    Action::WriteBackup(content),
                ),
                _ => Step::Finish(Err(PlnkError::BackupSourceUnreadable)),
            },
            Stage::Save => match event {
                Event::Done => {
                    if domains.len() == 0 {
                        Step::Finish(Ok(()))
                    } else {
                        let wanted = domains.as_slice();
                        assert(wanted.deep_view() =~= before.domains);
                        let text = block_entries(wanted);
                        Step::Ask(Engine { stage: Stage::Append, domains }, Action::AppendHosts(text))
                    }
                },
                _ => Step::Finish(Err(PlnkError::BackupNotWritten)),
            },
            Stage::Append => match event {
                Event::Done => Step::Finish(Ok(())),
                _ => Step::Finish(Err(PlnkError::HostsNotWritable)),
            },
            Stage::Probe => match event {
                Event::Found(true) => Step::Ask(
                    Engine { stage: Stage::Restore, domains },
                    Action::RestoreBackup,
                ),
                _ => Step::Finish(Err(PlnkError::NoBackupFound)),
            },
            Stage::Restore => match event {
                Event::Done => Step::Finish(Ok(())),
                _ => Step::Finish(Err(PlnkError::RestoreFailed)),
            },
        }
    }
}

} // verus!
