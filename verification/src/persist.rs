//! Writing the configuration file, one file operation at a time.
//!
//! The file is opened for writing if it is there and created if it is not;
//! then the text is written. The caller carries out each operation and tells
//! how it went. A write counts as done only when every operation succeeded.

use vstd::prelude::*;

verus! {

/// Where the daemon reads its configuration.
pub const CONFIG_FILE: &'static str = "/etc/wireguard/server.conf";

/// The permissions of a configuration file that is created: the file holds a
/// private key, so its owner alone may read and write it.
pub const CONFIG_FILE_MODE: u32 = 0o600;

/// How far the writing of the file has come.
#[derive(Clone, Debug, PartialEq, Eq)]
pub enum Persister {
    /// The existing file is being opened for writing.
    Opening,
    /// The file was absent and is being created.
    Creating,
    /// The text is being written; `created` tells whether the file is new.
    Writing { created: bool },
    /// Nothing is left to do.
    Finished(WriteReport),
}

/// How the writing of the file ended.
#[derive(Clone, Debug, PartialEq, Eq)]
pub enum WriteReport {
    /// The file was absent; it was created and holds the text.
    Created,
    /// The file was present; the text has replaced what it held.
    Overwritten,
    /// An operation failed; the text says which error it was.
    Failed(String),
}

/// How a file operation went.
#[derive(Clone, Debug, PartialEq, Eq)]
pub enum FileEvent {
    /// It succeeded.
    Succeeded,
    /// It failed because the file does not exist.
    NotFound(String),
    /// It failed for any other reason.
    Failed(String),
}

/// The file operation to carry out next.
#[derive(Clone, Copy, Debug, PartialEq, Eq, Structural)]
pub enum FileAction {
    /// Open the existing file for writing, emptying it.
    Open,
    /// Create the file, readable and writable by its owner alone.
    Create,
    /// Write the whole text to the file that was opened or created.
    Write,
    /// No operation: the writing has ended.
    Stop,
}

/// A [`WriteReport`] with its text as a sequence of characters.
pub ghost enum WriteReportView {
    Created,
    Overwritten,
    Failed(Seq<char>),
}

impl View for WriteReport {
    type V = WriteReportView;

    open spec fn view(&self) -> WriteReportView {
        match self {
            WriteReport::Created => WriteReportView::Created,
            WriteReport::Overwritten => WriteReportView::Overwritten,
            WriteReport::Failed(detail) => WriteReportView::Failed(detail@),
        }
    }
}

/// A [`Persister`] with its text as a sequence of characters.
pub ghost enum PersisterView {
    Opening,
    Creating,
    Writing { created: bool },
    Finished(WriteReportView),
}

impl View for Persister {
    type V = PersisterView;

    open spec fn view(&self) -> PersisterView {
        match self {
            Persister::Opening => PersisterView::Opening,
            Persister::Creating => PersisterView::Creating,
            Persister::Writing { created } => PersisterView::Writing { created: *created },
            Persister::Finished(report) => PersisterView::Finished(report@),
        }
    }
}

/// A [`FileEvent`] with its text as a sequence of characters.
pub ghost enum FileEventView {
    Succeeded,
    NotFound(Seq<char>),
    Failed(Seq<char>),
}

impl View for FileEvent {
    type V = FileEventView;

    open spec fn view(&self) -> FileEventView {
        match self {
            FileEvent::Succeeded => FileEventView::Succeeded,
            FileEvent::NotFound(detail) => FileEventView::NotFound(detail@),
            FileEvent::Failed(detail) => FileEventView::Failed(detail@),
        }
    }
}

/// The file operation that a state waits for.
pub open spec fn pending(state: PersisterView) -> FileAction {
    match state {
        PersisterView::Opening => FileAction::Open,
        PersisterView::Creating => FileAction::Create,
        PersisterView::Writing { .. } => FileAction::Write,
        PersisterView::Finished(_) => FileAction::Stop,
    }
}

/// The state that follows `state` when its pending operation went as `event`
/// says. Only an absent file at the first step leads to creating it; any
/// other failure ends the writing with that failure's text.
pub open spec fn next_state(state: PersisterView, event: FileEventView) -> PersisterView {
    match state {
        PersisterView::Opening => match event {
            FileEventView::Succeeded => PersisterView::Writing { created: false },
            FileEventView::NotFound(_) => PersisterView::Creating,
            FileEventView::Failed(detail) => PersisterView::Finished(
                WriteReportView::Failed(detail),
            ),
        },
        PersisterView::Creating => match event {
            FileEventView::Succeeded => PersisterView::Writing { created: true },
            FileEventView::NotFound(detail) => PersisterView::Finished(
                WriteReportView::Failed(detail),
            ),
            FileEventView::Failed(detail) => PersisterView::Finished(
                WriteReportView::Failed(detail),
            ),
        },
        PersisterView::Writing { created } => match event {
            FileEventView::Succeeded => PersisterView::Finished(
                if created {
                    WriteReportView::Created
                } else {
                    WriteReportView::Overwritten
                },
            ),
            FileEventView::NotFound(detail) => PersisterView::Finished(
                WriteReportView::Failed(detail),
            ),
            FileEventView::Failed(detail) => PersisterView::Finished(
                WriteReportView::Failed(detail),
            ),
        },
        PersisterView::Finished(report) => PersisterView::Finished(report),
    }
}

/// The state in which the writing ends up after the operations went as
/// `events` say, one after the other.
pub open spec fn state_after(state: PersisterView, events: Seq<FileEventView>) -> PersisterView
    decreases events.len(),
{
    if events.len() == 0 {
        state
    } else {
        state_after(next_state(state, events.first()), events.drop_first())
    }
}

/// Whether a report tells of a file that holds the text.
pub open spec fn written(report: WriteReportView) -> bool {
    report is Created || report is Overwritten
}

/// Starts the writing: the first operation is to open the existing file.
pub fn begin_write() -> (start: (Persister, FileAction))
    ensures
        start.0@ == PersisterView::Opening,
        start.1 == pending(start.0@),
{
    (Persister::Opening, FileAction::Open)
}

/// Takes the writing one step further: given how the pending operation went,
/// returns the new state and the operation to carry out next.
pub fn write_config_file(state: Persister, event: FileEvent) -> (step: (Persister, FileAction))
    ensures
        step.0@ == next_state(state@, event@),
        step.1 == pending(step.0@),
{
    match state {
        Persister::Opening => match event {
            FileEvent::Succeeded => (Persister::Writing { created: false }, FileAction::Write),
            FileEvent::NotFound(_) => (Persister::Creating, FileAction::Create),
            FileEvent::Failed(detail) => (
                Persister::Finished(WriteReport::Failed(detail)),
                FileAction::Stop,
            ),
        },
        Persister::Creating => match event {
            FileEvent::Succeeded => (Persister::Writing { created: true }, FileAction::Write),
            FileEvent::NotFound(detail) => (
                Persister::Finished(WriteReport::Failed(detail)),
                FileAction::Stop,
            ),
            FileEvent::Failed(detail) => (
                Persister::Finished(WriteReport::Failed(detail)),
                FileAction::Stop,
            ),
        },
        Persister::Writing { created } => match event {
            FileEvent::Succeeded => {
                let report = if created {
                    WriteReport::Created
                } else {
                    WriteReport::Overwritten
                };
                (Persister::Finished(report), FileAction::Stop)
            },
            FileEvent::NotFound(detail) => (
                Persister::Finished(WriteReport::Failed(detail)),
                FileAction::Stop,
            ),
            FileEvent::Failed(detail) => (
                Persister::Finished(WriteReport::Failed(detail)),
                FileAction::Stop,
            ),
        },
        Persister::Finished(report) => (Persister::Finished(report), FileAction::Stop),
    }
}

/// A finished writing stays as it is, whatever is reported afterwards.
pub proof fn lemma_finished_is_final(report: WriteReportView, events: Seq<FileEventView>)
    ensures
        state_after(PersisterView::Finished(report), events) == PersisterView::Finished(report),
    decreases events.len(),
{
    if events.len() > 0 {
        lemma_finished_is_final(report, events.drop_first());
    }
}

/// The file counts as written only if every operation succeeded, but for an
/// absent file at the first step. A writing that ends with `Overwritten`
/// opened the file and wrote it; one that ends with `Created` found no file,
/// created it and wrote it. So a writing in which creating or writing failed,
/// or opening failed for another reason than absence, ends with `Failed`.
pub proof fn lemma_written_means_all_succeeded(events: Seq<FileEventView>)
    requires
        state_after(PersisterView::Opening, events) matches PersisterView::Finished(report)
            && written(report),
    ensures
        state_after(PersisterView::Opening, events) == PersisterView::Finished(
            WriteReportView::Overwritten,
        ) ==> events.len() >= 2 && events[0] is Succeeded && events[1] is Succeeded,
        state_after(PersisterView::Opening, events) == PersisterView::Finished(
            WriteReportView::Created,
        ) ==> events.len() >= 3 && events[0] is NotFound && events[1] is Succeeded
            && events[2] is Succeeded,
{
    reveal_with_fuel(state_after, 4);
    let start = PersisterView::Opening;
    if events.len() >= 1 {
        let after_one = next_state(start, events[0]);
        let rest_one = events.drop_first();
        if after_one is Finished {
            lemma_finished_is_final(after_one->Finished_0, rest_one);
        } else if rest_one.len() >= 1 {
            let after_two = next_state(after_one, rest_one[0]);
            let rest_two = rest_one.drop_first();
            if after_two is Finished {
                lemma_finished_is_final(after_two->Finished_0, rest_two);
            } else if rest_two.len() >= 1 {
                let after_three = next_state(after_two, rest_two[0]);
                lemma_finished_is_final(after_three->Finished_0, rest_two.drop_first());
            }
        }
    }
}

} // verus!
