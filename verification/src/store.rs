//! The two operations of the store, step by step.
//!
//! The store persists the whole collection in one file, `transactions.json`,
//! directly inside the application data directory. Saving and loading both
//! need the host: to name that directory, to create it, to look at the file,
//! to read it, to write it. The library performs none of this. An operation is
//! a [`Task`]; as long as it has not ended, [`Task::request`] says what the
//! host has to do now, and [`Task::advance`] takes the host's reply to the
//! next task. The host does what is asked and hands back what came of it,
//! until the task has ended.

use crate::codec::decode;
use crate::codec::decoded;
use crate::codec::encode;
use crate::codec::encoded;
use crate::error::message_of;
use crate::error::StoreError;
use crate::error::StoreErrorView;
use crate::transaction::views;
use crate::transaction::Transaction;
use crate::transaction::TransactionView;
use vstd::prelude::*;

verus! {

/// The name of the file that holds the collection.
pub open spec fn file_name() -> Seq<char> {
    "transactions.json"@
}

/// What is to be done with the store.
#[derive(Clone, Debug, PartialEq, Eq)]
pub enum Operation {
    /// Replace the persisted collection by this one.
    Save(Vec<Transaction>),
    /// Return the persisted collection.
    Load,
}

/// What the host is asked to do.
#[derive(Clone, Debug, PartialEq, Eq)]
pub enum Request {
    /// Name the application data directory.
    DataDirectory,
    /// Create the directory together with every directory missing above it.
    /// That it exists already is no failure.
    CreateDirectory { directory: String },
    /// Say whether the file exists in the directory.
    Probe { directory: String, file_name: String },
    /// Read the whole file as text.
    Read { directory: String, file_name: String },
    /// Replace the whole content of the file by the text, creating the file if
    /// it does not exist.
    Write { directory: String, file_name: String, contents: String },
}

/// What the host answers. A failure carries the host's own description of it.
#[derive(Debug, PartialEq, Eq)]
pub enum Reply {
    /// The application data directory, or `None` if the host has none to give.
    DataDirectory(Option<String>),
    /// Whether the directory could be created.
    DirectoryCreated(Result<(), String>),
    /// Whether the file exists.
    Probed(bool),
    /// The text of the file.
    Contents(Result<String, String>),
    /// Whether the file could be written.
    Written(Result<(), String>),
}

/// An operation of the store at some point of its course.
#[derive(Debug, PartialEq, Eq)]
pub enum Task {
    /// The data directory is not known yet.
    Locating { operation: Operation },
    /// The data directory is known and has to be created.
    Preparing { operation: Operation, directory: String },
    /// A load has to learn whether the file exists.
    Probing { directory: String },
    /// A load has to read the file.
    Reading { directory: String },
    /// A save has to write the file.
    Writing { directory: String, contents: String },
    /// A save has ended.
    Saved(Result<(), StoreError>),
    /// A load has ended.
    Loaded(Result<Vec<Transaction>, StoreError>),
}

/// An operation as mathematical values.
pub enum OperationView {
    Save(Seq<TransactionView>),
    Load,
}

/// A request as mathematical values.
pub enum RequestView {
    DataDirectory,
    CreateDirectory { directory: Seq<char> },
    Probe { directory: Seq<char>, file_name: Seq<char> },
    Read { directory: Seq<char>, file_name: Seq<char> },
    Write { directory: Seq<char>, file_name: Seq<char>, contents: Seq<char> },
}

/// A reply as mathematical values.
pub enum ReplyView {
    DataDirectory(Option<Seq<char>>),
    DirectoryCreated(Result<(), Seq<char>>),
    Probed(bool),
    Contents(Result<Seq<char>, Seq<char>>),
    Written(Result<(), Seq<char>>),
}

/// A task as mathematical values.
pub enum TaskView {
    Locating { operation: OperationView },
    Preparing { operation: OperationView, directory: Seq<char> },
    Probing { directory: Seq<char> },
    Reading { directory: Seq<char> },
    Writing { directory: Seq<char>, contents: Seq<char> },
    Saved(Result<(), StoreErrorView>),
    Loaded(Result<Seq<TransactionView>, StoreErrorView>),
}

/// The host's report of an action without a result, as mathematical values.
pub open spec fn report_view(report: Result<(), String>) -> Result<(), Seq<char>> {
    match report {
        Ok(()) => Ok(()),
        Err(detail) => Err(detail@),
    }
}

impl View for Operation {
    type V = OperationView;

    open spec fn view(&self) -> OperationView {
        match self {
            Operation::Save(records) => OperationView::Save(views(records@)),
            Operation::Load => OperationView::Load,
        }
    }
}

impl View for Request {
    type V = RequestView;

    open spec fn view(&self) -> RequestView {
        match self {
            Request::DataDirectory => RequestView::DataDirectory,
            Request::CreateDirectory { directory } => RequestView::CreateDirectory {
                directory: directory@,
            },
            Request::Probe { directory, file_name } => RequestView::Probe {
                directory: directory@,
                file_name: file_name@,
            },
            Request::Read { directory, file_name } => RequestView::Read {
                directory: directory@,
                file_name: file_name@,
            },
            Request::Write { directory, file_name, contents } => RequestView::Write {
                directory: directory@,
                file_name: file_name@,
                contents: contents@,
            },
        }
    }
}

impl View for Reply {
    type V = ReplyView;

    open spec fn view(&self) -> ReplyView {
        match self {
            Reply::DataDirectory(None) => ReplyView::DataDirectory(None),
            Reply::DataDirectory(Some(directory)) => ReplyView::DataDirectory(Some(directory@)),
            Reply::DirectoryCreated(report) => ReplyView::DirectoryCreated(report_view(*report)),
            Reply::Probed(exists) => ReplyView::Probed(*exists),
            Reply::Contents(Ok(text)) => ReplyView::Contents(Ok(text@)),
            Reply::Contents(Err(detail)) => ReplyView::Contents(Err(detail@)),
            Reply::Written(report) => ReplyView::Written(report_view(*report)),
        }
    }
}

impl View for Task {
    type V = TaskView;

    open spec fn view(&self) -> TaskView {
        match self {
            Task::Locating { operation } => TaskView::Locating { operation: operation@ },
            Task::Preparing { operation, directory } => TaskView::Preparing {
                operation: operation@,
                directory: directory@,
            },
            Task::Probing { directory } => TaskView::Probing { directory: directory@ },
            Task::Reading { directory } => TaskView::Reading { directory: directory@ },
            Task::Writing { directory, contents } => TaskView::Writing {
                directory: directory@,
                contents: contents@,
            },
            Task::Saved(Ok(())) => TaskView::Saved(Ok(())),
            Task::Saved(Err(error)) => TaskView::Saved(Err(error@)),
            Task::Loaded(Ok(records)) => TaskView::Loaded(Ok(views(records@))),
            Task::Loaded(Err(error)) => TaskView::Loaded(Err(error@)),
        }
    }
}

/// The task in which an operation ends when it fails before it has done
/// anything of its own.
pub open spec fn failed(operation: OperationView, error: StoreErrorView) -> TaskView {
    match operation {
        OperationView::Save(_) => TaskView::Saved(Err(error)),
        OperationView::Load => TaskView::Loaded(Err(error)),
    }
}

/// What the host has to do for a task, or `None` if the task has ended.
pub open spec fn pending(task: TaskView) -> Option<RequestView> {
    match task {
        TaskView::Locating { .. } => Some(RequestView::DataDirectory),
        TaskView::Preparing { directory, .. } => Some(RequestView::CreateDirectory { directory }),
        TaskView::Probing { directory } => Some(
            RequestView::Probe { directory, file_name: file_name() },
        ),
        TaskView::Reading { directory } => Some(
            RequestView::Read { directory, file_name: file_name() },
        ),
        TaskView::Writing { directory, contents } => Some(
            RequestView::Write { directory, file_name: file_name(), contents },
        ),
        TaskView::Saved(_) => None,
        TaskView::Loaded(_) => None,
    }
}

/// The task that follows once the data directory is there.
pub open spec fn prepared(operation: OperationView, directory: Seq<char>) -> TaskView {
    match operation {
        OperationView::Save(records) => match encoded(records) {
            Ok(contents) => TaskView::Writing { directory, contents },
            Err(error) => TaskView::Saved(Err(error)),
        },
        OperationView::Load => TaskView::Probing { directory },
    }
}

/// The task that follows a task on a reply of the host.
///
/// Both operations first ask for the data directory and fail with
/// `PathResolution` if the host has none; then they have it created and fail
/// with `DirectoryCreation` if that fails. A save then encodes the collection,
/// failing with `Serialization` if it cannot, has the text written and fails
/// with `Write` if that fails. A load asks whether the file exists: if not, it
/// ends with the empty collection; if so, it has the file read, fails with
/// `Read` if that fails, and ends with what the text decodes to. A reply that
/// does not answer the task's request leaves the task as it is, and so does
/// any reply to a task that has ended.
pub open spec fn advanced(task: TaskView, reply: ReplyView) -> TaskView {
    match task {
        TaskView::Locating { operation } => match reply {
            ReplyView::DataDirectory(None) => failed(operation, StoreErrorView::PathResolution),
            ReplyView::DataDirectory(Some(directory)) => TaskView::Preparing {
                operation,
                directory,
            },
            _ => task,
        },
        TaskView::Preparing { operation, directory } => match reply {
            ReplyView::DirectoryCreated(Err(detail)) => failed(
                operation,
                StoreErrorView::DirectoryCreation(detail),
            ),
            ReplyView::DirectoryCreated(Ok(())) => prepared(operation, directory),
            _ => task,
        },
        TaskView::Probing { directory } => match reply {
            ReplyView::Probed(false) => TaskView::Loaded(Ok(Seq::empty())),
            ReplyView::Probed(true) => TaskView::Reading { directory },
            _ => task,
        },
        TaskView::Reading { directory } => match reply {
            ReplyView::Contents(Err(detail)) => TaskView::Loaded(Err(StoreErrorView::Read(detail))),
            ReplyView::Contents(Ok(text)) => TaskView::Loaded(decoded(text)),
            _ => task,
        },
        TaskView::Writing { directory, contents } => match reply {
            ReplyView::Written(Err(detail)) => TaskView::Saved(Err(StoreErrorView::Write(detail))),
            ReplyView::Written(Ok(())) => TaskView::Saved(Ok(())),
            _ => task,
        },
        TaskView::Saved(_) => task,
        TaskView::Loaded(_) => task,
    }
}

/// The reply is of the kind that the request asks for.
pub open spec fn answers(request: RequestView, reply: ReplyView) -> bool {
    match request {
        RequestView::DataDirectory => reply is DataDirectory,
        RequestView::CreateDirectory { .. } => reply is DirectoryCreated,
        RequestView::Probe { .. } => reply is Probed,
        RequestView::Read { .. } => reply is Contents,
        RequestView::Write { .. } => reply is Written,
    }
}

/// The largest number of requests that a task may still make.
pub open spec fn remaining(task: TaskView) -> nat {
    match task {
        TaskView::Locating { .. } => 4,
        TaskView::Preparing { .. } => 3,
        TaskView::Probing { .. } => 2,
        TaskView::Reading { .. } => 1,
        TaskView::Writing { .. } => 1,
        TaskView::Saved(_) => 0,
        TaskView::Loaded(_) => 0,
    }
}

/// Every reply that answers a task's request brings the task nearer to its
/// end, so a host that answers in kind is asked at most four times; and a
/// task asks for nothing exactly when nothing remains.
pub proof fn lemma_progress(task: TaskView, reply: ReplyView)
    requires
        pending(task) matches Some(request) && answers(request, reply),
    ensures
        remaining(advanced(task, reply)) < remaining(task),
        pending(task) is None <==> remaining(task) == 0,
{
}

/// No success is made up. A save ends well only on the host's report that the
/// file was written, and what it has written is the text of its collection. A
/// load ends with records only where the host has read the file and its text
/// decodes, and otherwise with the empty collection only on the host's report
/// that there is no file.
pub proof fn lemma_no_false_success(task: TaskView, reply: ReplyView)
    requires
        advanced(task, reply) != task,
    ensures
        advanced(task, reply) matches TaskView::Saved(Ok(_)) ==> task is Writing
            && reply matches ReplyView::Written(Ok(_)),
        (advanced(task, reply) matches TaskView::Writing { contents, .. } ==> task matches TaskView::Preparing {
            operation: OperationView::Save(records),
            ..
        } && encoded(records) == Ok::<Seq<char>, StoreErrorView>(contents)),
        (advanced(task, reply) matches TaskView::Loaded(Ok(records)) ==> {
            ||| task is Probing && reply == ReplyView::Probed(false) && records == Seq::<
                TransactionView,
            >::empty()
            ||| task is Reading && (reply matches ReplyView::Contents(Ok(text)) && decoded(text)
                == Ok::<Seq<TransactionView>, StoreErrorView>(records))
        }),
{
}

/// Begins a save of the given collection, which replaces whatever the file
/// held.
pub fn save_transactions(records: Vec<Transaction>) -> (task: Task)
    ensures
        task@ == (TaskView::Locating { operation: OperationView::Save(views(records@)) }),
{
    Task::Locating { operation: Operation::Save(records) }
}

/// Begins a load of the persisted collection.
pub fn load_transactions() -> (task: Task)
    ensures
        task@ == (TaskView::Locating { operation: OperationView::Load }),
{
    Task::Locating { operation: Operation::Load }
}

/// Ends an operation that fails before it has done anything of its own.
fn fail(operation: Operation, error: StoreError) -> (task: Task)
    ensures
        task@ == failed(operation@, error@),
{
    match operation {
        Operation::Save(_) => Task::Saved(Err(error)),
        Operation::Load => Task::Loaded(Err(error)),
    }
}

/// Goes on with an operation whose data directory is there.
fn prepare(operation: Operation, directory: String) -> (task: Task)
    ensures
        task@ == prepared(operation@, directory@),
{
    match operation {
        Operation::Save(records) => match encode(&records) {
            Ok(contents) => Task::Writing { directory, contents },
            Err(error) => Task::Saved(Err(error)),
        },
        Operation::Load => Task::Probing { directory },
    }
}

impl Task {
    /// What the host has to do now, or `None` if the task has ended.
    pub fn request(&self) -> (request: Option<Request>)
        ensures
            match request {
                Some(request) => pending(self@) == Some(request@),
                None => pending(self@) is None,
            },
    {
        match self {
            Task::Locating { .. } => Some(Request::DataDirectory),
            Task::Preparing { directory, .. } => Some(
                Request::CreateDirectory { directory: directory.clone() },
            ),
            Task::Probing { directory } => Some(
                Request::Probe {
                    directory: directory.clone(),
                    file_name: "transactions.json".to_owned(),
                },
            ),
            Task::Reading { directory } => Some(
                Request::Read {
                    directory: directory.clone(),
                    file_name: "transactions.json".to_owned(),
                },
            ),
            Task::Writing { directory, contents } => Some(
                Request::Write {
                    directory: directory.clone(),
                    file_name: "transactions.json".to_owned(),
                    contents: contents.clone(),
                },
            ),
            Task::Saved(_) => None,
            Task::Loaded(_) => None,
        }
    }

    /// What the caller of a save is told: `None` as long as the task has not
    /// ended as a save; then success, or the message of the failure.
    pub fn saved(self) -> (told: Option<Result<(), String>>)
        ensures
            match told {
                None => !(self@ is Saved),
                Some(Ok(())) => self@ == TaskView::Saved(Ok(())),
                Some(Err(text)) => self@ matches TaskView::Saved(Err(error)) && text@
                    == message_of(error),
            },
    {
        match self {
            Task::Saved(Ok(())) => Some(Ok(())),
            Task::Saved(Err(error)) => Some(Err(error.message())),
            _ => None,
        }
    }

    /// What the caller of a load is told: `None` as long as the task has not
    /// ended as a load; then the collection, or the message of the failure.
    pub fn loaded(self) -> (told: Option<Result<Vec<Transaction>, String>>)
        ensures
            match told {
                None => !(self@ is Loaded),
                Some(Ok(records)) => self@ == TaskView::Loaded(Ok(views(records@))),
                Some(Err(text)) => self@ matches TaskView::Loaded(Err(error)) && text@
                    == message_of(error),
            },
    {
        match self {
            Task::Loaded(Ok(records)) => Some(Ok(records)),
            Task::Loaded(Err(error)) => Some(Err(error.message())),
            _ => None,
        }
    }

    /// The task that follows this one on a reply of the host.
    pub fn advance(self, reply: Reply) -> (next: Task)
        ensures
            next@ == advanced(self@, reply@),
    {
        match self {
            Task::Locating { operation } => match reply {
                Reply::DataDirectory(None) => fail(operation, StoreError::PathResolution),
                Reply::DataDirectory(Some(directory)) => Task::Preparing { operation, directory },
                _ => Task::Locating { operation },
            },
            Task::Preparing { operation, directory } => match reply {
                Reply::DirectoryCreated(Err(detail)) => fail(
                    operation,
                    StoreError::DirectoryCreation(detail),
                ),
                Reply::DirectoryCreated(Ok(())) => prepare(operation, directory),
                _ => Task::Preparing { operation, directory },
            },
            Task::Probing { directory } => match reply {
                Reply::Probed(false) => {
                    let records: Vec<Transaction> = Vec::new();
                    assert(views(records@) =~= Seq::<TransactionView>::empty());
                    Task::Loaded(Ok(records))
                },
                Reply::Probed(true) => Task::Reading { directory },
                _ => Task::Probing { directory },
            },
            Task::Reading { directory } => match reply {
                Reply::Contents(Err(detail)) => Task::Loaded(Err(StoreError::Read(detail))),
                Reply::Contents(Ok(text)) => Task::Loaded(decode(text.as_str())),
                _ => Task::Reading { directory },
            },
            Task::Writing { directory, contents } => match reply {
                Reply::Written(Err(detail)) => Task::Saved(Err(StoreError::Write(detail))),
                Reply::Written(Ok(())) => Task::Saved(Ok(())),
                _ => Task::Writing { directory, contents },
            },
            Task::Saved(outcome) => Task::Saved(outcome),
            Task::Loaded(outcome) => Task::Loaded(outcome),
        }
    }
}

} // verus!
