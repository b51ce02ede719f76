//! A model of the host, to state what the operations achieve.
//!
//! Nothing here runs. The model is a disk on which directories and files
//! exist, and a host that does what it is asked on that disk and reports
//! failure only where the disk leaves it no choice: reading a file that is not
//! there, writing into a directory that is not there.

use crate::store::advanced;
use crate::store::pending;
use crate::store::ReplyView;
use crate::store::RequestView;
use crate::store::TaskView;
use vstd::prelude::*;

verus! {

/// A directory and the name of a file in it.
pub type Place = (Seq<char>, Seq<char>);

/// The part of the world that the store depends on.
#[verifier::ext_equal]
pub struct Disk {
    /// The application data directory, if the host can name one.
    pub data_directory: Option<Seq<char>>,
    /// The directories that exist.
    pub directories: Set<Seq<char>>,
    /// The files that exist, each with its text.
    pub files: Map<Place, Seq<char>>,
}

/// What the model host reports when asked to read a file that does not exist.
pub open spec fn no_such_file() -> Seq<char> {
    "no such file"@
}

/// What the model host reports when asked to write into a directory that does
/// not exist.
pub open spec fn no_such_directory() -> Seq<char> {
    "no such directory"@
}

/// The disk after the model host has done what it was asked, and its reply.
pub open spec fn served(disk: Disk, request: RequestView) -> (Disk, ReplyView) {
    match request {
        RequestView::DataDirectory => (disk, ReplyView::DataDirectory(disk.data_directory)),
        RequestView::CreateDirectory { directory } => (
            Disk { directories: disk.directories.insert(directory), ..disk },
            ReplyView::DirectoryCreated(Ok(())),
        ),
        RequestView::Probe { directory, file_name } => (
            disk,
            ReplyView::Probed(disk.files.contains_key((directory, file_name))),
        ),
        RequestView::Read { directory, file_name } => if disk.files.contains_key(
            (directory, file_name),
        ) {
            (disk, ReplyView::Contents(Ok(disk.files[(directory, file_name)])))
        } else {
            (disk, ReplyView::Contents(Err(no_such_file())))
        },
        RequestView::Write { directory, file_name, contents } => if disk.directories.contains(
            directory,
        ) {
            (
                Disk { files: disk.files.insert((directory, file_name), contents), ..disk },
                ReplyView::Written(Ok(())),
            )
        } else {
            (disk, ReplyView::Written(Err(no_such_directory())))
        },
    }
}

/// The task and the disk after the model host has served the task for at most
/// `steps` requests.
pub open spec fn run(task: TaskView, disk: Disk, steps: nat) -> (TaskView, Disk)
    decreases steps,
{
    if steps == 0 {
        (task, disk)
    } else {
        match pending(task) {
            None => (task, disk),
            Some(request) => {
                let (next_disk, reply) = served(disk, request);
                run(advanced(task, reply), next_disk, (steps - 1) as nat)
            },
        }
    }
}

/// The task and the disk once the model host has served the task to its end.
/// No task asks for more than four things.
pub open spec fn completed(task: TaskView, disk: Disk) -> (TaskView, Disk) {
    run(task, disk, 4)
}

} // verus!
