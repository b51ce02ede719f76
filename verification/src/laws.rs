//! What saving and loading achieve, proved over the model host.

use crate::codec::decoded;
use crate::codec::encoded;
use crate::error::StoreErrorView;
use crate::format::document_json;
use crate::format::lemma_document_round_trip;
use crate::host::completed;
use crate::host::run;
use crate::host::Disk;
use crate::json::parsed;
use crate::json::pretty;
use crate::store::file_name;
use crate::store::pending;
use crate::store::OperationView;
use crate::store::TaskView;
use crate::transaction::TransactionView;
use vstd::prelude::*;

verus! {

/// A save of `records`, not yet begun.
pub open spec fn save_of(records: Seq<TransactionView>) -> TaskView {
    TaskView::Locating { operation: OperationView::Save(records) }
}

/// A load, not yet begun.
pub open spec fn load() -> TaskView {
    TaskView::Locating { operation: OperationView::Load }
}

/// `text` is what is written for `records`, and reading it as JSON gives back
/// the value that was printed.
pub open spec fn reads_back(records: Seq<TransactionView>, text: Seq<char>) -> bool {
    &&& pretty(document_json(records)) matches Ok(printed)
    &&& printed == text
    &&& parsed(text) matches Ok(json)
    &&& json == document_json(records)
}

/// Every task ends: after four requests at most nothing is left to ask.
pub proof fn lemma_task_ends(task: TaskView, disk: Disk)
    ensures
        pending(completed(task, disk).0) is None,
{
    reveal_with_fuel(run, 5);
}

/// A failed decoding is always a `Deserialization`, and a failed encoding
/// always a `Serialization`.
pub proof fn lemma_codec_failures(text: Seq<char>, records: Seq<TransactionView>)
    ensures
        decoded(text) matches Err(error) ==> error is Deserialization,
        encoded(records) matches Err(error) ==> error is Serialization,
{
}

/// Decoding inverts encoding: where the text written for a collection reads
/// back as the JSON value that was printed, decoding the text gives the
/// collection, equal in content and in order.
pub proof fn lemma_decode_encoded(records: Seq<TransactionView>, text: Seq<char>)
    requires
        reads_back(records, text),
    ensures
        encoded(records) == Ok::<Seq<char>, StoreErrorView>(text),
        decoded(text) == Ok::<Seq<TransactionView>, StoreErrorView>(records),
{
    lemma_document_round_trip(records);
}

/// Round trip: a save followed by a load returns the collection that was
/// saved, equal in content and in order. This holds of every collection, the
/// empty one and one with repeated identifiers included, whose text reads back
/// as the JSON value that was printed.
pub proof fn lemma_save_then_load(disk: Disk, records: Seq<TransactionView>, text: Seq<char>)
    requires
        disk.data_directory is Some,
        reads_back(records, text),
    ensures
        completed(save_of(records), disk).0 == TaskView::Saved(Ok(())),
        completed(load(), completed(save_of(records), disk).1).0 == TaskView::Loaded(Ok(records)),
{
    reveal_with_fuel(run, 5);
    lemma_decode_encoded(records, text);
}

/// First run: a load on a disk without the file ends with the empty
/// collection, not with a failure.
pub proof fn lemma_first_load_is_empty(disk: Disk)
    requires
        disk.data_directory matches Some(directory) && !disk.files.contains_key(
            (directory, file_name()),
        ),
    ensures
        completed(load(), disk).0 == TaskView::Loaded(Ok(Seq::empty())),
{
    reveal_with_fuel(run, 5);
}

/// Overwrite: after a save of `first` and then a save of `second`, a load
/// returns `second` and nothing of `first`.
pub proof fn lemma_last_save_wins(
    disk: Disk,
    first: Seq<TransactionView>,
    second: Seq<TransactionView>,
    text: Seq<char>,
)
    requires
        disk.data_directory is Some,
        reads_back(second, text),
    ensures
        ({
            let after_first = completed(save_of(first), disk).1;
            let after_second = completed(save_of(second), after_first).1;
            completed(load(), after_second).0 == TaskView::Loaded(Ok(second))
        }),
{
    reveal_with_fuel(run, 5);
    lemma_decode_encoded(second, text);
}

/// Directory creation: a save succeeds whether or not the data directory
/// exists beforehand, and afterwards the directory exists and the file in it
/// holds the text written for the collection.
pub proof fn lemma_save_creates_directory(disk: Disk, records: Seq<TransactionView>)
    requires
        disk.data_directory is Some,
        encoded(records) is Ok,
    ensures
        ({
            let (task, after) = completed(save_of(records), disk);
            let directory = disk.data_directory->Some_0;
            &&& task == TaskView::Saved(Ok(()))
            &&& after.directories == disk.directories.insert(directory)
            &&& after.files == disk.files.insert(
                (directory, file_name()),
                encoded(records)->Ok_0,
            )
            &&& after.data_directory == disk.data_directory
        }),
{
    reveal_with_fuel(run, 5);
}

/// Malformed file: a load of a file whose text does not decode fails with a
/// `Deserialization`; it returns no records at all.
pub proof fn lemma_malformed_file_fails(disk: Disk, text: Seq<char>)
    requires
        disk.data_directory matches Some(directory) && disk.files.contains_pair(
            (directory, file_name()),
            text,
        ),
        !(decoded(text) is Ok),
    ensures
        completed(load(), disk).0 matches TaskView::Loaded(Err(error)) && error is Deserialization,
{
    reveal_with_fuel(run, 5);
}

/// Without a data directory both operations fail with `PathResolution` and
/// leave the disk as it is.
pub proof fn lemma_no_data_directory(disk: Disk, records: Seq<TransactionView>)
    requires
        disk.data_directory is None,
    ensures
        completed(save_of(records), disk) == (
            TaskView::Saved(Err(StoreErrorView::PathResolution)),
            disk,
        ),
        completed(load(), disk) == (TaskView::Loaded(Err(StoreErrorView::PathResolution)), disk),
{
    reveal_with_fuel(run, 5);
}

/// A load changes no file, and a second load ends as the first did.
pub proof fn lemma_load_is_repeatable(disk: Disk)
    ensures
        completed(load(), disk).1.files == disk.files,
        completed(load(), completed(load(), disk).1).0 == completed(load(), disk).0,
{
    reveal_with_fuel(run, 5);
}

/// Saving the same collection twice leaves the disk as saving it once does.
pub proof fn lemma_save_is_idempotent(disk: Disk, records: Seq<TransactionView>)
    ensures
        ({
            let once = completed(save_of(records), disk);
            completed(save_of(records), once.1) == once
        }),
{
    reveal_with_fuel(run, 5);
    let once = completed(save_of(records), disk);
    let twice = completed(save_of(records), once.1);
    assert(twice.1.directories =~= once.1.directories);
    assert(twice.1.files =~= once.1.files);
}

} // verus!
