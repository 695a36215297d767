//! The files under the class directory, and what a sweep does to them.
//!
//! The files are a map from paths, relative to the class directory, to
//! contents. This is the ground on which the sweep's effect is stated: which
//! files change, what they hold afterwards, and that a second sweep finds
//! nothing left to do.

use vstd::prelude::*;

use crate::level::PerfLevel;
use crate::sweep::{control_file, is_device_name, planned, write_of, EntryView, WriteView};

verus! {

/// The files after the writes were made, one after the other. A write
/// replaces the whole contents of its file.
pub open spec fn written(files: Map<Seq<u8>, Seq<u8>>, writes: Seq<WriteView>) -> Map<
    Seq<u8>,
    Seq<u8>,
>
    decreases writes.len(),
{
    if writes.len() == 0 {
        files
    } else {
        written(files, writes.drop_last()).insert(writes.last().path, writes.last().contents)
    }
}

/// Whether the entries were taken from these files: each entry says that its
/// control file exists if and only if it does.
pub open spec fn observed(entries: Seq<EntryView>, files: Map<Seq<u8>, Seq<u8>>) -> bool {
    forall|i: int|
        0 <= i < entries.len() ==> ((#[trigger] entries[i]).has_control <==> files.dom().contains(
            control_file(entries[i].name),
        ))
}

/// Whether the path is the control file of a device among the entries.
pub open spec fn is_control_file(entries: Seq<EntryView>, path: Seq<u8>) -> bool {
    exists|i: int|
        0 <= i < entries.len() && is_device_name((#[trigger] entries[i]).name) && control_file(
            entries[i].name,
        ) == path
}

/// The files after a sweep: the same files as before, where each control
/// file of a device among the entries holds the level's token and every other
/// file holds what it held.
pub open spec fn swept(
    level: PerfLevel,
    entries: Seq<EntryView>,
    files: Map<Seq<u8>, Seq<u8>>,
) -> Map<Seq<u8>, Seq<u8>> {
    Map::new(
        |path: Seq<u8>| files.dom().contains(path),
        |path: Seq<u8>|
            if is_control_file(entries, path) {
                level.contents()
            } else {
                files[path]
            },
    )
}

/// The writes of a sweep set the level in every control file that exists
/// under a device among the entries, and do nothing else: a device without
/// the file gets no write, no file is created, and no other file changes.
pub proof fn sweep_sets_existing_control_files(
    level: PerfLevel,
    entries: Seq<EntryView>,
    files: Map<Seq<u8>, Seq<u8>>,
)
    requires
        observed(entries, files),
    ensures
        written(files, planned(level, entries)) == swept(level, entries, files),
    decreases entries.len(),
{
    let choose_write = |entry: EntryView| write_of(level, entry);
    if entries.len() == 0 {
        assert(written(files, planned(level, entries)) =~= swept(level, entries, files));
    } else {
        let rest = entries.drop_last();
        let last = entries.last();
        assert(observed(rest, files)) by {
            assert forall|i: int| 0 <= i < rest.len() implies ((#[trigger] rest[i]).has_control
                <==> files.dom().contains(control_file(rest[i].name))) by {
                assert(rest[i] == entries[i]);
            }
        }
        sweep_sets_existing_control_files(level, rest, files);
        let before = swept(level, rest, files);
        assert(planned(level, rest) == rest.filter_map(choose_write));
        assert forall|path: Seq<u8>| is_control_file(rest, path) implies is_control_file(
            entries,
            path,
        ) by {
            let i = choose|i: int|
                0 <= i < rest.len() && is_device_name((#[trigger] rest[i]).name) && control_file(
                    rest[i].name,
                ) == path;
            assert(entries[i] == rest[i]);
        }
        assert forall|path: Seq<u8>|
            is_control_file(entries, path) && !is_control_file(rest, path) implies is_device_name(
            last.name,
        ) && control_file(last.name) == path by {
            let i = choose|i: int|
                0 <= i < entries.len() && is_device_name((#[trigger] entries[i]).name)
                    && control_file(entries[i].name) == path;
            if i < rest.len() {
                assert(rest[i] == entries[i]);
            }
        }
        assert(entries[entries.len() - 1] == last);
        match write_of(level, last) {
            Some(write) => {
                let writes = planned(level, rest) + seq![write];
                assert(planned(level, entries) == writes);
                assert(writes.drop_last() =~= planned(level, rest));
                assert(writes.last() == write);
                assert(is_control_file(entries, write.path));
                assert(before.insert(write.path, write.contents) =~= swept(
                    level,
                    entries,
                    files,
                ));
            },
            None => {
                assert(planned(level, entries) == planned(level, rest));
                assert(before =~= swept(level, entries, files));
            },
        }
    }
}

/// Setting the same level twice in succession leaves every file as the first
/// sweep left it: after a sweep the entries still describe the files, and
/// the writes of a second sweep over them change nothing.
pub proof fn sweep_is_idempotent(
    level: PerfLevel,
    entries: Seq<EntryView>,
    files: Map<Seq<u8>, Seq<u8>>,
)
    requires
        observed(entries, files),
    ensures
        observed(entries, written(files, planned(level, entries))),
        written(written(files, planned(level, entries)), planned(level, entries)) == written(
            files,
            planned(level, entries),
        ),
{
    sweep_sets_existing_control_files(level, entries, files);
    let once = swept(level, entries, files);
    assert(observed(entries, once));
    sweep_sets_existing_control_files(level, entries, once);
    assert(swept(level, entries, once) =~= once);
}

} // verus!
