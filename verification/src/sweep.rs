//! The sweep over the class directory of graphics devices.
//!
//! The class directory holds one entry for each device, named `card` and a
//! number, among entries of other kinds. The sweep takes the entries in the
//! order in which the directory yields them, one at a time. An entry whose
//! name does not begin with `card` is passed over before anything under it
//! is looked at. For a device, the control file is looked for under the
//! entry; where it exists, the level's token replaces its contents, and
//! where it does not, the device is skipped: hardware without the control is
//! expected, and no error.
//!
//! Nothing that goes wrong with one entry ends the sweep. An entry that the
//! directory fails to yield and a write that the system refuses are each
//! told in a diagnostic, and the sweep goes on with the next entry. A
//! listing, as [`plan`] takes it, holds the entries that were read.
//!
//! Paths are relative to the class directory.

use vstd::prelude::*;
use vstd::string::*;

use crate::bytes::{ascii, ascii_bytes, starts_with};
use crate::level::PerfLevel;

verus! {

/// The class directory of graphics devices.
pub const CLASS_DIR: &'static str = "/sys/class/drm";

/// What the name of a device's entry begins with.
pub open spec fn device_prefix() -> Seq<u8> {
    ascii("card"@)
}

/// What leads from a device's entry to its control file.
pub open spec fn control_suffix() -> Seq<u8> {
    ascii("/device/power_dpm_force_performance_level"@)
}

/// Whether an entry of this name is a device.
pub open spec fn is_device_name(name: Seq<u8>) -> bool {
    device_prefix().is_prefix_of(name)
}

/// The control file of the device whose entry has this name.
pub open spec fn control_file(name: Seq<u8>) -> Seq<u8> {
    name + control_suffix()
}

/// The control file to look for under an entry: that of the device, and
/// none for an entry that is no device.
pub open spec fn target_of(name: Seq<u8>) -> Option<Seq<u8>> {
    if is_device_name(name) {
        Some(control_file(name))
    } else {
        None
    }
}

/// One entry of the class directory: its file name, and whether the control
/// file exists under it.
#[derive(Debug, Clone, PartialEq, Eq)]
pub struct Entry {
    pub name: Vec<u8>,
    pub has_control: bool,
}

/// An `Entry` as a mathematical value.
pub struct EntryView {
    pub name: Seq<u8>,
    pub has_control: bool,
}

impl View for Entry {
    type V = EntryView;

    open spec fn view(&self) -> EntryView {
        EntryView { name: self.name@, has_control: self.has_control }
    }
}

impl DeepView for Entry {
    type V = EntryView;

    open spec fn deep_view(&self) -> EntryView {
        self@
    }
}

/// One write of the sweep: the file, and what replaces its contents. The
/// contents are written as they are, with nothing added at the end.
#[derive(Debug, Clone, PartialEq, Eq)]
pub struct Write {
    pub path: Vec<u8>,
    pub contents: &'static [u8],
}

/// A `Write` as a mathematical value.
pub struct WriteView {
    pub path: Seq<u8>,
    pub contents: Seq<u8>,
}

impl View for Write {
    type V = WriteView;

    open spec fn view(&self) -> WriteView {
        WriteView { path: self.path@, contents: self.contents@ }
    }
}

impl DeepView for Write {
    type V = WriteView;

    open spec fn deep_view(&self) -> WriteView {
        self@
    }
}

/// The write that the sweep makes for a control file that was looked for:
/// the level's token where the file exists, nothing where it does not.
pub open spec fn write_to(level: PerfLevel, path: Seq<u8>, present: bool) -> Option<WriteView> {
    if present {
        Some(WriteView { path, contents: level.contents() })
    } else {
        None
    }
}

/// The write that the sweep makes for an entry, if it makes one.
pub open spec fn write_of(level: PerfLevel, entry: EntryView) -> Option<WriteView> {
    match target_of(entry.name) {
        Some(path) => write_to(level, path, entry.has_control),
        None => None,
    }
}

/// The writes of a sweep over the given entries, in the order of the entries.
pub open spec fn planned(level: PerfLevel, entries: Seq<EntryView>) -> Seq<WriteView> {
    entries.filter_map(|entry: EntryView| write_of(level, entry))
}

/// The control file to look for under the entry of the given name, or
/// `None` where the entry is no device.
pub fn target(name: &[u8]) -> (path: Option<Vec<u8>>)
    ensures
        match path {
            Some(path) => target_of(name@) == Some(path@),
            None => target_of(name@) is None,
        },
{
    proof {
        reveal_strlit("card");
        reveal_strlit("/device/power_dpm_force_performance_level");
    }
    if starts_with(name, ascii_bytes("card")) {
        let mut path: Vec<u8> = Vec::new();
        path.extend_from_slice(name);
        path.extend_from_slice(ascii_bytes("/device/power_dpm_force_performance_level"));
        assert(path@ =~= control_file(name@));
        Some(path)
    } else {
        None
    }
}

/// What to do about a control file once it is known whether it exists: the
/// write of the level's token, or `None` where there is no such file.
pub fn write_for(level: PerfLevel, path: Vec<u8>, present: bool) -> (write: Option<Write>)
    ensures
        match write {
            Some(write) => write_to(level, path@, present) == Some(write@),
            None => write_to(level, path@, present) is None,
        },
{
    if present {
        Some(Write { path, contents: level.as_contents() })
    } else {
        None
    }
}

/// The writes of a sweep over the given entries, in the order of the entries.
pub fn plan(level: PerfLevel, entries: &[Entry]) -> (writes: Vec<Write>)
    ensures
        writes.deep_view() == planned(level, entries.deep_view()),
{
    let ghost views = entries.deep_view();
    let ghost choose_write = |entry: EntryView| write_of(level, entry);
    let mut writes: Vec<Write> = Vec::new();
    let mut i: usize = 0;
    assert(writes.deep_view() =~= views.take(0).filter_map(choose_write));
    while i < entries.len()
        invariant
            i <= entries@.len(),
            views == entries.deep_view(),
            choose_write == |entry: EntryView| write_of(level, entry),
            writes.deep_view() == views.take(i as int).filter_map(choose_write),
        decreases entries@.len() - i,
    {
        proof {
            views.lemma_filter_map_take_succ(choose_write, i as int);
        }
        let ghost before = writes.deep_view();
        if let Some(path) = target(entries[i].name.as_slice()) {
            if let Some(write) = write_for(level, path, entries[i].has_control) {
                writes.push(write);
                assert(writes.deep_view() =~= before + seq![write@]);
            }
        }
        i += 1;
    }
    assert(views.take(i as int) == views);
    writes
}

/// The sweep takes its entries one by one: what it does for an entry does
/// not depend on the entries before or after it, so the writes for two
/// listings in a row are the writes for the first and then those for the
/// second. In particular no entry ends the sweep for those that follow.
pub proof fn planned_concat(level: PerfLevel, first: Seq<EntryView>, second: Seq<EntryView>)
    ensures
        planned(level, first + second) == planned(level, first) + planned(level, second),
    decreases second.len(),
{
    let choose_write = |entry: EntryView| write_of(level, entry);
    if second.len() == 0 {
        assert(first + second =~= first);
        assert(planned(level, first) + planned(level, second) =~= planned(level, first));
    } else {
        let rest = second.drop_last();
        let last = second.last();
        planned_concat(level, first, rest);
        assert((first + second).drop_last() =~= first + rest);
        assert((first + second).last() == last);
        assert(planned(level, first + second) == (first + second).filter_map(choose_write));
        assert(planned(level, second) == second.filter_map(choose_write));
        match write_of(level, last) {
            Some(write) => {
                assert(planned(level, first) + (planned(level, rest) + seq![write]) =~= planned(
                    level,
                    first,
                ) + planned(level, rest) + seq![write]);
            },
            None => {},
        }
    }
}

/// The writes of a sweep are those that its entries call for, and no
/// others: a device whose control file exists gets the write of the level's
/// token to that file, and neither a device without the file nor an entry
/// that is no device gets any.
pub proof fn planned_writes_are_those_of_the_entries(
    level: PerfLevel,
    entries: Seq<EntryView>,
    write: WriteView,
)
    ensures
        planned(level, entries).contains(write) <==> exists|i: int|
            0 <= i < entries.len() && write_of(level, #[trigger] entries[i]) == Some(write),
    decreases entries.len(),
{
    let choose_write = |entry: EntryView| write_of(level, entry);
    let called_for = |entries: Seq<EntryView>|
        exists|i: int|
            0 <= i < entries.len() && write_of(level, #[trigger] entries[i]) == Some(write);
    if entries.len() == 0 {
        assert(planned(level, entries) =~= Seq::<WriteView>::empty());
    } else {
        let rest = entries.drop_last();
        let last = entries.last();
        planned_writes_are_those_of_the_entries(level, rest, write);
        assert(planned(level, entries) == entries.filter_map(choose_write));
        assert(planned(level, rest) == rest.filter_map(choose_write));
        assert(entries[entries.len() - 1] == last);
        if called_for(rest) {
            let i = choose|i: int|
                0 <= i < rest.len() && write_of(level, #[trigger] rest[i]) == Some(write);
            assert(entries[i] == rest[i]);
        }
        if called_for(entries) {
            let i = choose|i: int|
                0 <= i < entries.len() && write_of(level, #[trigger] entries[i]) == Some(write);
            if i < rest.len() {
                assert(rest[i] == entries[i]);
            }
        }
        let before = planned(level, rest);
        match write_of(level, last) {
            Some(made) => {
                let writes = before + seq![made];
                assert(planned(level, entries) == writes);
                assert(writes[writes.len() - 1] == made);
                if before.contains(write) {
                    let j = choose|j: int| 0 <= j < before.len() && before[j] == write;
                    assert(writes[j] == write);
                }
                if writes.contains(write) {
                    let j = choose|j: int| 0 <= j < writes.len() && writes[j] == write;
                    if j < before.len() {
                        assert(before[j] == write);
                    }
                }
            },
            None => {},
        }
    }
}

} // verus!
