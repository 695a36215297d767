use std::collections::BTreeMap;

use dpm_level::args::UsageError;
use dpm_level::level::PerfLevel;
use dpm_level::run::{run, RunError};
use dpm_level::sweep::{plan, Entry, Write};

const CONTROL: &[u8] = b"/device/power_dpm_force_performance_level";

fn command_line(words: &[&[u8]]) -> Vec<Vec<u8>> {
    words.iter().map(|word| word.to_vec()).collect()
}

fn denied() -> String {
    String::from("Permission denied (os error 13)")
}

fn control_file(name: &[u8]) -> Vec<u8> {
    let mut path = name.to_vec();
    path.extend_from_slice(CONTROL);
    path
}

fn list(names: &[&[u8]], files: &BTreeMap<Vec<u8>, Vec<u8>>) -> Vec<Entry> {
    names
        .iter()
        .map(|name| Entry {
            name: name.to_vec(),
            has_control: files.contains_key(&control_file(name)),
        })
        .collect()
}

fn apply(files: &mut BTreeMap<Vec<u8>, Vec<u8>>, writes: &[Write]) {
    for write in writes {
        files.insert(write.path.clone(), write.contents.to_vec());
    }
}

#[test]
fn auto_on_card0_with_control_and_card1_without() {
    let mut files = BTreeMap::new();
    files.insert(control_file(b"card0"), b"manual\n".to_vec());
    let names: [&[u8]; 2] = [b"card0", b"card1"];
    let entries = list(&names, &files);
    let writes = run(&command_line(&[b"auto"]), Ok(&entries)).unwrap();
    apply(&mut files, &writes);
    assert_eq!(files.get(&control_file(b"card0")), Some(&b"auto".to_vec()));
    assert_eq!(files.get(&control_file(b"card1")), None);
    assert_eq!(files.len(), 1);
}

#[test]
fn turbo_fails_and_writes_nothing() {
    let entries = vec![Entry { name: b"card0".to_vec(), has_control: true }];
    let result = run(&command_line(&[b"turbo"]), Ok(&entries));
    assert_eq!(result, Err(RunError::Usage(UsageError::InvalidLevel(b"turbo".to_vec()))));
}

#[test]
fn usage_errors_fail_whatever_the_directory_holds() {
    let entries = vec![Entry { name: b"card0".to_vec(), has_control: true }];
    assert_eq!(run(&[], Ok(&entries)), Err(RunError::Usage(UsageError::Missing)));
    assert_eq!(run(&[], Err(denied())), Err(RunError::Usage(UsageError::Missing)));
    assert_eq!(
        run(&command_line(&[b"low", b"high"]), Ok(&entries)),
        Err(RunError::Usage(UsageError::ExtraArgument(b"high".to_vec())))
    );
    assert_eq!(
        run(&command_line(&[b"Low"]), Err(denied())),
        Err(RunError::Usage(UsageError::InvalidLevel(b"Low".to_vec())))
    );
}

#[test]
fn unlisted_directory_fails_and_writes_nothing() {
    assert_eq!(run(&command_line(&[b"low"]), Err(denied())), Err(RunError::Unlisted(denied())));
    assert_eq!(run(&command_line(&[b"auto"]), Err(denied())), Err(RunError::Unlisted(denied())));
    let missing = String::from("No such file or directory (os error 2)");
    assert_eq!(
        run(&command_line(&[b"high"]), Err(missing.clone())),
        Err(RunError::Unlisted(missing))
    );
}

#[test]
fn listed_directory_succeeds_even_when_empty() {
    assert_eq!(run(&command_line(&[b"high"]), Ok(&[])), Ok(Vec::new()));
}

#[test]
fn run_writes_what_the_sweep_plans() {
    let entries = vec![
        Entry { name: b"card0".to_vec(), has_control: true },
        Entry { name: b"renderD128".to_vec(), has_control: true },
        Entry { name: b"card1".to_vec(), has_control: true },
    ];
    assert_eq!(run(&command_line(&[b"low"]), Ok(&entries)), Ok(plan(PerfLevel::Low, &entries)));
    assert_eq!(
        run(&command_line(&[b"high"]), Ok(&entries)),
        Ok(vec![
            Write { path: control_file(b"card0"), contents: b"high" },
            Write { path: control_file(b"card1"), contents: b"high" },
        ])
    );
}

#[test]
fn second_run_changes_nothing() {
    let mut files = BTreeMap::new();
    files.insert(control_file(b"card0"), b"auto".to_vec());
    files.insert(control_file(b"card2"), b"low\n".to_vec());
    files.insert(b"card0/device/vendor".to_vec(), b"0x1002\n".to_vec());
    files.insert(control_file(b"renderD128"), b"untouched".to_vec());
    let names: [&[u8]; 4] = [b"card0", b"card1", b"card2", b"renderD128"];

    let entries = list(&names, &files);
    let writes = run(&command_line(&[b"high"]), Ok(&entries)).unwrap();
    apply(&mut files, &writes);
    let once = files.clone();

    let entries_again = list(&names, &files);
    assert_eq!(entries_again, entries);
    let writes_again = run(&command_line(&[b"high"]), Ok(&entries_again)).unwrap();
    apply(&mut files, &writes_again);

    assert_eq!(files, once);
    assert_eq!(files.get(&control_file(b"card0")), Some(&b"high".to_vec()));
    assert_eq!(files.get(&control_file(b"card2")), Some(&b"high".to_vec()));
    assert_eq!(files.get(&b"card0/device/vendor".to_vec()), Some(&b"0x1002\n".to_vec()));
    assert_eq!(files.get(&control_file(b"renderD128")), Some(&b"untouched".to_vec()));
    assert_eq!(files.len(), 4);
}

#[test]
fn sweep_creates_no_file() {
    let files: BTreeMap<Vec<u8>, Vec<u8>> = BTreeMap::new();
    let names: [&[u8]; 2] = [b"card0", b"card1"];
    let entries = list(&names, &files);
    assert_eq!(run(&command_line(&[b"auto"]), Ok(&entries)), Ok(Vec::new()));
}

#[test]
fn usage_failure_is_told_in_two_lines() {
    let error = run(&command_line(&[b"turbo"]), Err(denied())).unwrap_err();
    assert_eq!(
        error.report("dpm-level"),
        vec![
            String::from("dpm-level: invalid performance level: turbo"),
            String::from("Usage: dpm-level [low|auto|high]"),
        ]
    );
    let error = run(&[], Ok(&[])).unwrap_err();
    assert_eq!(
        error.report("dpm-level"),
        vec![
            String::from("dpm-level: missing performance level"),
            String::from("Usage: dpm-level [low|auto|high]"),
        ]
    );
    let error = run(&command_line(&[b"auto", b"now"]), Ok(&[])).unwrap_err();
    assert_eq!(
        error.report("dpm-level"),
        vec![
            String::from("dpm-level: invalid argument: now"),
            String::from("Usage: dpm-level [low|auto|high]"),
        ]
    );
}

#[test]
fn unlisted_directory_is_told_in_one_line() {
    let error = run(&command_line(&[b"auto"]), Err(denied())).unwrap_err();
    assert_eq!(
        error.report("dpm-level"),
        vec![String::from("dpm-level: /sys/class/drm: Permission denied (os error 13)")]
    );
}
