use sessiond::info::{join_arguments, ProcessInfo, ProcessesWindowsInfo, WindowInfo};
use sessiond::x11_client::X11WindowInformation;

fn window(xid: u32, name: &str) -> WindowInfo {
    WindowInfo::new(&name.to_string(), xid, &"main".to_string(), 0)
}

fn process(cmdline: &str, pid: usize) -> ProcessInfo {
    ProcessInfo::new(cmdline.to_string(), pid)
}

fn metadata(xid: u32, pid: u32) -> X11WindowInformation {
    X11WindowInformation::new(xid, xid, "editor".to_string(), 1, "work".to_string(), pid)
}

#[test]
fn window_info_keeps_its_fields() {
    let w = WindowInfo::new(&"term".to_string(), 42, &"work".to_string(), 3);
    assert_eq!(w.window_name, "term");
    assert_eq!(w.window_xid, 42);
    assert_eq!(w.desktop_name, "work");
    assert_eq!(w.desktop_number, 3);
}

#[test]
fn process_info_keeps_its_fields() {
    let p = ProcessInfo::new("vim notes.txt".to_string(), 1234);
    assert_eq!(p.cmdline, "vim notes.txt");
    assert_eq!(p.process_id, 1234);
}

#[test]
fn windows_are_the_same_only_when_all_fields_agree() {
    let w = WindowInfo::new(&"term".to_string(), 42, &"work".to_string(), 3);
    assert!(w.same_as(&w.duplicate()));
    assert!(!w.same_as(&WindowInfo::new(&"term".to_string(), 43, &"work".to_string(), 3)));
    assert!(!w.same_as(&WindowInfo::new(&"other".to_string(), 42, &"work".to_string(), 3)));
    assert!(!w.same_as(&WindowInfo::new(&"term".to_string(), 42, &"play".to_string(), 3)));
    assert!(!w.same_as(&WindowInfo::new(&"term".to_string(), 42, &"work".to_string(), 4)));
}

#[test]
fn processes_are_the_same_only_when_both_fields_agree() {
    let p = process("vim", 7);
    assert!(p.same_as(&p.duplicate()));
    assert!(!p.same_as(&process("vim", 8)));
    assert!(!p.same_as(&process("emacs", 7)));
}

#[test]
fn arguments_are_joined_by_single_spaces() {
    assert_eq!(join_arguments(&vec![]), "");
    assert_eq!(join_arguments(&vec!["firefox".to_string()]), "firefox");
    assert_eq!(
        join_arguments(&vec!["vim".to_string(), "-u".to_string(), "NONE".to_string()]),
        "vim -u NONE"
    );
    assert_eq!(join_arguments(&vec!["a".to_string(), "".to_string(), "b c".to_string()]), "a  b c");
    assert_eq!(join_arguments(&vec!["".to_string()]), "");
}

#[test]
fn identity_is_made_from_arguments_and_identifier() {
    let p = ProcessInfo::from_arguments(&vec!["xterm".to_string(), "-e".to_string()], 300);
    assert_eq!(p.cmdline, "xterm -e");
    assert_eq!(p.process_id, 300);
    let bare = ProcessInfo::from_arguments(&vec![], 301);
    assert_eq!(bare.cmdline, "");
    assert_eq!(bare.process_id, 301);
}

#[test]
fn a_new_store_tracks_nothing() {
    let store = ProcessesWindowsInfo::new();
    assert_eq!(store.process_count(), 0);
    assert_eq!(store.window_count(&process("a", 100)), 0);
    assert!(store.entries().is_empty());
}

#[test]
fn insert_creates_the_entry_and_grows_it() {
    let mut store = ProcessesWindowsInfo::new();
    store.insert_window(window(1, "one"), process("a", 100));
    assert_eq!(store.process_count(), 1);
    assert_eq!(store.window_count(&process("a", 100)), 1);
    store.insert_window(window(2, "two"), process("a", 100));
    assert_eq!(store.process_count(), 1);
    assert_eq!(store.window_count(&process("a", 100)), 2);
    store.insert_window(window(3, "three"), process("b", 200));
    assert_eq!(store.process_count(), 2);
    assert_eq!(store.window_count(&process("b", 200)), 1);
    assert_eq!(store.window_count(&process("a", 100)), 2);
}

#[test]
fn inserting_twice_is_inserting_once() {
    let mut store = ProcessesWindowsInfo::new();
    store.insert_window(window(1, "one"), process("a", 100));
    store.insert_window(window(1, "one"), process("a", 100));
    assert_eq!(store.process_count(), 1);
    assert_eq!(store.window_count(&process("a", 100)), 1);
    assert_eq!(store.entries().len(), 1);
    assert_eq!(store.entries()[0].windows.len(), 1);
    assert!(store.entries()[0].windows[0].same_as(&window(1, "one")));
    assert!(store.entries()[0].process.same_as(&process("a", 100)));
}

#[test]
fn processes_are_told_apart_by_command_line_and_identifier() {
    let mut store = ProcessesWindowsInfo::new();
    store.insert_window(window(1, "one"), process("a", 100));
    store.insert_window(window(2, "two"), process("b", 100));
    store.insert_window(window(3, "three"), process("a", 101));
    assert_eq!(store.process_count(), 3);
    assert_eq!(store.window_count(&process("a", 100)), 1);
    assert_eq!(store.window_count(&process("b", 100)), 1);
    assert_eq!(store.window_count(&process("a", 101)), 1);
}

#[test]
fn removing_every_window_untracks_the_process() {
    let mut store = ProcessesWindowsInfo::new();
    store.insert_window(window(1, "one"), process("a", 100));
    store.insert_window(window(2, "two"), process("a", 100));
    store.insert_window(window(3, "three"), process("b", 200));
    store.remove_window(1, &process("a", 100));
    assert_eq!(store.process_count(), 2);
    assert_eq!(store.window_count(&process("a", 100)), 1);
    store.remove_window(2, &process("a", 100));
    assert_eq!(store.process_count(), 1);
    assert_eq!(store.window_count(&process("a", 100)), 0);
    assert_eq!(store.window_count(&process("b", 200)), 1);
    for entry in store.entries().iter() {
        assert!(!entry.process.same_as(&process("a", 100)));
        assert!(!entry.windows.is_empty());
    }
}

#[test]
fn removing_what_is_not_there_changes_nothing() {
    let mut store = ProcessesWindowsInfo::new();
    store.remove_window(1, &process("a", 100));
    assert_eq!(store.process_count(), 0);
    store.insert_window(window(1, "one"), process("a", 100));
    store.remove_window(9, &process("a", 100));
    store.remove_window(1, &process("b", 200));
    store.remove_window(1, &process("a", 101));
    assert_eq!(store.process_count(), 1);
    assert_eq!(store.window_count(&process("a", 100)), 1);
}

#[test]
fn removal_goes_by_the_window_identifier_alone() {
    let mut store = ProcessesWindowsInfo::new();
    store.insert_window(window(1, "before"), process("a", 100));
    store.insert_window(window(1, "after"), process("a", 100));
    store.insert_window(window(2, "other"), process("a", 100));
    assert_eq!(store.window_count(&process("a", 100)), 3);
    store.remove_window(1, &process("a", 100));
    assert_eq!(store.window_count(&process("a", 100)), 1);
    assert_eq!(store.entries()[0].windows[0].window_xid, 2);
}

#[test]
fn a_window_inserted_for_one_process_is_under_no_other() {
    let mut store = ProcessesWindowsInfo::new();
    store.insert_window(window(1, "one"), process("a", 100));
    store.insert_window(window(2, "two"), process("b", 200));
    store.insert_window(window(1, "one"), process("b", 200));
    let mut owners: u32 = 0;
    for entry in store.entries().iter() {
        if entry.windows.iter().any(|w| w.window_xid == 1) {
            owners += 1;
        }
    }
    assert_eq!(owners, 1);
}

#[test]
fn a_window_without_an_owner_is_not_inserted() {
    let mut store = ProcessesWindowsInfo::new();
    store.insert_resolved(&metadata(1, 100), None);
    assert_eq!(store.process_count(), 0);
    store.insert_resolved(&metadata(1, 100), Some(process("a", 100)));
    store.insert_resolved(&metadata(2, 100), None);
    assert_eq!(store.process_count(), 1);
    assert_eq!(store.window_count(&process("a", 100)), 1);
}

#[test]
fn a_resolved_window_is_recorded_with_its_metadata() {
    let mut store = ProcessesWindowsInfo::new();
    store.insert_resolved(&metadata(5, 100), Some(process("a", 100)));
    let entries = store.entries();
    assert_eq!(entries.len(), 1);
    assert!(entries[0].process.same_as(&process("a", 100)));
    assert!(entries[0].windows[0].same_as(&WindowInfo::new(
        &"editor".to_string(),
        5,
        &"work".to_string(),
        1
    )));
}

#[test]
fn a_resolved_window_is_dropped_from_its_owner() {
    let mut store = ProcessesWindowsInfo::new();
    store.insert_resolved(&metadata(5, 100), Some(process("a", 100)));
    store.remove_resolved(&metadata(5, 100), None);
    assert_eq!(store.process_count(), 1);
    store.remove_resolved(&metadata(5, 100), Some(process("b", 100)));
    assert_eq!(store.process_count(), 1);
    store.remove_resolved(&metadata(5, 100), Some(process("a", 100)));
    assert_eq!(store.process_count(), 0);
}

#[test]
fn a_process_that_does_not_exist_is_not_found() {
    let mut store = ProcessesWindowsInfo::new();
    assert!(store.resolve_process(u32::MAX).is_none());
    assert!(store.resolve_process(0x7fff_fff0).is_none());
}

#[test]
fn a_process_that_is_found_has_the_identifier_asked_for() {
    let mut store = ProcessesWindowsInfo::new();
    let own = sysinfo::get_current_pid().expect("the tests run on a supported system");
    match store.resolve_process(own.as_u32()) {
        Some(found) => assert_eq!(found.process_id, own.as_u32() as usize),
        None => {}
    }
    assert_eq!(store.process_count(), 0);
}

#[test]
fn a_window_of_a_missing_process_is_skipped() {
    let mut store = ProcessesWindowsInfo::new();
    store.insert_window(window(1, "one"), process("a", 100));
    store.insert(&metadata(2, 0x7fff_fff0));
    assert_eq!(store.process_count(), 1);
    assert_eq!(store.window_count(&process("a", 100)), 1);
    store.remove(&metadata(1, 0x7fff_fff0));
    assert_eq!(store.process_count(), 1);
    assert_eq!(store.window_count(&process("a", 100)), 1);
}

#[test]
fn a_window_of_a_running_process_is_tracked_under_its_identifier() {
    let mut store = ProcessesWindowsInfo::new();
    let own = sysinfo::get_current_pid().expect("the tests run on a supported system");
    let found = store.resolve_process(own.as_u32()).is_some();
    store.insert(&metadata(7, own.as_u32()));
    if found {
        assert_eq!(store.process_count(), 1);
        assert_eq!(store.entries()[0].process.process_id, own.as_u32() as usize);
        assert_eq!(store.entries()[0].windows.len(), 1);
        assert_eq!(store.entries()[0].windows[0].window_xid, 7);
        store.remove(&metadata(7, own.as_u32()));
    }
    assert_eq!(store.process_count(), 0);
}

#[test]
fn a_found_process_has_the_command_line_of_its_arguments() {
    let own = sysinfo::get_current_pid().expect("the tests run on a supported system");
    let table = sysinfo::System::new_all();
    let arguments: Option<Vec<String>> = table
        .process(own)
        .map(|p| p.cmd().iter().map(|a| a.to_string_lossy().into_owned()).collect());
    let mut store = ProcessesWindowsInfo::new();
    let found = store.resolve_process(own.as_u32());
    assert_eq!(found.is_some(), arguments.is_some());
    if let (Some(process), Some(arguments)) = (found, arguments) {
        assert_eq!(process.cmdline, arguments.join(" "));
        assert!(!process.cmdline.is_empty());
        assert_eq!(process.cmdline, join_arguments(&arguments));
        assert_eq!(process.process_id, own.as_u32() as usize);
    }
}

#[test]
fn a_window_inserted_for_a_second_process_leaves_the_first() {
    let mut store = ProcessesWindowsInfo::new();
    store.insert_window(window(1, "one"), process("a", 100));
    store.insert_window(window(2, "two"), process("a", 100));
    store.insert_window(window(3, "three"), process("c", 300));
    store.insert_window(window(1, "one"), process("b", 200));
    assert_eq!(store.process_count(), 3);
    assert_eq!(store.window_count(&process("a", 100)), 1);
    assert_eq!(store.window_count(&process("b", 200)), 1);
    assert_eq!(store.window_count(&process("c", 300)), 1);
    for entry in store.entries().iter() {
        let holds = entry.windows.iter().any(|w| w.window_xid == 1);
        assert_eq!(holds, entry.process.same_as(&process("b", 200)));
    }
}

#[test]
fn a_process_that_loses_its_last_window_to_another_is_untracked() {
    let mut store = ProcessesWindowsInfo::new();
    store.insert_window(window(1, "one"), process("a", 100));
    store.insert_window(window(1, "renamed"), process("a", 101));
    assert_eq!(store.process_count(), 1);
    assert_eq!(store.window_count(&process("a", 100)), 0);
    assert_eq!(store.window_count(&process("a", 101)), 1);
    assert!(store.entries()[0].process.same_as(&process("a", 101)));
    assert!(store.entries()[0].windows[0].same_as(&window(1, "renamed")));
}

#[test]
fn a_window_is_taken_from_every_other_process_that_holds_it() {
    let mut store = ProcessesWindowsInfo::new();
    store.insert_resolved(&metadata(1, 100), Some(process("a", 100)));
    store.insert_resolved(&metadata(1, 200), Some(process("b", 200)));
    store.insert_resolved(&metadata(1, 300), None);
    assert_eq!(store.process_count(), 1);
    assert_eq!(store.window_count(&process("a", 100)), 0);
    assert_eq!(store.window_count(&process("b", 200)), 1);
}
