use tray_shell::menu::{tray_menu, MenuEntry};

#[test]
fn menu_holds_its_entries_in_order() {
    assert_eq!(
        tray_menu(),
        vec![MenuEntry::Show, MenuEntry::ToggleAlwaysOnTop, MenuEntry::Separator, MenuEntry::Quit]
    );
}

#[test]
fn menu_is_the_same_at_every_call() {
    assert_eq!(tray_menu(), tray_menu());
}

#[test]
fn entries_have_stable_identifiers() {
    assert_eq!(MenuEntry::Show.id(), Some("show"));
    assert_eq!(MenuEntry::ToggleAlwaysOnTop.id(), Some("always_on_top"));
    assert_eq!(MenuEntry::Quit.id(), Some("quit"));
    assert_eq!(MenuEntry::Separator.id(), None);
}

#[test]
fn entries_have_labels() {
    assert_eq!(MenuEntry::Show.label(), Some("Show MIDI Controller"));
    assert_eq!(MenuEntry::ToggleAlwaysOnTop.label(), Some("Always on Top"));
    assert_eq!(MenuEntry::Quit.label(), Some("Quit"));
    assert_eq!(MenuEntry::Separator.label(), None);
}

#[test]
fn entries_have_accelerators() {
    assert_eq!(MenuEntry::Show.accelerator(), None);
    assert_eq!(MenuEntry::ToggleAlwaysOnTop.accelerator(), Some("always-on-top"));
    assert_eq!(MenuEntry::Quit.accelerator(), Some("q"));
    assert_eq!(MenuEntry::Separator.accelerator(), None);
}

#[test]
fn every_entry_but_the_separator_is_enabled() {
    assert!(MenuEntry::Show.enabled());
    assert!(MenuEntry::ToggleAlwaysOnTop.enabled());
    assert!(MenuEntry::Quit.enabled());
    assert!(!MenuEntry::Separator.enabled());
}

#[test]
fn each_entry_is_found_by_its_identifier() {
    for entry in tray_menu() {
        match entry.id() {
            Some(id) => assert_eq!(MenuEntry::find(id), Some(entry)),
            None => assert_eq!(entry, MenuEntry::Separator),
        }
    }
}

#[test]
fn identifiers_are_pairwise_distinct() {
    let ids: Vec<&str> = tray_menu().iter().filter_map(|entry| entry.id()).collect();
    assert_eq!(ids.len(), 3);
    for i in 0..ids.len() {
        for j in 0..ids.len() {
            if i != j {
                assert_ne!(ids[i], ids[j]);
            }
        }
    }
}

#[test]
fn unknown_identifiers_stand_for_no_entry() {
    assert_eq!(MenuEntry::find(""), None);
    assert_eq!(MenuEntry::find("Show"), None);
    assert_eq!(MenuEntry::find("show "), None);
    assert_eq!(MenuEntry::find("always-on-top"), None);
    assert_eq!(MenuEntry::find("q"), None);
    assert_eq!(MenuEntry::find("settings"), None);
}
