use tray_shell::ident::str_eq;
use tray_shell::{create_system_tray, main_window_label, MenuEntry, MenuId};

#[test]
fn system_tray_has_four_entries_in_order() {
    let menu = create_system_tray();
    assert_eq!(menu.len(), 4);
    assert_eq!(menu.entry(0), Some(MenuEntry::Item(MenuId::Show)));
    assert_eq!(menu.entry(1), Some(MenuEntry::Item(MenuId::Hide)));
    assert_eq!(menu.entry(2), Some(MenuEntry::Separator));
    assert_eq!(menu.entry(3), Some(MenuEntry::Item(MenuId::Quit)));
}

#[test]
fn system_tray_identifiers_and_labels() {
    let menu = create_system_tray();
    let mut ids = Vec::new();
    let mut labels = Vec::new();
    for i in 0..menu.len() {
        let entry = menu.entry(i).unwrap();
        ids.push(entry.id());
        labels.push(entry.label());
    }
    assert_eq!(ids, vec![Some("show"), Some("hide"), None, Some("quit")]);
    assert_eq!(labels, vec![Some("Show"), Some("Hide"), None, Some("Quit")]);
}

#[test]
fn system_tray_is_the_same_on_every_construction() {
    assert_eq!(create_system_tray(), create_system_tray());
    assert_eq!(create_system_tray().clone(), create_system_tray());
}

#[test]
fn system_tray_identifiers_are_unique() {
    let menu = create_system_tray();
    for i in 0..menu.len() {
        for j in (i + 1)..menu.len() {
            let (a, b) = (menu.entry(i).unwrap(), menu.entry(j).unwrap());
            if let (Some(x), Some(y)) = (a.id(), b.id()) {
                assert_ne!(x, y);
            }
        }
    }
}

#[test]
fn entry_past_the_end_is_none() {
    let menu = create_system_tray();
    assert_eq!(menu.entry(4), None);
    assert_eq!(menu.entry(usize::MAX), None);
}

#[test]
fn separator_has_neither_identifier_nor_label() {
    assert_eq!(MenuEntry::Separator.id(), None);
    assert_eq!(MenuEntry::Separator.label(), None);
}

#[test]
fn item_identifiers() {
    assert_eq!(MenuId::Show.as_str(), "show");
    assert_eq!(MenuId::Hide.as_str(), "hide");
    assert_eq!(MenuId::Quit.as_str(), "quit");
}

#[test]
fn item_labels() {
    assert_eq!(MenuId::Show.label(), "Show");
    assert_eq!(MenuId::Hide.label(), "Hide");
    assert_eq!(MenuId::Quit.label(), "Quit");
}

#[test]
fn from_id_finds_each_item() {
    assert_eq!(MenuId::from_id("show"), Some(MenuId::Show));
    assert_eq!(MenuId::from_id("hide"), Some(MenuId::Hide));
    assert_eq!(MenuId::from_id("quit"), Some(MenuId::Quit));
}

#[test]
fn from_id_inverts_as_str() {
    for item in [MenuId::Show, MenuId::Hide, MenuId::Quit] {
        assert_eq!(MenuId::from_id(item.as_str()), Some(item));
    }
}

#[test]
fn from_id_rejects_what_names_no_item() {
    assert_eq!(MenuId::from_id("foo"), None);
    assert_eq!(MenuId::from_id(""), None);
    assert_eq!(MenuId::from_id("sho"), None);
    assert_eq!(MenuId::from_id("shows"), None);
    assert_eq!(MenuId::from_id("quit "), None);
    assert_eq!(MenuId::from_id(" hide"), None);
    assert_eq!(MenuId::from_id("sh\u{f6}w"), None);
}

#[test]
fn from_id_is_case_sensitive() {
    assert_eq!(MenuId::from_id("Show"), None);
    assert_eq!(MenuId::from_id("HIDE"), None);
    assert_eq!(MenuId::from_id("Quit"), None);
}

#[test]
fn labels_are_not_identifiers() {
    for item in [MenuId::Show, MenuId::Hide, MenuId::Quit] {
        assert_eq!(MenuId::from_id(item.label()), None);
    }
}

#[test]
fn main_window_is_called_main() {
    assert_eq!(main_window_label(), "main");
}

#[test]
fn str_eq_on_equal_strings() {
    assert!(str_eq("", ""));
    assert!(str_eq("quit", "quit"));
    assert!(str_eq("gr\u{fc}\u{df}e", "gr\u{fc}\u{df}e"));
}

#[test]
fn str_eq_on_different_strings() {
    assert!(!str_eq("quit", "quiz"));
    assert!(!str_eq("quit", "qui"));
    assert!(!str_eq("", "q"));
    assert!(!str_eq("show", "hide"));
    assert!(!str_eq("a\u{e9}", "a\u{e8}"));
    assert!(!str_eq("\u{e9}", "e"));
}

#[test]
fn str_eq_agrees_with_std() {
    let words = ["", "show", "hide", "quit", "Show", "shov", "show ", "\u{1f600}", "\u{e9}"];
    for a in words {
        for b in words {
            assert_eq!(str_eq(a, b), a == b);
        }
    }
}
