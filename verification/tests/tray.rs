use tray_shell::{menu_action, on_system_tray_event, HostOp, MenuId, TrayEvent};

fn click(id: &str) -> TrayEvent {
    TrayEvent::MenuItemClick { id: id.to_string() }
}

#[test]
fn click_on_show_asks_for_one_show() {
    assert_eq!(on_system_tray_event(&click("show")), vec![HostOp::ShowWindow]);
}

#[test]
fn click_on_hide_asks_for_one_hide() {
    assert_eq!(on_system_tray_event(&click("hide")), vec![HostOp::HideWindow]);
}

#[test]
fn click_on_quit_asks_for_exit_with_code_zero() {
    assert_eq!(on_system_tray_event(&click("quit")), vec![HostOp::Exit(0)]);
}

#[test]
fn click_on_unknown_identifier_asks_for_nothing() {
    assert_eq!(on_system_tray_event(&click("foo")), vec![]);
    assert_eq!(on_system_tray_event(&click("")), vec![]);
    assert_eq!(on_system_tray_event(&click("Quit")), vec![]);
    assert_eq!(on_system_tray_event(&click("show hide")), vec![]);
}

#[test]
fn other_tray_events_ask_for_nothing() {
    for event in [
        TrayEvent::LeftClick,
        TrayEvent::RightClick,
        TrayEvent::DoubleClick,
        TrayEvent::Other,
    ] {
        assert_eq!(on_system_tray_event(&event), vec![]);
    }
}

#[test]
fn click_on_each_item_asks_for_its_action() {
    for item in [MenuId::Show, MenuId::Hide, MenuId::Quit] {
        assert_eq!(on_system_tray_event(&click(item.as_str())), vec![menu_action(item)]);
    }
}

#[test]
fn actions_of_the_items() {
    assert_eq!(menu_action(MenuId::Show), HostOp::ShowWindow);
    assert_eq!(menu_action(MenuId::Hide), HostOp::HideWindow);
    assert_eq!(menu_action(MenuId::Quit), HostOp::Exit(0));
}

#[test]
fn actions_of_different_items_differ() {
    let items = [MenuId::Show, MenuId::Hide, MenuId::Quit];
    for a in items {
        for b in items {
            assert_eq!(menu_action(a) == menu_action(b), a == b);
        }
    }
}

#[test]
fn tray_handler_answers_the_same_every_time() {
    let event = click("hide");
    assert_eq!(on_system_tray_event(&event), on_system_tray_event(&event));
}
