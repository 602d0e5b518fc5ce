use desktop_shell::commands::{check_for_updates, folder_choice, get_app_version, notification_line};
use desktop_shell::menu::{app_menu, NativeItem};
use desktop_shell::tray::{menu_item_action, tray_event_action, tray_menu, TrayAction, TrayEvent};

#[test]
fn notification_line_joins_title_and_body() {
    assert_eq!(notification_line("Build", "done in 3s"), "Notification: Build - done in 3s");
}

#[test]
fn notification_line_with_empty_parts() {
    assert_eq!(notification_line("", ""), "Notification:  - ");
}

#[test]
fn notification_line_keeps_unicode() {
    assert_eq!(notification_line("Grüße", "ok ✓"), "Notification: Grüße - ok ✓");
}

#[test]
fn version_is_the_declared_one() {
    assert_eq!(get_app_version("1.4.2"), "1.4.2");
    assert_eq!(get_app_version("0.1.0-beta.3"), "0.1.0-beta.3");
}

#[test]
fn update_check_reports_no_update() {
    assert_eq!(check_for_updates(), Ok(false));
    assert_eq!(check_for_updates(), Ok(false));
}

#[test]
fn folder_choice_passes_the_pick_on() {
    assert_eq!(folder_choice(Some("/home/me/projects".to_string())), Ok(Some("/home/me/projects".to_string())));
}

#[test]
fn cancelled_folder_dialog_is_no_error() {
    assert_eq!(folder_choice::<String>(None), Ok(None));
}

#[test]
fn menu_bar_layout() {
    let menu = app_menu();
    assert_eq!(menu.len(), 2);
    assert_eq!(menu[0].title, "File");
    assert_eq!(menu[0].items, vec![NativeItem::Quit]);
    assert_eq!(menu[1].title, "Edit");
    assert_eq!(
        menu[1].items,
        vec![
            NativeItem::Undo,
            NativeItem::Redo,
            NativeItem::Separator,
            NativeItem::Cut,
            NativeItem::Copy,
            NativeItem::Paste,
        ]
    );
}

#[test]
fn quit_entry_ends_the_process() {
    assert_eq!(menu_item_action("quit"), TrayAction::Quit);
}

#[test]
fn show_entry_brings_the_window_up() {
    assert_eq!(menu_item_action("show"), TrayAction::ShowMainWindow);
}

#[test]
fn unknown_entries_do_nothing() {
    assert_eq!(menu_item_action(""), TrayAction::Ignore);
    assert_eq!(menu_item_action("Quit"), TrayAction::Ignore);
    assert_eq!(menu_item_action("quit "), TrayAction::Ignore);
    assert_eq!(menu_item_action("hide"), TrayAction::Ignore);
}

#[test]
fn tray_clicks() {
    assert_eq!(tray_event_action(&TrayEvent::LeftClick), TrayAction::ShowMainWindow);
    assert_eq!(tray_event_action(&TrayEvent::RightClick), TrayAction::Ignore);
    assert_eq!(tray_event_action(&TrayEvent::DoubleClick), TrayAction::Ignore);
    assert_eq!(
        tray_event_action(&TrayEvent::MenuItemClick { id: "quit".to_string() }),
        TrayAction::Quit
    );
    assert_eq!(
        tray_event_action(&TrayEvent::MenuItemClick { id: "show".to_string() }),
        TrayAction::ShowMainWindow
    );
    assert_eq!(
        tray_event_action(&TrayEvent::MenuItemClick { id: "other".to_string() }),
        TrayAction::Ignore
    );
}

#[test]
fn tray_menu_entries_all_dispatch() {
    let entries = tray_menu();
    assert_eq!(entries.len(), 2);
    assert_eq!((entries[0].id.as_str(), entries[0].title.as_str()), ("show", "Show"));
    assert_eq!((entries[1].id.as_str(), entries[1].title.as_str()), ("quit", "Quit"));
    for e in &entries {
        assert_ne!(menu_item_action(&e.id), TrayAction::Ignore);
    }
}
