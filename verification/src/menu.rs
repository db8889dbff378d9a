//! The tray icon: the entries of its menu, and what a choice or a click does
//! to the main window.

use crate::text::same_text;
use vstd::prelude::*;
use vstd::string::*;

verus! {

/// What the tray asks of the application.
#[derive(Clone, Copy, Debug, PartialEq, Eq)]
pub enum TrayAction {
    /// Show the main window and give it the focus.
    ShowAndFocus,
    /// Hide the main window.
    Hide,
    /// Leave the application with exit code 0.
    Quit,
    /// Nothing.
    Ignore,
}

/// An entry of the tray menu.
#[derive(Debug, PartialEq, Eq)]
pub enum TrayEntry {
    /// An enabled item without accelerator.
    Item { id: String, label: String },
    /// A separating line.
    Separator,
}

/// Whether `entry` is the item with this id and label.
pub open spec fn is_item(entry: TrayEntry, id: Seq<char>, label: Seq<char>) -> bool {
    match entry {
        TrayEntry::Item { id: i, label: l } => i@ == id && l@ == label,
        TrayEntry::Separator => false,
    }
}

/// What choosing the menu item `id` asks for.
pub open spec fn menu_action(id: Seq<char>) -> TrayAction {
    if id == "tray_show"@ {
        TrayAction::ShowAndFocus
    } else if id == "tray_hide"@ {
        TrayAction::Hide
    } else if id == "tray_quit"@ {
        TrayAction::Quit
    } else {
        TrayAction::Ignore
    }
}

/// The menu of the tray icon: show, hide, a separator, quit.
pub fn setup_tray() -> (entries: Vec<TrayEntry>)
    ensures
        entries@.len() == 4,
        is_item(entries@[0], "tray_show"@, "显示窗口"@),
        is_item(entries@[1], "tray_hide"@, "隐藏窗口"@),
        entries@[2] is Separator,
        is_item(entries@[3], "tray_quit"@, "退出"@),
{
    let mut entries: Vec<TrayEntry> = Vec::new();
    entries.push(
        TrayEntry::Item { id: String::from_str("tray_show"), label: String::from_str("显示窗口") },
    );
    entries.push(
        TrayEntry::Item { id: String::from_str("tray_hide"), label: String::from_str("隐藏窗口") },
    );
    entries.push(TrayEntry::Separator);
    entries.push(
        TrayEntry::Item { id: String::from_str("tray_quit"), label: String::from_str("退出") },
    );
    entries
}

/// What choosing the menu item `id` asks for; an unknown id asks for nothing.
pub fn tray_menu_action(id: &str) -> (action: TrayAction)
    ensures
        action == menu_action(id@),
{
    if same_text(id, "tray_show") {
        TrayAction::ShowAndFocus
    } else if same_text(id, "tray_hide") {
        TrayAction::Hide
    } else if same_text(id, "tray_quit") {
        TrayAction::Quit
    } else {
        TrayAction::Ignore
    }
}

/// What a click on the tray icon asks for: the left button shows the main
/// window, any other does nothing.
pub fn tray_click_action(left_button: bool) -> (action: TrayAction)
    ensures
        action == if left_button {
            TrayAction::ShowAndFocus
        } else {
            TrayAction::Ignore
        },
{
    if left_button {
        TrayAction::ShowAndFocus
    } else {
        TrayAction::Ignore
    }
}

} // verus!
