//! What the tray icon's menu items and mouse gestures ask for.

use crate::text::same_text;
use vstd::prelude::*;

verus! {

/// What a tray menu item asks for.
#[derive(PartialEq, Eq, Structural, Debug, Clone, Copy)]
pub enum TrayMenuAction {
    ShowWindow,
    CopyUnixtime,
    CopyYmd1,
    CopyYmd2,
    Exit,
    Nothing,
}

/// The action of the tray menu item with the id `id`; ids that the menu
/// does not hold ask for nothing.
pub open spec fn menu_action_of(id: Seq<char>) -> TrayMenuAction {
    if id == "show_window"@ {
        TrayMenuAction::ShowWindow
    } else if id == "copy_unixtime"@ {
        TrayMenuAction::CopyUnixtime
    } else if id == "copy_ymd1"@ {
        TrayMenuAction::CopyYmd1
    } else if id == "copy_ymd2"@ {
        TrayMenuAction::CopyYmd2
    } else if id == "exit"@ {
        TrayMenuAction::Exit
    } else {
        TrayMenuAction::Nothing
    }
}

pub fn tray_menu_action(id: &str) -> (r: TrayMenuAction)
    ensures
        r == menu_action_of(id@),
{
    if same_text(id, "show_window") {
        TrayMenuAction::ShowWindow
    } else if same_text(id, "copy_unixtime") {
        TrayMenuAction::CopyUnixtime
    } else if same_text(id, "copy_ymd1") {
        TrayMenuAction::CopyYmd1
    } else if same_text(id, "copy_ymd2") {
        TrayMenuAction::CopyYmd2
    } else if same_text(id, "exit") {
        TrayMenuAction::Exit
    } else {
        TrayMenuAction::Nothing
    }
}

/// A mouse gesture on the tray icon, as far as the icon reacts to it.
#[derive(PartialEq, Eq, Structural, Debug, Clone, Copy)]
pub enum TrayGesture {
    /// A click, with whether it was the left button and whether the button
    /// was released.
    Click { left: bool, released: bool },
    /// A double click (reported on Windows only), with whether it was the
    /// left button.
    DoubleClick { left: bool },
    Other,
}

/// What a gesture on the tray icon asks for.
#[derive(PartialEq, Eq, Structural, Debug, Clone, Copy)]
pub enum TrayGestureAction {
    ShowWindow,
    CopyUnixtime,
    Nothing,
}

/// A left click, on release, shows the main window; a left double click
/// copies the current unix time; nothing else does anything.
pub fn tray_gesture_action(gesture: TrayGesture) -> (r: TrayGestureAction)
    ensures
        r == (match gesture {
            TrayGesture::Click { left, released } => if left && released {
                TrayGestureAction::ShowWindow
            } else {
                TrayGestureAction::Nothing
            },
            TrayGesture::DoubleClick { left } => if left {
                TrayGestureAction::CopyUnixtime
            } else {
                TrayGestureAction::Nothing
            },
            TrayGesture::Other => TrayGestureAction::Nothing,
        }),
{
    match gesture {
        TrayGesture::Click { left: true, released: true } => TrayGestureAction::ShowWindow,
        TrayGesture::DoubleClick { left: true } => TrayGestureAction::CopyUnixtime,
        _ => TrayGestureAction::Nothing,
    }
}

} // verus!
