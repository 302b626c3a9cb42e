//! The tray host's window: the ids of its timer, custom messages and
//! context menu items, and what it does on each event it receives.
use vstd::prelude::*;
use crate::foreign_process_tree::ForeignWindowEvent;
use crate::tray_icon::TrayIconEvent;

verus! {

/// The id of the polling timer. Ids 0 and 1 arrive as timer messages
/// without having been set, so they are avoided.
pub const POLL_TIMER_ID: usize = 100;
/// The first message id free for applications.
pub const WM_APP: u32 = 0x8000;

/// The timers of the host window.
#[derive(Clone, Copy, Debug, PartialEq, Eq)]
pub enum TimerId {
    ForeignProcessTreeCheckForNewProcesses,
}

impl TimerId {
    pub fn id(&self) -> (r: usize)
        ensures
            r == POLL_TIMER_ID,
    {
        match self {
            TimerId::ForeignProcessTreeCheckForNewProcesses => POLL_TIMER_ID,
        }
    }
}

/// The custom messages of the host window.
#[derive(Clone, Copy, Debug, PartialEq, Eq)]
pub enum CustomWindowMsg {
    TrayIcon,
    WinEventHook,
    /// An error or timeout happened while waiting for the foreign window.
    WaitingForForeignWindowError,
}

impl CustomWindowMsg {
    pub open spec fn spec_id(&self) -> u32 {
        match self {
            CustomWindowMsg::TrayIcon => WM_APP,
            CustomWindowMsg::WinEventHook => (WM_APP + 1) as u32,
            CustomWindowMsg::WaitingForForeignWindowError => (WM_APP + 3) as u32,
        }
    }

    /// The message id.
    pub fn id(&self) -> (r: u32)
        ensures
            r == self.spec_id(),
    {
        match self {
            CustomWindowMsg::TrayIcon => WM_APP,
            CustomWindowMsg::WinEventHook => WM_APP + 1,
            CustomWindowMsg::WaitingForForeignWindowError => WM_APP + 3,
        }
    }

    /// The custom message with this id, if any.
    pub fn from_id(id: u32) -> (r: Option<CustomWindowMsg>)
        ensures
            match r {
                Some(m) => m.spec_id() == id,
                None => forall|m: CustomWindowMsg| m.spec_id() != id,
            },
    {
        if id == WM_APP {
            Some(CustomWindowMsg::TrayIcon)
        } else if id == WM_APP + 1 {
            Some(CustomWindowMsg::WinEventHook)
        } else if id == WM_APP + 3 {
            Some(CustomWindowMsg::WaitingForForeignWindowError)
        } else {
            None
        }
    }
}

/// The items of the tray icon's context menu.
#[derive(Clone, Copy, Debug, PartialEq, Eq)]
pub enum ContextMenuItem {
    ToggleForeignWindowVisible,
    ReleaseForeignWindowAndExit,
    CloseForeignWindowAndExit,
}

impl ContextMenuItem {
    pub open spec fn spec_id(&self) -> u16 {
        match self {
            ContextMenuItem::ToggleForeignWindowVisible => 0,
            ContextMenuItem::ReleaseForeignWindowAndExit => 1,
            ContextMenuItem::CloseForeignWindowAndExit => 2,
        }
    }

    /// The menu item id.
    pub fn to_u32(&self) -> (r: u32)
        ensures
            r == self.spec_id(),
    {
        match self {
            ContextMenuItem::ToggleForeignWindowVisible => 0,
            ContextMenuItem::ReleaseForeignWindowAndExit => 1,
            ContextMenuItem::CloseForeignWindowAndExit => 2,
        }
    }

    /// The item with this menu item id, if any.
    pub fn from_u16(id: u16) -> (r: Option<ContextMenuItem>)
        ensures
            match r {
                Some(item) => item.spec_id() == id,
                None => forall|item: ContextMenuItem| item.spec_id() != id,
            },
    {
        match id {
            0 => Some(ContextMenuItem::ToggleForeignWindowVisible),
            1 => Some(ContextMenuItem::ReleaseForeignWindowAndExit),
            2 => Some(ContextMenuItem::CloseForeignWindowAndExit),
            _ => None,
        }
    }

    /// The label of the item, with `&` before its access key.
    pub fn label(&self) -> (r: String)
        ensures
            *self == ContextMenuItem::ToggleForeignWindowVisible ==> r@ == "&Show/Hide"@,
            *self == ContextMenuItem::ReleaseForeignWindowAndExit ==> r@ == "&Release"@,
            *self == ContextMenuItem::CloseForeignWindowAndExit ==> r@ == "&Close"@,
    {
        match self {
            ContextMenuItem::ToggleForeignWindowVisible => String::from_str("&Show/Hide"),
            ContextMenuItem::ReleaseForeignWindowAndExit => String::from_str("&Release"),
            ContextMenuItem::CloseForeignWindowAndExit => String::from_str("&Close"),
        }
    }
}

/// The menu items in their order; the first is the default one.
pub fn context_menu_items() -> (r: Vec<ContextMenuItem>)
    ensures
        r@ == seq![
            ContextMenuItem::ToggleForeignWindowVisible,
            ContextMenuItem::ReleaseForeignWindowAndExit,
            ContextMenuItem::CloseForeignWindowAndExit,
        ],
{
    let mut r: Vec<ContextMenuItem> = Vec::new();
    r.push(ContextMenuItem::ToggleForeignWindowVisible);
    r.push(ContextMenuItem::ReleaseForeignWindowAndExit);
    r.push(ContextMenuItem::CloseForeignWindowAndExit);
    r
}

/// One thing the host does in answer to an event.
#[derive(Clone, Copy, Debug, PartialEq, Eq)]
pub enum HostAction {
    /// Load the small and, where the window gets icons, the large icon from
    /// the window's executable, and show the small one in the tray.
    LoadIconsFromExe,
    /// Set the tray tooltip to the window title (empty where unreadable).
    RefreshTooltip,
    /// Apply the small and large icons to the window, where both are loaded.
    ApplyWindowIcons,
    HideWindow,
    ToggleWindow,
    /// Post a close request to the window.
    CloseWindow,
    /// Show the context menu at these virtual-screen coordinates.
    ShowContextMenu { x: i16, y: i16 },
    /// Tell the user that the window was not found.
    ReportError,
    /// Destroy the host window, which ends the program.
    Quit,
}

/// What the host was told on the command line, and which icons it has.
#[derive(Clone, Copy, Debug, PartialEq, Eq)]
pub struct HostConfig {
    pub hide_after_start: bool,
    pub foreign_window_needs_icon: bool,
    /// An icon file was given and its icons loaded: no icon is taken from
    /// the executable.
    pub has_icons: bool,
}

/// The actions for a tracker event, in order.
pub open spec fn event_actions(config: HostConfig, event: ForeignWindowEvent) -> Seq<HostAction> {
    match event {
        ForeignWindowEvent::Found => {
            let load = if config.has_icons {
                Seq::<HostAction>::empty()
            } else {
                seq![HostAction::LoadIconsFromExe]
            };
            let icons = if config.foreign_window_needs_icon {
                seq![HostAction::ApplyWindowIcons]
            } else {
                Seq::<HostAction>::empty()
            };
            let hide = if config.hide_after_start {
                seq![HostAction::HideWindow]
            } else {
                Seq::<HostAction>::empty()
            };
            load + seq![HostAction::RefreshTooltip] + icons + hide
        },
        ForeignWindowEvent::Minimized => seq![HostAction::HideWindow],
        ForeignWindowEvent::TitleChanged => seq![HostAction::RefreshTooltip],
        ForeignWindowEvent::Destroyed => seq![HostAction::Quit],
        ForeignWindowEvent::Internal => Seq::empty(),
    }
}

/// The actions for a tracker event: once found, the window gets its icons
/// and tooltip and is hidden unless told otherwise; minimizing hides it;
/// a title change refreshes the tooltip; its destruction ends the host.
pub fn actions_for_event(config: HostConfig, event: ForeignWindowEvent) -> (r: Vec<HostAction>)
    ensures
        r@ == event_actions(config, event),
{
    let mut r: Vec<HostAction> = Vec::new();
    match event {
        ForeignWindowEvent::Found => {
            if !config.has_icons {
                r.push(HostAction::LoadIconsFromExe);
            }
            r.push(HostAction::RefreshTooltip);
            if config.foreign_window_needs_icon {
                r.push(HostAction::ApplyWindowIcons);
            }
            if config.hide_after_start {
                r.push(HostAction::HideWindow);
            }
            proof {
                assert(r@ =~= event_actions(config, event));
            }
        },
        ForeignWindowEvent::Minimized => {
            r.push(HostAction::HideWindow);
            proof {
                assert(r@ =~= event_actions(config, event));
            }
        },
        ForeignWindowEvent::TitleChanged => {
            r.push(HostAction::RefreshTooltip);
            proof {
                assert(r@ =~= event_actions(config, event));
            }
        },
        ForeignWindowEvent::Destroyed => {
            r.push(HostAction::Quit);
            proof {
                assert(r@ =~= event_actions(config, event));
            }
        },
        ForeignWindowEvent::Internal => {
            proof {
                assert(r@ =~= event_actions(config, event));
            }
        },
    }
    r
}

/// The action for a context menu choice.
pub fn action_for_menu_item(item: ContextMenuItem) -> (r: HostAction)
    ensures
        item == ContextMenuItem::ToggleForeignWindowVisible ==> r == HostAction::ToggleWindow,
        item == ContextMenuItem::ReleaseForeignWindowAndExit ==> r == HostAction::Quit,
        item == ContextMenuItem::CloseForeignWindowAndExit ==> r == HostAction::CloseWindow,
{
    match item {
        ContextMenuItem::ToggleForeignWindowVisible => HostAction::ToggleWindow,
        ContextMenuItem::ReleaseForeignWindowAndExit => HostAction::Quit,
        ContextMenuItem::CloseForeignWindowAndExit => HostAction::CloseWindow,
    }
}

/// The action for a tray icon event: activation toggles the window, a
/// request shows the context menu where it was asked for.
pub fn action_for_tray_event(event: TrayIconEvent) -> (r: HostAction)
    ensures
        event == TrayIconEvent::Activated ==> r == HostAction::ToggleWindow,
        match event {
            TrayIconEvent::ContextMenuRequested { x, y } => r == (HostAction::ShowContextMenu {
                x,
                y,
            }),
            _ => true,
        },
{
    match event {
        TrayIconEvent::Activated => HostAction::ToggleWindow,
        TrayIconEvent::ContextMenuRequested { x, y } => HostAction::ShowContextMenu { x, y },
    }
}

/// The actions on a tracker error: the user is told, then the host ends.
pub fn actions_for_error() -> (r: Vec<HostAction>)
    ensures
        r@ == seq![HostAction::ReportError, HostAction::Quit],
{
    let mut r: Vec<HostAction> = Vec::new();
    r.push(HostAction::ReportError);
    r.push(HostAction::Quit);
    r
}

} // verus!
