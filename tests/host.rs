use tray_valet::background_window::{
    action_for_menu_item, action_for_tray_event, actions_for_error, actions_for_event,
    context_menu_items, ContextMenuItem, CustomWindowMsg, HostAction, HostConfig, TimerId,
};
use tray_valet::base_window::{translate_command_msg, CommandMsg};
use tray_valet::cli::{exit_code_for_error, Cli, CliError};
use tray_valet::foreign_process_tree::ForeignWindowEvent;
use tray_valet::icon::{icon_size, tray_dpi, IconSlot};
use tray_valet::msg_loop::{LoopStep, Win32MsgLoop};
use tray_valet::text::{text_of, text_of_prefix};
use tray_valet::tray_icon::{tooltip_units, TrayIconEvent, TrayIcon};

fn cli(args: Vec<&str>) -> Cli {
    Cli {
        win_class: "C".to_string(),
        icon: None,
        set_win_icon: false,
        dont_hide: false,
        foreign_process_tree_args: args.into_iter().map(|s| s.to_string()).collect(),
    }
}

#[test]
fn command_line_needs_a_command() {
    assert_eq!(cli(vec![]).validate(), Err(CliError::MissingCommand));
    assert_eq!(cli(vec!["notepad"]).validate(), Ok(()));
    assert_eq!(
        CliError::MissingCommand.message(),
        "Missing command or command arguments after separating ` -- `."
    );
    assert_eq!(exit_code_for_error(true), 0);
    assert_eq!(exit_code_for_error(false), 1);
}

#[test]
fn message_loop_steps() {
    assert_eq!(Win32MsgLoop::classify(-1, 0), LoopStep::Failed);
    assert_eq!(Win32MsgLoop::classify(0, 5), LoopStep::Quit);
    assert_eq!(Win32MsgLoop::classify(1, 5), LoopStep::Dispatch { return_after: false });
    assert_eq!(Win32MsgLoop::classify(1, 0), LoopStep::Dispatch { return_after: true });
    assert_eq!(Win32MsgLoop::exit_code(0x0012, 3), Some(3));
    assert_eq!(Win32MsgLoop::exit_code(0x0400, 3), None);
}

#[test]
fn command_messages_by_source() {
    assert_eq!(translate_command_msg(0x0000_0002, 0), CommandMsg::MenuItem { id: 2 });
    assert_eq!(translate_command_msg(0x0001_0007, 0), CommandMsg::Accelerator { id: 7 });
    assert_eq!(
        translate_command_msg(0x0300_0009, 77),
        CommandMsg::ControlMsg { msg_id: 0x300, control_id: 9, control_hwnd: 77 }
    );
}

#[test]
fn tray_selection_activates_once_per_double_click_time() {
    let mut input = TrayIcon::new(0);
    assert_eq!(input.translate_window_msg(0, 0x0400, 100, 500), None);
    assert_eq!(input.translate_window_msg(0, 0x0400, 501, 500), Some(TrayIconEvent::Activated));
    assert_eq!(input.translate_window_msg(0, 0x0401, 900, 500), None);
    assert_eq!(input.translate_window_msg(0, 0x0401, 1002, 500), Some(TrayIconEvent::Activated));
    assert_eq!(input.translate_window_msg(0, 0x0200, 5000, 500), None);
}

#[test]
fn tray_context_menu_carries_signed_coordinates() {
    let mut input = TrayIcon::new(0);
    let wparam = (0xFFF6usize << 16) | 0x0014;
    assert_eq!(
        input.translate_window_msg(wparam, 0x0001_007B, 0, 500),
        Some(TrayIconEvent::ContextMenuRequested { x: 20, y: -10 })
    );
}

#[test]
fn tooltip_is_cut_to_fit() {
    let short: Vec<u16> = "ab".encode_utf16().collect();
    assert_eq!(tooltip_units(&short), vec![97, 98, 0]);
    let long = vec![65u16; 200];
    let units = tooltip_units(&long);
    assert_eq!(units.len(), 128);
    assert_eq!(units[126], 65);
    assert_eq!(units[127], 0);
}

#[test]
fn ids_encode_and_decode() {
    assert_eq!(TimerId::ForeignProcessTreeCheckForNewProcesses.id(), 100);
    assert_eq!(CustomWindowMsg::TrayIcon.id(), 0x8000);
    assert_eq!(CustomWindowMsg::WinEventHook.id(), 0x8001);
    assert_eq!(CustomWindowMsg::WaitingForForeignWindowError.id(), 0x8003);
    assert_eq!(CustomWindowMsg::from_id(0x8003), Some(CustomWindowMsg::WaitingForForeignWindowError));
    assert_eq!(CustomWindowMsg::from_id(0x8002), None);
    for item in context_menu_items() {
        assert_eq!(ContextMenuItem::from_u16(item.to_u32() as u16), Some(item));
    }
    assert_eq!(ContextMenuItem::from_u16(3), None);
    assert_eq!(ContextMenuItem::ToggleForeignWindowVisible.label(), "&Show/Hide");
    assert_eq!(ContextMenuItem::ReleaseForeignWindowAndExit.label(), "&Release");
    assert_eq!(ContextMenuItem::CloseForeignWindowAndExit.label(), "&Close");
}

#[test]
fn found_window_is_set_up_and_hidden() {
    let config = HostConfig { hide_after_start: true, foreign_window_needs_icon: true, has_icons: false };
    assert_eq!(
        actions_for_event(config, ForeignWindowEvent::Found),
        vec![
            HostAction::LoadIconsFromExe,
            HostAction::RefreshTooltip,
            HostAction::ApplyWindowIcons,
            HostAction::HideWindow
        ]
    );
    let plain = HostConfig { hide_after_start: false, foreign_window_needs_icon: false, has_icons: true };
    assert_eq!(actions_for_event(plain, ForeignWindowEvent::Found), vec![HostAction::RefreshTooltip]);
    assert_eq!(actions_for_event(plain, ForeignWindowEvent::Minimized), vec![HostAction::HideWindow]);
    assert_eq!(actions_for_event(plain, ForeignWindowEvent::TitleChanged), vec![HostAction::RefreshTooltip]);
    assert_eq!(actions_for_event(plain, ForeignWindowEvent::Destroyed), vec![HostAction::Quit]);
    assert!(actions_for_event(plain, ForeignWindowEvent::Internal).is_empty());
    assert_eq!(actions_for_error(), vec![HostAction::ReportError, HostAction::Quit]);
}

#[test]
fn menu_and_tray_actions() {
    assert_eq!(action_for_menu_item(ContextMenuItem::ToggleForeignWindowVisible), HostAction::ToggleWindow);
    assert_eq!(action_for_menu_item(ContextMenuItem::ReleaseForeignWindowAndExit), HostAction::Quit);
    assert_eq!(action_for_menu_item(ContextMenuItem::CloseForeignWindowAndExit), HostAction::CloseWindow);
    assert_eq!(action_for_tray_event(TrayIconEvent::Activated), HostAction::ToggleWindow);
    assert_eq!(
        action_for_tray_event(TrayIconEvent::ContextMenuRequested { x: 1, y: -2 }),
        HostAction::ShowContextMenu { x: 1, y: -2 }
    );
}

#[test]
fn icon_sizes_and_dpi() {
    assert_eq!(icon_size(16, 17), 16);
    assert_eq!(icon_size(32, 32), 32);
    assert_eq!(tray_dpi(Some((96, 120))), 108);
    assert_eq!(tray_dpi(Some((u32::MAX, u32::MAX))), u32::MAX);
    assert_eq!(tray_dpi(None), 96);
}

#[test]
fn utf16_text_decoding() {
    let units: Vec<u16> = "Hallo".encode_utf16().collect();
    assert_eq!(text_of(&units), "Hallo");
    assert_eq!(text_of_prefix(&units, 3), "Hal");
    assert_eq!(text_of(&vec![0xD800]), "\u{FFFD}");
    assert_eq!(text_of(&vec![]), "");
}

#[test]
fn icon_slot_hands_back_each_icon_once() {
    let mut slot = IconSlot::new();
    assert_eq!(slot.replace(1), None);
    assert_eq!(slot.replace(2), Some(1));
    assert_eq!(slot.get(), Some(2));
    assert_eq!(slot.take(), Some(2));
    assert_eq!(slot.take(), None);
}
