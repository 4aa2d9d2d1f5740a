use river::input::{
    menu_item_enabled, shortcut_for, KeyInput, MenuItem, Shortcut,
};
use river::state::{ChannelAdjust, ResizeEdge, SelectionDragMode, ViewMode, ViewerState};
use river::selection::{drag_mode_on_start, hovered_edge};
use river::window::{failure_hook_action, resize_direction, HookAction, ResizeDirection, DLI_FAIL_GET_PROC};
use river::adjust::{adjust_dialog_outcome, AdjustDialogOutcome};

fn no_keys() -> KeyInput {
    KeyInput {
        shift: false,
        ctrl: false,
        c: false,
        v: false,
        f: false,
        f12: false,
        z: false,
        h: false,
        g: false,
        r: false,
    }
}

fn same_state(a: &ViewerState, b: &ViewerState) -> bool {
    a.view_mode == b.view_mode
        && a.show_chrome == b.show_chrome
        && a.is_fullscreen == b.is_fullscreen
        && a.show_resize_dialog == b.show_resize_dialog
        && a.show_rotate_dialog == b.show_rotate_dialog
        && a.show_adjust_dialog == b.show_adjust_dialog
        && a.selection_drag == b.selection_drag
        && a.first_frame == b.first_frame
        && a.flipped_h == b.flipped_h
        && a.flipped_v == b.flipped_v
}

#[test]
fn new_state_is_the_startup_state() {
    let s = ViewerState::new();
    assert_eq!(s.view_mode, ViewMode::FitToWindow);
    assert!(s.show_chrome);
    assert!(!s.is_fullscreen);
    assert!(!s.show_resize_dialog && !s.show_rotate_dialog && !s.show_adjust_dialog);
    assert_eq!(s.selection_drag, SelectionDragMode::Idle);
    assert!(s.first_frame);
    assert!(!s.flipped_h && !s.flipped_v);
}

#[test]
fn toggle_view_mode_switches_fit_and_actual() {
    let mut s = ViewerState::new();
    assert!(s.toggle_view_mode());
    assert_eq!(s.view_mode, ViewMode::ActualSize);
    assert!(!s.toggle_view_mode());
    assert_eq!(s.view_mode, ViewMode::FitToWindow);
}

#[test]
fn toggle_view_mode_from_custom_goes_to_fit() {
    let mut s = ViewerState::new();
    s.zoomed_manually();
    assert_eq!(s.view_mode, ViewMode::Custom);
    assert!(!s.toggle_view_mode());
    assert_eq!(s.view_mode, ViewMode::FitToWindow);
}

#[test]
fn toggle_fullscreen_twice_restores() {
    let mut s = ViewerState::new();
    s.toggle_fullscreen();
    assert!(s.is_fullscreen);
    assert!(s.show_chrome);
    s.toggle_fullscreen();
    assert!(same_state(&s, &ViewerState::new()));
}

#[test]
fn image_opened_clears_flips_and_fits() {
    let mut s = ViewerState::new();
    s.flip_horizontal();
    s.flip_vertical();
    s.zoomed_manually();
    s.image_opened();
    assert!(!s.flipped_h && !s.flipped_v);
    assert_eq!(s.view_mode, ViewMode::FitToWindow);
}

#[test]
fn take_first_frame_only_once() {
    let mut s = ViewerState::new();
    assert!(s.take_first_frame());
    assert!(!s.take_first_frame());
    assert!(!s.first_frame);
}

#[test]
fn shortcut_priorities() {
    let mut k = no_keys();
    assert_eq!(shortcut_for(&k), None);
    k.v = true;
    assert_eq!(shortcut_for(&k), Some(Shortcut::FlipVertical));
    k.shift = true;
    assert_eq!(shortcut_for(&k), Some(Shortcut::Paste));
    k.c = true;
    assert_eq!(shortcut_for(&k), Some(Shortcut::CopySelection));

    let mut k = no_keys();
    k.f = true;
    assert_eq!(shortcut_for(&k), Some(Shortcut::ToggleFullscreen));
    k.shift = true;
    assert_eq!(shortcut_for(&k), Some(Shortcut::ToggleChrome));

    let mut k = no_keys();
    k.f12 = true;
    assert_eq!(shortcut_for(&k), Some(Shortcut::ToggleFullscreen));

    let mut k = no_keys();
    k.z = true;
    k.h = true;
    assert_eq!(shortcut_for(&k), Some(Shortcut::ToggleViewMode));
    k.z = false;
    assert_eq!(shortcut_for(&k), Some(Shortcut::FlipHorizontal));

    let mut k = no_keys();
    k.g = true;
    assert_eq!(shortcut_for(&k), None);
    k.shift = true;
    assert_eq!(shortcut_for(&k), Some(Shortcut::OpenAdjustDialog));

    let mut k = no_keys();
    k.r = true;
    assert_eq!(shortcut_for(&k), None);
    k.ctrl = true;
    assert_eq!(shortcut_for(&k), Some(Shortcut::OpenResizeDialog));
}

#[test]
fn fullscreen_shortcut_toggles_chrome_too() {
    let mut s = ViewerState::new();
    assert!(!s.apply_shortcut(Shortcut::ToggleFullscreen));
    assert!(s.is_fullscreen);
    assert!(!s.show_chrome);
    s.apply_shortcut(Shortcut::ToggleFullscreen);
    assert!(same_state(&s, &ViewerState::new()));
}

#[test]
fn fullscreen_shortcut_is_borderless_after_hidden_chrome() {
    let mut s = ViewerState::new();
    s.apply_shortcut(Shortcut::ToggleChrome);
    assert!(!s.show_chrome);
    s.apply_shortcut(Shortcut::ToggleFullscreen);
    assert!(s.is_fullscreen);
    assert!(!s.show_chrome);
    s.apply_shortcut(Shortcut::ToggleFullscreen);
    assert!(!s.is_fullscreen);
    assert!(s.show_chrome);
}

#[test]
fn fullscreen_shortcut_after_menu_fullscreen() {
    let mut s = ViewerState::new();
    s.apply_menu_item(MenuItem::Fullscreen, false);
    assert!(s.is_fullscreen && s.show_chrome);
    s.apply_shortcut(Shortcut::ToggleFullscreen);
    assert!(!s.is_fullscreen);
    assert!(s.show_chrome);
}

#[test]
fn toggle_shortcuts_undo_themselves() {
    for sc in [
        Shortcut::ToggleChrome,
        Shortcut::ToggleFullscreen,
        Shortcut::FlipHorizontal,
        Shortcut::FlipVertical,
    ] {
        let mut s = ViewerState::new();
        s.apply_shortcut(sc);
        assert!(!same_state(&s, &ViewerState::new()));
        s.apply_shortcut(sc);
        assert!(same_state(&s, &ViewerState::new()));
    }
}

#[test]
fn shortcuts_that_work_on_the_image_keep_the_flags() {
    for sc in [Shortcut::CopySelection, Shortcut::Paste, Shortcut::OpenAdjustDialog] {
        let mut s = ViewerState::new();
        assert!(!s.apply_shortcut(sc));
        assert!(same_state(&s, &ViewerState::new()));
    }
    let mut s = ViewerState::new();
    s.apply_shortcut(Shortcut::OpenResizeDialog);
    assert!(s.show_resize_dialog);
    let mut s = ViewerState::new();
    assert!(s.apply_shortcut(Shortcut::ToggleViewMode));
    assert_eq!(s.view_mode, ViewMode::ActualSize);
}

#[test]
fn menu_items_need_an_image() {
    for item in [
        MenuItem::Adjust,
        MenuItem::Resize,
        MenuItem::Rotate,
        MenuItem::FlipHorizontal,
        MenuItem::FlipVertical,
        MenuItem::ToggleView,
    ] {
        assert!(!menu_item_enabled(item, false));
        assert!(menu_item_enabled(item, true));
    }
    for item in [MenuItem::OpenImage, MenuItem::Close, MenuItem::Copy, MenuItem::Paste, MenuItem::Fullscreen] {
        assert!(menu_item_enabled(item, false));
        assert!(menu_item_enabled(item, true));
    }
}

#[test]
fn menu_item_effects() {
    let mut s = ViewerState::new();
    assert!(!s.apply_menu_item(MenuItem::FlipHorizontal, false));
    assert!(same_state(&s, &ViewerState::new()));
    s.apply_menu_item(MenuItem::FlipHorizontal, true);
    assert!(s.flipped_h);
    s.apply_menu_item(MenuItem::FlipVertical, true);
    assert!(s.flipped_v);
    s.apply_menu_item(MenuItem::Resize, true);
    assert!(s.show_resize_dialog);
    assert!(s.apply_menu_item(MenuItem::ToggleView, true));
    assert_eq!(s.view_mode, ViewMode::ActualSize);
    let mut t = ViewerState::new();
    t.apply_menu_item(MenuItem::Fullscreen, false);
    assert!(t.is_fullscreen);
    assert!(t.show_chrome);
}

#[test]
fn channel_adjust_reset_is_neutral() {
    let mut a = ChannelAdjust { brightness: 12, red: -3, green: 4, blue: 100 };
    a.reset();
    assert_eq!(a, ChannelAdjust::neutral());
    assert_eq!(a, ChannelAdjust { brightness: 0, red: 0, green: 0, blue: 0 });
}

#[test]
fn drag_mode_chosen_at_start() {
    assert_eq!(drag_mode_on_start(Some(ResizeEdge::Top), true), SelectionDragMode::Resizing(ResizeEdge::Top));
    assert_eq!(drag_mode_on_start(Some(ResizeEdge::Left), false), SelectionDragMode::Resizing(ResizeEdge::Left));
    assert_eq!(drag_mode_on_start(None, true), SelectionDragMode::Idle);
    assert_eq!(drag_mode_on_start(None, false), SelectionDragMode::Drawing);
}

#[test]
fn hovered_edge_sticks_while_resizing() {
    assert_eq!(
        hovered_edge(SelectionDragMode::Resizing(ResizeEdge::Bottom), Some(ResizeEdge::Left)),
        Some(ResizeEdge::Bottom)
    );
    assert_eq!(hovered_edge(SelectionDragMode::Resizing(ResizeEdge::Right), None), Some(ResizeEdge::Right));
    assert_eq!(hovered_edge(SelectionDragMode::Idle, Some(ResizeEdge::Top)), Some(ResizeEdge::Top));
    assert_eq!(hovered_edge(SelectionDragMode::Drawing, None), None);
}

#[test]
fn edge_axes() {
    assert!(ResizeEdge::Left.is_horizontal() && ResizeEdge::Right.is_horizontal());
    assert!(!ResizeEdge::Top.is_horizontal() && !ResizeEdge::Bottom.is_horizontal());
    assert!(ResizeEdge::Left.moves_min_corner() && ResizeEdge::Top.moves_min_corner());
    assert!(!ResizeEdge::Right.moves_min_corner() && !ResizeEdge::Bottom.moves_min_corner());
}

#[test]
fn resize_direction_corners_first() {
    assert_eq!(resize_direction(true, false, true, false), Some(ResizeDirection::NorthWest));
    assert_eq!(resize_direction(false, true, true, false), Some(ResizeDirection::NorthEast));
    assert_eq!(resize_direction(true, false, false, true), Some(ResizeDirection::SouthWest));
    assert_eq!(resize_direction(false, true, false, true), Some(ResizeDirection::SouthEast));
    assert_eq!(resize_direction(true, false, false, false), Some(ResizeDirection::West));
    assert_eq!(resize_direction(false, true, false, false), Some(ResizeDirection::East));
    assert_eq!(resize_direction(false, false, true, false), Some(ResizeDirection::North));
    assert_eq!(resize_direction(false, false, false, true), Some(ResizeDirection::South));
    assert_eq!(resize_direction(false, false, false, false), None);
    // A window narrower than two borders: left and right both hit, top wins the corner.
    assert_eq!(resize_direction(true, true, true, true), Some(ResizeDirection::NorthWest));
    assert_eq!(resize_direction(true, true, false, false), Some(ResizeDirection::West));
}

#[test]
fn delay_load_hook_decisions() {
    assert_eq!(failure_hook_action(true, DLI_FAIL_GET_PROC), HookAction::Null);
    assert_eq!(failure_hook_action(false, 4), HookAction::Stub);
    assert_eq!(failure_hook_action(false, 3), HookAction::FallbackLibrary);
    assert_eq!(failure_hook_action(false, 5), HookAction::FallbackLibrary);
}

#[test]
fn adjust_dialog_outcomes() {
    assert_eq!(
        adjust_dialog_outcome(true, true, false, false),
        AdjustDialogOutcome { reset_sliders: true, refresh_preview: true, apply: false, close: false }
    );
    assert_eq!(
        adjust_dialog_outcome(false, true, false, false),
        AdjustDialogOutcome { reset_sliders: false, refresh_preview: true, apply: false, close: false }
    );
    assert_eq!(
        adjust_dialog_outcome(false, false, true, true),
        AdjustDialogOutcome { reset_sliders: false, refresh_preview: false, apply: true, close: true }
    );
    assert_eq!(
        adjust_dialog_outcome(false, false, false, true),
        AdjustDialogOutcome { reset_sliders: false, refresh_preview: false, apply: false, close: true }
    );
    assert_eq!(
        adjust_dialog_outcome(false, false, false, false),
        AdjustDialogOutcome { reset_sliders: false, refresh_preview: false, apply: false, close: false }
    );
}
