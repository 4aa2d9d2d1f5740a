use vstd::prelude::*;
use crate::state::{ViewMode, ViewerState};

verus! {

/// The keys pressed this frame (and the modifiers held) that the viewer's
/// keyboard shortcuts look at.
#[derive(Clone, Copy, Debug, PartialEq, Eq, Structural)]
pub struct KeyInput {
    pub shift: bool,
    pub ctrl: bool,
    pub c: bool,
    pub v: bool,
    pub f: bool,
    pub f12: bool,
    pub z: bool,
    pub h: bool,
    pub g: bool,
    pub r: bool,
}

/// A keyboard shortcut of the viewer.
#[derive(Clone, Copy, Debug, PartialEq, Eq, Structural)]
pub enum Shortcut {
    /// Shift+C: copy the selected pixels to the clipboard.
    CopySelection,
    /// Shift+V: paste an image (or an image file path) from the clipboard.
    Paste,
    /// Shift+F: show or hide the window decorations.
    ToggleChrome,
    /// F or F12: toggle borderless fullscreen; the decorations are then
    /// hidden exactly while fullscreen is on.
    ToggleFullscreen,
    /// Z: switch between fit-to-window and actual size.
    ToggleViewMode,
    /// H: mirror the displayed image horizontally.
    FlipHorizontal,
    /// V: mirror the displayed image vertically.
    FlipVertical,
    /// Shift+G: open the image adjustments dialog.
    OpenAdjustDialog,
    /// Ctrl+R: open the resize dialog.
    OpenResizeDialog,
}

/// The shortcut triggered by `k`: at most one per frame, taken in this
/// priority order.
pub open spec fn spec_shortcut_for(k: KeyInput) -> Option<Shortcut> {
    if k.shift && k.c {
        Some(Shortcut::CopySelection)
    } else if k.shift && k.v {
        Some(Shortcut::Paste)
    } else if k.shift && k.f {
        Some(Shortcut::ToggleChrome)
    } else if k.f12 || k.f {
        Some(Shortcut::ToggleFullscreen)
    } else if k.z {
        Some(Shortcut::ToggleViewMode)
    } else if k.h {
        Some(Shortcut::FlipHorizontal)
    } else if k.v {
        Some(Shortcut::FlipVertical)
    } else if k.shift && k.g {
        Some(Shortcut::OpenAdjustDialog)
    } else if k.ctrl && k.r {
        Some(Shortcut::OpenResizeDialog)
    } else {
        None
    }
}

/// Picks the one shortcut that this frame's keys trigger, if any.
pub fn shortcut_for(k: &KeyInput) -> (s: Option<Shortcut>)
    ensures
        s == spec_shortcut_for(*k),
{
    if k.shift && k.c {
        Some(Shortcut::CopySelection)
    } else if k.shift && k.v {
        Some(Shortcut::Paste)
    } else if k.shift && k.f {
        Some(Shortcut::ToggleChrome)
    } else if k.f12 || k.f {
        Some(Shortcut::ToggleFullscreen)
    } else if k.z {
        Some(Shortcut::ToggleViewMode)
    } else if k.h {
        Some(Shortcut::FlipHorizontal)
    } else if k.v {
        Some(Shortcut::FlipVertical)
    } else if k.shift && k.g {
        Some(Shortcut::OpenAdjustDialog)
    } else if k.ctrl && k.r {
        Some(Shortcut::OpenResizeDialog)
    } else {
        None
    }
}

/// The viewer state after shortcut `sc`. Copy, paste and the adjustments
/// dialog work on the image and leave these flags alone.
pub open spec fn spec_after_shortcut(s: ViewerState, sc: Shortcut) -> ViewerState {
    match sc {
        Shortcut::ToggleChrome => ViewerState { show_chrome: !s.show_chrome, ..s },
        Shortcut::ToggleFullscreen => ViewerState {
            show_chrome: s.is_fullscreen,
            is_fullscreen: !s.is_fullscreen,
            ..s
        },
        Shortcut::ToggleViewMode => ViewerState { view_mode: s.view_mode.toggled(), ..s },
        Shortcut::FlipHorizontal => ViewerState { flipped_h: !s.flipped_h, ..s },
        Shortcut::FlipVertical => ViewerState { flipped_v: !s.flipped_v, ..s },
        Shortcut::OpenResizeDialog => ViewerState { show_resize_dialog: true, ..s },
        _ => s,
    }
}

/// The menu entries of the viewer.
#[derive(Clone, Copy, Debug, PartialEq, Eq, Structural)]
pub enum MenuItem {
    OpenImage,
    Close,
    Copy,
    Paste,
    Adjust,
    Resize,
    Rotate,
    FlipHorizontal,
    FlipVertical,
    ToggleView,
    Fullscreen,
}

/// The entries of the Image menu and the view toggle need a loaded image;
/// the File and Edit entries and Fullscreen are always enabled.
pub open spec fn spec_menu_item_enabled(item: MenuItem, has_image: bool) -> bool {
    match item {
        MenuItem::Adjust | MenuItem::Resize | MenuItem::Rotate | MenuItem::FlipHorizontal
        | MenuItem::FlipVertical | MenuItem::ToggleView => has_image,
        _ => true,
    }
}

/// Whether `item` can be chosen.
pub fn menu_item_enabled(item: MenuItem, has_image: bool) -> (b: bool)
    ensures
        b == spec_menu_item_enabled(item, has_image),
{
    match item {
        MenuItem::Adjust | MenuItem::Resize | MenuItem::Rotate | MenuItem::FlipHorizontal
        | MenuItem::FlipVertical | MenuItem::ToggleView => has_image,
        _ => true,
    }
}

/// The viewer state after choosing menu entry `item`. The menu's
/// Fullscreen entry toggles fullscreen only, unlike the F shortcut, which
/// also toggles the decorations. Opening, closing, copying, pasting and the
/// two dialogs that build previews work outside these flags.
pub open spec fn spec_after_menu_item(s: ViewerState, item: MenuItem) -> ViewerState {
    match item {
        MenuItem::Resize => ViewerState { show_resize_dialog: true, ..s },
        MenuItem::FlipHorizontal => ViewerState { flipped_h: !s.flipped_h, ..s },
        MenuItem::FlipVertical => ViewerState { flipped_v: !s.flipped_v, ..s },
        MenuItem::ToggleView => ViewerState { view_mode: s.view_mode.toggled(), ..s },
        MenuItem::Fullscreen => ViewerState { is_fullscreen: !s.is_fullscreen, ..s },
        _ => s,
    }
}

impl ViewerState {
    /// Applies the state change of shortcut `sc`. Returns whether the zoom
    /// factor must go back to 100%, which happens only when the view toggle
    /// switches to `ActualSize`.
    pub fn apply_shortcut(&mut self, sc: Shortcut) -> (reset_zoom: bool)
        ensures
            *final(self) == spec_after_shortcut(*old(self), sc),
            reset_zoom == (sc == Shortcut::ToggleViewMode && old(self).view_mode
                == ViewMode::FitToWindow),
    {
        match sc {
            Shortcut::ToggleChrome => {
                self.toggle_chrome();
                false
            },
            Shortcut::ToggleFullscreen => {
                self.toggle_fullscreen();
                self.show_chrome = !self.is_fullscreen;
                false
            },
            Shortcut::ToggleViewMode => self.toggle_view_mode(),
            Shortcut::FlipHorizontal => {
                self.flip_horizontal();
                false
            },
            Shortcut::FlipVertical => {
                self.flip_vertical();
                false
            },
            Shortcut::OpenResizeDialog => {
                self.show_resize_dialog = true;
                false
            },
            _ => false,
        }
    }

    /// Applies the state change of menu entry `item`, if it is enabled.
    /// Returns whether the zoom factor must go back to 100%.
    pub fn apply_menu_item(&mut self, item: MenuItem, has_image: bool) -> (reset_zoom: bool)
        ensures
            *final(self) == (if spec_menu_item_enabled(item, has_image) {
                spec_after_menu_item(*old(self), item)
            } else {
                *old(self)
            }),
            reset_zoom == (item == MenuItem::ToggleView && has_image && old(self).view_mode
                == ViewMode::FitToWindow),
    {
        if !menu_item_enabled(item, has_image) {
            return false;
        }
        match item {
            MenuItem::Resize => {
                self.show_resize_dialog = true;
                false
            },
            MenuItem::FlipHorizontal => {
                self.flip_horizontal();
                false
            },
            MenuItem::FlipVertical => {
                self.flip_vertical();
                false
            },
            MenuItem::ToggleView => self.toggle_view_mode(),
            MenuItem::Fullscreen => {
                self.toggle_fullscreen();
                false
            },
            _ => false,
        }
    }
}

/// The toggles undo themselves: chrome and the two flips always, and the
/// fullscreen shortcut whenever the decorations were hidden exactly while
/// fullscreen was on (which that shortcut itself always leaves behind).
pub proof fn toggle_shortcuts_are_involutions(s: ViewerState, sc: Shortcut)
    requires
        sc == Shortcut::ToggleChrome || sc == Shortcut::ToggleFullscreen || sc
            == Shortcut::FlipHorizontal || sc == Shortcut::FlipVertical,
        sc == Shortcut::ToggleFullscreen ==> s.show_chrome == !s.is_fullscreen,
    ensures
        spec_after_shortcut(spec_after_shortcut(s, sc), sc) == s,
{
}

/// After the fullscreen shortcut the window is borderless exactly when it
/// is fullscreen, whatever the decorations were before.
pub proof fn fullscreen_shortcut_is_borderless(s: ViewerState)
    ensures
        spec_after_shortcut(s, Shortcut::ToggleFullscreen).is_fullscreen == !s.is_fullscreen,
        spec_after_shortcut(s, Shortcut::ToggleFullscreen).show_chrome == !spec_after_shortcut(
            s,
            Shortcut::ToggleFullscreen,
        ).is_fullscreen,
{
}

/// The view toggle never produces `Custom`, and from fit-to-window or
/// actual size two toggles come back to the starting mode; a custom zoom
/// goes to fit-to-window.
pub proof fn view_toggle_alternates(m: ViewMode)
    ensures
        m.toggled() != ViewMode::Custom,
        m != ViewMode::Custom ==> m.toggled().toggled() == m,
        m == ViewMode::Custom ==> m.toggled() == ViewMode::FitToWindow,
{
}

/// Shortcuts only touch the flags they are about: none of them changes the
/// dialogs other than the resize dialog, the drag mode or the first-frame
/// flag.
pub proof fn shortcuts_keep_unrelated_state(s: ViewerState, sc: Shortcut)
    ensures
        ({
            let t = spec_after_shortcut(s, sc);
            &&& t.show_rotate_dialog == s.show_rotate_dialog
            &&& t.show_adjust_dialog == s.show_adjust_dialog
            &&& t.selection_drag == s.selection_drag
            &&& t.first_frame == s.first_frame
            &&& (t.show_resize_dialog == s.show_resize_dialog || sc == Shortcut::OpenResizeDialog)
        }),
{
}

/// Each shortcut changes only the flags it is about: the horizontal flip
/// only by H, the vertical flip only by V, the view mode only by Z, the
/// fullscreen flag only by F/F12, the decorations only by Shift+F or F/F12,
/// the resize dialog only by Ctrl+R (which opens it); and the flips and the
/// view toggle do change what they are about.
pub proof fn shortcuts_change_only_their_flags(s: ViewerState, sc: Shortcut)
    ensures
        ({
            let t = spec_after_shortcut(s, sc);
            &&& (t.flipped_h != s.flipped_h <==> sc == Shortcut::FlipHorizontal)
            &&& (t.flipped_v != s.flipped_v <==> sc == Shortcut::FlipVertical)
            &&& (t.is_fullscreen != s.is_fullscreen <==> sc == Shortcut::ToggleFullscreen)
            &&& (t.show_chrome != s.show_chrome ==> sc == Shortcut::ToggleChrome || sc
                == Shortcut::ToggleFullscreen)
            &&& (sc == Shortcut::ToggleChrome ==> t.show_chrome == !s.show_chrome)
            &&& (t.view_mode != s.view_mode <==> sc == Shortcut::ToggleViewMode)
            &&& (sc == Shortcut::ToggleViewMode ==> (s.view_mode == ViewMode::FitToWindow
                ==> t.view_mode == ViewMode::ActualSize) && (s.view_mode != ViewMode::FitToWindow
                ==> t.view_mode == ViewMode::FitToWindow))
            &&& (t.show_resize_dialog != s.show_resize_dialog ==> sc == Shortcut::OpenResizeDialog)
            &&& (sc == Shortcut::OpenResizeDialog ==> t.show_resize_dialog)
            &&& t.show_rotate_dialog == s.show_rotate_dialog
            &&& t.show_adjust_dialog == s.show_adjust_dialog
            &&& t.selection_drag == s.selection_drag
            &&& t.first_frame == s.first_frame
        }),
{
}

/// A menu entry changes only the flags it is about, and only when it is
/// enabled (Image-menu entries and the view toggle need an image): the
/// view toggle goes from fit-to-window to actual size and from any other
/// mode back to fit-to-window; the flips flip; Fullscreen flips fullscreen
/// and leaves the decorations; Resize opens the resize dialog.
pub proof fn menu_items_change_only_their_flags(s: ViewerState, item: MenuItem, has_image: bool)
    ensures
        ({
            let t = if spec_menu_item_enabled(item, has_image) {
                spec_after_menu_item(s, item)
            } else {
                s
            };
            let needs_image = item == MenuItem::Adjust || item == MenuItem::Resize || item
                == MenuItem::Rotate || item == MenuItem::FlipHorizontal || item
                == MenuItem::FlipVertical || item == MenuItem::ToggleView;
            &&& (spec_menu_item_enabled(item, has_image) <==> (has_image || !needs_image))
            &&& (t.flipped_h != s.flipped_h <==> (item == MenuItem::FlipHorizontal && has_image))
            &&& (t.flipped_v != s.flipped_v <==> (item == MenuItem::FlipVertical && has_image))
            &&& (t.is_fullscreen != s.is_fullscreen <==> item == MenuItem::Fullscreen)
            &&& t.show_chrome == s.show_chrome
            &&& (t.view_mode != s.view_mode <==> (item == MenuItem::ToggleView && has_image))
            &&& (item == MenuItem::ToggleView && has_image ==> (s.view_mode == ViewMode::FitToWindow
                ==> t.view_mode == ViewMode::ActualSize) && (s.view_mode != ViewMode::FitToWindow
                ==> t.view_mode == ViewMode::FitToWindow))
            &&& (t.show_resize_dialog != s.show_resize_dialog ==> item == MenuItem::Resize)
            &&& (item == MenuItem::Resize && has_image ==> t.show_resize_dialog)
            &&& t.show_rotate_dialog == s.show_rotate_dialog
            &&& t.show_adjust_dialog == s.show_adjust_dialog
            &&& t.selection_drag == s.selection_drag
            &&& t.first_frame == s.first_frame
        }),
{
}

/// A shortcut fires only when its keys are down: copy, paste, the
/// decorations toggle and the adjustments dialog need Shift, the resize
/// dialog needs Ctrl; each needs its letter. Conversely Shift+C always
/// copies, Shift+V always pastes, and with no key down nothing fires.
pub proof fn shortcuts_need_their_keys(k: KeyInput)
    ensures
        ({
            let r = spec_shortcut_for(k);
            &&& (r == Some(Shortcut::CopySelection) ==> k.shift && k.c)
            &&& (r == Some(Shortcut::Paste) ==> k.shift && k.v)
            &&& (r == Some(Shortcut::ToggleChrome) ==> k.shift && k.f)
            &&& (r == Some(Shortcut::ToggleFullscreen) ==> k.f || k.f12)
            &&& (r == Some(Shortcut::ToggleViewMode) ==> k.z)
            &&& (r == Some(Shortcut::FlipHorizontal) ==> k.h)
            &&& (r == Some(Shortcut::FlipVertical) ==> k.v && !k.shift)
            &&& (r == Some(Shortcut::OpenAdjustDialog) ==> k.shift && k.g)
            &&& (r == Some(Shortcut::OpenResizeDialog) ==> k.ctrl && k.r)
            &&& (k.shift && k.c ==> r == Some(Shortcut::CopySelection))
            &&& (k.shift && k.v && !k.c ==> r == Some(Shortcut::Paste))
            &&& (!k.c && !k.v && !k.f && !k.f12 && !k.z && !k.h && !k.g && !k.r ==> r is None)
        }),
{
}

} // verus!
