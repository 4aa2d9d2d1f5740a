use vstd::prelude::*;

verus! {

/// Which sizing mode the main image viewport is using.
///
/// `FitToWindow` recomputes the scale every frame so the image fits the
/// panel; `ActualSize` shows the image at 100%; `Custom` is any zoom set by
/// the user (scroll, keyboard or zoom-to-selection).
#[derive(Clone, Copy, Debug, PartialEq, Eq, Structural)]
pub enum ViewMode {
    FitToWindow,
    ActualSize,
    Custom,
}

/// Which edge of a selection box is being hovered or dragged.
#[derive(Clone, Copy, Debug, PartialEq, Eq, Structural)]
pub enum ResizeEdge {
    Left,
    Right,
    Top,
    Bottom,
}

/// What a primary-button drag on the main view is doing to the selection.
///
/// The mode is decided once when the drag starts and is read back on every
/// later frame of the same drag.
#[derive(Clone, Copy, Debug, PartialEq, Eq, Structural)]
pub enum SelectionDragMode {
    Idle,
    Drawing,
    Resizing(ResizeEdge),
}

} // verus!

verus! {

impl ViewMode {
    /// The mode that the "toggle view" action switches to: `FitToWindow`
    /// goes to `ActualSize`, and every other mode goes back to `FitToWindow`.
    pub open spec fn toggled(self) -> ViewMode {
        match self {
            ViewMode::FitToWindow => ViewMode::ActualSize,
            _ => ViewMode::FitToWindow,
        }
    }
}

/// The discrete part of the viewer's state: view mode, window chrome,
/// fullscreen, open dialogs, selection drag mode and the draw-time flips.
///
/// The floating-point parts (zoom factor, pan offset, on-screen rects) and
/// the image and its textures live with the user interface.
pub struct ViewerState {
    pub view_mode: ViewMode,
    pub show_chrome: bool,
    pub is_fullscreen: bool,
    pub show_resize_dialog: bool,
    pub show_rotate_dialog: bool,
    pub show_adjust_dialog: bool,
    pub selection_drag: SelectionDragMode,
    pub first_frame: bool,
    pub flipped_h: bool,
    pub flipped_v: bool,
}

impl ViewerState {
    /// The state right after start-up: fit to window, chrome shown, not
    /// fullscreen, no dialog open, no drag, no flip, first frame pending.
    pub open spec fn is_initial(self) -> bool {
        &&& self.view_mode == ViewMode::FitToWindow
        &&& self.show_chrome
        &&& !self.is_fullscreen
        &&& !self.show_resize_dialog
        &&& !self.show_rotate_dialog
        &&& !self.show_adjust_dialog
        &&& self.selection_drag == SelectionDragMode::Idle
        &&& self.first_frame
        &&& !self.flipped_h
        &&& !self.flipped_v
    }

    /// Creates the start-up state.
    pub fn new() -> (s: ViewerState)
        ensures
            s.is_initial(),
    {
        ViewerState {
            view_mode: ViewMode::FitToWindow,
            show_chrome: true,
            is_fullscreen: false,
            show_resize_dialog: false,
            show_rotate_dialog: false,
            show_adjust_dialog: false,
            selection_drag: SelectionDragMode::Idle,
            first_frame: true,
            flipped_h: false,
            flipped_v: false,
        }
    }

    /// Switches between `FitToWindow` and `ActualSize` (a `Custom` zoom goes
    /// back to `FitToWindow`). Returns whether the zoom factor must be reset
    /// to 100%, which is exactly when the new mode is `ActualSize`; the pan
    /// offset is reset in both cases.
    pub fn toggle_view_mode(&mut self) -> (reset_zoom: bool)
        ensures
            *final(self) == (ViewerState { view_mode: old(self).view_mode.toggled(), ..*old(self) }),
            reset_zoom == (old(self).view_mode == ViewMode::FitToWindow),
            reset_zoom == (final(self).view_mode == ViewMode::ActualSize),
    {
        if self.view_mode == ViewMode::FitToWindow {
            self.view_mode = ViewMode::ActualSize;
            true
        } else {
            self.view_mode = ViewMode::FitToWindow;
            false
        }
    }

    /// Flips the fullscreen flag and leaves everything else as it was.
    pub fn toggle_fullscreen(&mut self)
        ensures
            *final(self) == (ViewerState { is_fullscreen: !old(self).is_fullscreen, ..*old(self) }),
    {
        self.is_fullscreen = !self.is_fullscreen;
    }

    /// Flips the window-decorations flag and leaves everything else as it was.
    pub fn toggle_chrome(&mut self)
        ensures
            *final(self) == (ViewerState { show_chrome: !old(self).show_chrome, ..*old(self) }),
    {
        self.show_chrome = !self.show_chrome;
    }

    /// Mirrors the displayed image horizontally (a draw-time flag only).
    pub fn flip_horizontal(&mut self)
        ensures
            *final(self) == (ViewerState { flipped_h: !old(self).flipped_h, ..*old(self) }),
    {
        self.flipped_h = !self.flipped_h;
    }

    /// Mirrors the displayed image vertically (a draw-time flag only).
    pub fn flip_vertical(&mut self)
        ensures
            *final(self) == (ViewerState { flipped_v: !old(self).flipped_v, ..*old(self) }),
    {
        self.flipped_v = !self.flipped_v;
    }

    /// Records that a new image was opened: both flips are cleared and the
    /// view goes back to `FitToWindow` (the pan offset is reset alongside).
    pub fn image_opened(&mut self)
        ensures
            *final(self) == (ViewerState {
                flipped_h: false,
                flipped_v: false,
                view_mode: ViewMode::FitToWindow,
                ..*old(self)
            }),
    {
        self.flipped_h = false;
        self.flipped_v = false;
        self.view_mode = ViewMode::FitToWindow;
    }

    /// Consumes the first-frame flag: returns whether this is the first
    /// frame (when the window gets centred once) and clears the flag.
    pub fn take_first_frame(&mut self) -> (was_first: bool)
        ensures
            was_first == old(self).first_frame,
            *final(self) == (ViewerState { first_frame: false, ..*old(self) }),
    {
        let was_first = self.first_frame;
        self.first_frame = false;
        was_first
    }

    /// Records a manual zoom (scroll, keyboard or zoom-to-selection): from
    /// then on the view mode is `Custom`.
    pub fn zoomed_manually(&mut self)
        ensures
            *final(self) == (ViewerState { view_mode: ViewMode::Custom, ..*old(self) }),
    {
        self.view_mode = ViewMode::Custom;
    }
}

/// The integer part of the image-adjustment sliders: an overall brightness
/// offset and one additive offset per colour channel.
#[derive(Clone, Copy, Debug, PartialEq, Eq, Structural)]
pub struct ChannelAdjust {
    pub brightness: i32,
    pub red: i32,
    pub green: i32,
    pub blue: i32,
}

impl ChannelAdjust {
    /// All offsets are zero: these values leave every channel unchanged.
    pub open spec fn is_neutral(self) -> bool {
        self.brightness == 0 && self.red == 0 && self.green == 0 && self.blue == 0
    }

    /// Every offset leaves room for the largest sample in an `i32` sum.
    pub open spec fn in_range(self) -> bool {
        &&& self.brightness <= i32::MAX - 255
        &&& self.red <= i32::MAX - 255
        &&& self.green <= i32::MAX - 255
        &&& self.blue <= i32::MAX - 255
    }

    /// The neutral settings.
    pub fn neutral() -> (a: ChannelAdjust)
        ensures
            a.is_neutral(),
    {
        ChannelAdjust { brightness: 0, red: 0, green: 0, blue: 0 }
    }

    /// Resets every offset back to its neutral value.
    pub fn reset(&mut self)
        ensures
            final(self).is_neutral(),
    {
        self.brightness = 0;
        self.red = 0;
        self.green = 0;
        self.blue = 0;
    }
}

} // verus!
