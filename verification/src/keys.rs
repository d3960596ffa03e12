//! What single keys mean.

use vstd::prelude::*;

verus! {

/// The keys that mean something to the window.
#[derive(Debug, Clone, Copy, PartialEq, Eq, Structural)]
pub enum Key {
    Left,
    Right,
    Up,
    Down,
    Space,
    Return,
    KeypadEnter,
    Escape,
    Delete,
    KeypadDelete,
    BackSpace,
    Plus,
    Equal,
    KeypadAdd,
    Minus,
    KeypadSubtract,
    ControlLeft,
    ControlRight,
    Other,
}

/// The modifiers that are held down.
#[derive(Debug, Clone, Copy, PartialEq, Eq, Structural)]
pub struct Modifiers {
    pub shift: bool,
    pub control: bool,
    pub alt: bool,
    pub logo: bool,
    pub hyper: bool,
    pub meta: bool,
    /// Caps Lock, which changes what no key means here.
    pub lock: bool,
}

impl Modifiers {
    /// No modifier.
    pub fn empty() -> (modifiers: Modifiers)
        ensures
            !modifiers.shift,
            !modifiers.spec_command(),
            !modifiers.lock,
    {
        Modifiers {
            shift: false,
            control: false,
            alt: false,
            logo: false,
            hyper: false,
            meta: false,
            lock: false,
        }
    }

    /// Whether a modifier other than Shift is held, which leaves the key to
    /// the shortcuts.
    pub open spec fn spec_command(self) -> bool {
        self.control || self.alt || self.logo || self.hyper || self.meta
    }

    /// Whether a modifier other than Shift is held.
    pub fn command(self) -> (held: bool)
        ensures
            held == self.spec_command(),
    {
        self.control || self.alt || self.logo || self.hyper || self.meta
    }
}

/// What a drag of the pencil draws.
#[derive(Debug, Clone, Copy, PartialEq, Eq, Structural)]
pub enum PencilDragMode {
    Freehand,
    Line,
    Rectangle,
    Circle,
}

/// The direction in which a key zooms while the pencil is active.
#[derive(Debug, Clone, Copy, PartialEq, Eq, Structural)]
pub enum PencilZoomKey {
    In,
    Out,
}

/// What a drag of the pencil draws under the given modifiers.
pub open spec fn spec_pencil_drag_mode(modifiers: Modifiers) -> PencilDragMode {
    if modifiers.alt {
        PencilDragMode::Circle
    } else if modifiers.shift {
        PencilDragMode::Rectangle
    } else if modifiers.control {
        PencilDragMode::Line
    } else {
        PencilDragMode::Freehand
    }
}

/// What a drag of the pencil draws: Alt wins over Shift, Shift over Control.
pub fn pencil_drag_mode(modifiers: Modifiers) -> (mode: PencilDragMode)
    ensures
        mode == spec_pencil_drag_mode(modifiers),
{
    if modifiers.alt {
        PencilDragMode::Circle
    } else if modifiers.shift {
        PencilDragMode::Rectangle
    } else if modifiers.control {
        PencilDragMode::Line
    } else {
        PencilDragMode::Freehand
    }
}

/// Which way an arrow key leads through the images.
pub open spec fn spec_image_navigation_direction(
    key: Key,
    modifiers: Modifiers,
    contextual_mode_active: bool,
) -> Option<bool> {
    if contextual_mode_active || modifiers.shift || modifiers.spec_command() {
        None
    } else if key == Key::Left {
        Some(false)
    } else if key == Key::Right {
        Some(true)
    } else {
        None
    }
}

/// Which way an arrow key leads through the images: forward for `Some(true)`.
/// With a modifier, or in a mode that uses the arrows itself, it leads nowhere.
pub fn image_navigation_direction(
    key: Key,
    modifiers: Modifiers,
    contextual_mode_active: bool,
) -> (direction: Option<bool>)
    ensures
        direction == spec_image_navigation_direction(key, modifiers, contextual_mode_active),
{
    if contextual_mode_active || modifiers.shift || modifiers.command() {
        return None;
    }
    match key {
        Key::Left => Some(false),
        Key::Right => Some(true),
        _ => None,
    }
}

/// Which way a key zooms while the pencil is active.
pub open spec fn spec_pencil_zoom_key(
    key: Key,
    modifiers: Modifiers,
    pencil_active: bool,
) -> Option<PencilZoomKey> {
    if !pencil_active || modifiers.alt || modifiers.logo || modifiers.hyper || modifiers.meta {
        None
    } else if key == Key::Plus || key == Key::Equal || key == Key::KeypadAdd {
        Some(PencilZoomKey::In)
    } else if key == Key::Minus || key == Key::KeypadSubtract {
        Some(PencilZoomKey::Out)
    } else {
        None
    }
}

/// Which way a key zooms while the pencil is active. Shift and Control do not
/// stop it: a drag with them draws shapes.
pub fn pencil_zoom_key(key: Key, modifiers: Modifiers, pencil_active: bool) -> (direction: Option<
    PencilZoomKey,
>)
    ensures
        direction == spec_pencil_zoom_key(key, modifiers, pencil_active),
{
    if !pencil_active || modifiers.alt || modifiers.logo || modifiers.hyper || modifiers.meta {
        return None;
    }
    match key {
        Key::Plus | Key::Equal | Key::KeypadAdd => Some(PencilZoomKey::In),
        Key::Minus | Key::KeypadSubtract => Some(PencilZoomKey::Out),
        _ => None,
    }
}

/// How far one press of an arrow key moves: ten pixels with Shift, else one.
pub open spec fn spec_arrow_step(key: Key, modifiers: Modifiers) -> Option<(int, int)> {
    let step: int = if modifiers.shift {
        10
    } else {
        1
    };
    match key {
        Key::Left => Some((-step, 0)),
        Key::Right => Some((step, 0)),
        Key::Up => Some((0, -step)),
        Key::Down => Some((0, step)),
        _ => None,
    }
}

/// How far one press of an arrow key moves to the right and down.
pub fn arrow_step(key: Key, modifiers: Modifiers) -> (step: Option<(i32, i32)>)
    ensures
        match step {
            Some(step) => spec_arrow_step(key, modifiers) == Some((step.0 as int, step.1 as int))
                && -10 <= step.0 <= 10 && -10 <= step.1 <= 10,
            None => spec_arrow_step(key, modifiers) is None,
        },
{
    let distance: i32 = if modifiers.shift {
        10
    } else {
        1
    };
    match key {
        Key::Left => Some((-distance, 0)),
        Key::Right => Some((distance, 0)),
        Key::Up => Some((0, -distance)),
        Key::Down => Some((0, distance)),
        _ => None,
    }
}

/// Whether the key acts on what the arrow keys have aimed at.
pub open spec fn spec_is_activation(key: Key) -> bool {
    key == Key::Space || key == Key::Return || key == Key::KeypadEnter
}

/// Whether the key acts on what the arrow keys have aimed at.
pub fn is_activation(key: Key) -> (activation: bool)
    ensures
        activation == spec_is_activation(key),
{
    matches!(key, Key::Space | Key::Return | Key::KeypadEnter)
}

/// What a key does while or before the picture fills the screen.
#[derive(Debug, Clone, Copy, PartialEq, Eq, Structural)]
pub enum PreviewKey {
    /// Left to the rest of the window.
    Pass,
    /// Claimed without an effect.
    Swallow,
    /// Ends the preview.
    Leave,
    /// Starts the preview, and is claimed if that worked.
    Show,
}

/// What a key does while or before the picture fills the screen.
pub open spec fn spec_fullscreen_preview_key(
    key: Key,
    modifiers: Modifiers,
    showing: bool,
    dialog_open: bool,
    text_focused: bool,
) -> PreviewKey {
    if showing {
        if key == Key::Escape {
            PreviewKey::Leave
        } else {
            PreviewKey::Swallow
        }
    } else if key == Key::Space && !modifiers.shift && !modifiers.spec_command() && !dialog_open
        && !text_focused {
        PreviewKey::Show
    } else {
        PreviewKey::Pass
    }
}

/// What a key does while or before the picture fills the screen: a bare Space
/// starts it where nothing else wants the key, Escape ends it, and nothing
/// else gets through in between.
pub fn fullscreen_preview_key(
    key: Key,
    modifiers: Modifiers,
    showing: bool,
    dialog_open: bool,
    text_focused: bool,
) -> (meaning: PreviewKey)
    ensures
        meaning == spec_fullscreen_preview_key(key, modifiers, showing, dialog_open, text_focused),
{
    if showing {
        return if matches!(key, Key::Escape) {
            PreviewKey::Leave
        } else {
            PreviewKey::Swallow
        };
    }
    if !matches!(key, Key::Space) || modifiers.shift || modifiers.command() || dialog_open
        || text_focused {
        return PreviewKey::Pass;
    }
    PreviewKey::Show
}

/// While the picture fills the screen, every key is claimed, and only Escape
/// ends it.
pub proof fn preview_claims_every_key(
    key: Key,
    modifiers: Modifiers,
    dialog_open: bool,
    text_focused: bool,
)
    ensures
        ({
            let meaning = spec_fullscreen_preview_key(
                key,
                modifiers,
                true,
                dialog_open,
                text_focused,
            );
            &&& meaning != PreviewKey::Pass
            &&& meaning != PreviewKey::Show
            &&& meaning == PreviewKey::Leave <==> key == Key::Escape
        }),
{
}

} // verus!
