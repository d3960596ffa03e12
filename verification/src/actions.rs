//! The actions of the window: their names, when they can be used, and what
//! they do.

use crate::effect::{Effect, Notice, Operation, ZoomAlignment, ZoomTarget};
use crate::tool::Tool;
use crate::window::{ScalePreviewView, ViewerWindow, WindowView, ZoomFilter};
use vstd::prelude::*;

verus! {

/// The zooms that have an action of their own.
#[derive(Debug, Clone, Copy, PartialEq, Eq, Structural)]
pub enum ZoomPreset {
    Quarter,
    Half,
    ThreeQuarters,
    Whole,
    Twofold,
    Threefold,
    Fourfold,
    Fivefold,
    Sixfold,
    Sevenfold,
    Eightfold,
    Ninefold,
}

impl ZoomPreset {
    /// The zoom as a percentage of the size in pixels.
    pub open spec fn spec_percent(self) -> u32 {
        match self {
            ZoomPreset::Quarter => 25,
            ZoomPreset::Half => 50,
            ZoomPreset::ThreeQuarters => 75,
            ZoomPreset::Whole => 100,
            ZoomPreset::Twofold => 200,
            ZoomPreset::Threefold => 300,
            ZoomPreset::Fourfold => 400,
            ZoomPreset::Fivefold => 500,
            ZoomPreset::Sixfold => 600,
            ZoomPreset::Sevenfold => 700,
            ZoomPreset::Eightfold => 800,
            ZoomPreset::Ninefold => 900,
        }
    }

    /// The zoom as a percentage of the size in pixels.
    pub fn percent(self) -> (percent: u32)
        ensures
            percent == self.spec_percent(),
    {
        match self {
            ZoomPreset::Quarter => 25,
            ZoomPreset::Half => 50,
            ZoomPreset::ThreeQuarters => 75,
            ZoomPreset::Whole => 100,
            ZoomPreset::Twofold => 200,
            ZoomPreset::Threefold => 300,
            ZoomPreset::Fourfold => 400,
            ZoomPreset::Fivefold => 500,
            ZoomPreset::Sixfold => 600,
            ZoomPreset::Sevenfold => 700,
            ZoomPreset::Eightfold => 800,
            ZoomPreset::Ninefold => 900,
        }
    }
}

/// An action of the window.
#[derive(Debug, Clone, Copy, PartialEq, Eq, Structural)]
pub enum Action {
    Open,
    OpenWith,
    /// Close the window.
    Close,
    CopyImage,
    ZoomIn,
    ZoomOut,
    ActualSize,
    ZoomTo(ZoomPreset),
    Fit,
    Fill,
    ToggleFilter,
    Previous,
    Next,
    DeleteFile,
    Fullscreen,
    PlayPause,
    PreviousFrame,
    NextFrame,
    Save,
    SaveAs,
    CancelExport,
    Undo,
    Redo,
    RotateClockwise,
    RotateCounterclockwise,
    FlipHorizontal,
    FlipVertical,
    Measure,
    Highlight,
    Arrow,
    Text,
    /// Take the scaling tool up, or put it away.
    ScalePreview,
    ConfirmScale,
    CancelScale,
    ScaleActualSize,
    ScaleFit,
    CropContent,
    /// Take the scaling tool up.
    Scale,
    Palette,
    Pencil,
    PickColor,
    /// Take a tool up by its name.
    Tool,
    CancelTool,
    Properties,
    Preferences,
    Shortcuts,
    About,
    Compare,
    Lens,
    Select,
    SelectionZoom,
    SelectionCrop,
    SelectionCopy,
}

impl Action {
    /// The name under which menus and keys call the action.
    pub open spec fn spec_name(self) -> Seq<char> {
        match self {
            Action::Open => "open"@,
            Action::OpenWith => "open-with"@,
            Action::Close => "close"@,
            Action::CopyImage => "copy-image"@,
            Action::ZoomIn => "zoom-in"@,
            Action::ZoomOut => "zoom-out"@,
            Action::ActualSize => "actual-size"@,
            Action::ZoomTo(ZoomPreset::Quarter) => "zoom-25"@,
            Action::ZoomTo(ZoomPreset::Half) => "zoom-50"@,
            Action::ZoomTo(ZoomPreset::ThreeQuarters) => "zoom-75"@,
            Action::ZoomTo(ZoomPreset::Whole) => "zoom-100"@,
            Action::ZoomTo(ZoomPreset::Twofold) => "zoom-200"@,
            Action::ZoomTo(ZoomPreset::Threefold) => "zoom-300"@,
            Action::ZoomTo(ZoomPreset::Fourfold) => "zoom-400"@,
            Action::ZoomTo(ZoomPreset::Fivefold) => "zoom-500"@,
            Action::ZoomTo(ZoomPreset::Sixfold) => "zoom-600"@,
            Action::ZoomTo(ZoomPreset::Sevenfold) => "zoom-700"@,
            Action::ZoomTo(ZoomPreset::Eightfold) => "zoom-800"@,
            Action::ZoomTo(ZoomPreset::Ninefold) => "zoom-900"@,
            Action::Fit => "fit"@,
            Action::Fill => "fill"@,
            Action::ToggleFilter => "toggle-filter"@,
            Action::Previous => "previous"@,
            Action::Next => "next"@,
            Action::DeleteFile => "delete-file"@,
            Action::Fullscreen => "fullscreen"@,
            Action::PlayPause => "play-pause"@,
            Action::PreviousFrame => "previous-frame"@,
            Action::NextFrame => "next-frame"@,
            Action::Save => "save"@,
            Action::SaveAs => "save-as"@,
            Action::CancelExport => "cancel-export"@,
            Action::Undo => "undo"@,
            Action::Redo => "redo"@,
            Action::RotateClockwise => "rotate-clockwise"@,
            Action::RotateCounterclockwise => "rotate-counterclockwise"@,
            Action::FlipHorizontal => "flip-horizontal"@,
            Action::FlipVertical => "flip-vertical"@,
            Action::Measure => "measure"@,
            Action::Highlight => "highlight"@,
            Action::Arrow => "arrow"@,
            Action::Text => "text"@,
            Action::ScalePreview => "scale-preview"@,
            Action::ConfirmScale => "confirm-scale"@,
            Action::CancelScale => "cancel-scale"@,
            Action::ScaleActualSize => "scale-actual-size"@,
            Action::ScaleFit => "scale-fit"@,
            Action::CropContent => "crop-content"@,
            Action::Scale => "scale"@,
            Action::Palette => "palette"@,
            Action::Pencil => "pencil"@,
            Action::PickColor => "pick-color"@,
            Action::Tool => "tool"@,
            Action::CancelTool => "cancel-tool"@,
            Action::Properties => "properties"@,
            Action::Preferences => "preferences"@,
            Action::Shortcuts => "shortcuts"@,
            Action::About => "about"@,
            Action::Compare => "compare"@,
            Action::Lens => "lens"@,
            Action::Select => "select"@,
            Action::SelectionZoom => "selection-zoom"@,
            Action::SelectionCrop => "selection-crop"@,
            Action::SelectionCopy => "selection-copy"@,
        }
    }

    /// The name under which menus and keys call the action.
    pub fn name(self) -> (name: &'static str)
        ensures
            name@ == self.spec_name(),
    {
        match self {
            Action::Open => "open",
            Action::OpenWith => "open-with",
            Action::Close => "close",
            Action::CopyImage => "copy-image",
            Action::ZoomIn => "zoom-in",
            Action::ZoomOut => "zoom-out",
            Action::ActualSize => "actual-size",
            Action::ZoomTo(ZoomPreset::Quarter) => "zoom-25",
            Action::ZoomTo(ZoomPreset::Half) => "zoom-50",
            Action::ZoomTo(ZoomPreset::ThreeQuarters) => "zoom-75",
            Action::ZoomTo(ZoomPreset::Whole) => "zoom-100",
            Action::ZoomTo(ZoomPreset::Twofold) => "zoom-200",
            Action::ZoomTo(ZoomPreset::Threefold) => "zoom-300",
            Action::ZoomTo(ZoomPreset::Fourfold) => "zoom-400",
            Action::ZoomTo(ZoomPreset::Fivefold) => "zoom-500",
            Action::ZoomTo(ZoomPreset::Sixfold) => "zoom-600",
            Action::ZoomTo(ZoomPreset::Sevenfold) => "zoom-700",
            Action::ZoomTo(ZoomPreset::Eightfold) => "zoom-800",
            Action::ZoomTo(ZoomPreset::Ninefold) => "zoom-900",
            Action::Fit => "fit",
            Action::Fill => "fill",
            Action::ToggleFilter => "toggle-filter",
            Action::Previous => "previous",
            Action::Next => "next",
            Action::DeleteFile => "delete-file",
            Action::Fullscreen => "fullscreen",
            Action::PlayPause => "play-pause",
            Action::PreviousFrame => "previous-frame",
            Action::NextFrame => "next-frame",
            Action::Save => "save",
            Action::SaveAs => "save-as",
            Action::CancelExport => "cancel-export",
            Action::Undo => "undo",
            Action::Redo => "redo",
            Action::RotateClockwise => "rotate-clockwise",
            Action::RotateCounterclockwise => "rotate-counterclockwise",
            Action::FlipHorizontal => "flip-horizontal",
            Action::FlipVertical => "flip-vertical",
            Action::Measure => "measure",
            Action::Highlight => "highlight",
            Action::Arrow => "arrow",
            Action::Text => "text",
            Action::ScalePreview => "scale-preview",
            Action::ConfirmScale => "confirm-scale",
            Action::CancelScale => "cancel-scale",
            Action::ScaleActualSize => "scale-actual-size",
            Action::ScaleFit => "scale-fit",
            Action::CropContent => "crop-content",
            Action::Scale => "scale",
            Action::Palette => "palette",
            Action::Pencil => "pencil",
            Action::PickColor => "pick-color",
            Action::Tool => "tool",
            Action::CancelTool => "cancel-tool",
            Action::Properties => "properties",
            Action::Preferences => "preferences",
            Action::Shortcuts => "shortcuts",
            Action::About => "about",
            Action::Compare => "compare",
            Action::Lens => "lens",
            Action::Select => "select",
            Action::SelectionZoom => "selection-zoom",
            Action::SelectionCrop => "selection-crop",
            Action::SelectionCopy => "selection-copy",
        }
    }
}

impl Action {
    /// Where an action stands in the list of all.
    pub open spec fn position(self) -> int {
        match self {
            Action::Open => 0,
            Action::OpenWith => 1,
            Action::Close => 2,
            Action::CopyImage => 3,
            Action::ZoomIn => 4,
            Action::ZoomOut => 5,
            Action::ActualSize => 6,
            Action::ZoomTo(ZoomPreset::Quarter) => 7,
            Action::ZoomTo(ZoomPreset::Half) => 8,
            Action::ZoomTo(ZoomPreset::ThreeQuarters) => 9,
            Action::ZoomTo(ZoomPreset::Whole) => 10,
            Action::ZoomTo(ZoomPreset::Twofold) => 11,
            Action::ZoomTo(ZoomPreset::Threefold) => 12,
            Action::ZoomTo(ZoomPreset::Fourfold) => 13,
            Action::ZoomTo(ZoomPreset::Fivefold) => 14,
            Action::ZoomTo(ZoomPreset::Sixfold) => 15,
            Action::ZoomTo(ZoomPreset::Sevenfold) => 16,
            Action::ZoomTo(ZoomPreset::Eightfold) => 17,
            Action::ZoomTo(ZoomPreset::Ninefold) => 18,
            Action::Fit => 19,
            Action::Fill => 20,
            Action::ToggleFilter => 21,
            Action::Previous => 22,
            Action::Next => 23,
            Action::DeleteFile => 24,
            Action::Fullscreen => 25,
            Action::PlayPause => 26,
            Action::PreviousFrame => 27,
            Action::NextFrame => 28,
            Action::Save => 29,
            Action::SaveAs => 30,
            Action::CancelExport => 31,
            Action::Undo => 32,
            Action::Redo => 33,
            Action::RotateClockwise => 34,
            Action::RotateCounterclockwise => 35,
            Action::FlipHorizontal => 36,
            Action::FlipVertical => 37,
            Action::Measure => 38,
            Action::Highlight => 39,
            Action::Arrow => 40,
            Action::Text => 41,
            Action::ScalePreview => 42,
            Action::ConfirmScale => 43,
            Action::CancelScale => 44,
            Action::ScaleActualSize => 45,
            Action::ScaleFit => 46,
            Action::CropContent => 47,
            Action::Scale => 48,
            Action::Palette => 49,
            Action::Pencil => 50,
            Action::PickColor => 51,
            Action::Tool => 52,
            Action::CancelTool => 53,
            Action::Properties => 54,
            Action::Preferences => 55,
            Action::Shortcuts => 56,
            Action::About => 57,
            Action::Compare => 58,
            Action::Lens => 59,
            Action::Select => 60,
            Action::SelectionZoom => 61,
            Action::SelectionCrop => 62,
            Action::SelectionCopy => 63,
        }
    }

    /// All actions, each once.
    pub fn all() -> (actions: Vec<Action>)
        ensures
            actions@.len() == 64,
            forall|action: Action| actions@[#[trigger] action.position()] == action,
    {
        vec![
            Action::Open,
            Action::OpenWith,
            Action::Close,
            Action::CopyImage,
            Action::ZoomIn,
            Action::ZoomOut,
            Action::ActualSize,
            Action::ZoomTo(ZoomPreset::Quarter),
            Action::ZoomTo(ZoomPreset::Half),
            Action::ZoomTo(ZoomPreset::ThreeQuarters),
            Action::ZoomTo(ZoomPreset::Whole),
            Action::ZoomTo(ZoomPreset::Twofold),
            Action::ZoomTo(ZoomPreset::Threefold),
            Action::ZoomTo(ZoomPreset::Fourfold),
            Action::ZoomTo(ZoomPreset::Fivefold),
            Action::ZoomTo(ZoomPreset::Sixfold),
            Action::ZoomTo(ZoomPreset::Sevenfold),
            Action::ZoomTo(ZoomPreset::Eightfold),
            Action::ZoomTo(ZoomPreset::Ninefold),
            Action::Fit,
            Action::Fill,
            Action::ToggleFilter,
            Action::Previous,
            Action::Next,
            Action::DeleteFile,
            Action::Fullscreen,
            Action::PlayPause,
            Action::PreviousFrame,
            Action::NextFrame,
            Action::Save,
            Action::SaveAs,
            Action::CancelExport,
            Action::Undo,
            Action::Redo,
            Action::RotateClockwise,
            Action::RotateCounterclockwise,
            Action::FlipHorizontal,
            Action::FlipVertical,
            Action::Measure,
            Action::Highlight,
            Action::Arrow,
            Action::Text,
            Action::ScalePreview,
            Action::ConfirmScale,
            Action::CancelScale,
            Action::ScaleActualSize,
            Action::ScaleFit,
            Action::CropContent,
            Action::Scale,
            Action::Palette,
            Action::Pencil,
            Action::PickColor,
            Action::Tool,
            Action::CancelTool,
            Action::Properties,
            Action::Preferences,
            Action::Shortcuts,
            Action::About,
            Action::Compare,
            Action::Lens,
            Action::Select,
            Action::SelectionZoom,
            Action::SelectionCrop,
            Action::SelectionCopy,
        ]
    }
}

/// Every action is in the list of all, and at one place only.
pub proof fn positions_are_distinct(left: Action, right: Action)
    requires
        left.position() == right.position(),
    ensures
        left == right,
        0 <= left.position() < 64,
{
}

impl WindowView {
    /// Whether the window has a picture.
    pub open spec fn has_image(self) -> bool {
        self.session.content.texture is Some
    }

    /// Whether an action can be used now. Those that no state of the image
    /// bears on always can.
    pub open spec fn action_enabled(self, action: Action) -> bool {
        let content = self.session.content;
        match action {
            Action::CopyImage
            | Action::ZoomIn
            | Action::ZoomOut
            | Action::ActualSize
            | Action::ZoomTo(_)
            | Action::Fit
            | Action::Fill
            | Action::ToggleFilter
            | Action::Compare
            | Action::Lens
            | Action::Properties => self.has_image(),
            Action::OpenWith | Action::DeleteFile => self.has_image() && self.files.current is Some,
            Action::Previous | Action::Next => self.has_image() && content.has_neighbors,
            Action::SaveAs
            | Action::RotateClockwise
            | Action::RotateCounterclockwise
            | Action::FlipHorizontal
            | Action::FlipVertical
            | Action::ScalePreview
            | Action::CropContent
            | Action::Scale
            | Action::Palette
            | Action::Pencil
            | Action::PickColor
            | Action::Select
            | Action::Tool => self.session.editable(),
            Action::SelectionZoom | Action::SelectionCrop | Action::SelectionCopy => {
                self.session.editable() && self.session.region.selection is Some
            },
            Action::Measure | Action::Highlight | Action::Arrow | Action::Text => {
                self.session.editable() && !self.session.comparison.active
            },
            Action::Save => content.has_document && content.dirty,
            Action::Undo => content.has_document && content.can_undo,
            Action::Redo => content.has_document && content.can_redo,
            Action::PlayPause | Action::PreviousFrame | Action::NextFrame => {
                self.session.animation.frames > 1
            },
            Action::Open
            | Action::Close
            | Action::Fullscreen
            | Action::CancelExport
            | Action::ConfirmScale
            | Action::CancelScale
            | Action::ScaleActualSize
            | Action::ScaleFit
            | Action::CancelTool
            | Action::Preferences
            | Action::Shortcuts
            | Action::About => true,
        }
    }

    /// The window with its picture fitted into it. While it is scaled, that
    /// holds for the scaled picture alone.
    #[verifier::opaque]
    pub open spec fn fit_requested(self) -> WindowView {
        if self.session.tools.tool == Tool::Scale {
            self.set_scale_view(ScalePreviewView::Fit).fit(false)
        } else {
            self.set_fit_mode(false)
        }
    }

    /// The window with another way of drawing magnified pixels.
    #[verifier::opaque]
    pub open spec fn toggle_filter(self) -> WindowView {
        self.set_filter(
            match self.session.zooming.filter {
                ZoomFilter::Soft => ZoomFilter::Hard,
                ZoomFilter::Hard => ZoomFilter::Soft,
            },
        )
    }

    /// The window with its scaling given up, where it is being scaled.
    #[verifier::opaque]
    pub open spec fn cancel_scale(self) -> WindowView {
        if self.session.tools.tool == Tool::Scale {
            self.set_tool(Tool::Idle)
        } else {
            self
        }
    }

    /// The window with its scaled picture at its own size.
    #[verifier::opaque]
    pub open spec fn scale_actual_size(self) -> WindowView {
        if self.session.tools.tool == Tool::Scale {
            self.set_scale_view(ScalePreviewView::ActualSize).set_zoom(
                ZoomTarget::Percent(100),
                Some(ZoomAlignment::Nearest),
            )
        } else {
            self
        }
    }

    /// The window with its scaled picture fitted into it.
    #[verifier::opaque]
    pub open spec fn scale_fit(self) -> WindowView {
        if self.session.tools.tool == Tool::Scale {
            self.set_scale_view(ScalePreviewView::Fit).fit(false)
        } else {
            self
        }
    }

    /// The window after a request to hand its file to another application.
    pub open spec fn open_with(self) -> WindowView {
        self.emit(
            if self.files.current is Some {
                Effect::OpenWith
            } else {
                Effect::Notify(Notice::OpenImageFirst)
            },
        )
    }

    /// The window after an action that changes its zoom.
    #[verifier::opaque]
    pub open spec fn zooming_action(self, action: Action) -> WindowView {
        match action {
            Action::ZoomIn => self.step_zoom(true),
            Action::ZoomOut => self.step_zoom(false),
            Action::ActualSize => self.set_zoom_centered(ZoomTarget::Percent(100)),
            Action::ZoomTo(preset) => self.set_zoom_centered(
                ZoomTarget::Percent(preset.spec_percent()),
            ),
            Action::Fit => self.fit_requested(),
            Action::Fill => self.set_fit_mode(true),
            Action::ToggleFilter => self.toggle_filter(),
            Action::ScaleActualSize => self.scale_actual_size(),
            Action::ScaleFit => self.scale_fit(),
            _ => self,
        }
    }

    /// The window after an action that looks at its image.
    #[verifier::opaque]
    pub open spec fn viewing_action(self, action: Action) -> WindowView {
        match action {
            Action::Fullscreen => self.emit(Effect::ToggleFullscreen),
            Action::PlayPause => self.toggle_animation(),
            Action::PreviousFrame => self.step_animation(false),
            Action::NextFrame => self.step_animation(true),
            Action::Compare => self.choose_comparison(),
            Action::Lens => self.emit(Effect::ToggleLensButton),
            Action::SelectionZoom => self.zoom_selected_region(),
            _ => self,
        }
    }

    /// The window after an action that changes its image.
    #[verifier::opaque]
    pub open spec fn editing_action(self, action: Action) -> WindowView {
        match action {
            Action::Undo => self.step_history(false),
            Action::Redo => self.step_history(true),
            Action::RotateClockwise => self.apply(Operation::RotateClockwise),
            Action::RotateCounterclockwise => self.apply(Operation::RotateCounterclockwise),
            Action::FlipHorizontal => self.apply(Operation::FlipHorizontal),
            Action::FlipVertical => self.apply(Operation::FlipVertical),
            Action::ConfirmScale => self.confirm_scale_preview(),
            Action::CropContent => self.crop_to_content(),
            Action::Palette => self.show_palette_dialog(),
            Action::SelectionCrop => self.crop_selected_region(),
            _ => self,
        }
    }

    /// The window after an action that takes a tool up or puts it away.
    #[verifier::opaque]
    pub open spec fn tool_action(self, action: Action) -> WindowView {
        match action {
            Action::Measure => self.toggle_tool(Tool::Measure),
            Action::Highlight => self.toggle_tool(Tool::Highlight),
            Action::Arrow => self.toggle_tool(Tool::Arrow),
            Action::Text => self.toggle_tool(Tool::Text),
            Action::ScalePreview => self.toggle_tool(Tool::Scale),
            Action::CancelScale => self.cancel_scale(),
            Action::Scale => self.set_tool(Tool::Scale),
            Action::Pencil => self.toggle_tool(Tool::Pencil),
            Action::PickColor => self.toggle_tool(Tool::PickColor),
            Action::Tool => self,
            Action::CancelTool => self.cancel_tool(),
            Action::Select => self.toggle_tool(Tool::Select),
            _ => self,
        }
    }

    /// The window after an action that is about its file, or about the window itself.
    #[verifier::opaque]
    pub open spec fn file_action(self, action: Action) -> WindowView {
        match action {
            Action::Open => self.emit(Effect::ChooseFile),
            Action::OpenWith => self.open_with(),
            Action::Close => self.emit(Effect::CloseWindow),
            Action::CopyImage => self.copy_selection_or_image(),
            Action::Previous => self.navigate(false),
            Action::Next => self.navigate(true),
            Action::DeleteFile => self.confirm_delete_current_file(),
            Action::Save => self.emit(Effect::RequestSave { force_dialog: false }),
            Action::SaveAs => self.emit(Effect::RequestSave { force_dialog: true }),
            Action::CancelExport => self.cancel_export(),
            Action::Properties => self.emit_if(self.has_image(), Effect::ShowProperties),
            Action::Preferences => self.emit(Effect::ShowPreferences),
            Action::Shortcuts => self.emit(Effect::ShowShortcuts),
            Action::About => self.emit(Effect::ShowAbout),
            Action::SelectionCopy => self.copy_selected_region(),
            _ => self,
        }
    }

    /// What an action makes of the window.
    pub open spec fn activate(self, action: Action) -> WindowView {
        match action {
            Action::ZoomIn
            | Action::ZoomOut
            | Action::ActualSize
            | Action::ZoomTo(_)
            | Action::Fit
            | Action::Fill
            | Action::ToggleFilter
            | Action::ScaleActualSize
            | Action::ScaleFit => self.zooming_action(action),
            Action::Fullscreen
            | Action::PlayPause
            | Action::PreviousFrame
            | Action::NextFrame
            | Action::Compare
            | Action::Lens
            | Action::SelectionZoom => self.viewing_action(action),
            Action::Undo
            | Action::Redo
            | Action::RotateClockwise
            | Action::RotateCounterclockwise
            | Action::FlipHorizontal
            | Action::FlipVertical
            | Action::CropContent
            | Action::Palette
            | Action::SelectionCrop
            | Action::ConfirmScale => self.editing_action(action),
            Action::Measure
            | Action::Highlight
            | Action::Arrow
            | Action::Text
            | Action::ScalePreview
            | Action::CancelScale
            | Action::Scale
            | Action::Pencil
            | Action::PickColor
            | Action::Tool
            | Action::CancelTool
            | Action::Select => self.tool_action(action),
            _ => self.file_action(action),
        }
    }
}

impl ViewerWindow {
    /// Whether an action can be used now.
    pub fn action_enabled(&self, action: Action) -> (enabled: bool)
        ensures
            enabled == self@.action_enabled(action),
    {
        let content = self.session.content;
        let has_image = content.texture.is_some();
        match action {
            Action::CopyImage
            | Action::ZoomIn
            | Action::ZoomOut
            | Action::ActualSize
            | Action::ZoomTo(_)
            | Action::Fit
            | Action::Fill
            | Action::ToggleFilter
            | Action::Compare
            | Action::Lens
            | Action::Properties => has_image,
            Action::OpenWith | Action::DeleteFile => has_image && self.files.current.is_some(),
            Action::Previous | Action::Next => has_image && content.has_neighbors,
            Action::SaveAs
            | Action::RotateClockwise
            | Action::RotateCounterclockwise
            | Action::FlipHorizontal
            | Action::FlipVertical
            | Action::ScalePreview
            | Action::CropContent
            | Action::Scale
            | Action::Palette
            | Action::Pencil
            | Action::PickColor
            | Action::Select
            | Action::Tool => self.editable(),
            Action::SelectionZoom | Action::SelectionCrop | Action::SelectionCopy => {
                self.editable() && self.session.region.selection.is_some()
            },
            Action::Measure | Action::Highlight | Action::Arrow | Action::Text => {
                self.editable() && !self.session.comparison.active
            },
            Action::Save => content.has_document && content.dirty,
            Action::Undo => content.has_document && content.can_undo,
            Action::Redo => content.has_document && content.can_redo,
            Action::PlayPause | Action::PreviousFrame | Action::NextFrame => {
                self.session.animation.frames > 1
            },
            Action::Open
            | Action::Close
            | Action::Fullscreen
            | Action::CancelExport
            | Action::ConfirmScale
            | Action::CancelScale
            | Action::ScaleActualSize
            | Action::ScaleFit
            | Action::CancelTool
            | Action::Preferences
            | Action::Shortcuts
            | Action::About => true,
        }
    }

    fn fit_requested(&mut self)
        ensures
            final(self)@ == old(self)@.fit_requested(),
    {
        proof {
            reveal(WindowView::fit_requested);
        }
        if matches!(self.session.tools.tool, Tool::Scale) {
            self.set_scale_view(ScalePreviewView::Fit);
            self.fit(false);
        } else {
            self.set_fit_mode(false);
        }
    }

    fn toggle_filter(&mut self)
        ensures
            final(self)@ == old(self)@.toggle_filter(),
    {
        proof {
            reveal(WindowView::toggle_filter);
        }
        let filter = match self.session.zooming.filter {
            ZoomFilter::Soft => ZoomFilter::Hard,
            ZoomFilter::Hard => ZoomFilter::Soft,
        };
        self.set_filter(filter);
    }

    fn cancel_scale(&mut self)
        ensures
            final(self)@ == old(self)@.cancel_scale(),
    {
        proof {
            reveal(WindowView::cancel_scale);
        }
        if matches!(self.session.tools.tool, Tool::Scale) {
            self.set_tool(Tool::Idle);
        }
    }

    fn scale_actual_size(&mut self)
        ensures
            final(self)@ == old(self)@.scale_actual_size(),
    {
        proof {
            reveal(WindowView::scale_actual_size);
        }
        if matches!(self.session.tools.tool, Tool::Scale) {
            self.set_scale_view(ScalePreviewView::ActualSize);
            self.set_zoom(ZoomTarget::Percent(100), Some(ZoomAlignment::Nearest));
        }
    }

    fn scale_fit(&mut self)
        ensures
            final(self)@ == old(self)@.scale_fit(),
    {
        proof {
            reveal(WindowView::scale_fit);
        }
        if matches!(self.session.tools.tool, Tool::Scale) {
            self.set_scale_view(ScalePreviewView::Fit);
            self.fit(false);
        }
    }

    /// Hands the file to another application.
    pub fn open_with(&mut self)
        ensures
            final(self)@ == old(self)@.open_with(),
    {
        self.emit(
            if self.files.current.is_some() {
                Effect::OpenWith
            } else {
                Effect::Notify(Notice::OpenImageFirst)
            },
        );
    }

    fn zooming_action(&mut self, action: Action)
        ensures
            final(self)@ == old(self)@.zooming_action(action),
    {
        proof {
            reveal(WindowView::zooming_action);
        }
        match action {
            Action::ZoomIn => self.step_zoom(true),
            Action::ZoomOut => self.step_zoom(false),
            Action::ActualSize => self.set_zoom_centered(ZoomTarget::Percent(100)),
            Action::ZoomTo(preset) => self.set_zoom_centered(
                ZoomTarget::Percent(preset.percent()),
            ),
            Action::Fit => self.fit_requested(),
            Action::Fill => self.set_fit_mode(true),
            Action::ToggleFilter => self.toggle_filter(),
            Action::ScaleActualSize => self.scale_actual_size(),
            Action::ScaleFit => self.scale_fit(),
            _ => {},
        }
    }

    fn viewing_action(&mut self, action: Action)
        requires
            old(self)@.session.animation.well_formed(),
        ensures
            final(self)@ == old(self)@.viewing_action(action),
    {
        proof {
            reveal(WindowView::viewing_action);
        }
        match action {
            Action::Fullscreen => self.emit(Effect::ToggleFullscreen),
            Action::PlayPause => self.toggle_animation(),
            Action::PreviousFrame => self.step_animation(false),
            Action::NextFrame => self.step_animation(true),
            Action::Compare => self.choose_comparison(),
            Action::Lens => self.emit(Effect::ToggleLensButton),
            Action::SelectionZoom => {
                let _ = self.zoom_selected_region();
            },
            _ => {},
        }
    }

    fn editing_action(&mut self, action: Action)
        ensures
            final(self)@ == old(self)@.editing_action(action),
    {
        proof {
            reveal(WindowView::editing_action);
        }
        match action {
            Action::Undo => self.step_history(false),
            Action::Redo => self.step_history(true),
            Action::RotateClockwise => self.apply(Operation::RotateClockwise),
            Action::RotateCounterclockwise => self.apply(Operation::RotateCounterclockwise),
            Action::FlipHorizontal => self.apply(Operation::FlipHorizontal),
            Action::FlipVertical => self.apply(Operation::FlipVertical),
            Action::ConfirmScale => self.confirm_scale_preview(),
            Action::CropContent => self.crop_to_content(),
            Action::Palette => self.show_palette_dialog(),
            Action::SelectionCrop => self.crop_selected_region(),
            _ => {},
        }
    }

    fn tool_action(&mut self, action: Action)
        ensures
            final(self)@ == old(self)@.tool_action(action),
    {
        proof {
            reveal(WindowView::tool_action);
        }
        match action {
            Action::Measure => self.toggle_tool(Tool::Measure),
            Action::Highlight => self.toggle_tool(Tool::Highlight),
            Action::Arrow => self.toggle_tool(Tool::Arrow),
            Action::Text => self.toggle_tool(Tool::Text),
            Action::ScalePreview => self.toggle_tool(Tool::Scale),
            Action::CancelScale => self.cancel_scale(),
            Action::Scale => self.set_tool(Tool::Scale),
            Action::Pencil => self.toggle_tool(Tool::Pencil),
            Action::PickColor => self.toggle_tool(Tool::PickColor),
            Action::Tool => {},
            Action::CancelTool => self.cancel_tool(),
            Action::Select => self.toggle_tool(Tool::Select),
            _ => {},
        }
    }

    fn file_action(&mut self, action: Action)
        ensures
            final(self)@ == old(self)@.file_action(action),
    {
        proof {
            reveal(WindowView::file_action);
        }
        match action {
            Action::Open => self.emit(Effect::ChooseFile),
            Action::OpenWith => self.open_with(),
            Action::Close => self.emit(Effect::CloseWindow),
            Action::CopyImage => self.copy_selection_or_image(),
            Action::Previous => self.navigate(false),
            Action::Next => self.navigate(true),
            Action::DeleteFile => self.confirm_delete_current_file(),
            Action::Save => self.emit(Effect::RequestSave { force_dialog: false }),
            Action::SaveAs => self.emit(Effect::RequestSave { force_dialog: true }),
            Action::CancelExport => self.cancel_export(),
            Action::Properties => {
                if self.session.content.texture.is_some() {
                    self.emit(Effect::ShowProperties);
                }
            },
            Action::Preferences => self.emit(Effect::ShowPreferences),
            Action::Shortcuts => self.emit(Effect::ShowShortcuts),
            Action::About => self.emit(Effect::ShowAbout),
            Action::SelectionCopy => self.copy_selected_region(),
            _ => {},
        }
    }

    /// Does what an action stands for.
    pub fn activate(&mut self, action: Action)
        requires
            old(self)@.session.animation.well_formed(),
        ensures
            final(self)@ == old(self)@.activate(action),
    {
        match action {
            Action::ZoomIn
            | Action::ZoomOut
            | Action::ActualSize
            | Action::ZoomTo(_)
            | Action::Fit
            | Action::Fill
            | Action::ToggleFilter
            | Action::ScaleActualSize
            | Action::ScaleFit => self.zooming_action(action),
            Action::Fullscreen
            | Action::PlayPause
            | Action::PreviousFrame
            | Action::NextFrame
            | Action::Compare
            | Action::Lens
            | Action::SelectionZoom => self.viewing_action(action),
            Action::Undo
            | Action::Redo
            | Action::RotateClockwise
            | Action::RotateCounterclockwise
            | Action::FlipHorizontal
            | Action::FlipVertical
            | Action::CropContent
            | Action::Palette
            | Action::SelectionCrop
            | Action::ConfirmScale => self.editing_action(action),
            Action::Measure
            | Action::Highlight
            | Action::Arrow
            | Action::Text
            | Action::ScalePreview
            | Action::CancelScale
            | Action::Scale
            | Action::Pencil
            | Action::PickColor
            | Action::Tool
            | Action::CancelTool
            | Action::Select => self.tool_action(action),
            _ => self.file_action(action),
        }
    }

    /// Takes a tool up by its name. Other names mean nothing.
    pub fn tool_requested(&mut self, name: &str)
        ensures
            forall|tool: Tool| name@ == #[trigger] tool.spec_name() ==> final(self)@ == old(
                self,
            )@.set_tool(tool),
            (forall|tool: Tool| name@ != #[trigger] tool.spec_name()) ==> final(self)@ == old(
                self,
            )@,
    {
        if let Some(tool) = Tool::from_name(name) {
            assert(name@ == tool.spec_name());
            self.set_tool(tool);
        }
    }
}

/// What cannot be edited offers no action that edits it, and without a picture
/// there is none to view it.
pub proof fn nothing_to_edit_offers_no_edit(window: WindowView, action: Action)
    requires
        !window.session.content.has_document,
        window.action_enabled(action),
    ensures
        !(action is Save || action is SaveAs || action is Undo || action is Redo
            || action is RotateClockwise || action is RotateCounterclockwise
            || action is FlipHorizontal || action is FlipVertical || action is Scale
            || action is ScalePreview || action is CropContent || action is Palette
            || action is Pencil || action is Measure || action is Highlight || action is Arrow
            || action is Text || action is Tool || action is SelectionCrop),
        window.session.content.texture is None ==> !(action is ZoomIn || action is ZoomOut
            || action is ZoomTo || action is Fit || action is Fill || action is Compare
            || action is Lens || action is CopyImage || action is Previous || action is Next
            || action is DeleteFile),
{
}

/// An image with nothing unsaved has nothing to save; one with an edit has.
pub proof fn saving_is_offered_for_unsaved_edits(window: WindowView)
    ensures
        window.action_enabled(Action::Save) == window.session.unsaved(),
{
}

} // verus!
