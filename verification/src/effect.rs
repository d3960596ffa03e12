//! What the window asks of its surroundings.

use crate::keys::PencilDragMode;
use crate::print::PrintSource;
use crate::region::CropOverlay;
use crate::scale::ScaleMethod;
use crate::tool::Tool;
use crate::window::{PendingDiscard, ZoomFilter, ZoomMode};
use vstd::prelude::*;

verus! {

/// The name of an annotation in its document.
#[derive(Debug, Clone, Copy, PartialEq, Eq, Structural)]
pub struct AnnotationId(pub u64);

/// What an annotation is.
#[derive(Debug, Clone, Copy, PartialEq, Eq, Structural)]
pub enum AnnotationKind {
    PencilDrawing,
    PencilLine,
    PencilRectangle,
    PencilEllipse,
    Highlight,
    Arrow,
    Measurement,
    Text,
}

/// One of the two pictures that a comparison shows side by side.
#[derive(Debug, Clone, Copy, PartialEq, Eq, Structural)]
pub enum CanvasSide {
    Primary,
    Comparison,
}

/// The direction of a measurement.
#[derive(Debug, Clone, Copy, PartialEq, Eq, Structural)]
pub enum Axis {
    Horizontal,
    Vertical,
}

/// An annotation that was placed by keyboard. Coordinates count half pixels,
/// so that the centre of a pixel is a whole number.
#[derive(Debug, Clone, Copy, PartialEq, Eq, Structural)]
pub enum Draft {
    /// A dot at the centre of a pixel.
    Dot { x: i64, y: i64 },
    /// A rectangle around the aimed pixel.
    Highlight { x: i64, y: i64, width: i64, height: i64, seed: u64 },
    /// A horizontal arrow through the aimed pixel, straight: the point that
    /// bends it lies halfway.
    Arrow { start_x: i64, control_x: i64, end_x: i64, y: i64 },
    /// A line between two corners of the pixel grid.
    Measurement { axis: Axis, from: i64, to: i64, at: i64 },
}

/// A change of the document. An annotation that is created or replaced is the
/// one that was prepared last.
#[derive(Debug, Clone, Copy, PartialEq, Eq, Structural)]
pub enum Operation {
    RotateClockwise,
    RotateCounterclockwise,
    FlipHorizontal,
    FlipVertical,
    Crop { x: u32, y: u32, width: u32, height: u32 },
    Scale { width: u32, height: u32, method: ScaleMethod },
    ResizeCanvas { width: u32, height: u32 },
    /// With no colour protected.
    Palette { colors: u16, dithering: bool, preserve_accents: bool },
    CreateAnnotation(AnnotationId),
    SetAnnotation(AnnotationId),
    DeleteAnnotation(AnnotationId),
    /// The image that was deformed under this number in place of the image, with
    /// the flattened annotations of the window a part of it.
    SelectionEdit { generation: u64 },
}

/// A short message to the user.
#[derive(Debug, Clone, Copy, PartialEq, Eq, Structural)]
pub enum Notice {
    OpenEditableFirst,
    OpenImageFirst,
    /// What the last failed work reported.
    Failure,
    ProcessingWorkerFailed,
    PreparingScale,
    ScaleWorkerFailed,
    SeamCarvingShrinksOnly,
    ScalingUp,
    ToolCancelled,
    OpenFirstImage,
    OpenImageForLens,
    ComparisonGone,
    UnreadableForEditing,
    EditingWorkerFailed,
    RemovedFromOpened,
    FolderRefreshed,
    WaitForExport,
    WaitForRendering,
    MeshPreviewFailed,
    DeletionRunning,
    NoImage,
    ImageDeleted,
    LocationUpdated,
    PreviousGone,
    SourceGoneUnsaved,
    CurrentGone,
    SourceChangedUnsaved,
    Reloaded,
    ChangedExternally,
    UnsupportedName,
    NoAtomicExport,
    Exporting,
    ImageSaved,
    NewerEditsUnsaved,
    ExportWorkerFailed,
    UncertainBackground,
    DetectionWorkerFailed,
    SelectionNotCopied,
    PrintFailed,
    SquareTooLarge,
    /// With what the other application reported.
    OpenWithFailed,
    /// With what the deletion reported.
    DeletionFailed,
    /// With what the load reported.
    ReloadFailed,
}

impl Notice {
    /// The message in words.
    pub open spec fn spec_text(self) -> Seq<char> {
        match self {
            Notice::OpenEditableFirst => "Open an editable image first"@,
            Notice::OpenImageFirst => "Open an image first"@,
            Notice::Failure => ""@,
            Notice::ProcessingWorkerFailed => "Image processing worker failed"@,
            Notice::PreparingScale => "Preparing image for scaling…"@,
            Notice::ScaleWorkerFailed => "Scale preview worker failed"@,
            Notice::SeamCarvingShrinksOnly => "Seam carving currently supports shrinking only"@,
            Notice::ScalingUp => "Scaling up may reduce perceived image quality"@,
            Notice::ToolCancelled => "Active tool cancelled"@,
            Notice::OpenFirstImage => "Open the first image before comparing"@,
            Notice::OpenImageForLens => "Open an image before using the lens"@,
            Notice::ComparisonGone => "The comparison image was moved or deleted"@,
            Notice::UnreadableForEditing => "This image can be viewed but could not be read for editing"@,
            Notice::EditingWorkerFailed => "Could not prepare image for editing"@,
            Notice::RemovedFromOpened => "That image was moved or deleted; it was removed from the opened files"@,
            Notice::FolderRefreshed => "That image was moved or deleted; the folder was refreshed"@,
            Notice::WaitForExport => "Wait for the current export to finish"@,
            Notice::WaitForRendering => "Wait for the image to finish rendering"@,
            Notice::MeshPreviewFailed => "Could not preview the mesh deformation"@,
            Notice::DeletionRunning => "Image deletion is already in progress"@,
            Notice::NoImage => "No image is open"@,
            Notice::ImageDeleted => "Image deleted"@,
            Notice::LocationUpdated => "Image location updated after an external move"@,
            Notice::PreviousGone => "The previous image was moved or deleted"@,
            Notice::SourceGoneUnsaved => "The source file was moved or deleted; unsaved edits are still available via Save As"@,
            Notice::CurrentGone => "The current file was moved or deleted"@,
            Notice::SourceChangedUnsaved => "The source file changed externally; unsaved edits were kept and Save As is required"@,
            Notice::Reloaded => "Image reloaded after an external update"@,
            Notice::ChangedExternally => "The file changed externally; use Save As to avoid overwriting it"@,
            Notice::UnsupportedName => "Choose a file name ending in .png, .jpg, or .jpeg"@,
            Notice::NoAtomicExport => "This location does not support atomic export"@,
            Notice::Exporting => "Exporting image…"@,
            Notice::ImageSaved => "Image saved"@,
            Notice::NewerEditsUnsaved => "Image exported; newer edits remain unsaved"@,
            Notice::ExportWorkerFailed => "Export worker failed"@,
            Notice::UncertainBackground => "The background could not be identified with enough confidence"@,
            Notice::DetectionWorkerFailed => "Content detection worker failed"@,
            Notice::SelectionNotCopied => "Could not copy the selected image area"@,
            Notice::PrintFailed => "Could not print image"@,
            Notice::SquareTooLarge => "The square canvas would be too large"@,
            Notice::OpenWithFailed => "Could not open image with another app: {error}"@,
            Notice::DeletionFailed => "Could not delete image: {error}"@,
            Notice::ReloadFailed => "Could not reload the updated image: {error}"@,
        }
    }

    /// The message in words.
    pub fn text(self) -> (text: &'static str)
        ensures
            text@ == self.spec_text(),
    {
        match self {
            Notice::OpenEditableFirst => "Open an editable image first",
            Notice::OpenImageFirst => "Open an image first",
            Notice::Failure => "",
            Notice::ProcessingWorkerFailed => "Image processing worker failed",
            Notice::PreparingScale => "Preparing image for scaling…",
            Notice::ScaleWorkerFailed => "Scale preview worker failed",
            Notice::SeamCarvingShrinksOnly => "Seam carving currently supports shrinking only",
            Notice::ScalingUp => "Scaling up may reduce perceived image quality",
            Notice::ToolCancelled => "Active tool cancelled",
            Notice::OpenFirstImage => "Open the first image before comparing",
            Notice::OpenImageForLens => "Open an image before using the lens",
            Notice::ComparisonGone => "The comparison image was moved or deleted",
            Notice::UnreadableForEditing => "This image can be viewed but could not be read for editing",
            Notice::EditingWorkerFailed => "Could not prepare image for editing",
            Notice::RemovedFromOpened => "That image was moved or deleted; it was removed from the opened files",
            Notice::FolderRefreshed => "That image was moved or deleted; the folder was refreshed",
            Notice::WaitForExport => "Wait for the current export to finish",
            Notice::WaitForRendering => "Wait for the image to finish rendering",
            Notice::MeshPreviewFailed => "Could not preview the mesh deformation",
            Notice::DeletionRunning => "Image deletion is already in progress",
            Notice::NoImage => "No image is open",
            Notice::ImageDeleted => "Image deleted",
            Notice::LocationUpdated => "Image location updated after an external move",
            Notice::PreviousGone => "The previous image was moved or deleted",
            Notice::SourceGoneUnsaved => "The source file was moved or deleted; unsaved edits are still available via Save As",
            Notice::CurrentGone => "The current file was moved or deleted",
            Notice::SourceChangedUnsaved => "The source file changed externally; unsaved edits were kept and Save As is required",
            Notice::Reloaded => "Image reloaded after an external update",
            Notice::ChangedExternally => "The file changed externally; use Save As to avoid overwriting it",
            Notice::UnsupportedName => "Choose a file name ending in .png, .jpg, or .jpeg",
            Notice::NoAtomicExport => "This location does not support atomic export",
            Notice::Exporting => "Exporting image…",
            Notice::ImageSaved => "Image saved",
            Notice::NewerEditsUnsaved => "Image exported; newer edits remain unsaved",
            Notice::ExportWorkerFailed => "Export worker failed",
            Notice::UncertainBackground => "The background could not be identified with enough confidence",
            Notice::DetectionWorkerFailed => "Content detection worker failed",
            Notice::SelectionNotCopied => "Could not copy the selected image area",
            Notice::PrintFailed => "Could not print image",
            Notice::SquareTooLarge => "The square canvas would be too large",
            Notice::OpenWithFailed => "Could not open image with another app: {error}",
            Notice::DeletionFailed => "Could not delete image: {error}",
            Notice::ReloadFailed => "Could not reload the updated image: {error}",
        }
    }
}

/// What a screen reader is told.
#[derive(Debug, Clone, Copy, PartialEq, Eq, Structural)]
pub enum Announcement {
    /// How the arrow keys aim.
    KeyboardHelp,
    /// The aimed pixel, counted from one.
    Cursor { column: u64, row: u64 },
    /// The first of two points is set.
    StartPointSet,
    /// A region was marked.
    RegionSelected { width: u32, height: u32 },
    /// An annotation was selected.
    AnnotationSelected(AnnotationKind),
}

/// The shape of the pointer.
#[derive(Debug, Clone, Copy, PartialEq, Eq, Structural)]
pub enum Cursor {
    Default,
    Crosshair,
    Hidden,
}

/// The range and meaning of the size control.
#[derive(Debug, Clone, Copy, PartialEq, Eq, Structural)]
pub enum SizeControl {
    /// The text size of the settings, from 6 to 512.
    TextSize,
    /// The width that suits the image; it cannot be changed.
    HighlightWidth,
    /// The stroke width of the settings, from 1 to 128.
    StrokeWidth,
    /// One pixel; it cannot be changed.
    MeasurementWidth,
    /// The width of the settings, from 1 to 128.
    Width,
}

/// What the list of images to navigate is for.
#[derive(Debug, Clone, Copy, PartialEq, Eq, Structural)]
pub enum SequencePurpose {
    /// To be known, and to watch the folder anew or not.
    Refresh { restart_monitor: bool },
    /// To go on to the next image.
    Navigate { forward: bool },
}

/// Where a text is typed.
#[derive(Debug, Clone, Copy, PartialEq, Eq)]
pub enum EditorPlace {
    /// At the centre of a pixel, upright.
    Pixel((u32, u32)),
    /// Where a drag has placed it.
    Drag,
    /// In place of the text that is there.
    Existing,
}

/// A zoom that only the surroundings can put into a number.
#[derive(Debug, Clone, Copy, PartialEq, Eq)]
pub enum ZoomTarget {
    /// The zoom that is in place.
    Current,
    /// One step in or out.
    Step { zoom_in: bool, hard: bool },
    /// A percentage of the size in pixels.
    Percent(u32),
    /// The zoom at which the picture fits into a viewport, or fills it.
    Viewport { fill: bool, viewport: (i32, i32) },
    /// The zoom that was measured for the selected region.
    Region,
    /// The zoom at which the primary picture fits into its panel.
    Panel,
    /// The zoom that a gesture has reached.
    Gesture,
}

/// How a zoom is brought onto the grid of the screen's pixels.
#[derive(Debug, Clone, Copy, PartialEq, Eq, Structural)]
pub enum ZoomAlignment {
    Nearest,
    Contain,
    Cover,
}

/// Something that the surroundings of the window do for it.
#[derive(Debug, Clone, Copy, PartialEq, Eq)]
pub enum Effect {
    Notify(Notice),
    Announce(Announcement),
    UpdateActionStates,
    /// Show the title of the window, once it has one.
    UpdateTitle,
    /// Show the text under the title, once there is one.
    UpdateSubtitle,
    UpdateMinimap,
    FocusCanvas,
    /// Apply a change to the document.
    Apply(Operation),
    /// Build the annotation that the next change places.
    Prepare { id: AnnotationId, draft: Draft },
    /// Cancel a render that is running and start one under this number.
    StartRender(u64),
    /// Cancel a render that is running.
    CancelRender,
    /// Show the handles of this annotation, or none.
    ShowSelection(Option<AnnotationId>),
    /// Forget the preview of an annotation.
    DiscardAnnotationPreview,
    /// Take the text editor away, keeping its preview where it is committed.
    RemoveTextEditor { commit_preview: bool },
    ClearPencilOverlay(CanvasSide),
    /// Press the button of this tool and release the others.
    ShowToolButtons(Tool),
    SetCursor { side: CanvasSide, cursor: Cursor },
    /// Name the canvas after the active tool.
    SetCanvasLabel(Tool),
    SetSizeControl(SizeControl),
    ShowPalette(bool),
    /// The state of the action that selects tools.
    SetToolState(Tool),
    ShowMarker(Option<(u32, u32)>),
    ShowMeasurementCursor(Option<(u32, u32)>),
    ShowRegionControls(bool),
    ShowCropOverlay(Option<CropOverlay>),
    EnableSelectionActions(bool),
    /// Undo the last change, or redo the last undone one.
    StepHistory { redo: bool },
    /// Put the rendered pixels on the canvas.
    ShowRender,
    /// Forget the points of the stroke that was being drawn.
    ForgetPencilPoints,
    /// Keep the pixels, the zoom and the scroll position to scale from.
    KeepScaleSource,
    /// Put the kept pixels, zoom and scroll position back.
    RestoreScaleSource,
    /// Show the limits and the method of the scaling controls.
    ShowScaleLimits,
    /// Show the chosen size in the scaling controls.
    ShowScaleTarget,
    ShowScaleControls(bool),
    ShowZoomControls(bool),
    ShowScaleSpinner(bool),
    EnableScaleOriginal(bool),
    CancelScalePreview,
    /// Compute a preview of this size under this number.
    StartScalePreview { generation: u64, width: u32, height: u32, method: ScaleMethod },
    /// Put the kept pixels, or the preview, on the canvas.
    ShowScalePicture { original: bool },
    /// Zoom so that the preview takes as much of the window as the source.
    ZoomScaleFootprint { source_width: u32, target_width: u32 },
    /// Zoom the scaled picture to its own size.
    ZoomScaleActual,
    /// Zoom the source so that it covers the preview, and keep the zoom.
    ZoomScaleOriginal { source_width: u32, target_width: u32, fit: bool },
    /// Go back to the zoom that was kept.
    RestoreScaleZoom,
    /// Release the button of the scaling tool.
    ReleaseScaleButton,
    /// Say how large the viewport is, for the fit that waits for it.
    MeasureViewport,
    /// Try the fit again on the next frame.
    ScheduleFitTick,
    /// Fit the scaled picture into a viewport.
    FitScalePicture { viewport: (i32, i32), aligned: bool },
    /// Zoom the primary picture, and the comparison picture in step.
    Zoom { target: ZoomTarget, alignment: Option<ZoomAlignment>, within_fit: bool, both: bool },
    /// Scroll to the middle once the zoom is in place.
    CenterViewport,
    /// Remember how the zoom follows the window.
    SaveZoomMode(ZoomMode),
    /// Draw magnified pixels this way, and remember it.
    ShowFilter(ZoomFilter),
    /// Compute the zoom at which the region fills the viewport.
    MeasureRegionZoom(CropOverlay),
    /// Scroll to the region once the zoom is in place.
    CenterRegion { region: CropOverlay, generation: u64 },
    /// Say that the image can only be viewed, or no longer say it.
    ShowViewOnly(bool),
    SetDrawingColor([u8; 4]),
    /// Copy a colour in the notation of the settings.
    CopyColor([u8; 4]),
    /// Say which colour was sampled.
    ReportSample([u8; 4]),
    /// Read the colour of a pixel, for the colour picker.
    PickPixel { x: u32, y: u32 },
    /// Show the document without this annotation.
    ShowWithout(AnnotationId),
    /// Show the document as it is to be measured, without this annotation.
    ShowMeasurementBase(Option<AnnotationId>),
    /// Open the text editor.
    OpenTextEditor { id: AnnotationId, place: EditorPlace },
    /// Show the prepared annotation as it will be rendered.
    CommitAnnotationPreview,
    /// Start the samples of a stroke.
    BeginPencilSamples { pixel: (u32, u32), time: u32 },
    /// Add to the samples of a stroke.
    RecordPencilSample { pixel: (u32, u32), time: u32 },
    /// Compute the points of the stroke that is being drawn.
    ShapePencilStroke,
    ShowPencilOverlay(CanvasSide),
    /// Build the annotation of a finished stroke.
    PrepareStroke { id: AnnotationId, mode: PencilDragMode },
    /// Build the line with the end of the finished stroke added.
    ExtendLine(AnnotationId),
    PaintComparisonStroke,
    /// Copy the whole picture, and say so.
    CopyImage { width: u32, height: u32 },
    /// Copy a region of the picture, and say so.
    CopyRegion(CropOverlay),
    /// Forget the preview that waits for the next frame.
    ClearPreviewQueue,
    /// Build the annotation that was dragged.
    PrepareDragged(AnnotationId),
    /// Build the arrow without its bend.
    PrepareStraightened(AnnotationId),
    /// Build the annotation in another style.
    PrepareRestyled { id: AnnotationId, color: Option<[u8; 4]>, resize: bool },
    /// Build the text that was typed.
    PrepareText(AnnotationId),
    /// Build the annotation moved by some pixels, and have the document merge
    /// it into the change before where that was a nudge too.
    Nudge { id: AnnotationId, dx: i32, dy: i32, whole_pixels: bool, amend: bool },
    SaveTextSize,
    SaveLineWidth,
    ShowFrame(usize),
    /// Show whether the animation goes on.
    ShowPlaying(bool),
    ShowAnimationControls(bool),
    PlayAnimation { generation: u64 },
    /// Ask for the file to compare with.
    ChooseComparison,
    CancelComparisonLoad,
    /// Load the requested file under this number.
    StartComparisonLoad { generation: u64, primary: u64 },
    /// Show the loaded file beside the primary one.
    OpenComparison,
    /// Show the primary picture alone again.
    CloseComparison,
    /// Watch the file that is compared with.
    MonitorComparison,
    /// Look at the file that is compared with in a moment.
    ScheduleComparisonRefresh { generation: u64 },
    /// Lay the two panels out on the next frames.
    ScheduleComparisonLayout,
    SetDivider(i32),
    /// Compute the zooms at which the pictures fit into their panels.
    MeasurePanels,
    ClearLens(CanvasSide),
    /// Show what the lens of this side is over.
    ShowLens { side: CanvasSide, both: bool },
    ReleaseLensButton,
    /// Ask whether unsaved edits may be discarded.
    ConfirmDiscard(PendingDiscard),
    /// Drop the edits of the document.
    RestoreOriginal,
    CloseWindow,
    /// Cancel the load, the animation and the render that are running, and
    /// drop the document.
    DropImage,
    /// Take picture and previews off the canvas.
    ClearCanvas,
    /// Say in the place of picture and subtitle that the file is being loaded.
    ShowLoading,
    /// Remember the folder of the file, where it is one.
    RememberFolder,
    /// Find out when the file was modified.
    ReadSourceTime { generation: u64 },
    /// Load the file under this number.
    StartLoad { generation: u64 },
    /// Put the loaded picture on the canvas.
    ShowPreview,
    /// Decode the frames of the file.
    StartAnimation { generation: u64 },
    /// Decode the pixels of the file for editing.
    AwaitEditable { generation: u64 },
    /// Make a document of the decoded pixels.
    AdoptDocument,
    /// Say that the file could not be opened.
    ShowLoadError,
    /// Forget the images to navigate.
    DropSequence,
    /// List the images to navigate under this number, and go on then.
    BuildSequence { generation: u64, purpose: SequencePurpose },
    /// Load the images beside the current one ahead of time.
    PrefetchNeighbors,
    StopDirectoryMonitor,
    /// Watch the folder of the file.
    MonitorDirectory,
    /// Look for the image after, or before, the current one.
    FindNeighbor { forward: bool },
    /// Take the image that was found as the current one of those to navigate.
    AdvanceSequence,
    /// Take the image that has vanished out of those to navigate.
    RemoveNeighbor,
    /// Look for the file to compare the found image with.
    FindMatch { generation: u64 },
    /// Ask whether the file is to be deleted.
    ConfirmDeletion { unsaved: bool },
    /// Delete the file, after looking for the image to show then.
    DeleteFile { generation: u64, explicit: bool },
    /// Take the deleted file out of the images to navigate, and find the one
    /// that takes its place among them.
    RemoveDeleted,
    /// Look at the folder in a moment.
    ScheduleDirectoryRefresh { generation: u64 },
    /// Find out what is at the places of the files.
    InspectFiles,
    /// Look for the image to show in place of the one that is gone.
    FindReplacement { explicit: bool },
    /// Put the renamed file in place of the old one.
    ReplaceInSequence,
    SetDocumentPath,
    /// Say that the file is gone.
    ShowMissing,
    /// Load the file again under these numbers, without showing it yet.
    StartReload { generation: u64, load: u64 },
    /// Keep the reloaded picture for the load that follows.
    CacheReload,
    /// Cancel the export that is running.
    CancelExport,
    /// Render and write the document under this number.
    StartExport { generation: u64 },
    /// Take the exported edits as saved.
    MarkSaved,
    /// Find the bounds of what the image shows.
    DetectContent,
    /// Ask whether the image is to be cropped to its content.
    ConfirmCrop { x: u32, y: u32, width: u32, height: u32 },
    /// Ask for the size of the palette.
    ChoosePalette,
    /// Ask for the file to load.
    ChooseFile,
    /// Hand the file to another application.
    OpenWith,
    ToggleFullscreen,
    /// Look at the file on disk, and save the document.
    RequestSave { force_dialog: bool },
    ShowProperties,
    ShowPreferences,
    ShowShortcuts,
    ShowAbout,
    /// Press the button of the lens, or release it.
    ToggleLensButton,
    /// Render the document, or read the canvas, for the printer.
    PreparePrint { source: PrintSource, generation: u64 },
    /// Hand the pixels to the printer.
    RunPrint,
    /// Put the window on the screen.
    PresentWindow,
}

} // verus!
