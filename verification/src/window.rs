//! The state of a window and the queue of what it asks for.

use crate::effect::{AnnotationId, AnnotationKind, CanvasSide, Effect};
use crate::file_state::{
    place, FileLocation, LocationView, PendingDirectoryChanges, PendingView, Timestamp,
};
use crate::keys::PencilDragMode;
use crate::region::{CropOverlay, Edges, SelectionDrag};
use crate::scale::{ScaleMethod, ScaleUnit};
use crate::tool::Tool;
use vstd::prelude::*;

verus! {

/// What the window knows of the image that it shows.
#[derive(Debug, Clone, Copy, PartialEq, Eq)]
pub struct Content {
    /// The size of the picture on the canvas.
    pub texture: Option<(u32, u32)>,
    /// Whether the image can be edited.
    pub has_document: bool,
    /// The size of the edited pixels.
    pub rendered: Option<(u32, u32)>,
    pub dirty: bool,
    pub can_undo: bool,
    pub can_redo: bool,
    /// Whether there is another image to go to.
    pub has_neighbors: bool,
    /// What the selected annotation is, where the document holds it.
    pub selected_kind: Option<AnnotationKind>,
    /// Whether the pixels of the comparison image are at hand.
    pub comparison_rendered: bool,
}

/// The active tool, and the one that the colour picker returns to.
#[derive(Debug, Clone, Copy, PartialEq, Eq)]
pub struct Tools {
    pub tool: Tool,
    pub return_tool: Option<Tool>,
}

/// A part of an annotation that the pointer has hold of.
#[derive(Debug, Clone, Copy, PartialEq, Eq, Structural)]
pub enum HitKind {
    Body,
    /// An end or a corner.
    Handle,
    /// The point that bends an arrow.
    ControlHandle,
    Rotate,
}

/// What the pointer does to an annotation.
#[derive(Debug, Clone, Copy, PartialEq, Eq, Structural)]
pub enum AnnotationDrag {
    Create { tool: Tool, id: AnnotationId },
    Change { id: AnnotationId, kind: AnnotationKind, part: HitKind },
}

/// A text that is being typed.
#[derive(Debug, Clone, Copy, PartialEq, Eq, Structural)]
pub struct TextEditor {
    pub id: AnnotationId,
    /// Whether the text replaces an existing one.
    pub editing: bool,
}

/// The annotation that is selected, and what happens to it.
#[derive(Debug, Clone, Copy, PartialEq, Eq)]
pub struct Annotations {
    pub selected: Option<AnnotationId>,
    /// The annotation whose last change was a nudge, which the next nudge may
    /// be merged into.
    pub nudged: Option<AnnotationId>,
    pub drag: Option<AnnotationDrag>,
    pub editor: Option<TextEditor>,
}

/// Where the arrow keys have aimed the tool.
#[derive(Debug, Clone, Copy, PartialEq, Eq)]
pub struct KeyboardAim {
    pub cursor: Option<(u32, u32)>,
    pub anchor: Option<(u32, u32)>,
}

/// What the pointer does to the selected region.
#[derive(Debug, Clone, Copy, PartialEq, Eq)]
pub enum RegionDrag {
    Marking(SelectionDrag),
    Resizing { crop: CropOverlay, edges: Edges },
}

/// The selected region of the image.
#[derive(Debug, Clone, Copy, PartialEq, Eq)]
pub struct Region {
    pub selection: Option<CropOverlay>,
    pub drag: Option<RegionDrag>,
}

/// Where a straight pencil line starts.
#[derive(Debug, Clone, Copy, PartialEq, Eq)]
pub enum LineStart {
    /// Where the line that is being continued ends.
    ChainEnd,
    Pixel((u32, u32)),
}

/// A stroke of the pencil that is being drawn, in pixels.
#[derive(Debug, Clone, Copy, PartialEq, Eq)]
pub struct PencilDrag {
    pub side: CanvasSide,
    pub mode: PencilDragMode,
    pub origin: (u32, u32),
    pub line_start: LineStart,
    pub current: (u32, u32),
    /// How many pixels a freehand stroke has passed.
    pub samples: u64,
}

/// The pencil.
#[derive(Debug, Clone, Copy, PartialEq, Eq)]
pub struct Pencil {
    pub drag: Option<PencilDrag>,
    /// Where the last line ended, for the next one to start there.
    pub line_anchor: Option<(u32, u32)>,
    /// The line that the next segment continues.
    pub line_annotation: Option<AnnotationId>,
}

/// What part of the scaled picture the viewport shows.
#[derive(Debug, Clone, Copy, PartialEq, Eq, Structural)]
pub enum ScalePreviewView {
    /// As much of the window as the source took.
    Footprint,
    ActualSize,
    Fit,
}

/// The scaling controls.
#[derive(Debug, Clone, Copy, PartialEq, Eq)]
pub struct Scaling {
    pub method: ScaleMethod,
    pub unit: ScaleUnit,
    /// Whether the proportions are kept.
    pub locked: bool,
    /// The size of the pixels that are scaled.
    pub source: Option<(u32, u32)>,
    /// The size of the preview at hand.
    pub preview: Option<(u32, u32)>,
    /// The largest width and height on offer.
    pub limits: (u32, u32),
    /// The chosen width and height.
    pub target: (u32, u32),
    pub view: ScalePreviewView,
    pub showing_original: bool,
    pub committing: bool,
    /// Whether a preview is being computed.
    pub running: bool,
    /// Whether the tool waits for the image to become editable.
    pub pending_activation: bool,
}

/// How the zoom follows the window.
#[derive(Debug, Clone, Copy, PartialEq, Eq, Structural)]
pub enum ZoomMode {
    Fit,
    Fill,
    Manual,
}

/// How magnified pixels are drawn.
#[derive(Debug, Clone, Copy, PartialEq, Eq, Structural)]
pub enum ZoomFilter {
    Soft,
    Hard,
}

/// The zoom of the primary picture.
#[derive(Debug, Clone, Copy, PartialEq, Eq)]
pub struct Zooming {
    pub mode: ZoomMode,
    pub filter: ZoomFilter,
    /// A fit that waits for the window to have a size: filling it or not.
    pub pending_fit: Option<bool>,
    /// A fit that waits for the image that is being loaded.
    pub fit_on_load: Option<bool>,
    pub tick_scheduled: bool,
}

/// The comparison, and the lenses.
#[derive(Debug, Clone, Copy, PartialEq, Eq)]
pub struct Comparison {
    pub active: bool,
    /// Whether pan and zoom are kept in step.
    pub locked: bool,
    pub syncing: bool,
    /// The side that the pointer holds the lens over.
    pub lens_source: Option<CanvasSide>,
    /// Whether the lens over a single image is on.
    pub lens_active: bool,
}

/// The frames of an animated image.
#[derive(Debug, Clone, Copy, PartialEq, Eq, Structural)]
pub struct Animation {
    pub frames: usize,
    pub index: usize,
    pub paused: bool,
}

/// The numbers under which background work runs. Work whose number is no
/// longer the current one is out of date.
#[derive(Debug, Clone, Copy, PartialEq, Eq, Structural)]
pub struct Generations {
    pub load: u64,
    pub render: u64,
    pub navigation: u64,
    pub directory: u64,
    pub external_reload: u64,
    pub comparison: u64,
    pub export: u64,
    pub scale_preview: u64,
}

/// What runs or is due, and what has been decided.
#[derive(Debug, Clone, Copy, PartialEq, Eq, Structural)]
pub struct Flags {
    /// Whether the images to navigate were named by the user.
    pub explicit_navigation: bool,
    /// Whether the images to navigate are known.
    pub has_sequence: bool,
    pub decode_pending: bool,
    /// Whether the file on disk is no longer the one that was read.
    pub external_conflict: bool,
    pub subtitle_ready: bool,
    pub close_approved: bool,
    pub deletion_running: bool,
    pub export_running: bool,
    pub directory_scheduled: bool,
    pub comparison_scheduled: bool,
}

/// What the user was about to do when unsaved edits were in the way.
#[derive(Debug, Clone, Copy, PartialEq, Eq, Structural)]
pub enum PendingDiscard {
    Load { fit: bool },
    LoadFromNewScope,
    Navigate { forward: bool },
    Close,
}

/// The state of a window, but for the places of its files.
#[derive(Debug, Clone, Copy, PartialEq, Eq)]
pub struct Session {
    pub content: Content,
    pub tools: Tools,
    pub annotations: Annotations,
    pub aim: KeyboardAim,
    pub region: Region,
    pub pencil: Pencil,
    pub scaling: Scaling,
    pub zooming: Zooming,
    pub comparison: Comparison,
    pub animation: Animation,
    pub generations: Generations,
    pub flags: Flags,
    /// When the file was last modified, as far as the window knows.
    pub source_modified: Option<Timestamp>,
    pub pending_discard: Option<PendingDiscard>,
}

/// The places of the files that the window is about.
#[derive(Debug)]
pub struct Files {
    pub current: Option<FileLocation>,
    pub comparison: Option<FileLocation>,
    /// The file to compare with once the primary one is loaded.
    pub pending_comparison: Option<FileLocation>,
    /// The file to compare with once it is loaded itself.
    pub requested_comparison: Option<FileLocation>,
    pub comparison_renamed_to: Option<FileLocation>,
    /// The file to load once unsaved edits may be discarded.
    pub awaiting_discard: Option<FileLocation>,
    /// The file to go to, and the one it is matched against, while the file to
    /// compare with is being looked for.
    pub pending_navigation: Option<FileLocation>,
    pub matched_against: Option<FileLocation>,
    /// The image to navigate that was last found to be gone.
    pub vanished: Option<FileLocation>,
    /// The file whose deletion was confirmed.
    pub deleting: Option<FileLocation>,
    /// What was reported on the folder, and what of it is being looked into.
    pub pending_changes: PendingDirectoryChanges,
    pub settling_changes: PendingDirectoryChanges,
}

/// The places of the files as values.
pub ghost struct FilesView {
    pub current: Option<LocationView>,
    pub comparison: Option<LocationView>,
    pub pending_comparison: Option<LocationView>,
    pub requested_comparison: Option<LocationView>,
    pub comparison_renamed_to: Option<LocationView>,
    pub awaiting_discard: Option<LocationView>,
    pub pending_navigation: Option<LocationView>,
    pub matched_against: Option<LocationView>,
    pub vanished: Option<LocationView>,
    pub deleting: Option<LocationView>,
    pub pending_changes: PendingView,
    pub settling_changes: PendingView,
}

impl View for Files {
    type V = FilesView;

    open spec fn view(&self) -> FilesView {
        FilesView {
            current: place(self.current),
            comparison: place(self.comparison),
            pending_comparison: place(self.pending_comparison),
            requested_comparison: place(self.requested_comparison),
            comparison_renamed_to: place(self.comparison_renamed_to),
            awaiting_discard: place(self.awaiting_discard),
            pending_navigation: place(self.pending_navigation),
            matched_against: place(self.matched_against),
            vanished: place(self.vanished),
            deleting: place(self.deleting),
            pending_changes: self.pending_changes@,
            settling_changes: self.settling_changes@,
        }
    }
}

/// A viewer window: its state, its files, and what it asks of its
/// surroundings, in the order in which it has to be done.
#[derive(Debug)]
pub struct ViewerWindow {
    pub session: Session,
    pub files: Files,
    /// The annotations that the last image to be deformed showed.
    pub flattened_annotations: Vec<AnnotationId>,
    pub effects: Vec<Effect>,
}

/// A viewer window as a value.
pub ghost struct WindowView {
    pub session: Session,
    pub files: FilesView,
    pub flattened_annotations: Seq<AnnotationId>,
    pub effects: Seq<Effect>,
}

impl View for ViewerWindow {
    type V = WindowView;

    open spec fn view(&self) -> WindowView {
        WindowView {
            session: self.session,
            files: self.files@,
            flattened_annotations: self.flattened_annotations@,
            effects: self.effects@,
        }
    }
}

/// The next number of a kind of background work.
pub open spec fn next_generation(generation: u64) -> u64 {
    if generation == u64::MAX {
        0
    } else {
        (generation + 1) as u64
    }
}

/// The next number of a kind of background work.
pub fn following_generation(generation: u64) -> (following: u64)
    ensures
        following == next_generation(generation),
{
    if generation == u64::MAX {
        0
    } else {
        generation + 1
    }
}

/// Work that was started before the number moved on is out of date.
pub proof fn next_generation_differs(generation: u64)
    ensures
        next_generation(generation) != generation,
{
}

impl Session {
    /// Whether the pixels can be edited now.
    pub open spec fn editable(self) -> bool {
        self.content.has_document && self.content.rendered is Some
    }

    /// The document has edits that are not saved.
    pub open spec fn unsaved(self) -> bool {
        self.content.has_document && self.content.dirty
    }
}

impl WindowView {
    /// The window with one more thing asked for.
    pub open spec fn emit(self, effect: Effect) -> WindowView {
        WindowView { effects: self.effects.push(effect), ..self }
    }

    /// The window with other knowledge of its image.
    pub open spec fn observe(self, content: Content) -> WindowView {
        WindowView { session: Session { content, ..self.session }, ..self }
    }

    /// The window with one more thing asked for, under a condition.
    pub open spec fn emit_if(self, condition: bool, effect: Effect) -> WindowView {
        if condition {
            self.emit(effect)
        } else {
            self
        }
    }
}

impl ViewerWindow {
    /// Asks for something.
    pub fn emit(&mut self, effect: Effect)
        ensures
            final(self)@ == old(self)@.emit(effect),
    {
        self.effects.push(effect);
    }

    /// Tells the window what it shows now.
    pub fn observe(&mut self, content: Content)
        ensures
            final(self)@ == old(self)@.observe(content),
    {
        self.session.content = content;
    }

    /// Hands out what the window has asked for.
    pub fn take_effects(&mut self) -> (effects: Vec<Effect>)
        ensures
            effects@ == old(self)@.effects,
            final(self)@ == (WindowView { effects: seq![], ..old(self)@ }),
    {
        let mut effects: Vec<Effect> = Vec::new();
        std::mem::swap(&mut effects, &mut self.effects);
        effects
    }

    /// Whether the pixels can be edited now.
    pub fn editable(&self) -> (editable: bool)
        ensures
            editable == self@.session.editable(),
    {
        self.session.content.has_document && self.session.content.rendered.is_some()
    }

    /// Whether the document has edits that are not saved.
    pub fn unsaved(&self) -> (unsaved: bool)
        ensures
            unsaved == self@.session.unsaved(),
    {
        self.session.content.has_document && self.session.content.dirty
    }
}

} // verus!
