//! Deforming an image by a mesh of points.
//!
//! A session works on the pixels that it began with. Previews only change what
//! the canvas shows; the document is changed once, when the session is
//! confirmed. Whether some points make a valid mesh is known to the
//! surroundings, which say so along with each event.

use crate::effect::{AnnotationId, Effect, Notice, Operation};
use crate::tool::Tool;
use crate::window::{following_generation, next_generation, ViewerWindow, WindowView};
use vstd::prelude::*;

verus! {

/// A point of the mesh, in whole pixels.
#[derive(Debug, Clone, Copy, PartialEq, Eq, Structural)]
pub struct MeshPoint {
    pub x: u32,
    pub y: u32,
}

/// The grid that helps to place points.
#[derive(Debug, Clone, Copy, PartialEq, Eq, Structural)]
pub enum MeshGrid {
    Square,
    Dimetric,
    Isometric,
}

/// A point that the pointer has hold of.
#[derive(Debug, Clone, Copy, PartialEq, Eq, Structural)]
pub struct MeshDrag {
    pub handle: usize,
    /// Whether the state before the drag can be gone back to.
    pub remembered: bool,
}

/// A state that can be gone back to.
#[derive(Debug)]
pub struct MeshSnapshot {
    pub source: Vec<MeshPoint>,
    pub target: Vec<MeshPoint>,
    pub warped: bool,
}

/// A state that can be gone back to, as a value.
pub ghost struct SnapshotView {
    pub source: Seq<MeshPoint>,
    pub target: Seq<MeshPoint>,
    pub warped: bool,
}

impl View for MeshSnapshot {
    type V = SnapshotView;

    open spec fn view(&self) -> SnapshotView {
        SnapshotView { source: self.source@, target: self.target@, warped: self.warped }
    }
}

/// Something that the surroundings of a session do for it.
#[derive(Debug, PartialEq, Eq)]
pub enum MeshEffect {
    /// Draw the points and the grid, and bring the buttons up to date.
    RefreshOverlay,
    /// Bring the buttons up to date.
    SyncControls,
    UpdateActionStates,
    FocusCanvas,
    CancelPreview,
    /// Compute the deformed image under this number.
    StartPreview { generation: u64 },
    /// Put the deformed image on the canvas.
    ShowPreview,
    /// Put the undeformed image on the canvas.
    RestorePicture,
    /// Say something to the user.
    Notify(Notice),
    /// Leave the tool, and make the image that was deformed under this number
    /// a change of the document, with these annotations a part of it.
    Commit { generation: u64, flattened_annotations: Vec<AnnotationId> },
}

/// Something that the surroundings of a session do for it, as a value.
pub ghost enum MeshEffectView {
    RefreshOverlay,
    SyncControls,
    UpdateActionStates,
    FocusCanvas,
    CancelPreview,
    StartPreview { generation: u64 },
    ShowPreview,
    RestorePicture,
    Notify(Notice),
    Commit { generation: u64, flattened_annotations: Seq<AnnotationId> },
}

impl View for MeshEffect {
    type V = MeshEffectView;

    open spec fn view(&self) -> MeshEffectView {
        match self {
            MeshEffect::RefreshOverlay => MeshEffectView::RefreshOverlay,
            MeshEffect::SyncControls => MeshEffectView::SyncControls,
            MeshEffect::UpdateActionStates => MeshEffectView::UpdateActionStates,
            MeshEffect::FocusCanvas => MeshEffectView::FocusCanvas,
            MeshEffect::CancelPreview => MeshEffectView::CancelPreview,
            MeshEffect::StartPreview { generation } => MeshEffectView::StartPreview {
                generation: *generation,
            },
            MeshEffect::ShowPreview => MeshEffectView::ShowPreview,
            MeshEffect::RestorePicture => MeshEffectView::RestorePicture,
            MeshEffect::Notify(notice) => MeshEffectView::Notify(*notice),
            MeshEffect::Commit { generation, flattened_annotations } => MeshEffectView::Commit {
                generation: *generation,
                flattened_annotations: flattened_annotations@,
            },
        }
    }
}

/// A session of the mesh tool.
#[derive(Debug)]
pub struct MeshSession {
    /// The points as they were set.
    pub source: Vec<MeshPoint>,
    /// The points as they were moved.
    pub target: Vec<MeshPoint>,
    /// Whether points are moved rather than set.
    pub warped: bool,
    pub grid: Option<MeshGrid>,
    pub drag: Option<MeshDrag>,
    pub undo: Vec<MeshSnapshot>,
    pub redo: Vec<MeshSnapshot>,
    /// Whether the deformed image is at hand.
    pub preview: bool,
    /// Whether the deformed image is being computed.
    pub running: bool,
    /// Whether the session is to be confirmed once it is computed.
    pub confirm_pending: bool,
    /// The number of the last preview.
    pub generation: u64,
    /// The annotations that the image showed when the session began, which
    /// become a part of it.
    pub flattened_annotations: Vec<AnnotationId>,
    pub effects: Vec<MeshEffect>,
}

/// A session of the mesh tool, as a value.
pub ghost struct MeshView {
    pub now: SnapshotView,
    pub grid: Option<MeshGrid>,
    pub drag: Option<MeshDrag>,
    pub undo: Seq<SnapshotView>,
    pub redo: Seq<SnapshotView>,
    pub preview: bool,
    pub running: bool,
    pub confirm_pending: bool,
    pub generation: u64,
    pub flattened_annotations: Seq<AnnotationId>,
    pub effects: Seq<MeshEffectView>,
}

/// Some states, as values.
pub open spec fn snapshot_views(snapshots: Seq<MeshSnapshot>) -> Seq<SnapshotView> {
    snapshots.map_values(|snapshot: MeshSnapshot| snapshot@)
}

/// Some effects, as values.
pub open spec fn mesh_effect_views(effects: Seq<MeshEffect>) -> Seq<MeshEffectView> {
    effects.map_values(|effect: MeshEffect| effect@)
}

impl View for MeshSession {
    type V = MeshView;

    open spec fn view(&self) -> MeshView {
        MeshView {
            now: SnapshotView {
                source: self.source@,
                target: self.target@,
                warped: self.warped,
            },
            grid: self.grid,
            drag: self.drag,
            undo: snapshot_views(self.undo@),
            redo: snapshot_views(self.redo@),
            preview: self.preview,
            running: self.running,
            confirm_pending: self.confirm_pending,
            generation: self.generation,
            flattened_annotations: self.flattened_annotations@,
            effects: mesh_effect_views(self.effects@),
        }
    }
}

/// Whether each point that was set has been moved somewhere.
pub open spec fn paired(snapshot: SnapshotView) -> bool {
    snapshot.source.len() == snapshot.target.len()
}

impl MeshView {
    /// Each point has a target, now and in every state to go back to, and the
    /// pointer has hold of a point that is there.
    pub open spec fn well_formed(self) -> bool {
        &&& paired(self.now)
        &&& forall|index: int| 0 <= index < self.undo.len() ==> paired(#[trigger] self.undo[index])
        &&& forall|index: int| 0 <= index < self.redo.len() ==> paired(#[trigger] self.redo[index])
        &&& self.drag is Some ==> self.drag->0.handle < self.now.target.len()
    }

    pub open spec fn emit(self, effect: MeshEffectView) -> MeshView {
        MeshView { effects: self.effects.push(effect), ..self }
    }

    pub open spec fn emit_if(self, condition: bool, effect: MeshEffectView) -> MeshView {
        if condition {
            self.emit(effect)
        } else {
            self
        }
    }

    /// What makes the deformed image a change of the document.
    pub open spec fn commit(self) -> MeshEffectView {
        MeshEffectView::Commit {
            generation: self.generation,
            flattened_annotations: self.flattened_annotations,
        }
    }

    /// The session that can go back to its present state, and not forward.
    pub open spec fn remember(self) -> MeshView {
        MeshView { undo: self.undo.push(self.now), redo: seq![], ..self }
    }

    /// The session in another state, with nothing begun.
    pub open spec fn restore(self, snapshot: SnapshotView) -> MeshView {
        MeshView { now: snapshot, drag: None, preview: false, confirm_pending: false, ..self }
    }

    /// The session with no preview being computed.
    pub open spec fn cancel_preview(self) -> MeshView {
        MeshView { running: false, ..self }.emit_if(self.running, MeshEffectView::CancelPreview)
    }

    /// The session whose previews so far are out of date.
    pub open spec fn invalidate(self) -> MeshView {
        MeshView { generation: next_generation(self.generation), ..self }
    }

    /// The session without points.
    pub open spec fn clear_nodes(self) -> MeshView {
        if self.now.source.len() == 0 {
            self
        } else {
            self.remember().cancel_preview().restore(
                SnapshotView { source: seq![], target: seq![], warped: false },
            )
        }
    }

    /// The session with its preview being computed, where its points make a
    /// mesh.
    pub open spec fn schedule_preview(self, valid: bool) -> MeshView {
        if self.now.warped && valid {
            let renewed = self.cancel_preview().invalidate();
            MeshView { running: true, preview: false, ..renewed }.emit(
                MeshEffectView::StartPreview { generation: renewed.generation },
            )
        } else {
            self
        }
    }

    /// The session with a grid, or without it where it had that one.
    pub open spec fn set_grid(self, grid: MeshGrid) -> MeshView {
        MeshView {
            grid: if self.grid == Some(grid) {
                None
            } else {
                Some(grid)
            },
            ..self
        }.emit(MeshEffectView::RefreshOverlay).emit(MeshEffectView::FocusCanvas)
    }

    /// The session with one more point, where that makes sense.
    pub open spec fn click(self, point: MeshPoint, valid: bool) -> MeshView {
        if self.now.warped || !valid {
            self
        } else {
            MeshView {
                now: SnapshotView {
                    source: self.now.source.push(point),
                    target: self.now.target.push(point),
                    ..self.now
                },
                ..self.remember()
            }.emit(MeshEffectView::RefreshOverlay).emit(MeshEffectView::UpdateActionStates)
        }
    }

    /// The session whose points are moved from now on.
    pub open spec fn begin_warp(self, valid: bool) -> MeshView {
        if self.now.warped || !valid {
            self
        } else {
            MeshView {
                now: SnapshotView { warped: true, ..self.now },
                ..self.remember()
            }.emit(MeshEffectView::RefreshOverlay).schedule_preview(valid).emit(
                MeshEffectView::UpdateActionStates,
            ).emit(MeshEffectView::FocusCanvas)
        }
    }

    /// The session without points, shown as such.
    pub open spec fn clear(self) -> MeshView {
        if self.now.source.len() == 0 {
            self
        } else {
            self.clear_nodes().invalidate().emit(MeshEffectView::RestorePicture).emit(
                MeshEffectView::RefreshOverlay,
            ).emit(MeshEffectView::UpdateActionStates).emit(MeshEffectView::FocusCanvas)
        }
    }

    /// The session with a point in the hand of the pointer.
    pub open spec fn begin_drag(self, handle: Option<int>) -> MeshView {
        match handle {
            Some(handle) => if self.now.warped {
                MeshView {
                    drag: Some(MeshDrag { handle: handle as usize, remembered: false }),
                    ..self
                }.emit(MeshEffectView::RefreshOverlay)
            } else {
                self
            },
            None => self,
        }
    }

    /// The session with the point in the hand of the pointer elsewhere, where
    /// the points then make a mesh.
    pub open spec fn drag_to(self, point: MeshPoint, valid: bool) -> MeshView {
        match self.drag {
            None => self,
            Some(drag) => if self.now.target[drag.handle as int] == point || !valid {
                self
            } else {
                let kept = if drag.remembered {
                    self
                } else {
                    self.remember()
                };
                MeshView {
                    now: SnapshotView {
                        target: self.now.target.update(drag.handle as int, point),
                        ..self.now
                    },
                    drag: Some(MeshDrag { remembered: true, ..drag }),
                    confirm_pending: false,
                    ..kept
                }.emit(MeshEffectView::RefreshOverlay).schedule_preview(valid)
            },
        }
    }

    /// The session with nothing in the hand of the pointer.
    pub open spec fn end_drag(self) -> MeshView {
        MeshView { drag: None, ..self }.emit(MeshEffectView::RefreshOverlay).emit(
            MeshEffectView::UpdateActionStates,
        )
    }

    /// The session once its preview is there.
    pub open spec fn preview_ready(self, generation: u64, active: bool, valid: bool) -> MeshView {
        if generation != self.generation || !active || !self.now.warped || !valid {
            self
        } else {
            MeshView { preview: true, running: false, ..self }.emit(
                MeshEffectView::ShowPreview,
            ).emit_if(self.confirm_pending, self.commit())
        }
    }

    /// The session once its preview turned out to be impossible.
    pub open spec fn preview_failed(self, generation: u64) -> MeshView {
        if generation != self.generation {
            self
        } else {
            MeshView { running: false, confirm_pending: false, ..self }.emit(
                MeshEffectView::RestorePicture,
            ).emit(MeshEffectView::Notify(Notice::MeshPreviewFailed)).emit(
                MeshEffectView::SyncControls,
            )
        }
    }

    /// The session confirmed, or to be confirmed once its preview is there.
    pub open spec fn confirm(self, valid: bool) -> MeshView {
        if !self.now.warped || !valid {
            self
        } else if self.preview && !self.running {
            self.emit(self.commit())
        } else {
            let pending = MeshView { confirm_pending: true, ..self };
            if self.running {
                pending
            } else {
                pending.schedule_preview(valid)
            }
        }
    }

    /// The session in a state that it was in before or after, shown as such.
    pub open spec fn go_to(self, snapshot: SnapshotView, valid: bool) -> MeshView {
        let shown = self.cancel_preview().restore(snapshot).invalidate().emit(
            MeshEffectView::RestorePicture,
        ).emit(MeshEffectView::RefreshOverlay);
        if snapshot.warped {
            shown.schedule_preview(valid)
        } else {
            shown
        }
    }

    /// The session one step back.
    pub open spec fn step_back(self, valid: bool) -> MeshView {
        if self.undo.len() == 0 {
            self
        } else {
            MeshView {
                undo: self.undo.drop_last(),
                redo: self.redo.push(self.now),
                ..self
            }.go_to(self.undo.last(), valid)
        }
    }

    /// The session one step forward.
    pub open spec fn step_forward(self, valid: bool) -> MeshView {
        if self.redo.len() == 0 {
            self
        } else {
            MeshView {
                redo: self.redo.drop_last(),
                undo: self.undo.push(self.now),
                ..self
            }.go_to(self.redo.last(), valid)
        }
    }

    /// The session once it is left: no preview is computed for it any more.
    pub open spec fn finish(self) -> MeshView {
        self.cancel_preview().invalidate()
    }

    /// Whether leaving the session loses something.
    pub open spec fn has_draft(self) -> bool {
        self.now.source.len() > 0 || self.undo.len() > 0 || self.redo.len() > 0
    }

    /// What the buttons show of the session.
    pub open spec fn controls(self, settable: bool, movable: bool) -> MeshControls {
        MeshControls {
            grid: self.grid,
            warped: self.now.warped,
            can_warp: !self.now.warped && settable,
            can_apply: self.now.warped && movable,
            has_nodes: self.now.source.len() > 0,
        }
    }
}

/// The places at which some effects make a change of the document.
pub open spec fn commits(effects: Seq<MeshEffectView>) -> Set<int> {
    Set::new(|place: int| 0 <= place < effects.len() && effects[place] is Commit)
}

/// A session without points, of an image that shows these annotations, after
/// previews up to this number.
pub open spec fn new_session(
    flattened_annotations: Seq<AnnotationId>,
    generation: u64,
) -> MeshView {
    MeshView {
        now: SnapshotView { source: seq![], target: seq![], warped: false },
        grid: None,
        drag: None,
        undo: seq![],
        redo: seq![],
        preview: false,
        running: false,
        confirm_pending: false,
        generation,
        flattened_annotations,
        effects: seq![],
    }
}

/// What the buttons show.
#[derive(Debug, Clone, Copy, PartialEq, Eq, Structural)]
pub struct MeshControls {
    pub grid: Option<MeshGrid>,
    pub warped: bool,
    /// Whether points can be moved from now on.
    pub can_warp: bool,
    /// Whether the session can be confirmed.
    pub can_apply: bool,
    pub has_nodes: bool,
}

/// What became of the wish for a session.
#[derive(Debug)]
pub enum MeshStart {
    /// There is none, and the user is told why where there is something to say.
    Refused(Option<Notice>),
    Started(MeshSession),
}

/// The pixel that a place on the image is closest to, where the image has any.
pub open spec fn spec_mesh_point(x: i64, y: i64, size: (u32, u32)) -> Option<MeshPoint> {
    if size.0 == 0 || size.1 == 0 {
        None
    } else {
        Some(MeshPoint { x: clamped(x, size.0), y: clamped(y, size.1) })
    }
}

/// A coordinate brought inside the image.
pub open spec fn clamped(at: i64, length: u32) -> u32 {
    if at < 0 {
        0
    } else if at >= length {
        (length - 1) as u32
    } else {
        at as u32
    }
}

fn clamp(at: i64, length: u32) -> (inside: u32)
    requires
        0 < length,
    ensures
        inside == clamped(at, length),
        inside < length,
{
    if at < 0 {
        0
    } else if at >= length as i64 {
        length - 1
    } else {
        at as u32
    }
}

/// The pixel that a place on the image is closest to, where the image has any.
pub fn mesh_point(x: i64, y: i64, size: (u32, u32)) -> (point: Option<MeshPoint>)
    ensures
        point == spec_mesh_point(x, y, size),
        point is Some ==> point->0.x < size.0 && point->0.y < size.1,
{
    if size.0 == 0 || size.1 == 0 {
        return None;
    }
    Some(MeshPoint { x: clamp(x, size.0), y: clamp(y, size.1) })
}

/// The square of the distance between two points.
pub open spec fn distance_squared(left: MeshPoint, right: MeshPoint) -> int {
    (left.x - right.x) * (left.x - right.x) + (left.y - right.y) * (left.y - right.y)
}

fn square_of_distance(left: MeshPoint, right: MeshPoint) -> (square: u128)
    ensures
        square == distance_squared(left, right),
{
    let dx: i128 = left.x as i128 - right.x as i128;
    let dy: i128 = left.y as i128 - right.y as i128;
    assert(0 <= dx * dx <= 0x1_0000_0000 * 0x1_0000_0000) by (nonlinear_arith)
        requires
            -0x1_0000_0000 <= dx <= 0x1_0000_0000,
    ;
    assert(0 <= dy * dy <= 0x1_0000_0000 * 0x1_0000_0000) by (nonlinear_arith)
        requires
            -0x1_0000_0000 <= dy <= 0x1_0000_0000,
    ;
    (dx * dx + dy * dy) as u128
}

/// The point nearest to a place, of those that are near enough; the first one
/// of several.
pub fn nearest_handle(points: &Vec<MeshPoint>, place: MeshPoint, reach_squared: u128) -> (handle:
    Option<usize>)
    ensures
        match handle {
            Some(handle) => {
                &&& handle < points@.len()
                &&& distance_squared(points@[handle as int], place) <= reach_squared
                &&& forall|other: int|
                    0 <= other < points@.len() ==> distance_squared(points@[handle as int], place)
                        <= distance_squared(#[trigger] points@[other], place)
                &&& forall|other: int|
                    0 <= other < handle ==> distance_squared(points@[handle as int], place)
                        < distance_squared(#[trigger] points@[other], place)
            },
            None => forall|other: int|
                0 <= other < points@.len() ==> distance_squared(#[trigger] points@[other], place)
                    > reach_squared,
        },
{
    let mut nearest: Option<usize> = None;
    let mut least: u128 = 0;
    let mut index: usize = 0;
    while index < points.len()
        invariant
            index <= points.len(),
            match nearest {
                Some(handle) => {
                    &&& handle < index
                    &&& least == distance_squared(points@[handle as int], place)
                    &&& least <= reach_squared
                    &&& forall|other: int|
                        0 <= other < index ==> least <= distance_squared(
                            #[trigger] points@[other],
                            place,
                        )
                    &&& forall|other: int|
                        0 <= other < handle ==> least < distance_squared(
                            #[trigger] points@[other],
                            place,
                        )
                },
                None => forall|other: int|
                    0 <= other < index ==> distance_squared(#[trigger] points@[other], place)
                        > reach_squared,
            },
        decreases points.len() - index,
    {
        let square: u128 = square_of_distance(points[index], place);
        let nearer = match nearest {
            Some(_) => square < least,
            None => square <= reach_squared,
        };
        if nearer {
            nearest = Some(index);
            least = square;
        }
        index = index + 1;
    }
    nearest
}

fn copy_points(points: &Vec<MeshPoint>) -> (copy: Vec<MeshPoint>)
    ensures
        copy@ == points@,
{
    let copy = points.clone();
    assert(copy@ =~= points@);
    copy
}

fn all_paired(snapshots: &Vec<MeshSnapshot>) -> (all: bool)
    ensures
        all == forall|index: int|
            0 <= index < snapshot_views(snapshots@).len() ==> paired(
                #[trigger] snapshot_views(snapshots@)[index],
            ),
{
    let mut index: usize = 0;
    while index < snapshots.len()
        invariant
            index <= snapshots@.len(),
            forall|earlier: int|
                0 <= earlier < index ==> paired(#[trigger] snapshot_views(snapshots@)[earlier]),
        decreases snapshots@.len() - index,
    {
        if snapshots[index].source.len() != snapshots[index].target.len() {
            assert(!paired(snapshot_views(snapshots@)[index as int]));
            return false;
        }
        index = index + 1;
    }
    true
}

impl MeshSession {
    /// A session without points, of an image that shows these annotations, after
    /// previews up to this number.
    pub fn new(flattened_annotations: Vec<AnnotationId>, generation: u64) -> (session: MeshSession)
        ensures
            session@.well_formed(),
            session@ == new_session(flattened_annotations@, generation),
    {
        let session = MeshSession {
            source: Vec::new(),
            target: Vec::new(),
            warped: false,
            grid: None,
            drag: None,
            undo: Vec::new(),
            redo: Vec::new(),
            preview: false,
            running: false,
            confirm_pending: false,
            generation,
            flattened_annotations,
            effects: Vec::new(),
        };
        assert(session@.undo =~= seq![]);
        assert(session@.redo =~= seq![]);
        assert(session@.effects =~= seq![]);
        session
    }

    /// Whether each point has a target, now and in every state to go back to, and
    /// the pointer has hold of a point that is there.
    pub fn is_well_formed(&self) -> (sound: bool)
        ensures
            sound == self@.well_formed(),
    {
        let held = match self.drag {
            Some(drag) => drag.handle < self.target.len(),
            None => true,
        };
        self.source.len() == self.target.len() && held && all_paired(&self.undo) && all_paired(
            &self.redo,
        )
    }

    /// Begins a session, where the rendered image is there and up to date.
    /// `annotations` are those that it shows, `generation` is the number that
    /// the session before left behind.
    pub fn start(
        rendered_is_current: bool,
        rendered: bool,
        annotations: Vec<AnnotationId>,
        generation: u64,
    ) -> (start: MeshStart)
        ensures
            match start {
                MeshStart::Refused(notice) => {
                    &&& !rendered_is_current || !rendered
                    &&& notice == if rendered_is_current {
                        None
                    } else {
                        Some(Notice::WaitForRendering)
                    }
                },
                MeshStart::Started(session) => {
                    &&& rendered_is_current && rendered
                    &&& session@.well_formed()
                    &&& session@ == new_session(annotations@, generation).emit(
                        MeshEffectView::RefreshOverlay,
                    ).emit(MeshEffectView::FocusCanvas)
                },
            },
    {
        if !rendered_is_current {
            return MeshStart::Refused(Some(Notice::WaitForRendering));
        }
        if !rendered {
            return MeshStart::Refused(None);
        }
        let mut session = MeshSession::new(annotations, generation);
        session.emit(MeshEffect::RefreshOverlay);
        session.emit(MeshEffect::FocusCanvas);
        MeshStart::Started(session)
    }

    /// What the buttons show. `settable` tells whether the points make a mesh
    /// as they were set, `movable` whether they do as they were moved.
    pub fn controls(&self, settable: bool, movable: bool) -> (controls: MeshControls)
        ensures
            controls == self@.controls(settable, movable),
    {
        MeshControls {
            grid: self.grid,
            warped: self.warped,
            can_warp: !self.warped && settable,
            can_apply: self.warped && movable,
            has_nodes: self.source.len() > 0,
        }
    }

    fn emit(&mut self, effect: MeshEffect)
        ensures
            final(self)@ == old(self)@.emit(effect@),
    {
        self.effects.push(effect);
        assert(self@.effects =~= old(self)@.effects.push(effect@));
    }

    fn commit(&mut self)
        ensures
            final(self)@ == old(self)@.emit(old(self)@.commit()),
    {
        let flattened_annotations = self.flattened_annotations.clone();
        assert(flattened_annotations@ =~= self.flattened_annotations@);
        self.emit(MeshEffect::Commit { generation: self.generation, flattened_annotations });
    }

    /// The present state.
    pub fn snapshot(&self) -> (snapshot: MeshSnapshot)
        ensures
            snapshot@ == self@.now,
    {
        MeshSnapshot {
            source: copy_points(&self.source),
            target: copy_points(&self.target),
            warped: self.warped,
        }
    }

    fn remember(&mut self)
        ensures
            final(self)@ == old(self)@.remember(),
    {
        let snapshot = self.snapshot();
        self.undo.push(snapshot);
        self.redo = Vec::new();
        assert(self@.undo =~= old(self)@.undo.push(old(self)@.now));
        assert(self@.redo =~= seq![]);
    }

    /// Takes another state, with nothing begun.
    pub fn restore(&mut self, snapshot: MeshSnapshot)
        ensures
            final(self)@ == old(self)@.restore(snapshot@),
    {
        self.source = snapshot.source;
        self.target = snapshot.target;
        self.warped = snapshot.warped;
        self.drag = None;
        self.preview = false;
        self.confirm_pending = false;
    }

    fn cancel_preview(&mut self)
        ensures
            final(self)@ == old(self)@.cancel_preview(),
    {
        if self.running {
            self.running = false;
            self.emit(MeshEffect::CancelPreview);
        }
    }

    fn invalidate(&mut self)
        ensures
            final(self)@ == old(self)@.invalidate(),
    {
        self.generation = following_generation(self.generation);
    }

    /// Takes all points away, where there are any.
    pub fn clear_nodes(&mut self) -> (cleared: bool)
        ensures
            cleared == (old(self)@.now.source.len() > 0),
            final(self)@ == old(self)@.clear_nodes(),
    {
        if self.source.len() == 0 {
            return false;
        }
        self.remember();
        self.cancel_preview();
        let empty = MeshSnapshot { source: Vec::new(), target: Vec::new(), warped: false };
        assert(empty@.source =~= seq![]);
        assert(empty@.target =~= seq![]);
        self.restore(empty);
        true
    }

    fn schedule_preview(&mut self, valid: bool)
        ensures
            final(self)@ == old(self)@.schedule_preview(valid),
    {
        if !self.warped || !valid {
            return;
        }
        self.cancel_preview();
        self.invalidate();
        self.running = true;
        self.preview = false;
        self.emit(MeshEffect::StartPreview { generation: self.generation });
    }

    /// Shows a grid, or takes it away where it is shown.
    pub fn set_grid(&mut self, grid: MeshGrid)
        ensures
            final(self)@ == old(self)@.set_grid(grid),
    {
        let shown = match self.grid {
            Some(shown) => shown == grid,
            None => false,
        };
        self.grid = if shown {
            None
        } else {
            Some(grid)
        };
        self.emit(MeshEffect::RefreshOverlay);
        self.emit(MeshEffect::FocusCanvas);
    }

    /// Sets a point. `valid` tells whether the points then make sense.
    pub fn click(&mut self, point: MeshPoint, valid: bool)
        ensures
            final(self)@ == old(self)@.click(point, valid),
    {
        if self.warped || !valid {
            return;
        }
        self.remember();
        self.source.push(point);
        self.target.push(point);
        self.emit(MeshEffect::RefreshOverlay);
        self.emit(MeshEffect::UpdateActionStates);
    }

    /// Goes over to moving points. `valid` tells whether they make a mesh.
    pub fn begin_warp(&mut self, valid: bool)
        ensures
            final(self)@ == old(self)@.begin_warp(valid),
    {
        if self.warped || !valid {
            return;
        }
        self.remember();
        self.warped = true;
        self.emit(MeshEffect::RefreshOverlay);
        self.schedule_preview(valid);
        self.emit(MeshEffect::UpdateActionStates);
        self.emit(MeshEffect::FocusCanvas);
    }

    /// Takes all points away, and shows the image as it was.
    pub fn clear(&mut self)
        ensures
            final(self)@ == old(self)@.clear(),
    {
        if self.clear_nodes() {
            self.invalidate();
            self.emit(MeshEffect::RestorePicture);
            self.emit(MeshEffect::RefreshOverlay);
            self.emit(MeshEffect::UpdateActionStates);
            self.emit(MeshEffect::FocusCanvas);
        }
    }

    /// Takes hold of the point nearest to a place, where one is near enough; the
    /// first one of several.
    pub fn begin_drag(&mut self, place: MeshPoint, reach_squared: u128) -> (held: bool)
        requires
            old(self)@.well_formed(),
        ensures
            final(self)@.well_formed(),
            held == (old(self)@.now.warped && exists|index: int|
                0 <= index < old(self)@.now.target.len() && distance_squared(
                    #[trigger] old(self)@.now.target[index],
                    place,
                ) <= reach_squared),
            !held ==> final(self)@ == old(self)@,
            held ==> exists|handle: int|
                {
                    &&& 0 <= handle < old(self)@.now.target.len()
                    &&& final(self)@ == old(self)@.begin_drag(Some(handle))
                    &&& forall|other: int|
                        0 <= other < old(self)@.now.target.len() ==> distance_squared(
                            #[trigger] old(self)@.now.target[handle],
                            place,
                        ) <= distance_squared(#[trigger] old(self)@.now.target[other], place)
                    &&& forall|earlier: int|
                        0 <= earlier < handle ==> distance_squared(
                            #[trigger] old(self)@.now.target[handle],
                            place,
                        ) < distance_squared(#[trigger] old(self)@.now.target[earlier], place)
                },
    {
        if !self.warped {
            return false;
        }
        match nearest_handle(&self.target, place, reach_squared) {
            None => false,
            Some(handle) => {
                self.drag = Some(MeshDrag { handle, remembered: false });
                self.emit(MeshEffect::RefreshOverlay);
                assert(self@ == old(self)@.begin_drag(Some(handle as int)));
                assert(distance_squared(old(self)@.now.target[handle as int], place)
                    <= reach_squared);
                true
            },
        }
    }

    /// Moves the point in the hand of the pointer. `valid` tells whether the
    /// points then make a mesh.
    pub fn drag_to(&mut self, point: MeshPoint, valid: bool)
        requires
            old(self)@.well_formed(),
        ensures
            final(self)@ == old(self)@.drag_to(point, valid),
    {
        let drag = match self.drag {
            None => {
                return;
            },
            Some(drag) => drag,
        };
        if self.target[drag.handle] == point || !valid {
            return;
        }
        if !drag.remembered {
            self.remember();
        }
        self.drag = Some(MeshDrag { remembered: true, ..drag });
        self.target.set(drag.handle, point);
        self.confirm_pending = false;
        self.emit(MeshEffect::RefreshOverlay);
        self.schedule_preview(valid);
    }

    /// Lets go of a point.
    pub fn end_drag(&mut self)
        ensures
            final(self)@ == old(self)@.end_drag(),
    {
        self.drag = None;
        self.emit(MeshEffect::RefreshOverlay);
        self.emit(MeshEffect::UpdateActionStates);
    }

    /// Shows the deformed image, unless it is out of date, and confirms the
    /// session where that waited for it. `active` tells whether the mesh tool
    /// is still active.
    pub fn preview_ready(&mut self, generation: u64, active: bool, valid: bool)
        ensures
            final(self)@ == old(self)@.preview_ready(generation, active, valid),
    {
        if generation != self.generation || !active || !self.warped || !valid {
            return;
        }
        self.preview = true;
        self.running = false;
        self.emit(MeshEffect::ShowPreview);
        if self.confirm_pending {
            self.commit();
        }
    }

    /// Says that the image could not be deformed, unless that is out of date.
    pub fn preview_failed(&mut self, generation: u64)
        ensures
            final(self)@ == old(self)@.preview_failed(generation),
    {
        if generation != self.generation {
            return;
        }
        self.running = false;
        self.confirm_pending = false;
        self.emit(MeshEffect::RestorePicture);
        self.emit(MeshEffect::Notify(Notice::MeshPreviewFailed));
        self.emit(MeshEffect::SyncControls);
    }

    /// Confirms the session, now or once the deformed image is there.
    pub fn confirm(&mut self, valid: bool)
        ensures
            final(self)@ == old(self)@.confirm(valid),
    {
        if !self.warped || !valid {
            return;
        }
        if self.preview && !self.running {
            self.commit();
            return;
        }
        self.confirm_pending = true;
        if !self.running {
            self.schedule_preview(valid);
        }
    }

    fn go_to(&mut self, snapshot: MeshSnapshot, valid: bool)
        ensures
            final(self)@ == old(self)@.go_to(snapshot@, valid),
    {
        let warped = snapshot.warped;
        self.cancel_preview();
        self.restore(snapshot);
        self.invalidate();
        self.emit(MeshEffect::RestorePicture);
        self.emit(MeshEffect::RefreshOverlay);
        if warped {
            self.schedule_preview(valid);
        }
    }

    /// Goes one step back. `valid` tells whether the points of that state make a
    /// mesh.
    pub fn step_back(&mut self, valid: bool) -> (stepped: bool)
        ensures
            stepped == (old(self)@.undo.len() > 0),
            final(self)@ == old(self)@.step_back(valid),
    {
        let present = self.snapshot();
        match self.undo.pop() {
            None => false,
            Some(previous) => {
                self.redo.push(present);
                assert(self@.undo =~= old(self)@.undo.drop_last());
                assert(self@.redo =~= old(self)@.redo.push(old(self)@.now));
                self.go_to(previous, valid);
                true
            },
        }
    }

    /// Goes one step forward. `valid` tells whether the points of that state
    /// make a mesh.
    pub fn step_forward(&mut self, valid: bool) -> (stepped: bool)
        ensures
            stepped == (old(self)@.redo.len() > 0),
            final(self)@ == old(self)@.step_forward(valid),
    {
        let present = self.snapshot();
        match self.redo.pop() {
            None => false,
            Some(next) => {
                self.undo.push(present);
                assert(self@.redo =~= old(self)@.redo.drop_last());
                assert(self@.undo =~= old(self)@.undo.push(old(self)@.now));
                self.go_to(next, valid);
                true
            },
        }
    }

    /// Leaves the session.
    pub fn finish(&mut self)
        ensures
            final(self)@ == old(self)@.finish(),
    {
        self.cancel_preview();
        self.invalidate();
    }

    /// Whether there is a state to go back to.
    pub fn can_undo(&self) -> (can: bool)
        ensures
            can == (self@.undo.len() > 0),
    {
        self.undo.len() > 0
    }

    /// Whether there is a state to go forward to.
    pub fn can_redo(&self) -> (can: bool)
        ensures
            can == (self@.redo.len() > 0),
    {
        self.redo.len() > 0
    }

    /// Whether leaving the session loses something.
    pub fn has_draft(&self) -> (draft: bool)
        ensures
            draft == self@.has_draft(),
    {
        self.source.len() > 0 || self.undo.len() > 0 || self.redo.len() > 0
    }
}

impl WindowView {
    /// The window with no tool, and with the image that was deformed under a
    /// number in place of its own.
    pub open spec fn commit_mesh(
        self,
        generation: u64,
        flattened_annotations: Seq<AnnotationId>,
    ) -> WindowView {
        WindowView { flattened_annotations, ..self.set_tool(Tool::Idle) }.apply(
            Operation::SelectionEdit { generation },
        )
    }
}

impl ViewerWindow {
    /// Leaves the tool, and makes the image that was deformed under a number a
    /// change of the document, with these annotations a part of it.
    pub fn commit_mesh(&mut self, generation: u64, flattened_annotations: Vec<AnnotationId>)
        ensures
            final(self)@ == old(self)@.commit_mesh(generation, flattened_annotations@),
    {
        self.set_tool(Tool::Idle);
        self.flattened_annotations = flattened_annotations;
        self.apply(Operation::SelectionEdit { generation });
    }
}

/// Every event keeps a session well-formed.
pub proof fn sessions_stay_well_formed(
    session: MeshView,
    point: MeshPoint,
    handle: int,
    grid: MeshGrid,
    generation: u64,
    active: bool,
    valid: bool,
)
    requires
        session.well_formed(),
        0 <= handle < session.now.target.len(),
    ensures
        session.click(point, valid).well_formed(),
        session.begin_warp(valid).well_formed(),
        session.clear().well_formed(),
        session.begin_drag(Some(handle)).well_formed(),
        session.drag_to(point, valid).well_formed(),
        session.end_drag().well_formed(),
        session.set_grid(grid).well_formed(),
        session.preview_ready(generation, active, valid).well_formed(),
        session.preview_failed(generation).well_formed(),
        session.confirm(valid).well_formed(),
        session.step_back(valid).well_formed(),
        session.step_forward(valid).well_formed(),
        session.finish().well_formed(),
{
}

/// Taking the points away can be undone: one step back, they are there again as
/// they were, and nothing waits to be confirmed.
pub proof fn clearing_is_undoable(session: MeshView, valid: bool)
    requires
        session.now.source.len() > 0,
    ensures
        ({
            let cleared = session.clear();
            let back = cleared.step_back(valid);
            &&& cleared.now.source.len() == 0
            &&& !cleared.confirm_pending
            &&& back.now == session.now
            &&& back.undo == session.undo
            &&& !back.confirm_pending
        }),
{
    assert(session.undo.push(session.now).drop_last() =~= session.undo);
}

/// A step back and one forward lead to where they began, and so do one forward
/// and one back.
pub proof fn steps_are_inverse(session: MeshView, valid: bool)
    ensures
        session.undo.len() > 0 ==> {
            let there = session.step_back(valid).step_forward(valid);
            there.now == session.now && there.undo == session.undo && there.redo == session.redo
        },
        session.redo.len() > 0 ==> {
            let there = session.step_forward(valid).step_back(valid);
            there.now == session.now && there.undo == session.undo && there.redo == session.redo
        },
{
    if session.undo.len() > 0 {
        assert(session.undo.drop_last().push(session.undo.last()) =~= session.undo);
        assert(session.redo.push(session.now).drop_last() =~= session.redo);
    }
    if session.redo.len() > 0 {
        assert(session.redo.drop_last().push(session.redo.last()) =~= session.redo);
        assert(session.undo.push(session.now).drop_last() =~= session.undo);
    }
}

/// One drag is one step: however often the point is moved, one state is kept to
/// go back to, the one from before the drag.
pub proof fn drags_are_one_step(session: MeshView, first: MeshPoint, second: MeshPoint)
    requires
        session.well_formed(),
        session.now.warped,
        session.drag is Some,
        !session.drag->0.remembered,
        session.now.target[session.drag->0.handle as int] != first,
    ensures
        ({
            let once = session.drag_to(first, true);
            &&& once.undo == session.undo.push(session.now)
            &&& once.drag_to(second, true).undo == once.undo
        }),
{
}

/// A preview that is out of date changes nothing, and none is confirmed before
/// it is there.
pub proof fn superseded_previews_change_nothing(
    session: MeshView,
    generation: u64,
    active: bool,
    valid: bool,
)
    requires
        generation != session.generation,
    ensures
        session.preview_ready(generation, active, valid) == session,
        session.preview_failed(generation) == session,
        !session.preview ==> commits(session.confirm(valid).effects) == commits(session.effects),
{
    if !session.preview {
        assert(commits(session.confirm(valid).effects) =~= commits(session.effects));
    }
}

/// Confirming makes one change of the document, where the deformed image is at
/// hand and none is being computed: that image, with the annotations of the
/// session. Elsewhere it makes none, and a valid session then waits for its
/// preview, which makes the change in its stead.
pub proof fn confirming_commits_once(session: MeshView, active: bool, valid: bool)
    ensures
        ({
            let confirmed = session.confirm(valid);
            let applicable = session.now.warped && valid;
            let commit = MeshEffectView::Commit {
                generation: session.generation,
                flattened_annotations: session.flattened_annotations,
            };
            if applicable && session.preview && !session.running {
                confirmed == session.emit(commit)
            } else {
                &&& commits(confirmed.effects) == commits(session.effects)
                &&& applicable ==> confirmed.confirm_pending && confirmed.running
                &&& !applicable ==> confirmed == session
            }
        }),
        ({
            let ready = session.preview_ready(session.generation, active, valid);
            if session.now.warped && valid && active && session.confirm_pending {
                &&& commits(ready.effects) == commits(session.effects).insert(
                    (session.effects.len() + 1) as int,
                )
                &&& ready.effects.last() == session.commit()
            } else {
                commits(ready.effects) == commits(session.effects)
            }
        }),
{
    let confirmed = session.confirm(valid);
    let ready = session.preview_ready(session.generation, active, valid);
    if !(session.now.warped && valid && session.preview && !session.running) {
        assert(commits(confirmed.effects) =~= commits(session.effects));
    }
    if session.now.warped && valid && active && session.confirm_pending {
        assert(commits(ready.effects) =~= commits(session.effects).insert(
            (session.effects.len() + 1) as int,
        ));
    } else {
        assert(commits(ready.effects) =~= commits(session.effects));
    }
}

/// A preview that comes after its session was left changes nothing in the next
/// session.
pub proof fn previews_do_not_outlive_their_session(
    session: MeshView,
    annotations: Seq<AnnotationId>,
    active: bool,
    valid: bool,
)
    ensures
        ({
            let next = new_session(annotations, session.finish().generation);
            &&& next.preview_ready(session.generation, active, valid) == next
            &&& next.preview_failed(session.generation) == next
        }),
{
}

/// No event changes which annotations become a part of the image: they are
/// those of the start.
pub proof fn annotations_of_the_start_are_kept(
    session: MeshView,
    point: MeshPoint,
    handle: Option<int>,
    grid: MeshGrid,
    generation: u64,
    active: bool,
    valid: bool,
)
    ensures
        ({
            let annotations = session.flattened_annotations;
            &&& session.click(point, valid).flattened_annotations == annotations
            &&& session.begin_warp(valid).flattened_annotations == annotations
            &&& session.clear().flattened_annotations == annotations
            &&& session.begin_drag(handle).flattened_annotations == annotations
            &&& session.drag_to(point, valid).flattened_annotations == annotations
            &&& session.end_drag().flattened_annotations == annotations
            &&& session.set_grid(grid).flattened_annotations == annotations
            &&& session.preview_ready(generation, active, valid).flattened_annotations
                == annotations
            &&& session.preview_failed(generation).flattened_annotations == annotations
            &&& session.confirm(valid).flattened_annotations == annotations
            &&& session.step_back(valid).flattened_annotations == annotations
            &&& session.step_forward(valid).flattened_annotations == annotations
            &&& session.finish().flattened_annotations == annotations
        }),
{
}

/// The deformed image becomes one change of the document, the one of that
/// number with those annotations, and ends the merging of nudges. Without a
/// document there is a message in its place.
pub proof fn deformations_are_applied(
    window: WindowView,
    generation: u64,
    flattened: Seq<AnnotationId>,
)
    ensures
        ({
            let left = window.set_tool(Tool::Idle);
            let after = window.commit_mesh(generation, flattened);
            let place = left.effects.len() as int;
            &&& after.flattened_annotations == flattened
            &&& after.session.annotations.nudged is None
            &&& after.effects.take(place) == left.effects
            &&& after.effects[place] == if left.session.content.has_document {
                Effect::Apply(Operation::SelectionEdit { generation })
            } else {
                Effect::Notify(Notice::OpenEditableFirst)
            }
        }),
{
    let left = window.set_tool(Tool::Idle);
    let after = window.commit_mesh(generation, flattened);
    assert(after.effects.take(left.effects.len() as int) =~= left.effects);
}

} // verus!
