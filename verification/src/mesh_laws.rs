//! What a session of the mesh tool does with its points and its previews.

use crate::asking::{edit_follows_calm, edits_just, tools_do_not_edit};
use crate::drawing_laws::edits_are_applied_and_rendered;
use crate::effect::{AnnotationId, Notice, Operation};
use crate::mesh::{
    clamped, new_session, spec_mesh_point, MeshDrag, MeshEffectView, MeshGrid, MeshPoint, MeshView,
};
use crate::tool::Tool;
use crate::tool_laws::changing_tools_ends_what_was_begun;
use crate::window::WindowView;
use vstd::prelude::*;

verus! {

/// Whether something has been asked for since.
pub open spec fn mesh_asks_for(before: MeshView, after: MeshView, effect: MeshEffectView) -> bool {
    exists|index: int|
        before.effects.len() <= index < after.effects.len() && #[trigger] after.effects[index]
            == effect
}

/// A click sets one more point where it is, behind those that are there, and it can
/// be taken back. Once points are moved, or where they would make no mesh, none is
/// set.
pub proof fn clicks_set_points(session: MeshView, point: MeshPoint, valid: bool)
    ensures
        !session.now.warped && valid ==> {
            let after = session.click(point, valid);
            &&& after.now.source == session.now.source.push(point)
            &&& after.now.target == session.now.target.push(point)
            &&& !after.now.warped
            &&& after.undo == session.undo.push(session.now)
            &&& after.redo.len() == 0
            &&& after.effects == session.effects + seq![
                MeshEffectView::RefreshOverlay,
                MeshEffectView::UpdateActionStates,
            ]
        },
        session.now.warped || !valid ==> session.click(point, valid) == session,
{
    if !session.now.warped && valid {
        assert(session.click(point, valid).effects =~= session.effects + seq![
            MeshEffectView::RefreshOverlay,
            MeshEffectView::UpdateActionStates,
        ]);
    }
}

/// From setting points the session goes over to moving them where they make a mesh:
/// the points stay, the step can be taken back, and a preview is computed under a
/// number of its own.
pub proof fn warping_begins_with_the_points(session: MeshView, valid: bool)
    ensures
        !session.now.warped && valid ==> {
            let after = session.begin_warp(valid);
            &&& after.now.warped
            &&& after.now.source == session.now.source
            &&& after.now.target == session.now.target
            &&& after.undo == session.undo.push(session.now)
            &&& after.redo.len() == 0
            &&& after.running
            &&& !after.preview
            &&& after.generation != session.generation
            &&& mesh_asks_for(
                session,
                after,
                MeshEffectView::StartPreview { generation: after.generation },
            )
            &&& after.effects.last() == MeshEffectView::FocusCanvas
        },
        session.now.warped || !valid ==> session.begin_warp(valid) == session,
{
    if !session.now.warped && valid {
        let after = session.begin_warp(valid);
        assert(after.effects[after.effects.len() - 3] == MeshEffectView::StartPreview {
            generation: after.generation,
        });
    }
}

/// Only a point that is moved can be taken hold of; while it is held it goes where
/// the pointer is, the others and the points that were set stay, and a new preview is
/// computed. A place that makes no mesh is not gone to.
pub proof fn held_points_follow_the_pointer(
    session: MeshView,
    handle: usize,
    remembered: bool,
    point: MeshPoint,
)
    requires
        session.now.warped,
        handle < session.now.target.len(),
        session.drag == Some(MeshDrag { handle, remembered }),
    ensures
        session.now.target[handle as int] != point ==> {
            let after = session.drag_to(point, true);
            &&& after.now.target[handle as int] == point
            &&& after.now.target.len() == session.now.target.len()
            &&& forall|other: int|
                0 <= other < session.now.target.len() && other != handle
                    ==> #[trigger] after.now.target[other] == session.now.target[other]
            &&& after.now.source == session.now.source
            &&& after.drag == Some(MeshDrag { handle, remembered: true })
            &&& !after.confirm_pending
            &&& after.running
            &&& after.generation != session.generation
            &&& after.effects.last() == MeshEffectView::StartPreview {
                generation: after.generation,
            }
            &&& after.undo == if remembered {
                session.undo
            } else {
                session.undo.push(session.now)
            }
        },
        session.drag_to(point, false) == session,
        session.drag_to(session.now.target[handle as int], true) == session,
        ({
            let after = session.end_drag();
            &&& after.drag is None
            &&& after.now == session.now
            &&& after.undo == session.undo
        }),
{
}

/// A press takes hold of the point under it while points are moved, and of none
/// otherwise.
pub proof fn presses_take_hold_of_points(session: MeshView, handle: usize)
    ensures
        session.now.warped ==> session.begin_drag(Some(handle as int)).drag == Some(
            MeshDrag { handle, remembered: false },
        ),
        !session.now.warped ==> session.begin_drag(Some(handle as int)) == session,
        session.begin_drag(None) == session,
        session.begin_drag(Some(handle as int)).now == session.now,
{
}

/// A grid is shown where it is asked for and put away where it was shown; one takes
/// the place of another. The points stay.
pub proof fn grids_are_shown_and_put_away(session: MeshView, grid: MeshGrid)
    ensures
        ({
            let after = session.set_grid(grid);
            &&& session.grid == Some(grid) ==> after.grid is None
            &&& session.grid != Some(grid) ==> after.grid == Some(grid)
            &&& after.now == session.now
            &&& after.undo == session.undo
            &&& after.effects == session.effects + seq![
                MeshEffectView::RefreshOverlay,
                MeshEffectView::FocusCanvas,
            ]
        }),
{
    assert(session.set_grid(grid).effects =~= session.effects + seq![
        MeshEffectView::RefreshOverlay,
        MeshEffectView::FocusCanvas,
    ]);
}

/// Taking the points away shows the image as it is, gives the preview up and makes
/// it out of date; without points there is nothing to take away.
pub proof fn clearing_shows_the_image(session: MeshView)
    ensures
        session.now.source.len() == 0 ==> session.clear() == session,
        session.now.source.len() > 0 ==> {
            let after = session.clear();
            &&& after.now.source.len() == 0 && after.now.target.len() == 0
            &&& !after.now.warped
            &&& after.drag is None
            &&& !after.preview && !after.running
            &&& after.generation != session.generation
            &&& after.undo == session.undo.push(session.now)
            &&& mesh_asks_for(session, after, MeshEffectView::RestorePicture)
            &&& mesh_asks_for(session, after, MeshEffectView::CancelPreview) <==> session.running
        },
{
    if session.now.source.len() > 0 {
        let after = session.clear();
        let place = session.effects.len() as int;
        if session.running {
            assert(after.effects[place] == MeshEffectView::CancelPreview);
            assert(after.effects[place + 1] == MeshEffectView::RestorePicture);
        } else {
            assert(after.effects[place] == MeshEffectView::RestorePicture);
        }
    }
}

/// The latest preview is shown when it is ready; one that fails puts the image back
/// and is told of, and nothing is confirmed with it.
pub proof fn mesh_previews_are_shown(session: MeshView)
    ensures
        session.now.warped ==> {
            let after = session.preview_ready(session.generation, true, true);
            &&& after.preview
            &&& !after.running
            &&& after.now == session.now
            &&& after.effects[session.effects.len() as int] == MeshEffectView::ShowPreview
        },
        ({
            let failed = session.preview_failed(session.generation);
            &&& !failed.running
            &&& !failed.confirm_pending
            &&& failed.now == session.now
            &&& failed.effects == session.effects + seq![
                MeshEffectView::RestorePicture,
                MeshEffectView::Notify(Notice::MeshPreviewFailed),
                MeshEffectView::SyncControls,
            ]
        }),
{
    assert(session.preview_failed(session.generation).effects =~= session.effects + seq![
        MeshEffectView::RestorePicture,
        MeshEffectView::Notify(Notice::MeshPreviewFailed),
        MeshEffectView::SyncControls,
    ]);
}

/// A step back leads to the state before, a step forward to the one after; what is
/// shown follows, and a state of moved points is previewed anew.
pub proof fn mesh_steps_lead_both_ways(session: MeshView, valid: bool)
    ensures
        session.undo.len() > 0 ==> {
            let after = session.step_back(valid);
            &&& after.now == session.undo.last()
            &&& after.undo == session.undo.drop_last()
            &&& after.redo == session.redo.push(session.now)
            &&& after.generation != session.generation
            &&& mesh_asks_for(session, after, MeshEffectView::RestorePicture)
            &&& after.now.warped && valid ==> after.running && after.effects.last()
                == MeshEffectView::StartPreview { generation: after.generation }
        },
        session.redo.len() > 0 ==> {
            let after = session.step_forward(valid);
            &&& after.now == session.redo.last()
            &&& after.redo == session.redo.drop_last()
            &&& after.undo == session.undo.push(session.now)
            &&& mesh_asks_for(session, after, MeshEffectView::RestorePicture)
            &&& after.now.warped && valid ==> after.running && after.effects.last()
                == MeshEffectView::StartPreview { generation: after.generation }
        },
        session.undo.len() == 0 ==> session.step_back(valid) == session,
        session.redo.len() == 0 ==> session.step_forward(valid) == session,
{
    let place = session.effects.len() as int;
    let shown: int = if session.running {
        place + 1
    } else {
        place
    };
    if session.undo.len() > 0 {
        assert(session.step_back(valid).effects[shown] == MeshEffectView::RestorePicture);
    }
    if session.redo.len() > 0 {
        assert(session.step_forward(valid).effects[shown] == MeshEffectView::RestorePicture);
    }
}

/// The buttons offer to move points while they are set and make a mesh, and to take
/// the image over while they are moved; they show the grid and whether there are
/// points.
pub proof fn mesh_buttons_offer_what_applies(session: MeshView, settable: bool, movable: bool)
    ensures
        ({
            let controls = session.controls(settable, movable);
            &&& controls.can_warp ==> !session.now.warped && settable
            &&& controls.can_apply ==> session.now.warped && movable
            &&& session.now.warped && movable ==> controls.can_apply
            &&& !session.now.warped && settable ==> controls.can_warp
            &&& controls.has_nodes <==> session.now.source.len() > 0
            &&& controls.grid == session.grid
            &&& controls.warped == session.now.warped
        }),
        session.has_draft() <==> session.now.source.len() > 0 || session.undo.len() > 0
            || session.redo.len() > 0,
{
}

/// A session begins without points, grid, preview or steps to take back, with the
/// annotations that the image shows; left, its previews are out of date.
pub proof fn mesh_sessions_begin_empty(
    annotations: Seq<AnnotationId>,
    generation: u64,
    session: MeshView,
)
    ensures
        ({
            let begun = new_session(annotations, generation);
            &&& begun.now.source.len() == 0 && begun.now.target.len() == 0
            &&& !begun.now.warped && !begun.preview && !begun.running && !begun.confirm_pending
            &&& begun.undo.len() == 0 && begun.redo.len() == 0
            &&& begun.grid is None && begun.drag is None
            &&& begun.flattened_annotations == annotations
            &&& begun.generation == generation
            &&& begun.effects.len() == 0
            &&& !begun.has_draft()
        }),
        ({
            let left = session.finish();
            &&& !left.running
            &&& left.generation != session.generation
            &&& session.running ==> left.effects.last() == MeshEffectView::CancelPreview
        }),
{
}

/// A point is set on the pixel under the pointer, or on the nearest one of the image
/// where there is none under it.
pub proof fn points_lie_on_the_image(x: i64, y: i64, size: (u32, u32))
    requires
        0 < size.0,
        0 < size.1,
    ensures
        spec_mesh_point(x, y, size) matches Some(point) && {
            &&& point.x < size.0 && point.y < size.1
            &&& 0 <= x < size.0 ==> point.x == x
            &&& 0 <= y < size.1 ==> point.y == y
            &&& x < 0 ==> point.x == 0
            &&& y < 0 ==> point.y == 0
            &&& x >= size.0 ==> point.x + 1 == size.0
            &&& y >= size.1 ==> point.y + 1 == size.1
        },
        clamped(x, size.0) < size.0,
{
}

/// The deformed image is taken over in one change of the document, the one of its
/// number, and the tool is left for it.
pub proof fn deformed_images_are_taken_over(
    window: WindowView,
    generation: u64,
    flattened: Seq<AnnotationId>,
)
    requires
        window.session.content.has_document,
    ensures
        ({
            let after = window.commit_mesh(generation, flattened);
            &&& edits_just(window, after, Operation::SelectionEdit { generation })
            &&& after.flattened_annotations == flattened
        }),
{
    let left = window.set_tool(Tool::Idle);
    tools_do_not_edit(window, Tool::Idle);
    changing_tools_ends_what_was_begun(window, window.requested_tool(Tool::Idle));
    let ready = WindowView { flattened_annotations: flattened, ..left };
    let operation = Operation::SelectionEdit { generation };
    edits_are_applied_and_rendered(ready, operation);
    edit_follows_calm(window, ready, window.commit_mesh(generation, flattened), operation);
}

} // verus!
