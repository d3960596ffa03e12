use diorama::effect::{AnnotationId, Notice};
use diorama::mesh::{
    mesh_point, nearest_handle, MeshControls, MeshEffect, MeshGrid, MeshPoint, MeshSession, MeshStart,
};

fn point(x: u32, y: u32) -> MeshPoint {
    MeshPoint { x, y }
}

#[test]
fn clear_nodes_is_undoable_and_clears_pending_confirmation() {
    let mut session = MeshSession::new(Vec::new(), 0);
    let node = point(10, 10);
    session.source.push(node);
    session.target.push(node);
    session.warped = true;
    session.confirm_pending = true;

    assert!(session.clear_nodes());
    assert!(session.source.is_empty());
    assert!(!session.warped);
    assert!(!session.confirm_pending);

    let previous = session.undo.pop().expect("clear stored a snapshot");
    session.restore(previous);
    assert_eq!(session.source, [node]);
    assert_eq!(session.target, [node]);
    assert!(session.warped);
    assert!(!session.confirm_pending);
}

#[test]
fn steps_lead_back_and_forth() {
    let mut session = MeshSession::new(Vec::new(), 0);
    session.click(point(1, 1), true);
    session.click(point(5, 1), true);
    session.click(point(9, 9), false);
    assert_eq!(session.source, [point(1, 1), point(5, 1)]);

    assert!(session.step_back(true));
    assert_eq!(session.source, [point(1, 1)]);
    assert!(session.step_forward(true));
    assert_eq!(session.source, [point(1, 1), point(5, 1)]);
    assert!(!session.step_forward(true));
    session.step_back(true);
    session.click(point(2, 2), true);
    assert!(session.redo.is_empty());
    assert!(session.has_draft());
}

#[test]
fn one_drag_is_one_step() {
    let mut session = MeshSession::new(Vec::new(), 0);
    session.click(point(10, 10), true);
    session.begin_warp(true);
    assert!(!session.begin_drag(point(30, 30), 100));
    assert!(session.begin_drag(point(14, 10), 100));
    session.drag_to(point(12, 10), true);
    session.drag_to(point(13, 10), true);
    session.drag_to(point(99, 99), false);
    session.end_drag();

    assert_eq!(session.target, [point(13, 10)]);
    assert_eq!(session.source, [point(10, 10)]);
    assert_eq!(session.undo.len(), 3);
    session.step_back(true);
    assert_eq!(session.target, [point(10, 10)]);
}

#[test]
fn confirmation_waits_for_the_preview() {
    let mut session = MeshSession::new(vec![AnnotationId(4), AnnotationId(9)], 6);
    session.click(point(10, 10), true);
    session.confirm(true);
    assert!(!session.confirm_pending);
    session.begin_warp(true);
    let generation = session.generation;
    session.confirm(true);
    assert!(session.confirm_pending);
    session.preview_ready(generation.wrapping_sub(1), true, true);
    let commit = MeshEffect::Commit {
        generation: 7,
        flattened_annotations: vec![AnnotationId(4), AnnotationId(9)],
    };
    assert!(!session.effects.contains(&commit));
    session.preview_ready(generation, true, true);
    assert_eq!(session.effects.pop(), Some(commit));
}

#[test]
fn finished_previews_are_committed_at_once() {
    let mut session = MeshSession::new(vec![AnnotationId(2)], 0);
    session.click(point(10, 10), true);
    assert!(session.can_undo() && !session.can_redo());
    session.begin_warp(true);
    session.preview_ready(1, true, true);
    session.clear();
    session.step_back(true);
    session.preview_ready(1, true, true);
    assert!(!session.preview);
    session.preview_ready(session.generation, true, true);
    session.effects.clear();
    session.confirm(false);
    assert!(session.effects.is_empty());
    session.confirm(true);
    let commit = MeshEffect::Commit {
        generation: session.generation,
        flattened_annotations: vec![AnnotationId(2)],
    };
    assert_eq!(session.effects, [commit]);
}

#[test]
fn sessions_start_with_a_rendered_image() {
    let annotations = || vec![AnnotationId(1)];
    let MeshStart::Refused(Some(notice)) = MeshSession::start(false, true, annotations(), 0) else {
        panic!("a message")
    };
    assert_eq!(notice.text(), "Wait for the image to finish rendering");
    let absent = MeshSession::start(true, false, annotations(), 0);
    assert!(matches!(absent, MeshStart::Refused(None)));
    let MeshStart::Started(mut session) = MeshSession::start(true, true, annotations(), 5) else {
        panic!("a session")
    };
    assert_eq!(session.flattened_annotations, annotations());
    assert_eq!(session.effects, [MeshEffect::RefreshOverlay, MeshEffect::FocusCanvas]);
    session.click(point(1, 1), true);
    session.begin_warp(true);
    assert_eq!(session.generation, 6);
    session.effects.clear();
    session.finish();
    assert_eq!(session.effects, [MeshEffect::CancelPreview]);
    let mut next = MeshSession::new(annotations(), session.generation);
    next.preview_failed(6);
    assert!(next.effects.is_empty());
}

#[test]
fn buttons_follow_the_session() {
    let mut session = MeshSession::new(Vec::new(), 0);
    let shown = |can_warp, can_apply, warped, has_nodes| MeshControls {
        grid: None,
        warped,
        can_warp,
        can_apply,
        has_nodes,
    };
    assert_eq!(session.controls(false, true), shown(false, false, false, false));
    session.click(point(1, 1), true);
    assert_eq!(session.controls(true, true), shown(true, false, false, true));
    session.begin_warp(true);
    assert_eq!(session.controls(true, true), shown(false, true, true, true));
    assert_eq!(session.controls(true, false), shown(false, false, true, true));
}

#[test]
fn the_first_of_equally_near_points_is_held() {
    let mut session = MeshSession::new(Vec::new(), 0);
    for place in [point(9, 9), point(4, 0), point(0, 4)] {
        session.click(place, true);
    }
    session.begin_warp(true);
    assert!(session.begin_drag(point(2, 2), 20));
    assert_eq!(session.drag.map(|drag| drag.handle), Some(1));
    assert!(session.is_well_formed());
    session.target.truncate(1);
    assert!(!session.is_well_formed());
}

#[test]
fn failed_previews_are_reported_once_they_are_current() {
    let mut session = MeshSession::new(Vec::new(), 0);
    session.click(point(10, 10), true);
    session.begin_warp(true);
    let generation = session.generation;
    session.preview_failed(generation + 1);
    assert!(session.running);
    session.preview_failed(generation);
    assert!(!session.running);
    assert!(session.effects.contains(&MeshEffect::Notify(Notice::MeshPreviewFailed)));
    session.set_grid(MeshGrid::Square);
    assert_eq!(session.grid, Some(MeshGrid::Square));
    session.set_grid(MeshGrid::Square);
    assert_eq!(session.grid, None);
}

#[test]
fn points_are_whole_pixels_of_the_image() {
    assert_eq!(mesh_point(-4, 50, (20, 30)), Some(point(0, 29)));
    assert_eq!(mesh_point(7, 8, (20, 30)), Some(point(7, 8)));
    assert_eq!(mesh_point(7, 8, (0, 30)), None);
    let points = vec![point(0, 0), point(3, 4), point(4, 3)];
    assert_eq!(nearest_handle(&points, point(7, 7), 25), Some(1));
    assert_eq!(nearest_handle(&points, point(7, 7), 24), None);
}
