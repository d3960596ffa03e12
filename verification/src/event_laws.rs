//! What holds of a window whatever it is told.

use crate::annotation::Hit;
use crate::compare::{leaving_forgets_the_comparison, PanelLayout};
use crate::directory::FileFacts;
use crate::document::RenderOutcome;
use crate::effect::{AnnotationId, CanvasSide, Effect, Notice};
use crate::export::{ContentOutcome, ExportOutcome, SnapshotView};
use crate::file_state::{no_changes, LocationView, Timestamp};
use crate::invariants::{
    changing_tools_keeps_well_formed, choices_keep_to_the_limits, confirming_keeps_well_formed,
    leaving_keeps_the_scaling, loading_keeps_well_formed, navigating_keeps_well_formed,
    scaling_tool_keeps_to_the_limits, steps_keep_the_rest,
};
use crate::keyboard::KeyboardTool;
use crate::keys::{spec_arrow_step, Key, Modifiers, PencilDragMode};
use crate::load::{EditableOutcome, PreviewOutcome};
use crate::navigation::{MatchView, NeighborView};
use crate::region::{marked_regions_hold_their_ends, pixel_inside, CropOverlay, Edges};
use crate::scale::{ScaleMethod, ScaleUnit};
use crate::scaling::within_limit;
use crate::selection::{corner_on_image, regions_stay_inside};
use crate::tool::Tool;
use crate::tool_laws::{previews_keep_the_rest, same_but_scaling, scaling_keeps_the_rest};
use crate::window::{FilesView, Flags, Scaling, Session, WindowView};
use vstd::prelude::*;

verus! {

/// Whether two states agree on the selected region, on the shown frame and on
/// the scaling controls.
pub open spec fn same_shape(left: Session, right: Session) -> bool {
    &&& left.region == right.region
    &&& left.animation == right.animation
    &&& left.scaling == right.scaling
}

proof fn annotation_keys_keep_the_shape(window: WindowView, key: Key, modifiers: Modifiers)
    ensures
        same_shape(window.handle_annotation_key(key, modifiers).session, window.session),
{
    reveal(WindowView::handle_annotation_key);
}

proof fn acting_keeps_well_formed(
    window: WindowView,
    tool: KeyboardTool,
    at: (u32, u32),
    id: AnnotationId,
)
    requires
        window.session.well_formed(),
    ensures
        window.act_at(tool, at, id).session.well_formed(),
{
    reveal(WindowView::act_at);
    let size = window.session.content.rendered->0;
    if window.session.aim.anchor is Some {
        let start = window.session.aim.anchor->0;
        if pixel_inside(start, size) && pixel_inside(at, size) {
            marked_regions_hold_their_ends(start, at, size);
        }
    }
}

proof fn aiming_keeps_well_formed(
    window: WindowView,
    dx: i32,
    dy: i32,
    id: AnnotationId,
)
    requires
        window.session.well_formed(),
    ensures
        window.move_keyboard_tool_cursor(dx, dy).session.well_formed(),
        window.activate_keyboard_tool(id).session.well_formed(),
{
    reveal(WindowView::show_aim);
    assert forall|next: WindowView, tool: KeyboardTool, at: (u32, u32)|
        next.session.well_formed() implies (#[trigger] next.act_at(
        tool,
        at,
        id,
    )).session.well_formed() by {
        acting_keeps_well_formed(next, tool, at, id);
    }
}

/// Whatever key is pressed or released, the window stays well-formed.
pub proof fn keys_keep_well_formed(
    window: WindowView,
    key: Key,
    modifiers: Modifiers,
    text_focused: bool,
    id: AnnotationId,
)
    requires
        window.session.well_formed(),
    ensures
        window.zoom_key(key, modifiers).0.session.well_formed(),
        window.window_key(key, modifiers, text_focused).0.session.well_formed(),
        window.canvas_key(key, modifiers, id).0.session.well_formed(),
        window.canvas_key_released(key).session.well_formed(),
        window.navigation_key(key, modifiers).0.session.well_formed(),
{
    steps_keep_the_rest(window, true);
    steps_keep_the_rest(window, false);
    annotation_keys_keep_the_shape(window, key, modifiers);
    confirming_keeps_well_formed(window);
    let step = spec_arrow_step(key, modifiers);
    if step is Some {
        aiming_keeps_well_formed(window, (step->0).0 as i32, (step->0).1 as i32, id);
    }
    aiming_keeps_well_formed(window, 0, 0, id);
    navigating_keeps_well_formed(window, true);
    navigating_keeps_well_formed(window, false);
}

/// However a region is marked and resized, the window stays well-formed, as long
/// as the pointer is followed to corners on the image.
pub proof fn marking_keeps_well_formed(
    window: WindowView,
    edges: Edges,
    corner: Option<(u32, u32)>,
)
    requires
        window.session.well_formed(),
        window.session.region.corner_fits(corner),
        corner is Some && window.session.content.rendered is Some ==> corner_on_image(
            corner->0,
            window.session.content.rendered->0,
        ),
    ensures
        window.region_pressed(edges, corner).session.well_formed(),
        window.region_moved(corner).session.well_formed(),
        window.region_released(corner).session.well_formed(),
        window.region_drag_cancelled().session.well_formed(),
{
    regions_stay_inside(window, edges, corner);
}

proof fn refreshing_keeps_the_rest(window: WindowView, scaling: Scaling, width_changed: bool)
    ensures
        ({
            let set = window.with_scaling(scaling);
            let told = window.with_scaling(scaling).emit(Effect::ShowScaleLimits);
            &&& same_but_scaling(set.refresh_scale_controls().session, window.session)
            &&& same_but_scaling(
                set.scale_dimension_changed(width_changed).session,
                window.session,
            )
            &&& same_but_scaling(
                told.scale_dimension_changed(width_changed).session,
                window.session,
            )
        }),
{
    let set = window.with_scaling(scaling);
    let paired = scaling.with_proportions(width_changed);
    previews_keep_the_rest(set.emit(Effect::ShowScaleTarget), scaling.target);
    previews_keep_the_rest(
        set.with_scaling(paired).emit(Effect::ShowScaleTarget),
        paired.target,
    );
    previews_keep_the_rest(
        set.emit(Effect::ShowScaleLimits).with_scaling(paired).emit(Effect::ShowScaleTarget),
        paired.target,
    );
}

proof fn sides_keep_the_rest(window: WindowView, width_changed: bool, length: u32)
    ensures
        same_but_scaling(window.set_scale_side(width_changed, length).session, window.session),
{
    let scaling = window.session.scaling;
    let target = if width_changed {
        (within_limit(length, scaling.limits.0), scaling.target.1)
    } else {
        (scaling.target.0, within_limit(length, scaling.limits.1))
    };
    refreshing_keeps_the_rest(window, Scaling { target, ..scaling }, width_changed);
}

proof fn sizes_keep_the_rest(window: WindowView, size: (u32, u32))
    ensures
        same_but_scaling(window.set_scale_size(size).session, window.session),
{
    let scaling = window.session.scaling;
    let target = (within_limit(size.0, scaling.limits.0), within_limit(size.1, scaling.limits.1));
    refreshing_keeps_the_rest(window, Scaling { target, ..scaling }, true);
}

proof fn locks_keep_the_rest(window: WindowView, locked: bool)
    ensures
        same_but_scaling(window.set_scale_lock(locked).session, window.session),
{
    refreshing_keeps_the_rest(window, Scaling { locked, ..window.session.scaling }, true);
}

proof fn units_keep_the_rest(window: WindowView, unit: ScaleUnit)
    ensures
        same_but_scaling(window.set_scale_unit(unit).session, window.session),
{
    refreshing_keeps_the_rest(window, Scaling { unit, ..window.session.scaling }, true);
}

proof fn methods_keep_the_rest(window: WindowView, method: ScaleMethod)
    ensures
        same_but_scaling(window.set_scale_method(method).session, window.session),
{
    let scaling = Scaling { method, ..window.session.scaling };
    if scaling.source is Some {
        let limited = scaling.configured(scaling.source->0, scaling.target);
        refreshing_keeps_the_rest(window, limited, true);
    }
}

/// Whatever is chosen in the scaling controls, the window stays well-formed.
pub proof fn choosing_keeps_well_formed(
    window: WindowView,
    width_changed: bool,
    locked: bool,
    length: u32,
    size: (u32, u32),
    unit: ScaleUnit,
    method: ScaleMethod,
)
    requires
        window.session.well_formed(),
    ensures
        window.set_scale_side(width_changed, length).session.well_formed(),
        window.set_scale_size(size).session.well_formed(),
        window.set_scale_lock(locked).session.well_formed(),
        window.set_scale_unit(unit).session.well_formed(),
        window.set_scale_method(method).session.well_formed(),
{
    choices_keep_to_the_limits(window, width_changed, locked, length, size, unit, method);
    sides_keep_the_rest(window, width_changed, length);
    sizes_keep_the_rest(window, size);
    locks_keep_the_rest(window, locked);
    units_keep_the_rest(window, unit);
    methods_keep_the_rest(window, method);
}

/// Whatever is drawn, the window stays well-formed.
pub proof fn drawing_keeps_well_formed(
    window: WindowView,
    side: CanvasSide,
    pixel: Option<(u32, u32)>,
    modifiers: Modifiers,
    chained: bool,
    time: u32,
)
    requires
        window.session.well_formed(),
    ensures
        window.begin_pencil_drag(side, pixel, modifiers, chained, time).session.well_formed(),
        window.update_pencil_drag(side, pixel, time).session.well_formed(),
        window.finish_pencil_drag(side, pixel, time).session.well_formed(),
{
}

/// Wherever a finished stroke goes, the window stays well-formed.
pub proof fn strokes_keep_well_formed(
    window: WindowView,
    mode: PencilDragMode,
    drawable: bool,
    continued: Option<bool>,
    id: AnnotationId,
)
    requires
        window.session.well_formed(),
    ensures
        window.commit_editable_pencil_stroke(mode, drawable, continued, id).session.well_formed(),
        window.commit_comparison_pencil_stroke().session.well_formed(),
{
}

/// Whatever colour is picked, the window stays well-formed.
pub proof fn picking_keeps_well_formed(
    window: WindowView,
    side: CanvasSide,
    color: Option<[u8; 4]>,
)
    requires
        window.session.well_formed(),
    ensures
        window.picker_clicked(color).0.session.well_formed(),
        window.sampler_clicked(side, color).0.session.well_formed(),
{
    if color is Some && window.session.tools.return_tool is Some {
        let copied = window.apply_picked_color(color->0).emit(Effect::CopyColor(color->0));
        changing_tools_keeps_well_formed(copied, window.session.tools.return_tool->0);
    }
}

/// Whatever the pointer does to an annotation, the window stays well-formed.
pub proof fn dragging_keeps_well_formed(
    window: WindowView,
    inside: bool,
    short: bool,
    hit: Option<Hit>,
    id: AnnotationId,
)
    requires
        window.session.well_formed(),
    ensures
        window.annotation_pressed(inside, hit, id).session.well_formed(),
        window.annotation_released(inside, short).session.well_formed(),
        hit is Some ==> window.annotation_double_clicked(hit->0).session.well_formed(),
{
}

/// However an annotation is changed, the window stays well-formed.
pub proof fn restyling_keeps_well_formed(
    window: WindowView,
    id: AnnotationId,
    amended: bool,
    color: Option<[u8; 4]>,
    resize: bool,
    empty: bool,
)
    requires
        window.session.well_formed(),
    ensures
        window.finish_nudge(id, amended).session.well_formed(),
        window.update_selected_annotation_style(color, resize).session.well_formed(),
        window.size_changed().session.well_formed(),
        window.text_confirmed(empty).session.well_formed(),
{
}

proof fn decoding_keeps_well_formed(window: WindowView, available: bool)
    requires
        window.session.well_formed(),
    ensures
        window.finish_editable_decode(available).session.well_formed(),
{
    let ended = window.decode_ended(available);
    scaling_tool_keeps_to_the_limits(ended, true);
    scaling_keeps_the_rest(ended, true);
    changing_tools_keeps_well_formed(ended, Tool::Select);
}

proof fn leaving_keeps_well_formed(window: WindowView)
    requires
        window.session.well_formed(),
    ensures
        window.exit_compare().session.well_formed(),
{
    leaving_keeps_the_scaling(window);
    leaving_forgets_the_comparison(window, true);
}

proof fn rebuilding_keeps_the_shape(window: WindowView)
    ensures
        same_shape(window.rebuild_navigation().session, window.session),
{
    reveal(WindowView::rebuild_navigation);
}

proof fn finishing_keeps_well_formed(window: WindowView, available: bool)
    requires
        window.session.well_formed(),
    ensures
        window.finish_load(available).session.well_formed(),
{
    reveal(WindowView::finish_load);
    decoding_keeps_well_formed(window, available);
    let finished = window.finish_editable_decode(available);
    let compared = match finished.files.pending_comparison {
        Some(file) => finished.with_files(
            FilesView { pending_comparison: None, ..finished.files },
        ).load_comparison(file),
        None => finished,
    };
    assert(same_shape(compared.session, finished.session));
    rebuilding_keeps_the_shape(compared);
}

proof fn pictures_keep_well_formed(window: WindowView, generation: u64, outcome: PreviewOutcome)
    requires
        window.session.well_formed(),
    ensures
        window.preview_loaded(generation, outcome).session.well_formed(),
{
    decoding_keeps_well_formed(window, false);
    let finished = window.finish_editable_decode(false);
    if outcome is Loaded {
        assert(same_shape(
            window.show_preview(generation, outcome->size, outcome->animated).session,
            window.session,
        ));
    }
}

proof fn documents_keep_well_formed(window: WindowView, generation: u64, outcome: EditableOutcome)
    requires
        window.session.well_formed(),
    ensures
        window.editable_loaded(generation, outcome).session.well_formed(),
{
    decoding_keeps_well_formed(window, false);
    finishing_keeps_well_formed(window, false);
    let told = window.emit(Effect::Notify(Notice::EditingWorkerFailed));
    finishing_keeps_well_formed(told, false);
    if outcome is Decoded {
        finishing_keeps_well_formed(window.adopt_document(outcome->size), true);
    }
}

/// Whatever comes of a load, the window stays well-formed.
pub proof fn finished_loads_keep_well_formed(
    window: WindowView,
    generation: u64,
    preview: PreviewOutcome,
    editable: EditableOutcome,
    frames: usize,
    modified: Option<Timestamp>,
)
    requires
        window.session.well_formed(),
    ensures
        window.source_time_read(generation, modified).session.well_formed(),
        window.preview_loaded(generation, preview).session.well_formed(),
        window.editable_loaded(generation, editable).session.well_formed(),
        window.animation_decoded(generation, frames).session.well_formed(),
        window.frame_elapsed().session.well_formed(),
{
    pictures_keep_well_formed(window, generation, preview);
    documents_keep_well_formed(window, generation, editable);
}

proof fn opening_comparisons_keeps_the_shape(window: WindowView)
    ensures
        same_shape(window.open_comparison().session, window.session),
{
    reveal(WindowView::open_comparison);
}

proof fn comparing_keeps_well_formed(window: WindowView)
    requires
        window.session.well_formed(),
    ensures
        window.enter_compare().session.well_formed(),
{
    leaving_keeps_well_formed(window);
    let alone = window.exit_compare();
    changing_tools_keeps_well_formed(alone, Tool::Idle);
    opening_comparisons_keeps_the_shape(alone);
    opening_comparisons_keeps_the_shape(alone.set_tool(Tool::Idle));
}

/// Whatever becomes of a comparison, the window stays well-formed.
pub proof fn comparisons_keep_well_formed(
    window: WindowView,
    primary: u64,
    generation: u64,
    loaded: bool,
    renamed_exists: bool,
    current_exists: bool,
    layout: PanelLayout,
)
    requires
        window.session.well_formed(),
    ensures
        window.comparison_loaded(primary, generation, loaded).session.well_formed(),
        window.comparison_refresh_due(
            generation,
            renamed_exists,
            current_exists,
        ).session.well_formed(),
        window.layout_compare_panels(layout).0.session.well_formed(),
{
    comparing_keeps_well_formed(window);
    let looked = WindowView {
        session: Session {
            flags: Flags { comparison_scheduled: false, ..window.session.flags },
            ..window.session
        },
        files: FilesView { comparison_renamed_to: None, ..window.files },
        ..window
    };
    leaving_keeps_well_formed(looked);
}

/// Wherever the window goes on to, it stays well-formed.
pub proof fn going_on_keeps_well_formed(
    window: WindowView,
    generation: u64,
    listed: bool,
    forward: bool,
    neighbor: NeighborView,
    found: MatchView,
)
    requires
        window.session.well_formed(),
    ensures
        window.sequence_listed(generation, listed, forward).session.well_formed(),
        window.neighbor_found(forward, neighbor).session.well_formed(),
        window.match_found(generation, found).session.well_formed(),
{
    navigating_keeps_well_formed(
        window.keep_sequence().emit(Effect::UpdateActionStates),
        forward,
    );
    if neighbor is Gone {
        navigating_keeps_well_formed(window.pass_over(neighbor->Gone_0), forward);
    }
    if neighbor is Found {
        loading_keeps_well_formed(window.emit(Effect::AdvanceSequence), neighbor->Found_0, false);
    }
    if window.files.pending_navigation is Some {
        let matched = window.with_files(
            FilesView {
                pending_comparison: match found {
                    MatchView::Found(file) => Some(file),
                    MatchView::Nothing => None,
                    MatchView::WorkerFailed => window.files.matched_against,
                },
                ..window.files
            },
        );
        loading_keeps_well_formed(matched, window.files.pending_navigation->0, false);
    }
}

proof fn new_scopes_keep_well_formed(window: WindowView, file: LocationView)
    requires
        window.session.well_formed(),
    ensures
        window.load_from_new_scope(file).session.well_formed(),
{
    reveal(WindowView::load_from_new_scope);
    assert forall|next: WindowView, file: LocationView, fit: bool|
        next.session.well_formed() implies (#[trigger] next.load_with_fit(
        file,
        fit,
    )).session.well_formed() by {
        loading_keeps_well_formed(next, file, fit);
    }
}

/// Whatever edits are given up and whatever file is deleted, the window stays
/// well-formed.
pub proof fn discarding_keeps_well_formed(
    window: WindowView,
    generation: u64,
    deleted: bool,
    replacement: Option<LocationView>,
)
    requires
        window.session.well_formed(),
    ensures
        window.discard_confirmed().session.well_formed(),
        window.deletion_finished(generation, deleted, replacement).session.well_formed(),
        window.deleted_removed(replacement).session.well_formed(),
        window.close_requested().session.well_formed(),
{
    let restored = window.nothing_to_discard().restore_original();
    navigating_keeps_well_formed(restored, true);
    navigating_keeps_well_formed(restored, false);
    if window.files.awaiting_discard is Some {
        loading_keeps_well_formed(restored, window.files.awaiting_discard->0, true);
        loading_keeps_well_formed(restored, window.files.awaiting_discard->0, false);
        new_scopes_keep_well_formed(restored, window.files.awaiting_discard->0);
    }
    if replacement is Some {
        let ended = window.with_flags(
            Flags { deletion_running: false, ..window.session.flags },
        ).emit(Effect::Notify(Notice::ImageDeleted));
        loading_keeps_well_formed(ended, replacement->0, true);
        let original = window.restore_original();
        let restored = original.with_flags(
            Flags { deletion_running: false, ..original.session.flags },
        ).emit(Effect::Notify(Notice::ImageDeleted));
        loading_keeps_well_formed(restored, replacement->0, true);
    }
}

proof fn renames_keep_the_shape(window: WindowView, target: LocationView, modified: Option<Timestamp>)
    ensures
        same_shape(window.follow_rename(target, modified).session, window.session),
{
    reveal(WindowView::follow_rename);
    assert forall|next: WindowView| same_shape(
        #[trigger] next.rebuild_navigation().session,
        next.session,
    ) by {
        rebuilding_keeps_the_shape(next);
    }
}

proof fn reloading_keeps_well_formed(window: WindowView, file: LocationView, notice: Notice)
    requires
        window.session.well_formed(),
    ensures
        window.reload_with(file, notice).session.well_formed(),
{
    let kept = window.with_files(
        FilesView { pending_comparison: window.files.comparison, ..window.files },
    );
    loading_keeps_well_formed(kept, file, true);
}

/// Whatever is found out about the files of the window, it stays well-formed.
pub proof fn findings_keep_well_formed(
    window: WindowView,
    facts: FileFacts,
    replacement: Option<LocationView>,
    generation: u64,
    load: u64,
    file: LocationView,
    loaded: bool,
)
    requires
        window.session.well_formed(),
    ensures
        window.directory_changes_due(generation).session.well_formed(),
        window.files_inspected(facts).session.well_formed(),
        window.replacement_found(replacement).session.well_formed(),
        window.reload_finished(generation, load, file, loaded).session.well_formed(),
{
    let changes = window.files.settling_changes;
    let settled = window.with_files(
        FilesView { settling_changes: no_changes(), ..window.files },
    );
    if changes.current_renamed_to is Some {
        renames_keep_the_shape(settled, changes.current_renamed_to->0, facts.renamed_modified);
    }
    if replacement is Some {
        reloading_keeps_well_formed(window, replacement->0, Notice::PreviousGone);
    }
    reloading_keeps_well_formed(window.emit(Effect::CacheReload), file, Notice::Reloaded);
}

proof fn writing_keeps_the_shape(
    window: WindowView,
    snapshot: SnapshotView,
    modified: Option<Timestamp>,
    newer_edits: bool,
    target: Option<LocationView>,
)
    ensures
        same_shape(
            window.file_written(snapshot, modified, newer_edits, target).session,
            window.session,
        ),
{
    reveal(WindowView::file_written);
    reveal(WindowView::adopt_target);
    assert forall|next: WindowView| same_shape(
        #[trigger] next.rebuild_navigation().session,
        next.session,
    ) by {
        rebuilding_keeps_the_shape(next);
    }
}

/// Whatever comes of an export or of a render, the window stays well-formed.
pub proof fn finished_work_keeps_well_formed(
    window: WindowView,
    generation: u64,
    snapshot: SnapshotView,
    export: ExportOutcome,
    target: Option<LocationView>,
    render: RenderOutcome,
    changed: bool,
    content: ContentOutcome,
    flattened: Seq<AnnotationId>,
)
    requires
        window.session.well_formed(),
    ensures
        window.export_finished(generation, snapshot, export, target).session.well_formed(),
        window.render_finished(generation, render).session.well_formed(),
        window.history_stepped(changed).session.well_formed(),
        window.content_detected(content).session.well_formed(),
        window.print_prepared(generation, changed).session.well_formed(),
        window.commit_mesh(generation, flattened).session.well_formed(),
{
    changing_tools_keeps_well_formed(window, Tool::Idle);
    let ended = window.with_flags(Flags { export_running: false, ..window.session.flags });
    if export is Written {
        writing_keeps_the_shape(ended, snapshot, export->modified, export->newer_edits, target);
    }
}

/// However the window is measured and zoomed, it stays well-formed.
pub proof fn zooming_keeps_well_formed(
    window: WindowView,
    viewport: (i32, i32),
    region: CropOverlay,
    ended: bool,
    control: bool,
)
    requires
        window.session.well_formed(),
    ensures
        window.apply_pending_fit(viewport).session.well_formed(),
        window.viewport_measured(viewport).session.well_formed(),
        window.fit_tick(viewport).session.well_formed(),
        window.realign_zoom().session.well_formed(),
        window.region_zoom_measured(region).session.well_formed(),
        window.gesture_zoomed(ended).session.well_formed(),
        window.wheel_turned(control).0.session.well_formed(),
{
}

} // verus!
