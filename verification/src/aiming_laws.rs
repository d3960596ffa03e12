//! What comes of keys: where they aim, what they place and where they lead.

use crate::asking::{asks_for, asks_just, edits_at, edits_just, edits_nothing, keeps_asking};
use crate::drawing_laws::selects;
use crate::effect::{
    Announcement, AnnotationId, AnnotationKind, Axis, Draft, EditorPlace, Effect, Operation,
};
use crate::key_input::is_enter;
use crate::keyboard::{
    aim_limit, arrow_draft, highlight_draft, highlight_seed, measurement_draft, spec_keyboard_tool,
    KeyboardTool,
};
use crate::keys::{
    spec_arrow_step, spec_fullscreen_preview_key, spec_image_navigation_direction,
    spec_is_activation, spec_pencil_zoom_key, Key, Modifiers, PencilZoomKey, PreviewKey,
};
use crate::region::{spec_selection_overlay, SelectionDrag};
use crate::tool::Tool;
use crate::window::{KeyboardAim, TextEditor, WindowView};
use vstd::prelude::*;

verus! {

/// Every tool but the scaling one is aimed by keyboard as itself.
pub proof fn tools_are_aimed_as_themselves(tool: Tool)
    ensures
        spec_keyboard_tool(tool) is None <==> tool == Tool::Idle || tool == Tool::Scale,
        spec_keyboard_tool(tool) == Some(KeyboardTool::Highlight) <==> tool == Tool::Highlight,
        spec_keyboard_tool(tool) == Some(KeyboardTool::Arrow) <==> tool == Tool::Arrow,
        spec_keyboard_tool(tool) == Some(KeyboardTool::Measure) <==> tool == Tool::Measure,
        spec_keyboard_tool(tool) == Some(KeyboardTool::Text) <==> tool == Tool::Text,
        spec_keyboard_tool(tool) == Some(KeyboardTool::Select) <==> tool == Tool::Select,
        spec_keyboard_tool(tool) == Some(KeyboardTool::PickColor) <==> tool == Tool::PickColor,
        spec_keyboard_tool(tool) == Some(KeyboardTool::Pencil) <==> tool == Tool::Pencil,
{
}

/// Every pixel of an image can be aimed at and no other; a measurement aims at the
/// corners of the pixels, so one farther.
pub proof fn every_pixel_can_be_aimed_at(tool: KeyboardTool, size: (u32, u32))
    requires
        1 <= size.0,
        1 <= size.1,
    ensures
        tool == KeyboardTool::Measure ==> aim_limit(tool, size) == size,
        tool != KeyboardTool::Measure ==> aim_limit(tool, size).0 + 1 == size.0 && aim_limit(
            tool,
            size,
        ).1 + 1 == size.1,
{
}

/// The aim moves as far as it is told wherever that is on the image, and to the
/// border where it is not. It begins in the middle. The aimed pixel is counted
/// from one for those who cannot see it.
pub proof fn aims_move_as_told(
    window: WindowView,
    tool: KeyboardTool,
    from: (u32, u32),
    dx: i32,
    dy: i32,
)
    requires
        spec_keyboard_tool(window.session.tools.tool) == Some(tool),
        window.session.content.rendered is Some,
        window.aimed_at() == from,
    ensures
        ({
            let limit = aim_limit(tool, window.session.content.rendered->0);
            let after = window.move_keyboard_tool_cursor(dx, dy);
            let to = after.session.aim.cursor->0;
            &&& after.session.aim.cursor is Some
            &&& 0 <= from.0 + dx <= limit.0 ==> to.0 == from.0 + dx
            &&& 0 <= from.1 + dy <= limit.1 ==> to.1 == from.1 + dy
            &&& from.0 + dx < 0 ==> to.0 == 0
            &&& from.1 + dy < 0 ==> to.1 == 0
            &&& from.0 + dx > limit.0 ==> to.0 == limit.0
            &&& from.1 + dy > limit.1 ==> to.1 == limit.1
            &&& after.effects.last() matches Effect::Announce(
                Announcement::Cursor { column, row },
            ) && column == to.0 + 1 && row == to.1 + 1
            &&& tool == KeyboardTool::Measure ==> asks_for(
                window,
                after,
                Effect::ShowMeasurementCursor(Some(to)),
            )
            &&& tool != KeyboardTool::Measure ==> asks_for(
                window,
                after,
                Effect::ShowMarker(Some(to)),
            )
            &&& window.session.aim.cursor matches Some(cursor) ==> from == cursor
            &&& window.session.aim.cursor is None ==> {
                &&& limit.0 <= 2 * from.0 + 1 && 2 * from.0 <= limit.0
                &&& limit.1 <= 2 * from.1 + 1 && 2 * from.1 <= limit.1
            }
        }),
{
    reveal(WindowView::show_aim);
    let after = window.move_keyboard_tool_cursor(dx, dy);
    let to = after.session.aim.cursor->0;
    let place = window.effects.len() as int;
    if tool == KeyboardTool::Measure {
        assert(after.effects[place + 1] == Effect::ShowMeasurementCursor(Some(to)));
    } else {
        assert(after.effects[place + 1] == Effect::ShowMarker(Some(to)));
    }
}

/// While a region is marked by keyboard, the one between its first point and the aim
/// is shown.
pub proof fn regions_follow_the_aim(
    window: WindowView,
    anchor: (u32, u32),
    dx: i32,
    dy: i32,
    size: (u32, u32),
)
    requires
        window.session.tools.tool == Tool::Select,
        window.session.content.rendered == Some(size),
        window.session.aim.anchor == Some(anchor),
    ensures
        ({
            let after = window.move_keyboard_tool_cursor(dx, dy);
            &&& after.session.aim.anchor == Some(anchor)
            &&& asks_for(
                window,
                after,
                Effect::ShowCropOverlay(
                    spec_selection_overlay(
                        SelectionDrag {
                            start: anchor,
                            current: after.session.aim.cursor->0,
                            image_dimensions: size,
                        },
                    ),
                ),
            )
        }),
{
    reveal(WindowView::show_aim);
    let after = window.move_keyboard_tool_cursor(dx, dy);
    assert(after.effects[window.effects.len() as int + 2] is ShowCropOverlay);
}

/// Acting with a tool does at the aimed place what the tool is for: shapes are
/// placed as one new annotation, which is selected; a text is typed there; a
/// colour is read there.
pub proof fn acting_places_at_the_aim(
    window: WindowView,
    at: (u32, u32),
    size: (u32, u32),
    id: AnnotationId,
)
    requires
        window.session.content.has_document,
        window.session.content.rendered == Some(size),
    ensures
        ({
            let after = window.act_at(KeyboardTool::Highlight, at, id);
            &&& edits_just(window, after, Operation::CreateAnnotation(id))
            &&& selects(after, id, AnnotationKind::Highlight)
            &&& after.effects[window.effects.len() as int] == Effect::Prepare {
                id,
                draft: highlight_draft(at, size, id),
            }
        }),
        ({
            let after = window.act_at(KeyboardTool::Arrow, at, id);
            &&& edits_just(window, after, Operation::CreateAnnotation(id))
            &&& selects(after, id, AnnotationKind::Arrow)
            &&& after.effects[window.effects.len() as int] == Effect::Prepare {
                id,
                draft: arrow_draft(at, size),
            }
        }),
        ({
            let after = window.act_at(KeyboardTool::Pencil, at, id);
            &&& edits_just(window, after, Operation::CreateAnnotation(id))
            &&& selects(after, id, AnnotationKind::PencilDrawing)
            &&& asks_for(
                window,
                after,
                Effect::Prepare {
                    id,
                    draft: Draft::Dot { x: (2 * at.0 + 1) as i64, y: (2 * at.1 + 1) as i64 },
                },
            )
        }),
        ({
            let after = window.act_at(KeyboardTool::Text, at, id);
            &&& edits_nothing(window, after)
            &&& after.session.annotations.editor == Some(TextEditor { id, editing: false })
            &&& after.effects.last() == Effect::OpenTextEditor { id, place: EditorPlace::Pixel(at) }
        }),
        asks_just(
            window,
            window.act_at(KeyboardTool::PickColor, at, id),
            seq![Effect::PickPixel { x: at.0, y: at.1 }],
        ),
{
    reveal(WindowView::act_at);
    let place = window.effects.len() as int;
    let highlight = window.act_at(KeyboardTool::Highlight, at, id);
    assert(edits_at(window, highlight, place + 1, Operation::CreateAnnotation(id)));
    let arrow = window.act_at(KeyboardTool::Arrow, at, id);
    assert(edits_at(window, arrow, place + 1, Operation::CreateAnnotation(id)));
    let dot = window.act_at(KeyboardTool::Pencil, at, id);
    assert(edits_at(window, dot, place + 3, Operation::CreateAnnotation(id)));
    assert(dot.effects[place + 1] == Effect::Prepare {
        id,
        draft: Draft::Dot { x: (2 * at.0 + 1) as i64, y: (2 * at.1 + 1) as i64 },
    });
    assert(window.act_at(KeyboardTool::PickColor, at, id).effects =~= window.effects + seq![
        Effect::PickPixel { x: at.0, y: at.1 },
    ]);
}

/// A measurement takes two points: the first is only remembered, the second places
/// one new annotation between them, which is selected.
pub proof fn two_points_make_a_measurement(
    window: WindowView,
    first: (u32, u32),
    second: (u32, u32),
    size: (u32, u32),
    id: AnnotationId,
)
    requires
        window.session.tools.tool == Tool::Measure,
        window.session.content.has_document,
        window.session.content.rendered == Some(size),
        window.session.aim.anchor is None,
    ensures
        ({
            let started = window.act_at(KeyboardTool::Measure, first, id);
            let ended = started.act_at(KeyboardTool::Measure, second, id);
            &&& started.session.aim.anchor == Some(first)
            &&& asks_just(
                window,
                started,
                seq![Effect::Announce(Announcement::StartPointSet)],
            )
            &&& edits_just(started, ended, Operation::CreateAnnotation(id))
            &&& ended.effects[started.effects.len() as int] == Effect::Prepare {
                id,
                draft: measurement_draft(first, second),
            }
            &&& selects(ended, id, AnnotationKind::Measurement)
            &&& ended.session.aim.anchor is None
        }),
{
    reveal(WindowView::act_at);
    let started = window.act_at(KeyboardTool::Measure, first, id);
    let ended = started.act_at(KeyboardTool::Measure, second, id);
    assert(started.effects =~= window.effects + seq![
        Effect::Announce(Announcement::StartPointSet),
    ]);
    assert(edits_at(
        started,
        ended,
        started.effects.len() as int + 1,
        Operation::CreateAnnotation(id),
    ));
}

/// Acting with the active tool is acting where it is aimed: a shape is placed
/// there as one new annotation, which is selected.
pub proof fn activation_places_shapes_at_the_aim(
    window: WindowView,
    at: (u32, u32),
    size: (u32, u32),
    id: AnnotationId,
)
    requires
        window.session.tools.tool == Tool::Highlight || window.session.tools.tool == Tool::Arrow
            || window.session.tools.tool == Tool::Pencil,
        window.session.content.has_document,
        window.session.content.rendered == Some(size),
        window.session.aim.cursor == Some(at),
    ensures
        ({
            let after = window.activate_keyboard_tool(id);
            &&& asks_for(window, after, Effect::Apply(Operation::CreateAnnotation(id)))
            &&& after.session.annotations.selected == Some(id)
        }),
{
    let tool = spec_keyboard_tool(window.session.tools.tool)->0;
    let aimed = window.with_aim(KeyboardAim { cursor: Some(at), ..window.session.aim });
    assert(aimed == window);
    let shown = window.show_aim(false);
    assert(shown.session == window.session && keeps_asking(window, shown)) by {
        reveal(WindowView::show_aim);
    }
    acting_places_at_the_aim(shown, at, size, id);
    let after = window.activate_keyboard_tool(id);
    assert(after == shown.act_at(tool, at, id));
    let place = choose|place: int|
        #[trigger] edits_at(shown, after, place, Operation::CreateAnnotation(id));
    assert(after.effects[place] == Effect::Apply(Operation::CreateAnnotation(id)));
}

/// Acting with the active tool is acting where it is aimed: a text is typed there,
/// a colour is read there, and the first of two points is set there. Without a
/// tool, and while the image is scaled, it does nothing.
pub proof fn activation_acts_where_it_is_aimed(
    window: WindowView,
    at: (u32, u32),
    size: (u32, u32),
    id: AnnotationId,
)
    requires
        window.session.content.has_document,
        window.session.content.rendered == Some(size),
        window.session.aim.cursor == Some(at),
        window.session.aim.anchor is None,
    ensures
        ({
            let tool = window.session.tools.tool;
            let after = window.activate_keyboard_tool(id);
            &&& tool == Tool::Text ==> after.effects.last() == Effect::OpenTextEditor {
                id,
                place: EditorPlace::Pixel(at),
            }
            &&& tool == Tool::PickColor ==> after.effects.last() == Effect::PickPixel {
                x: at.0,
                y: at.1,
            }
            &&& tool == Tool::Measure || tool == Tool::Select ==> after.session.aim.anchor == Some(
                at,
            )
            &&& tool == Tool::Idle || tool == Tool::Scale ==> after == window
        }),
{
    let aimed = window.with_aim(KeyboardAim { cursor: Some(at), ..window.session.aim });
    assert(aimed == window);
    let shown = window.show_aim(false);
    assert(shown.session == window.session) by {
        reveal(WindowView::show_aim);
    }
    reveal(WindowView::act_at);
}

/// A highlight that is placed by keyboard is as large as it is meant to be, or as
/// the image allows, and lies around the aimed pixel: centred on it wherever there
/// is room on both sides, and never beside it.
pub proof fn highlights_surround_the_aim(at: (u32, u32), size: (u32, u32), id: AnnotationId)
    requires
        at.0 < size.0,
        at.1 < size.1,
    ensures
        highlight_draft(at, size, id) matches Draft::Highlight { x, y, width, height, .. } && {
            &&& size.0 >= 64 ==> width == 128
            &&& size.0 < 64 ==> width == 2 * size.0 && x == 0
            &&& size.1 >= 40 ==> height == 80
            &&& size.1 < 40 ==> height == 2 * size.1 && y == 0
            &&& x <= 2 * at.0 + 1 <= x + width
            &&& y <= 2 * at.1 + 1 <= y + height
            &&& 32 <= at.0 && at.0 + 33 <= size.0 ==> 2 * x + width == 2 * (2 * at.0 + 1)
            &&& 20 <= at.1 && at.1 + 21 <= size.1 ==> 2 * y + height == 2 * (2 * at.1 + 1)
        },
{
}

/// The outlines of two highlights never come from the same seed.
pub proof fn highlights_have_seeds_of_their_own(left: AnnotationId, right: AnnotationId)
    ensures
        highlight_seed(left) == highlight_seed(right) ==> left == right,
        highlight_seed(left) ^ left.0 == 0xD10A_AA73_9E37_79B9,
{
    let (one, other) = (left.0, right.0);
    assert(one ^ 0xD10A_AA73_9E37_79B9 == other ^ 0xD10A_AA73_9E37_79B9 ==> one == other)
        by (bit_vector);
    assert((one ^ 0xD10A_AA73_9E37_79B9) ^ one == 0xD10A_AA73_9E37_79B9) by (bit_vector);
}

/// An arrow that is placed by keyboard is eighty pixels long, or goes across the
/// image, and points through the aimed pixel: its middle is there wherever there
/// is room on both sides.
pub proof fn arrows_go_through_the_aim(at: (u32, u32), size: (u32, u32))
    requires
        at.0 < size.0,
    ensures
        arrow_draft(at, size) matches Draft::Arrow { start_x, control_x, end_x, y } && {
            &&& size.0 > 80 ==> end_x - start_x == 160
            &&& size.0 <= 80 ==> start_x == 1 && end_x == 2 * size.0 - 1
            &&& start_x <= 2 * at.0 + 1 <= end_x
            &&& 40 <= at.0 && at.0 + 41 <= size.0 ==> control_x == 2 * at.0 + 1
            &&& y == 2 * at.1 + 1
        },
{
}

/// A measurement runs along the longer of the two distances between its points,
/// from the lower to the higher, at the other coordinate of the first point. Its
/// length is that distance, whichever point was first.
pub proof fn measurements_span_the_longer_side(first: (u32, u32), second: (u32, u32))
    ensures
        ({
            let across = if first.0 < second.0 {
                second.0 - first.0
            } else {
                first.0 - second.0
            };
            let down = if first.1 < second.1 {
                second.1 - first.1
            } else {
                first.1 - second.1
            };
            measurement_draft(first, second) matches Draft::Measurement { axis, from, to, at } && {
                &&& axis == Axis::Horizontal <==> across >= down
                &&& axis == Axis::Horizontal ==> {
                    &&& to - from == 2 * across
                    &&& at == 2 * first.1
                    &&& from == 2 * first.0 || from == 2 * second.0
                    &&& from <= 2 * first.0 <= to
                }
                &&& axis == Axis::Vertical ==> {
                    &&& to - from == 2 * down
                    &&& at == 2 * first.0
                    &&& from == 2 * first.1 || from == 2 * second.1
                    &&& from <= 2 * first.1 <= to
                }
            }
        }),
{
}

/// Only the arrow keys move, each its own way; with Shift they move ten times as
/// far.
pub proof fn arrow_keys_move_their_own_way(key: Key, modifiers: Modifiers)
    ensures
        spec_arrow_step(key, modifiers) is Some <==> key == Key::Left || key == Key::Right || key
            == Key::Up || key == Key::Down,
        ({
            let far: int = if modifiers.shift {
                10
            } else {
                1
            };
            &&& spec_arrow_step(Key::Left, modifiers) == Some((-far, 0int))
            &&& spec_arrow_step(Key::Right, modifiers) == Some((far, 0int))
            &&& spec_arrow_step(Key::Up, modifiers) == Some((0int, -far))
            &&& spec_arrow_step(Key::Down, modifiers) == Some((0int, far))
        }),
        spec_is_activation(key) <==> key == Key::Space || key == Key::Return || key
            == Key::KeypadEnter,
        is_enter(key) <==> key == Key::Return || key == Key::KeypadEnter,
        modifiers.spec_command() <==> modifiers.control || modifiers.alt || modifiers.logo
            || modifiers.hyper || modifiers.meta,
{
}

/// Right leads to the next image and Left to the one before; with a modifier, or
/// where a tool has the arrow keys, neither leads anywhere.
pub proof fn arrow_keys_lead_both_ways(window: WindowView, modifiers: Modifiers)
    ensures
        ({
            let bare = !modifiers.shift && !modifiers.control && !modifiers.alt && !modifiers.logo
                && !modifiers.hyper && !modifiers.meta;
            let leads = bare && window.session.tools.tool == Tool::Idle;
            &&& window.navigation_key(Key::Right, modifiers).1 <==> leads
            &&& window.navigation_key(Key::Left, modifiers).1 <==> leads
            &&& leads ==> window.navigation_key(Key::Right, modifiers).0 == window.navigate(true)
            &&& leads ==> window.navigation_key(Key::Left, modifiers).0 == window.navigate(false)
            &&& !window.navigation_key(Key::Up, modifiers).1
            &&& !window.navigation_key(Key::Down, modifiers).1
            &&& spec_image_navigation_direction(Key::Right, modifiers, false) != Some(false)
            &&& spec_image_navigation_direction(Key::Left, modifiers, false) != Some(true)
        }),
{
}

/// While the pencil is active, plus and equals zoom in and minus zooms out, with
/// Shift and Control too; without the pencil, or with another modifier, they are
/// left to others.
pub proof fn zoom_keys_go_their_own_way(window: WindowView, key: Key, modifiers: Modifiers)
    ensures
        ({
            let listens = window.session.tools.tool == Tool::Pencil && !modifiers.alt
                && !modifiers.logo && !modifiers.hyper && !modifiers.meta;
            let closer = key == Key::Plus || key == Key::Equal || key == Key::KeypadAdd;
            let farther = key == Key::Minus || key == Key::KeypadSubtract;
            &&& window.zoom_key(key, modifiers).1 <==> listens && (closer || farther)
            &&& listens && closer ==> window.zoom_key(key, modifiers).0 == window.step_zoom(true)
            &&& listens && farther ==> window.zoom_key(key, modifiers).0 == window.step_zoom(false)
            &&& spec_pencil_zoom_key(key, modifiers, true) == Some(PencilZoomKey::In) ==> closer
            &&& spec_pencil_zoom_key(key, modifiers, true) == Some(PencilZoomKey::Out) ==> farther
        }),
{
}

/// A key on the canvas goes to the first of these that wants it: the selected
/// annotation, the scaling that Enter confirms, the selected region that it zooms
/// to, the active tool. With a command modifier it is left to the shortcuts, and a
/// text that is typed keeps its keys.
pub proof fn canvas_keys_have_an_order(
    window: WindowView,
    key: Key,
    modifiers: Modifiers,
    id: AnnotationId,
)
    requires
        window.session.annotations.selected is None,
        window.session.tools.tool != Tool::Idle,
    ensures
        modifiers.control || modifiers.alt || modifiers.logo || modifiers.hyper || modifiers.meta
            ==> {
            &&& !window.canvas_key(key, modifiers, id).1
            &&& !window.window_key(key, modifiers, false).1
        },
        !window.window_key(key, modifiers, true).1,
        !modifiers.control && !modifiers.alt && !modifiers.logo && !modifiers.hyper
            && !modifiers.meta ==> {
            let (after, claimed) = window.canvas_key(key, modifiers, id);
            let acts = key == Key::Space || key == Key::Return || key == Key::KeypadEnter;
            let scaling = window.session.tools.tool == Tool::Scale;
            let aims = !scaling && window.session.content.rendered is Some;
            if scaling && (key == Key::Return || key == Key::KeypadEnter) {
                claimed && after == window.confirm_scale_preview()
            } else if acts && window.session.region.selection is Some {
                claimed && asks_just(
                    window,
                    after,
                    seq![Effect::MeasureRegionZoom(window.session.region.selection->0)],
                )
            } else if scaling {
                !claimed
            } else if acts {
                claimed && after == window.activate_keyboard_tool(id)
            } else if aims && key == Key::Right {
                claimed && after == window.move_keyboard_tool_cursor(
                    if modifiers.shift {
                        10
                    } else {
                        1
                    },
                    0,
                )
            } else if aims && key == Key::Down {
                claimed && after == window.move_keyboard_tool_cursor(
                    0,
                    if modifiers.shift {
                        10
                    } else {
                        1
                    },
                )
            } else if aims && key == Key::Left {
                claimed && after == window.move_keyboard_tool_cursor(
                    if modifiers.shift {
                        -10i32
                    } else {
                        -1i32
                    },
                    0,
                )
            } else if aims && key == Key::Up {
                claimed && after == window.move_keyboard_tool_cursor(
                    0,
                    if modifiers.shift {
                        -10i32
                    } else {
                        -1i32
                    },
                )
            } else {
                !claimed
            }
        },
{
    reveal(WindowView::handle_annotation_key);
    if window.session.region.selection is Some {
        assert(window.zoom_selected_region().effects =~= window.effects + seq![
            Effect::MeasureRegionZoom(window.session.region.selection->0),
        ]);
    }
}

/// Releasing Control ends a chain of lines, on either side of the keyboard; no
/// other key does.
pub proof fn control_chains_lines(window: WindowView, key: Key)
    ensures
        key == Key::ControlLeft || key == Key::ControlRight ==> {
            let after = window.canvas_key_released(key);
            &&& after.session.pencil.line_anchor is None
            &&& after.session.pencil.line_annotation is None
        },
        key != Key::ControlLeft && key != Key::ControlRight ==> window.canvas_key_released(key)
            == window,
{
}

/// A bare Space starts the preview, unless a dialog is open or a text has the
/// keys; nothing else does.
pub proof fn space_starts_the_preview(
    key: Key,
    modifiers: Modifiers,
    dialog_open: bool,
    text_focused: bool,
)
    ensures
        ({
            let bare = !modifiers.shift && !modifiers.control && !modifiers.alt && !modifiers.logo
                && !modifiers.hyper && !modifiers.meta;
            let meaning = spec_fullscreen_preview_key(
                key,
                modifiers,
                false,
                dialog_open,
                text_focused,
            );
            &&& meaning == PreviewKey::Show <==> key == Key::Space && bare && !dialog_open
                && !text_focused
            &&& meaning == PreviewKey::Show || meaning == PreviewKey::Pass
        }),
{
}

} // verus!
