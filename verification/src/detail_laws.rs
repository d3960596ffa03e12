//! What the parts of the window make of what they are given.

use crate::actions::{Action, ZoomPreset};
use crate::annotation::{
    placed_kind, spec_limited_text, spec_restyled, straightened, AnnotationStyle, BentShape, Hit,
    PreviewQueue, TEXT_LIMIT,
};
use crate::canvas_resize::spec_canvas_choice;
use crate::effect::{AnnotationKind, Effect};
use crate::file_state::{spec_source_revision_changed, LocationView, Timestamp};
use crate::keys::PencilDragMode;
use crate::loading_laws::{loads_are_started, loads_follow_the_mode};
use crate::menu::{spec_edit_menu, spec_main_menu, MenuItemView};
use crate::navigation::lists_first;
use crate::opening::{first_session, named_by_the_user, no_files, opened, OpeningSettings};
use crate::pencil::{
    sampled_text, spec_pencil_drag_shape, spec_pencil_line_start, PencilShape,
};
use crate::pixels::{
    cropped_bytes, has_transparency, packed_rows, source_of, spec_content_detection, texture_error,
    ContentDetection, PixelsView, Texture,
};
use crate::preview_cache::{after_get, holds, value_of, without};
use crate::scale::{spec_scale_unit, ScaleUnit};
use crate::text::{decimal, hex_byte};
use crate::tool::Tool;
use crate::window::{HitKind, WindowView};
use vstd::prelude::*;

verus! {

/// A double click on the bending point of an arrow straightens it and leaves its
/// ends; one elsewhere leaves it.
pub proof fn only_bending_points_straighten<P>(start: P, end: P, control: P, midpoint: P, hit: HitKind)
    ensures
        straightened(
            BentShape::Arrow { start, end, control },
            HitKind::ControlHandle,
            midpoint,
        ) == (BentShape::Arrow { start, end, control: midpoint }),
        hit != HitKind::ControlHandle ==> straightened(
            BentShape::Arrow { start, end, control },
            hit,
            midpoint,
        ) == (BentShape::Arrow { start, end, control }),
        straightened(BentShape::<P>::Other, hit, midpoint) == BentShape::<P>::Other,
{
}

/// A colour that is chosen is the one of the annotation, and so is a size, but for
/// highlights and measurements, which have their own. What is not chosen stays.
pub proof fn chosen_styles_are_taken<N>(
    kind: AnnotationKind,
    style: AnnotationStyle<N>,
    color: [u8; 4],
    size: N,
    highlight: N,
    measurement: N,
)
    ensures
        spec_restyled(kind, style, Some(color), None, highlight, measurement).color == color,
        spec_restyled(kind, style, None, Some(size), highlight, measurement).color == style.color,
        kind != AnnotationKind::Highlight && kind != AnnotationKind::Measurement ==> {
            &&& spec_restyled(kind, style, None, Some(size), highlight, measurement).size == size
            &&& spec_restyled(kind, style, Some(color), None, highlight, measurement).size
                == style.size
        },
        kind == AnnotationKind::Highlight ==> spec_restyled(
            kind,
            style,
            None,
            Some(size),
            highlight,
            measurement,
        ).size == highlight,
        kind == AnnotationKind::Measurement ==> spec_restyled(
            kind,
            style,
            None,
            Some(size),
            highlight,
            measurement,
        ).size == measurement,
{
}

/// A text is kept as it is up to 256 characters, and to its first 256 beyond them.
pub proof fn long_texts_are_cut(text: Seq<char>)
    ensures
        TEXT_LIMIT == 256,
        text.len() <= 256 ==> spec_limited_text(text) == text,
        spec_limited_text(text).len() <= 256,
        text.len() > 256 ==> spec_limited_text(text).len() == 256,
        forall|index: int|
            0 <= index < spec_limited_text(text).len() ==> #[trigger] spec_limited_text(text)[index]
                == text[index],
{
}

/// Each tool that places shapes places those that it is named for.
pub proof fn tools_place_their_own(tool: Tool)
    ensures
        placed_kind(Tool::Highlight) == Some(AnnotationKind::Highlight),
        placed_kind(Tool::Arrow) == Some(AnnotationKind::Arrow),
        placed_kind(Tool::Measure) == Some(AnnotationKind::Measurement),
        placed_kind(Tool::Text) == Some(AnnotationKind::Text),
        placed_kind(tool) is Some <==> tool.spec_is_vector_annotation(),
        tool.spec_is_vector_annotation() <==> tool == Tool::Highlight || tool == Tool::Arrow || tool
            == Tool::Measure || tool == Tool::Text,
        tool.spec_is_annotation() <==> tool == Tool::Pencil || tool == Tool::Highlight || tool
            == Tool::Arrow || tool == Tool::Measure || tool == Tool::Text,
{
}

/// A preview that is new waits for the next frame, in place of the one before; one
/// that waits already, or is on display with none due, changes nothing.
pub proof fn new_previews_wait<T: PartialEq>(
    queue: PreviewQueue<T>,
    preview: T,
    displayed: Option<T>,
)
    ensures
        queue.knows(preview, displayed) ==> queue.pushed(preview, displayed) == queue,
        !queue.knows(preview, displayed) ==> {
            &&& queue.pushed(preview, displayed).pending == Some(preview)
            &&& queue.pushed(preview, displayed).scheduled
        },
        queue.pending is None && queue.scheduled ==> !queue.knows(preview, displayed),
        queue.pending is None && displayed is None ==> !queue.knows(preview, displayed),
{
}

/// A stroke is made of the points that its mode calls for: a line goes from where it
/// starts, a rectangle and a circle from where the pointer went down, each to where
/// the pointer is. Only a line continues another.
pub proof fn strokes_are_made_of_their_points<P>(origin: P, start: P, current: P, mode: PencilDragMode)
    ensures
        spec_pencil_drag_shape(PencilDragMode::Line, origin, start, current) == (
        PencilShape::Line { start, end: current }),
        spec_pencil_drag_shape(PencilDragMode::Rectangle, origin, start, current) == (
        PencilShape::Rectangle { start: origin, end: current }),
        spec_pencil_drag_shape(PencilDragMode::Circle, origin, start, current) == (
        PencilShape::Circle { center: origin, edge: current }),
        spec_pencil_drag_shape(PencilDragMode::Freehand, origin, start, current)
            == PencilShape::<P>::Smoothed,
        spec_pencil_line_start(PencilDragMode::Line, Some(start), origin) == start,
        spec_pencil_line_start(PencilDragMode::Line, None, origin) == origin,
        mode != PencilDragMode::Line ==> spec_pencil_line_start(mode, Some(start), origin)
            == origin,
{
}

/// A sampled colour is told with all four channels, in hexadecimal and in decimal.
pub proof fn sampled_colours_are_told_twice(color: [u8; 4])
    ensures
        sampled_text(color) == "#"@ + hex_byte(color[0]) + hex_byte(color[1]) + hex_byte(color[2])
            + hex_byte(color[3]) + " · rgba("@ + decimal(color[0] as nat) + ", "@ + decimal(
            color[1] as nat,
        ) + ", "@ + decimal(color[2] as nat) + ", "@ + decimal(color[3] as nat) + ")"@,
{
}

/// A canvas that is not too large can be applied where it is another one than the
/// image has; one that is too large cannot, and is told to be.
pub proof fn canvases_are_offered_where_they_fit(
    width: u32,
    height: u32,
    original: (u32, u32),
    max_bytes: u64,
)
    ensures
        ({
            let choice = spec_canvas_choice(width, height, original, max_bytes);
            &&& choice.too_large <==> width * height * 4 > max_bytes
            &&& choice.too_large ==> !choice.applies
            &&& !choice.too_large ==> (choice.applies <==> width != original.0 || height
                != original.1)
        }),
{
}

/// A pixel of a part of an image is the pixel of the image at the same place, counted
/// from the corner of the part.
pub proof fn parts_hold_the_pixels_of_the_image(
    pixels: PixelsView,
    x: u32,
    y: u32,
    width: u32,
    height: u32,
    column: int,
    row: int,
    channel: int,
)
    requires
        0 <= column < width,
        0 <= row < height,
        0 <= channel < 4,
    ensures
        cropped_bytes(pixels, x, y, width, height).len() == 4 * width * height,
        cropped_bytes(pixels, x, y, width, height)[4 * (row * width + column) + channel]
            == pixels.bytes[4 * ((y + row) * pixels.width + (x + column)) + channel],
{
    let index = 4 * (row * width + column) + channel;
    let line = 4 * width as int;
    let rest = 4 * column + channel;
    assert(0 <= 4 * width * height) by (nonlinear_arith)
        requires
            0 <= width,
            0 <= height,
    ;
    assert(index == row * line + rest) by (nonlinear_arith)
        requires
            index == 4 * (row * width + column) + channel,
            line == 4 * width,
            rest == 4 * column + channel,
    ;
    vstd::arithmetic::div_mod::lemma_fundamental_div_mod_converse(index, line, row, rest);
    assert(0 <= index < 4 * width * height) by (nonlinear_arith)
        requires
            index == row * line + rest,
            line == 4 * width,
            0 <= rest < line,
            0 <= row < height,
    ;
    assert(source_of(pixels.width as int, x as int, y as int, width as int, index) == ((y + row)
        * pixels.width + x) * 4 + rest);
    assert(((y + row) * pixels.width + x) * 4 + rest == 4 * ((y + row) * pixels.width + (x
        + column)) + channel) by (nonlinear_arith)
        requires
            rest == 4 * column + channel,
    ;
}

/// A pixel of a picture is found in the row that it stands in, whatever lies between
/// the rows.
pub proof fn pixels_are_read_from_their_rows(texture: Texture, column: int, row: int, channel: int)
    requires
        0 <= column < texture.width,
        0 <= row < texture.height,
        0 <= channel < 4,
    ensures
        packed_rows(texture)[4 * (row * texture.width + column) + channel]
            == texture.bytes@[row * texture.stride + 4 * column + channel],
{
    let index = 4 * (row * texture.width + column) + channel;
    let line = 4 * texture.width as int;
    let rest = 4 * column + channel;
    assert(index == row * line + rest) by (nonlinear_arith)
        requires
            index == 4 * (row * texture.width + column) + channel,
            line == 4 * texture.width,
            rest == 4 * column + channel,
    ;
    vstd::arithmetic::div_mod::lemma_fundamental_div_mod_converse(index, line, row, rest);
    assert(0 <= index < line * texture.height) by (nonlinear_arith)
        requires
            index == row * line + rest,
            0 <= rest < line,
            0 <= row < texture.height,
    ;
}

/// An image goes to the screen where its sides can be counted there.
pub proof fn images_go_to_the_screen(width: u32, height: u32)
    ensures
        texture_error(width, height) is None ==> width <= i32::MAX && height <= i32::MAX,
        width <= i32::MAX && height <= i32::MAX && 4 * width <= usize::MAX ==> texture_error(
            width,
            height,
        ) is None,
{
}

/// The content of an image is told by its alpha where a pixel lets something through,
/// and by its colours where all are opaque.
pub proof fn content_is_told_by_alpha_or_colour(pixels: PixelsView, pixel: int)
    ensures
        0 <= pixel < pixels.width * pixels.height && pixels.bytes[4 * pixel + 3] < 255
            ==> spec_content_detection(pixels) is Alpha,
        (forall|other: int|
            0 <= other < pixels.width * pixels.height ==> #[trigger] pixels.bytes[4 * other + 3]
                == 255) ==> spec_content_detection(pixels) is Opaque,
        spec_content_detection(pixels) matches ContentDetection::Alpha { threshold } ==> threshold
            == 1,
        spec_content_detection(pixels) matches ContentDetection::Opaque { tolerance } ==> tolerance
            == 16,
{
    if 0 <= pixel < pixels.width * pixels.height && pixels.bytes[4 * pixel + 3] < 255 {
        assert(has_transparency(pixels));
    }
}

/// The folder is listed before a deletion just where the next image is not known and
/// the user did not name the images.
pub proof fn folders_are_listed_for_the_next_image(known: bool)
    ensures
        lists_first(false, false),
        !lists_first(true, known),
        !lists_first(known, true),
{
}

/// A file of this machine has changed where its time is another one; of a file
/// elsewhere that cannot be told, so that it counts as changed.
pub proof fn times_tell_of_changes(previous: Option<Timestamp>, current: Option<Timestamp>)
    ensures
        spec_source_revision_changed(previous, current, false),
        !spec_source_revision_changed(previous, previous, true),
        previous != current ==> spec_source_revision_changed(previous, current, true),
{
}

/// The units of the scaling controls stand in their rows.
pub proof fn units_stand_in_their_rows(index: u32)
    ensures
        spec_scale_unit(0) == ScaleUnit::Pixels,
        spec_scale_unit(1) == ScaleUnit::Percent,
        index > 1 ==> spec_scale_unit(index) == ScaleUnit::Pixels,
{
}

/// While the pointer passes over the image with a tool that draws, the handle under
/// it stands out, the measuring tool has its crosshair, and the pointer is hidden
/// where that measures the bare image. Nothing changes while something is dragged or
/// beside the image, and other tools show nothing.
pub proof fn hovering_shows_what_is_under_it(window: WindowView, inside: bool, hit: Option<Hit>)
    ensures
        ({
            let tool = window.session.tools.tool;
            let draws = tool == Tool::Pencil || tool == Tool::Highlight || tool == Tool::Arrow
                || tool == Tool::Measure || tool == Tool::Text;
            let hover = window.annotation_hover(inside, hit);
            &&& hover is Some <==> draws
            &&& hover matches Some(hover) ==> {
                &&& hover.measuring <==> tool == Tool::Measure
                &&& hover.look is Some <==> inside && window.session.annotations.drag is None
                &&& hover.look matches Some(look) ==> {
                    &&& look.handles <==> window.session.annotations.selected is Some
                        && window.session.content.selected_kind is Some
                    &&& look.hot <==> (hit matches Some(hit) && (hit.part == HitKind::Handle
                        || hit.part == HitKind::ControlHandle))
                    &&& look.hidden <==> hit is None && tool == Tool::Measure
                }
            }
        }),
{
}

/// A window begins with what the settings say, without an image, a tool or anything
/// to go back to; several files that could be listed are the images to navigate.
pub proof fn windows_begin_as_they_are_set(
    settings: OpeningSettings,
    explicit: bool,
    has_neighbors: bool,
    files: nat,
    length: usize,
)
    ensures
        ({
            let window = opened(settings, explicit, has_neighbors, None);
            let session = window.session;
            &&& session == first_session(settings, explicit, has_neighbors)
            &&& window.files == no_files()
            &&& window.files.current is None && window.files.comparison is None
            &&& session.zooming.mode == settings.zoom_mode
            &&& session.zooming.filter == settings.zoom_filter
            &&& session.zooming.pending_fit is None
            &&& session.scaling.method == settings.scale_method
            &&& session.scaling.unit == ScaleUnit::Pixels
            &&& session.scaling.locked
            &&& session.scaling.source is None
            &&& session.tools.tool == Tool::Idle && session.tools.return_tool is None
            &&& session.content.texture is None && !session.content.has_document
            &&& session.content.rendered is None && !session.content.dirty
            &&& !session.content.can_undo && !session.content.can_redo
            &&& session.content.has_neighbors == has_neighbors
            &&& session.annotations.selected is None && session.annotations.drag is None
            &&& session.annotations.editor is None && session.annotations.nudged is None
            &&& session.region.selection is None && session.region.drag is None
            &&& session.pencil.drag is None && session.pencil.line_anchor is None
            &&& !session.comparison.active && !session.comparison.lens_active
            &&& session.animation.frames == 0
            &&& session.flags.explicit_navigation == explicit
            &&& session.flags.has_sequence == explicit
            &&& !session.flags.close_approved && !session.flags.export_running
            &&& !session.flags.deletion_running && !session.flags.external_conflict
            &&& session.pending_discard is None
            &&& window.effects == seq![Effect::UpdateActionStates]
        }),
        named_by_the_user(files, Some(length)) <==> files > 1,
        !named_by_the_user(files, None),
{
}

/// A window about a file begins to load it, and fits it.
pub proof fn opened_files_are_loaded(
    settings: OpeningSettings,
    explicit: bool,
    has_neighbors: bool,
    file: LocationView,
)
    ensures
        ({
            let window = opened(settings, explicit, has_neighbors, Some(file));
            &&& window.effects.last() == Effect::StartLoad {
                generation: window.session.generations.load,
            }
            &&& window.session.zooming.fit_on_load == Some(false)
        }),
{
    let empty = opened(settings, explicit, has_neighbors, None);
    loads_are_started(empty, file, true);
    loads_follow_the_mode(empty, file);
}

/// A picture that is looked up comes first and stays what it was; the others keep
/// their order behind it.
pub proof fn looked_up_pictures_come_first(entries: Seq<(Seq<char>, u64)>, key: Seq<char>)
    ensures
        holds(entries, key) ==> {
            &&& after_get(entries, key)[0] == (key, value_of(entries, key))
            &&& after_get(entries, key).skip(1) == without(entries, key)
        },
        !holds(entries, key) ==> after_get(entries, key) == entries,
{
    if holds(entries, key) {
        assert(after_get(entries, key).skip(1) =~= without(entries, key));
    }
}

/// What an action is called in the menus.
pub open spec fn menu_label(action: Action) -> Seq<char> {
    match action {
        Action::Open => "Open…"@,
        Action::OpenWith => "Open With…"@,
        Action::CopyImage => "Copy Image or Selection"@,
        Action::Save => "Save"@,
        Action::SaveAs => "Save As…"@,
        Action::Compare => "Compare Images…"@,
        Action::Lens => "Magnifying Lens"@,
        Action::Properties => "Image Properties"@,
        Action::Preferences => "Preferences"@,
        Action::Shortcuts => "Keyboard Shortcuts"@,
        Action::About => "About Diorama"@,
        Action::Pencil => "Pencil"@,
        Action::Highlight => "Highlight"@,
        Action::Arrow => "Arrow"@,
        Action::Measure => "Measure"@,
        Action::Text => "Text"@,
        Action::Select => "Select Region"@,
        Action::RotateCounterclockwise => "Rotate Counterclockwise"@,
        Action::RotateClockwise => "Rotate Clockwise"@,
        Action::FlipHorizontal => "Flip Horizontally"@,
        Action::FlipVertical => "Flip Vertically"@,
        Action::ScalePreview => "Scale"@,
        _ => ""@,
    }
}

/// Every line of the menus calls the action that it names, and no action is called by
/// two lines of a menu.
pub proof fn menu_lines_call_what_they_name(index: int, other: int)
    ensures
        0 <= index < spec_edit_menu().len() ==> spec_edit_menu()[index].label == menu_label(
            spec_edit_menu()[index].action,
        ),
        0 <= index < other < spec_edit_menu().len() ==> spec_edit_menu()[index].action
            != spec_edit_menu()[other].action,
        0 <= index < spec_main_menu().len() ==> (spec_main_menu()[index] matches MenuItemView::Entry(
            entry,
        ) ==> entry.label == menu_label(entry.action)),
        spec_edit_menu().len() == 11,
        spec_main_menu().len() == 12,
{
}

/// The actions that zoom to a percentage are called by it, and those of a tool like
/// the tool.
pub proof fn actions_are_called_by_what_they_do()
    ensures
        Action::Pencil.spec_name() == Tool::Pencil.spec_name(),
        Action::Highlight.spec_name() == Tool::Highlight.spec_name(),
        Action::Arrow.spec_name() == Tool::Arrow.spec_name(),
        Action::Measure.spec_name() == Tool::Measure.spec_name(),
        Action::Text.spec_name() == Tool::Text.spec_name(),
        Action::PickColor.spec_name() == Tool::PickColor.spec_name(),
        Action::Select.spec_name() == Tool::Select.spec_name(),
        Action::Scale.spec_name() == Tool::Scale.spec_name(),
        Action::ZoomTo(ZoomPreset::Whole).spec_name() == "zoom-100"@,
        Action::ZoomTo(ZoomPreset::Quarter).spec_name() == "zoom-25"@,
        Action::ZoomTo(ZoomPreset::Half).spec_name() == "zoom-50"@,
        Action::ZoomTo(ZoomPreset::Twofold).spec_name() == "zoom-200"@,
{
}

} // verus!
