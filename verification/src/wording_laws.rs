//! What numbers, colours, times and files look like in words.

use crate::color::{
    alpha_text, alpha_thousandths, channels_text, color_text, hex_text, rgb_text, shortened,
    space_suffix, spec_color_format_at, spec_color_format_index, thousandths_text,
    without_trailing, ColorComponents, ColorFormat,
};
use crate::description::{
    spec_canvas_label, spec_copied_text, spec_display_name, spec_location, spec_metadata_summary,
    presence_text, MetadataPresence,
};
use crate::file_state::{
    escaped, escaped_character, percent_bytes, stands_plain, LocationView, Timestamp,
};
use crate::preferences::{
    spec_filter_for, spec_lens_diameter_at, spec_lens_size_index, spec_open_with_was_cancelled,
    Background, LaunchError,
};
use crate::presentation::{
    age_unit, amount_text, dimensions_text, folder_text, relative_time_text, seconds_between,
    AgeUnit,
};
use crate::text::{decimal, digit_char, hex_byte};
use crate::tool::Tool;
use crate::window::{WindowView, ZoomFilter};
use vstd::prelude::*;
use vstd::utf8::encode_utf8;

verus! {

/// The number that a digit stands for.
pub open spec fn digit_value(digit: char) -> int {
    if '0' <= digit <= '9' {
        digit as int - '0' as int
    } else {
        digit as int - 'A' as int + 10
    }
}

/// The number that some decimal digits stand for.
pub open spec fn number_of(text: Seq<char>) -> int
    decreases text.len(),
{
    if text.len() == 0 {
        0
    } else {
        10 * number_of(text.drop_last()) + digit_value(text.last())
    }
}

/// A digit stands for the number that it was written for.
pub proof fn digits_are_read_back(digit: nat)
    requires
        digit < 16,
    ensures
        digit_value(digit_char(digit)) == digit,
        digit < 10 ==> '0' <= digit_char(digit) <= '9',
        digit >= 10 ==> 'A' <= digit_char(digit) <= 'F',
{
}

/// A number in decimal is read back as that number, is written in digits alone and
/// begins with no zero unless it is zero.
pub proof fn decimals_are_read_back(value: nat)
    ensures
        number_of(decimal(value)) == value,
        decimal(value).len() > 0,
        value > 0 ==> decimal(value)[0] != '0',
        forall|index: int|
            0 <= index < decimal(value).len() ==> '0' <= #[trigger] decimal(value)[index] <= '9',
    decreases value,
{
    reveal_with_fuel(number_of, 2);
    if value < 10 {
        digits_are_read_back(value);
        assert(decimal(value).drop_last() =~= Seq::<char>::empty());
    } else {
        decimals_are_read_back(value / 10);
        digits_are_read_back(value % 10);
        let front = decimal(value / 10);
        let text = decimal(value);
        assert(text.drop_last() =~= front);
        assert forall|index: int| 0 <= index < text.len() implies '0' <= #[trigger] text[index]
            <= '9' by {
            if index < front.len() {
                assert(text[index] == front[index]);
            }
        }
    }
}

/// Two numbers that are written alike are the same.
pub proof fn decimals_differ(left: nat, right: nat)
    ensures
        decimal(left) == decimal(right) ==> left == right,
{
    decimals_are_read_back(left);
    decimals_are_read_back(right);
}

/// A byte is written in two hexadecimal digits, the higher one first.
pub proof fn bytes_are_read_back(byte: u8)
    ensures
        hex_byte(byte).len() == 2,
        16 * digit_value(hex_byte(byte)[0]) + digit_value(hex_byte(byte)[1]) == byte,
{
    digits_are_read_back(byte as nat / 16);
    digits_are_read_back(byte as nat % 16);
}

/// A colour in hexadecimal is a hash and two digits for red, green and blue, in this
/// order; a colour that is not opaque has two more for its opacity.
pub proof fn hexadecimal_colours_are_read_back(color: [u8; 4])
    ensures
        ({
            let text = hex_text(color);
            &&& text[0] == '#'
            &&& text.len() == if color[3] == 255 {
                7int
            } else {
                9int
            }
            &&& 16 * digit_value(text[1]) + digit_value(text[2]) == color[0]
            &&& 16 * digit_value(text[3]) + digit_value(text[4]) == color[1]
            &&& 16 * digit_value(text[5]) + digit_value(text[6]) == color[2]
            &&& color[3] != 255 ==> 16 * digit_value(text[7]) + digit_value(text[8]) == color[3]
        }),
{
    reveal_strlit("#");
    bytes_are_read_back(color[0]);
    bytes_are_read_back(color[1]);
    bytes_are_read_back(color[2]);
    bytes_are_read_back(color[3]);
}

/// The opacity is told to the nearest thousandth: nothing for nothing, one for the
/// whole.
pub proof fn opacities_are_told_to_the_nearest(alpha: u8)
    ensures
        -255 <= 2 * (255 * alpha_thousandths(alpha) - 1000 * alpha) <= 255,
        alpha_thousandths(0) == 0,
        alpha_thousandths(255) == 1000,
        alpha_thousandths(alpha) <= 1000,
{
}

/// A number of thousandths is written with its whole and its three decimals.
pub proof fn thousandths_are_read_back(thousandths: nat)
    requires
        thousandths <= 1000,
    ensures
        ({
            let text = thousandths_text(thousandths);
            &&& text.len() == 5
            &&& text[1] == '.'
            &&& 1000 * digit_value(text[0]) + 100 * digit_value(text[2]) + 10 * digit_value(text[3])
                + digit_value(text[4]) == thousandths
        }),
{
    digits_are_read_back(thousandths / 1000);
    digits_are_read_back(thousandths / 100 % 10);
    digits_are_read_back(thousandths / 10 % 10);
    digits_are_read_back(thousandths % 10);
}

/// What is dropped from the end of a text is that character alone, and all of it.
pub proof fn only_trailing_characters_are_dropped(text: Seq<char>, dropped: char)
    ensures
        ({
            let kept = without_trailing(text, dropped);
            &&& kept.len() <= text.len()
            &&& kept == text.take(kept.len() as int)
            &&& kept.len() > 0 ==> kept.last() != dropped
            &&& forall|index: int|
                kept.len() <= index < text.len() ==> #[trigger] text[index] == dropped
        }),
    decreases text.len(),
{
    let kept = without_trailing(text, dropped);
    if text.len() > 0 && text.last() == dropped {
        let front = text.drop_last();
        only_trailing_characters_are_dropped(front, dropped);
        assert(front.take(kept.len() as int) =~= text.take(kept.len() as int));
        assert forall|index: int| kept.len() <= index < text.len() implies #[trigger] text[index]
            == dropped by {
            if index < front.len() {
                assert(text[index] == front[index]);
            }
        }
    } else {
        assert(text.take(text.len() as int) =~= text);
    }
}

/// A number that is shortened ends in no point, loses nothing but zeros and the
/// point, and begins as it did.
pub proof fn shortened_numbers_keep_their_digits(text: Seq<char>)
    ensures
        ({
            let short = shortened(text);
            &&& short.len() <= text.len()
            &&& short == text.take(short.len() as int)
            &&& short.len() > 0 ==> short.last() != '.'
            &&& forall|index: int|
                short.len() <= index < text.len() ==> #[trigger] text[index] == '0' || text[index]
                    == '.'
        }),
{
    let middle = without_trailing(text, '0');
    let short = shortened(text);
    only_trailing_characters_are_dropped(text, '0');
    only_trailing_characters_are_dropped(middle, '.');
    assert(middle.take(short.len() as int) =~= text.take(short.len() as int));
    assert forall|index: int| short.len() <= index < text.len() implies #[trigger] text[index]
        == '0' || text[index] == '.' by {
        if index < middle.len() {
            assert(text[index] == middle[index]);
        }
    }
}

/// The notations of a colour tell its channels, or its coordinates, in their order,
/// and its opacity just where it is not opaque.
pub proof fn colours_are_written_in_their_notation(color: [u8; 4], components: ColorComponents)
    ensures
        color_text(color, ColorFormat::Hex, components) == hex_text(color),
        color_text(color, ColorFormat::Rgb, components) == rgb_text(color),
        channels_text(color) == decimal(color[0] as nat) + ", "@ + decimal(color[1] as nat) + ", "@
            + decimal(color[2] as nat),
        color[3] == 255 ==> {
            &&& rgb_text(color) == "rgb("@ + channels_text(color) + ")"@
            &&& space_suffix(color[3]) == ")"@
        },
        color[3] != 255 ==> {
            &&& rgb_text(color) == "rgba("@ + channels_text(color) + ", "@ + alpha_text(color[3])
                + ")"@
            &&& space_suffix(color[3]) == " / "@ + alpha_text(color[3]) + ")"@
        },
        color_text(color, ColorFormat::Oklab, components) == "oklab("@ + shortened(
            components.first@,
        ) + "% "@ + shortened(components.second@) + " "@ + shortened(components.third@)
            + space_suffix(color[3]),
        color_text(color, ColorFormat::Hsl, components) == "hsl("@ + shortened(components.first@)
            + " "@ + shortened(components.second@) + "% "@ + shortened(components.third@) + "%"@
            + space_suffix(color[3]),
{
}

/// The notations stand in the list in their order.
pub proof fn notations_stand_in_their_rows(index: u32)
    ensures
        spec_color_format_index(ColorFormat::Hex) == 0,
        spec_color_format_index(ColorFormat::Rgb) == 1,
        spec_color_format_index(ColorFormat::Oklab) == 2,
        spec_color_format_index(ColorFormat::Hsl) == 3,
        index < 4 ==> spec_color_format_index(spec_color_format_at(index)) == index,
{
}

/// The rows of the preferences stand in their order: the backgrounds, and the lenses
/// from the small to the large one. A lens between two of them is shown as one of
/// them, and a larger one never as a smaller.
pub proof fn preferences_stand_in_their_rows(index: u32, small: u32, large: u32)
    ensures
        Background::Checkerboard.spec_index() == 0,
        Background::Auto.spec_index() == 1,
        Background::White.spec_index() == 2,
        Background::Gray.spec_index() == 3,
        Background::Black.spec_index() == 4,
        index < 5 ==> Background::spec_at(index).spec_index() == index,
        index >= 5 ==> Background::spec_at(index) == Background::Checkerboard,
        spec_lens_diameter_at(0) < spec_lens_diameter_at(1) < spec_lens_diameter_at(2),
        spec_lens_diameter_at(0) == 180,
        spec_lens_diameter_at(1) == 280,
        spec_lens_diameter_at(2) == 400,
        index > 2 ==> spec_lens_diameter_at(index) == spec_lens_diameter_at(0),
        small <= large ==> spec_lens_size_index(small) <= spec_lens_size_index(large),
        2 * small < 460 ==> spec_lens_size_index(small) == 0,
        460 <= 2 * small < 680 ==> spec_lens_size_index(small) == 1,
        680 <= 2 * small ==> spec_lens_size_index(small) == 2,
        spec_filter_for(true) == ZoomFilter::Hard,
        spec_filter_for(false) == ZoomFilter::Soft,
{
}

/// What the user gives up is no failure; what failed is one.
pub proof fn failures_are_told_from_refusals()
    ensures
        !spec_open_with_was_cancelled(LaunchError::DialogFailed),
        !spec_open_with_was_cancelled(LaunchError::Other),
        spec_open_with_was_cancelled(LaunchError::DialogCancelled),
        spec_open_with_was_cancelled(LaunchError::DialogDismissed),
        spec_open_with_was_cancelled(LaunchError::OperationCancelled),
{
}

/// The distance between two moments does not depend on which comes first, counts
/// whole seconds, and is nothing between a moment and itself.
pub proof fn distances_count_whole_seconds(left: Timestamp, right: Timestamp)
    ensures
        seconds_between(left, right) == seconds_between(right, left),
        seconds_between(left, left) == 0,
        left.nanos == right.nanos && left.seconds <= right.seconds ==> seconds_between(left, right)
            == right.seconds - left.seconds,
{
}

/// The units of an age are as long as they are called, with months of thirty days and
/// years of 365.
pub proof fn units_are_as_long_as_they_are_called(seconds: nat)
    ensures
        AgeUnit::Minute.spec_seconds() == 60,
        AgeUnit::Hour.spec_seconds() == 60 * AgeUnit::Minute.spec_seconds(),
        AgeUnit::Day.spec_seconds() == 24 * AgeUnit::Hour.spec_seconds(),
        AgeUnit::Month.spec_seconds() == 30 * AgeUnit::Day.spec_seconds(),
        AgeUnit::Year.spec_seconds() == 365 * AgeUnit::Day.spec_seconds(),
        60 <= seconds ==> age_unit(seconds).spec_seconds() <= seconds,
{
}

/// A file of the past minute, or of the next, is one of just now. An older one is so
/// many of its unit ago and a younger one in so many, one without the plural.
pub proof fn ages_are_told_in_their_direction(modified: Timestamp, now: Timestamp)
    ensures
        ({
            let seconds = seconds_between(modified, now);
            let unit = age_unit(seconds);
            let count = seconds / unit.spec_seconds();
            let text = relative_time_text(modified, now);
            &&& seconds < 60 ==> text == "just now"@
            &&& seconds >= 60 && modified.total_nanos() < now.total_nanos() ==> text == amount_text(
                count,
                unit,
            ) + " ago"@
            &&& seconds >= 60 && modified.total_nanos() > now.total_nanos() ==> text == "in "@
                + amount_text(count, unit)
            &&& amount_text(1, unit) == decimal(1) + " "@ + unit.spec_name()
            &&& count != 1 ==> amount_text(count, unit) == decimal(count) + " "@ + unit.spec_name()
                + "s"@
        }),
{
    let unit = age_unit(seconds_between(modified, now));
    assert(amount_text(1, unit) =~= decimal(1) + " "@ + unit.spec_name());
}

/// The title is the name of the file, with a mark where there are unsaved edits.
pub proof fn titles_tell_of_unsaved_edits(window: WindowView, file: LocationView)
    requires
        window.files.current == Some(file),
    ensures
        ({
            let dirty = window.session.content.has_document && window.session.content.dirty;
            &&& !dirty ==> window.title() == Some(spec_display_name(file))
            &&& dirty ==> window.title() == Some(spec_display_name(file) + " •"@)
        }),
{
    if !window.session.unsaved() {
        assert(window.title()->0 =~= spec_display_name(file));
    }
}

/// The text under the title tells the folder, the size of the picture, the zoom and
/// the age of the file, in this order; it is there once there is a picture of a file
/// to speak of.
pub proof fn subtitles_tell_of_the_image(
    window: WindowView,
    zoom_percent: u64,
    now: Timestamp,
    file: LocationView,
    size: (u32, u32),
)
    ensures
        window.subtitle(zoom_percent, now) is Some <==> window.session.content.texture is Some
            && window.files.current is Some && window.session.flags.subtitle_ready,
        window.session.content.texture == Some(size) && window.files.current == Some(file)
            && window.session.flags.subtitle_ready ==> {
            let details = folder_text(file) + " · "@ + (decimal(size.0 as nat) + " × "@ + decimal(
                size.1 as nat,
            )) + " · "@ + decimal(zoom_percent as nat) + "%"@;
            &&& window.session.source_modified is None ==> window.subtitle(zoom_percent, now)
                == Some(details)
            &&& window.session.source_modified matches Some(modified) ==> window.subtitle(
                zoom_percent,
                now,
            ) == Some(details + " · "@ + relative_time_text(modified, now))
        },
{
}

/// A file is called by its last name, or by its address where it has none; it lies
/// at its path on this machine, and at its address elsewhere. So does its folder.
pub proof fn files_are_called_by_their_name(file: LocationView, name: Seq<char>)
    ensures
        spec_display_name(file.child(name)) == name,
        file.names.len() == 0 ==> spec_display_name(file) == file.uri(),
        file.is_local() ==> spec_location(file) == file.path(),
        !file.is_local() ==> spec_location(file) == file.uri(),
        file.is_local() ==> folder_text(file.child(name)) == file.path(),
        !file.is_local() ==> folder_text(file.child(name)) == file.uri(),
{
    assert(file.child(name).names.drop_last() =~= file.names);
}

/// The path of a file in a folder is that of the folder, a slash and its name.
pub proof fn paths_end_in_the_name(folder: LocationView, name: Seq<char>)
    ensures
        folder.names.len() > 0 ==> folder.child(name).path() == folder.path() + "/"@ + name,
        folder.names.len() == 0 ==> folder.path() == "/"@ && folder.child(name).path() == "/"@
            + name,
        folder.child(name).is_local() == folder.is_local(),
        folder.is_local() <==> folder.origin.len() == 0,
{
    let child = folder.child(name);
    assert(child.names.drop_last() =~= folder.names);
    if folder.names.len() == 0 {
        assert(crate::file_state::joined(folder.names) =~= Seq::<char>::empty());
        assert(child.path() =~= "/"@ + name);
    }
}

/// The address of a file on this machine begins with its scheme, that of another with
/// its origin; a path of characters that may stand in an address stands there as it
/// is.
pub proof fn plain_paths_stand_in_their_address(file: LocationView)
    requires
        forall|index: int|
            0 <= index < file.path().len() ==> stands_plain(
                #[trigger] file.path()[index],
                file.is_local(),
            ),
    ensures
        file.is_local() ==> file.uri() == "file://"@ + file.path(),
        !file.is_local() ==> file.uri() == file.origin + file.path(),
{
    plain_texts_are_not_escaped(file.path(), file.is_local());
}

proof fn plain_texts_are_not_escaped(text: Seq<char>, local: bool)
    requires
        forall|index: int| 0 <= index < text.len() ==> stands_plain(#[trigger] text[index], local),
    ensures
        escaped(text, local) == text,
    decreases text.len(),
{
    if text.len() > 0 {
        let front = text.drop_last();
        assert forall|index: int| 0 <= index < front.len() implies stands_plain(
            #[trigger] front[index],
            local,
        ) by {
            assert(front[index] == text[index]);
        }
        plain_texts_are_not_escaped(front, local);
        assert(stands_plain(text[text.len() - 1], local));
        assert(escaped(text, local) =~= text);
    } else {
        assert(escaped(text, local) =~= text);
    }
}

/// Letters, digits and slashes stand for themselves in an address; blanks, percent
/// signs, question marks and hashes never do, and a semicolon only elsewhere than on
/// this machine.
pub proof fn letters_stand_for_themselves(character: char, local: bool)
    ensures
        'a' <= character <= 'z' || 'A' <= character <= 'Z' || '0' <= character <= '9'
            ==> stands_plain(character, local),
        stands_plain('/', local),
        !stands_plain(' ', local),
        !stands_plain('%', local),
        !stands_plain('?', local),
        !stands_plain('#', local),
        stands_plain(';', local) <==> !local,
        !stands_plain(character, local) ==> escaped_character(character, local) == percent_bytes(
            encode_utf8(seq![character]),
        ),
{
}

/// The properties tell the size of the pixels that are edited, or else of the
/// picture; where the file lies, or else where the document does; and of each kind of
/// metadata whether it is there.
pub proof fn properties_tell_of_the_image(
    window: WindowView,
    path: Seq<char>,
    metadata: MetadataPresence,
)
    ensures
        window.session.content.rendered matches Some(size) ==> window.image_size() == size,
        window.session.content.rendered is None ==> (window.session.content.texture matches Some(
            size,
        ) ==> window.image_size() == size),
        window.files.current matches Some(file) ==> window.image_location(Some(path))
            == spec_location(file),
        window.files.current is None ==> window.image_location(Some(path)) == path,
        window.files.current is None ==> window.image_location(None) == "Unavailable"@,
        spec_metadata_summary(Some(metadata)) == "EXIF: "@ + presence_text(metadata.exif)
            + " · XMP: "@ + presence_text(metadata.xmp) + " · ICC profile: "@ + presence_text(
            metadata.icc,
        ),
        presence_text(true) == "Yes"@,
        presence_text(false) == "No"@,
{
}

/// A dialog opens in the folder of the file, else in the one that was used last, else
/// in the user's own.
pub proof fn dialogs_open_in_the_nearest_folder(
    window: WindowView,
    last: LocationView,
    home: LocationView,
)
    ensures
        ({
            let folders = window.initial_folders(Some(last), home);
            &&& folders.last() == home
            &&& window.files.current is None ==> folders[0] == last && window.initial_folders(
                None,
                home,
            )[0] == home
            &&& window.files.current matches Some(file) ==> (file.parent() matches Some(folder)
                ==> folders[0] == folder && folders[1] == last)
        }),
{
}

/// What was copied is told with its size, and whether it is a part of the image or
/// the whole. The canvas is named after the active tool.
pub proof fn copies_and_tools_are_told(width: u32, height: u32, tool: Tool)
    ensures
        spec_copied_text(width, height, true) == "Copied "@ + dimensions_text(width, height)
            + " selection"@,
        spec_copied_text(width, height, false) == "Copied "@ + dimensions_text(width, height)
            + " image"@,
        dimensions_text(width, height) == decimal(width as nat) + " × "@ + decimal(height as nat),
        tool == Tool::Idle ==> spec_canvas_label(tool) == "Image canvas"@,
        tool != Tool::Idle ==> spec_canvas_label(tool) == "Image canvas, "@ + tool.spec_name()
            + " tool active"@,
{
}

} // verus!
