use diorama::active_tool::{resting_cursor, size_control};
use diorama::description::{
    canvas_label, copied_color_text, copied_text, display_name, metadata_summary, MetadataPresence,
};
use diorama::effect::{Announcement, AnnotationKind, Cursor, Notice, SizeControl};
use diorama::file_state::{FileLocation, Timestamp};
use diorama::navigation::deletion_question;
use diorama::pencil::sampled_color_text;
use diorama::presentation::{compare_metadata, image_subtitle, relative_modified_time};
use diorama::tool::Tool;
use diorama::window::PendingDiscard;

fn at(path: &str) -> FileLocation {
    FileLocation {
        origin: String::new(),
        names: path.split('/').filter(|name| !name.is_empty()).map(String::from).collect(),
    }
}

fn seconds(seconds: i64) -> Timestamp {
    Timestamp { seconds, nanos: 0 }
}

#[test]
fn compare_metadata_includes_folder_and_resolution() {
    let file = at("/images/comparison/frame.png");

    assert_eq!(compare_metadata(&file, 1920, 1080), "/images/comparison · 1920 × 1080");
}

#[test]
fn modified_time_is_formatted_relative_to_now() {
    let now = 2_000_000_000;
    let text = |modified: i64| relative_modified_time(seconds(modified), seconds(now));

    assert_eq!(text(now - 30), "just now");
    assert_eq!(text(now - 60), "1 minute ago");
    assert_eq!(text(now - 3 * 60), "3 minutes ago");
    assert_eq!(text(now - 2 * 60 * 60), "2 hours ago");
    assert_eq!(text(now - 2 * 24 * 60 * 60), "2 days ago");
    assert_eq!(text(now - 60 * 24 * 60 * 60), "2 months ago");
    assert_eq!(text(now - 2 * 365 * 24 * 60 * 60), "2 years ago");
    assert_eq!(text(now + 3 * 60), "in 3 minutes");
}

fn percent(zoom: f64) -> u64 {
    format!("{:.0}", zoom * 100.0).parse().expect("a whole number")
}

#[test]
fn image_subtitle_includes_folder_and_places_modified_time_after_zoom() {
    let now = seconds(10_000);
    let modified = seconds(10_000 - 3 * 60);

    assert_eq!(
        image_subtitle("/images/comparison", (1920, 1080), percent(1.25), Some(modified), now),
        "/images/comparison · 1920 × 1080 · 125% · 3 minutes ago"
    );
    assert_eq!(
        image_subtitle("/images/comparison", (640, 480), percent(0.5), None, now),
        "/images/comparison · 640 × 480 · 50%"
    );
}

#[test]
fn fractions_of_a_second_do_not_make_a_minute() {
    let modified = Timestamp { seconds: 100, nanos: 500_000_000 };

    assert_eq!(relative_modified_time(modified, seconds(160)), "just now");
    assert_eq!(relative_modified_time(modified, seconds(161)), "1 minute ago");
    assert_eq!(relative_modified_time(seconds(-60), seconds(0)), "1 minute ago");
}

#[test]
fn announcements_count_from_one() {
    assert_eq!(Announcement::Cursor { column: 1, row: 20 }.text(), "Column 1, row 20");
    assert_eq!(
        Announcement::RegionSelected { width: 6, height: 5 }.text(),
        "Region selected, 6 by 5 pixels. Choose zoom, crop, or copy."
    );
    assert_eq!(
        Announcement::AnnotationSelected(AnnotationKind::PencilEllipse).text(),
        "Pencil ellipse selected"
    );
    assert_eq!(
        Announcement::StartPointSet.text(),
        "Start point set. Move to the end point and press Space or Enter."
    );
    assert!(Announcement::KeyboardHelp.text().starts_with("Use the arrow keys"));
}

#[test]
fn texts_name_what_they_are_about() {
    assert_eq!(canvas_label(Tool::Idle), "Image canvas");
    assert_eq!(canvas_label(Tool::PickColor), "Image canvas, pick-color tool active");
    assert_eq!(copied_text(4, 3, false), "Copied 4 × 3 image");
    assert_eq!(copied_text(4, 3, true), "Copied 4 × 3 selection");
    assert_eq!(copied_color_text("#123456"), "Copied #123456");
    assert_eq!(display_name(&at("/images/frame.png")), "frame.png");
    assert_eq!(display_name(&at("/")), "file:///");
    assert_eq!(
        deletion_question("frame.png", true),
        "“frame.png” and its unsaved edits will be permanently deleted. This cannot be undone."
    );
    assert_eq!(
        deletion_question("frame.png", false),
        "“frame.png” will be permanently deleted. This cannot be undone."
    );
    assert_eq!(PendingDiscard::Close.heading(), "Discard unsaved edits?");
    assert_eq!(
        PendingDiscard::Navigate { forward: true }.heading(),
        "Discard unsaved edits and open another image?"
    );
    assert_eq!(Notice::NoImage.text(), "No image is open");
    assert_eq!(Notice::SquareTooLarge.text(), "The square canvas would be too large");
    assert_eq!(sampled_color_text([0x12, 0x34, 0x56, 0x78]), "#12345678 · rgba(18, 52, 86, 120)");
}

#[test]
fn metadata_is_summed_up() {
    assert_eq!(
        metadata_summary(Some(MetadataPresence { exif: true, xmp: false, icc: true })),
        "EXIF: Yes · XMP: No · ICC profile: Yes"
    );
    assert_eq!(
        metadata_summary(None),
        "EXIF: Unknown · XMP: Unknown · ICC profile: Unknown"
    );
}

#[test]
fn tools_shape_the_pointer_and_the_size_control() {
    assert_eq!(resting_cursor(Tool::Select, false), Cursor::Crosshair);
    assert_eq!(resting_cursor(Tool::Select, true), Cursor::Hidden);
    assert_eq!(resting_cursor(Tool::Arrow, false), Cursor::Default);
    assert_eq!(size_control(Tool::Text), SizeControl::TextSize);
    assert_eq!(size_control(Tool::Highlight), SizeControl::HighlightWidth);
    assert_eq!(size_control(Tool::Pencil), SizeControl::StrokeWidth);
    assert_eq!(size_control(Tool::Measure), SizeControl::MeasurementWidth);
    assert_eq!(size_control(Tool::Select), SizeControl::Width);
}
