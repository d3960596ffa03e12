use diorama::canvas_resize::{canvas_choice, canvas_limit, fits_canvas};
use diorama::effect::{Effect, Notice, Operation};
use diorama::export::{
    background_at, background_index, chosen_options, content_question, export_options, remembered,
    ContentOutcome, ExportChoice, ExportOptions, ExportOutcome, ExportSettings, JpegOptions,
    PngOptions, SaveStep,
};
use diorama::file_state::{FileLocation, Timestamp};
use diorama::opening::OpeningSettings;
use diorama::print::{print_layout, PrintError, PrintLayout, PrintSource};
use diorama::scale::ScaleMethod;
use diorama::window::{Content, ViewerWindow, ZoomFilter, ZoomMode};

const SETTINGS: ExportSettings = ExportSettings {
    png_compression: 6,
    jpeg_quality: 90,
    jpeg_background: [255, 255, 255],
    preserve_metadata: true,
};

fn at(path: &str) -> FileLocation {
    FileLocation {
        origin: String::new(),
        names: path.split('/').filter(|name| !name.is_empty()).map(String::from).collect(),
    }
}

fn seconds(seconds: i64) -> Option<Timestamp> {
    Some(Timestamp { seconds, nanos: 0 })
}

fn window(path: &str) -> ViewerWindow {
    let settings = OpeningSettings {
        zoom_mode: ZoomMode::Fit,
        zoom_filter: ZoomFilter::Soft,
        scale_method: ScaleMethod::Bicubic,
    };
    let mut window = ViewerWindow::new(settings, Some(at(path)));
    let generation = window.session.generations.load;
    window.source_time_read(generation, seconds(10));
    window.observe(Content {
        texture: Some((8, 6)),
        rendered: Some((8, 6)),
        has_document: true,
        dirty: true,
        ..window.session.content
    });
    window.take_effects();
    window
}

#[test]
fn options_follow_the_ending_of_the_name() {
    let png = ExportOptions::Png(PngOptions {
        compression: 6,
        preserve_metadata: true,
        convert_to_srgb: false,
    });
    let jpeg = ExportOptions::Jpeg(JpegOptions {
        quality: 90,
        background: [255, 255, 255],
        preserve_metadata: true,
    });
    for (path, expected) in [
        ("/a/frame.png", Some(png)),
        ("/a/frame.PnG", Some(png)),
        ("/a/.hidden.png", Some(png)),
        ("/a/frame.jpg", Some(jpeg)),
        ("/a/frame.JPEG", Some(jpeg)),
        ("/a/frame.jpe", None),
        ("/a/frame.png.gz", None),
        ("/a/.png", None),
        ("/a/png", None),
        ("/a/frame.", None),
        ("/", None),
    ] {
        assert_eq!(export_options(&at(path), &SETTINGS), expected, "{path}");
    }
}

#[test]
fn choices_are_remembered_for_the_next_export() {
    let defaults = export_options(&at("/a.jpg"), &SETTINGS).unwrap();
    let choice = ExportChoice {
        value: 70,
        preserve_metadata: false,
        convert_to_srgb: true,
        background: 2,
    };
    let chosen = chosen_options(defaults, choice);

    assert_eq!(
        chosen,
        ExportOptions::Jpeg(JpegOptions {
            quality: 70,
            background: [0, 0, 0],
            preserve_metadata: false,
        })
    );
    let settings = remembered(SETTINGS, chosen);
    assert_eq!(export_options(&at("/a.jpg"), &settings), Some(chosen));
    assert_eq!(settings.png_compression, 6);
    for row in 0..3 {
        assert_eq!(background_index(background_at(row)), row);
    }
    assert_eq!(background_index([1, 2, 3]), 0);
}

#[test]
fn unchanged_files_are_written_over() {
    let mut window = window("/images/frame.png");

    let SaveStep::Overwrite(snapshot, _) = window.save(false, seconds(10), &SETTINGS) else {
        panic!("the file can be written over")
    };
    let generation = window.start_export();
    window.export_finished(
        generation,
        &snapshot,
        ExportOutcome::Written { modified: seconds(20), newer_edits: false },
        None,
    );
    assert!(!window.unsaved());
    assert!(window.effects.contains(&Effect::Notify(Notice::ImageSaved)));
    assert!(!window.source_changed(seconds(20)));
    assert!(window.source_changed(seconds(21)));
}

#[test]
fn files_that_changed_are_not_written_over() {
    let mut window = window("/images/frame.png");

    assert!(matches!(window.save(false, seconds(11), &SETTINGS), SaveStep::Refused));
    assert!(window.effects.contains(&Effect::Notify(Notice::ChangedExternally)));
    assert!(matches!(window.save(true, seconds(11), &SETTINGS), SaveStep::Choose(_)));
}

#[test]
fn other_formats_are_saved_elsewhere() {
    let mut window = window("/images/frame.webp");

    assert!(matches!(window.save(false, seconds(10), &SETTINGS), SaveStep::Choose(_)));
    assert!(window.target_chosen(&at("/images/frame.webp"), &SETTINGS).is_none());
    assert!(window.effects.contains(&Effect::Notify(Notice::UnsupportedName)));
    let elsewhere = FileLocation { origin: "smb://host".to_owned(), names: vec!["a.png".to_owned()] };
    assert!(window.target_chosen(&elsewhere, &SETTINGS).is_none());
    assert!(window.effects.contains(&Effect::Notify(Notice::NoAtomicExport)));
    assert!(window.target_chosen(&at("/images/frame.png"), &SETTINGS).is_some());
}

#[test]
fn newer_edits_stay_unsaved_and_the_target_becomes_the_file() {
    let mut window = window("/images/frame.webp");
    let SaveStep::Choose(snapshot) = window.save(true, None, &SETTINGS) else {
        panic!("a place is asked for")
    };
    let generation = window.start_export();
    window.export_finished(
        generation,
        &snapshot,
        ExportOutcome::Written { modified: seconds(30), newer_edits: true },
        Some(at("/images/copy.png")),
    );

    assert!(window.unsaved());
    assert!(window.effects.contains(&Effect::Notify(Notice::NewerEditsUnsaved)));
    let titled = [Effect::UpdateTitle, Effect::UpdateSubtitle];
    assert!(window.effects.windows(2).any(|pair| pair == titled));
    assert_eq!(window.title().as_deref(), Some("copy.png •"));
}

#[test]
fn exports_of_other_images_change_nothing() {
    let mut window = window("/images/frame.png");
    let SaveStep::Overwrite(snapshot, _) = window.save(false, seconds(10), &SETTINGS) else {
        panic!("the file can be written over")
    };
    let first = window.start_export();
    let second = window.start_export();
    assert!(window.effects.contains(&Effect::CancelExport));
    window.export_finished(first, &snapshot, ExportOutcome::Failed, None);
    assert!(window.session.flags.export_running);
    window.observe(Content { dirty: false, ..window.session.content });
    window.load_with_fit(at("/images/other.png"), true);
    window.take_effects();
    window.export_finished(second, &snapshot, ExportOutcome::Failed, None);
    assert!(!window.session.flags.export_running);
    assert!(window.effects.is_empty());
}

#[test]
fn failed_exports_are_reported() {
    let mut window = window("/images/frame.png");
    let SaveStep::Overwrite(snapshot, _) = window.save(false, seconds(10), &SETTINGS) else {
        panic!("the file can be written over")
    };
    let generation = window.start_export();
    window.export_finished(generation, &snapshot, ExportOutcome::WorkerFailed, None);
    assert!(window.unsaved());
    assert!(window.effects.contains(&Effect::Notify(Notice::ExportWorkerFailed)));
    window.start_export();
    window.cancel_export();
    assert!(!window.session.flags.export_running);
}

#[test]
fn content_is_cropped_after_a_question() {
    let mut window = window("/images/frame.png");
    window.crop_to_content();
    assert_eq!(window.effects.last(), Some(&Effect::DetectContent));
    window.content_detected(ContentOutcome::Uncertain);
    assert_eq!(window.effects.last(), Some(&Effect::Notify(Notice::UncertainBackground)));
    window.content_detected(ContentOutcome::WorkerFailed);
    assert_eq!(window.effects.last(), Some(&Effect::Notify(Notice::DetectionWorkerFailed)));
    window.content_detected(ContentOutcome::Found { x: 1, y: 2, width: 3, height: 4 });
    assert_eq!(
        window.effects.last(),
        Some(&Effect::ConfirmCrop { x: 1, y: 2, width: 3, height: 4 })
    );
    window.crop_confirmed(1, 2, 3, 4);
    let crop = Operation::Crop { x: 1, y: 2, width: 3, height: 4 };
    assert!(window.effects.contains(&Effect::Apply(crop)));
    assert_eq!(
        content_question(1, 2, 3, 4),
        "Detected bounds: x 1, y 2, 3 × 4 pixels"
    );
    window.show_palette_dialog();
    assert_eq!(window.effects.last(), Some(&Effect::ChoosePalette));
}

#[test]
fn canvases_keep_to_the_memory() {
    assert!(fits_canvas(100, 100, 40_000));
    assert!(!fits_canvas(100, 101, 40_000));
    assert!(!fits_canvas(u32::MAX, u32::MAX, u64::MAX));
    let choice = canvas_choice(12, 10, (8, 6), 1_000);
    assert!(choice.applies && !choice.too_large);
    assert!(!canvas_choice(8, 6, (8, 6), 1_000).applies);
    assert!(canvas_choice(80, 60, (8, 6), 1_000).too_large);
    assert_eq!(canvas_limit(8), 65535);
    assert_eq!(canvas_limit(70_000), 70_000);
}

#[test]
fn images_become_square_unless_too_large() {
    let mut small = window("/images/frame.png");
    small.square_up(1_000);
    let square = Operation::ResizeCanvas { width: 8, height: 8 };
    assert!(small.effects.contains(&Effect::Apply(square)));
    let mut large = window("/images/frame.png");
    large.square_up(255);
    assert!(large.effects.contains(&Effect::Notify(Notice::SquareTooLarge)));
    small.canvas_size_chosen(12, 10);
    let resized = Operation::ResizeCanvas { width: 12, height: 10 };
    assert!(small.effects.contains(&Effect::Apply(resized)));
}

#[test]
fn prints_need_an_image_of_some_size() {
    assert_eq!(
        print_layout(40, 20),
        Ok(PrintLayout { width: 40, height: 20, stride: 160 })
    );
    assert_eq!(print_layout(0, 20), Err(PrintError::Empty));
    assert_eq!(print_layout(u32::MAX, 20), Err(PrintError::WidthTooLarge));
    assert_eq!(print_layout(20, u32::MAX), Err(PrintError::HeightTooLarge));
    assert_eq!(print_layout(1 << 30, 1), Err(PrintError::StrideTooLarge));
}

#[test]
fn prints_take_the_document_where_there_is_one() {
    let mut window = window("/images/frame.png");
    assert_eq!(window.print_source(), Some(PrintSource::Document));
    let generation = window.session.generations.load;
    window.print();
    assert_eq!(
        window.effects.last(),
        Some(&Effect::PreparePrint { source: PrintSource::Document, generation })
    );
    window.print_prepared(generation + 1, true);
    window.print_prepared(generation, false);
    assert_eq!(window.effects.last(), Some(&Effect::Notify(Notice::PrintFailed)));
    window.observe(Content { has_document: false, ..window.session.content });
    assert_eq!(window.print_source(), Some(PrintSource::Frame));
    window.observe(Content { texture: None, ..window.session.content });
    assert_eq!(window.print_source(), None);
}
