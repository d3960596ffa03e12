//! What is written when an image is saved, and what is said of it.

use crate::actions::Action;
use crate::asking::{asks_for, asks_just, edits_just, keeps_asking};
use crate::drawing_laws::edits_are_applied_and_rendered;
use crate::effect::{Effect, Notice, Operation};
use crate::export::{
    extension, has_extension, last_dot, options_for, small_letter, small_letters,
    spec_background_at, spec_background_index, spec_chosen_options, spec_export_options,
    spec_remembered, ContentOutcome, ExportChoice, ExportOptions, ExportOutcome, ExportSettings,
    SaveStepView, SnapshotView,
};
use crate::file_state::{LocationView, Timestamp};
use crate::window::{Flags, WindowView};
use vstd::prelude::*;

verus! {

/// Whether options keep what a file says of itself.
pub open spec fn keeps_metadata(options: ExportOptions) -> bool {
    match options {
        ExportOptions::Png(png) => png.preserve_metadata,
        ExportOptions::Jpeg(jpeg) => jpeg.preserve_metadata,
    }
}

/// What is chosen in the dialog is what is written, in the format that was asked
/// about: the compression and the conversion of a PNG, the quality and the
/// background of a JPEG, and of both whether they keep what the file says of itself.
pub proof fn choices_are_written(defaults: ExportOptions, choice: ExportChoice)
    ensures
        ({
            let options = spec_chosen_options(defaults, choice);
            &&& keeps_metadata(options) == choice.preserve_metadata
            &&& defaults is Png <==> options is Png
            &&& options matches ExportOptions::Png(png) ==> {
                &&& png.preserve_metadata == choice.preserve_metadata
                &&& png.compression == choice.value
                &&& png.convert_to_srgb == choice.convert_to_srgb
            }
            &&& options matches ExportOptions::Jpeg(jpeg) ==> {
                &&& jpeg.preserve_metadata == choice.preserve_metadata
                &&& jpeg.quality == choice.value
                &&& choice.background == 0 ==> jpeg.background@ == seq![255u8, 255, 255]
                &&& choice.background == 1 ==> jpeg.background@ == seq![128u8, 128, 128]
                &&& choice.background == 2 ==> jpeg.background@ == seq![0u8, 0, 0]
            }
        }),
{
    backgrounds_stand_in_their_rows(choice.background);
}

/// Two choices that differ in what they keep of the file's words about itself lead
/// to different files, in either format.
pub proof fn metadata_is_kept_on_request(
    defaults: ExportOptions,
    with: ExportChoice,
    without: ExportChoice,
)
    requires
        with.preserve_metadata,
        !without.preserve_metadata,
    ensures
        keeps_metadata(spec_chosen_options(defaults, with)),
        !keeps_metadata(spec_chosen_options(defaults, without)),
        spec_chosen_options(defaults, with) != spec_chosen_options(defaults, without),
{
}

/// The rows of the backgrounds are white, gray and black; a background is shown in
/// its row, and any other as white.
pub proof fn backgrounds_stand_in_their_rows(index: u32)
    ensures
        spec_background_at(0)@ == seq![255u8, 255, 255],
        spec_background_at(1)@ == seq![128u8, 128, 128],
        spec_background_at(2)@ == seq![0u8, 0, 0],
        index > 2 ==> spec_background_at(index) == spec_background_at(0),
        forall|background: [u8; 3]| #[trigger]
            spec_background_index(background) == 1 <==> background@ == seq![128u8, 128, 128],
        forall|background: [u8; 3]| #[trigger]
            spec_background_index(background) == 2 <==> background@ == seq![0u8, 0, 0],
        forall|background: [u8; 3]| #[trigger] spec_background_index(background) < 3,
{
    assert(spec_background_at(0)@ =~= seq![255u8, 255, 255]);
    assert(spec_background_at(1)@ =~= seq![128u8, 128, 128]);
    assert(spec_background_at(2)@ =~= seq![0u8, 0, 0]);
    assert(seq![128u8, 128, 128][0] == 128);
    assert(seq![0u8, 0, 0][0] == 0);
}

/// What was chosen for one format is remembered for it and leaves the choices of
/// the other as they are.
pub proof fn choices_of_one_format_leave_the_other(
    settings: ExportSettings,
    options: ExportOptions,
)
    ensures
        ({
            let after = spec_remembered(settings, options);
            &&& after.preserve_metadata == keeps_metadata(options)
            &&& options matches ExportOptions::Png(png) ==> {
                &&& after.png_compression == png.compression
                &&& after.jpeg_quality == settings.jpeg_quality
                &&& after.jpeg_background == settings.jpeg_background
            }
            &&& options matches ExportOptions::Jpeg(jpeg) ==> {
                &&& after.jpeg_quality == jpeg.quality
                &&& after.jpeg_background == jpeg.background
                &&& after.png_compression == settings.png_compression
            }
        }),
{
}

/// The dialog first offers what the settings say of the format.
pub proof fn settings_are_offered(name: Seq<char>, settings: ExportSettings)
    ensures
        options_for(name, settings) matches Some(options) ==> {
            &&& keeps_metadata(options) == settings.preserve_metadata
            &&& options matches ExportOptions::Png(png) ==> png.compression
                == settings.png_compression && !png.convert_to_srgb
            &&& options matches ExportOptions::Jpeg(jpeg) ==> jpeg.quality == settings.jpeg_quality
                && jpeg.background == settings.jpeg_background
        },
        options_for(name, settings) matches Some(ExportOptions::Png(_)) <==> has_extension(
            name,
            "png"@,
        ),
        options_for(name, settings) is Some <==> has_extension(name, "png"@) || has_extension(
            name,
            "jpg"@,
        ) || has_extension(name, "jpeg"@),
{
}

proof fn last_dots_are_the_last(stem: Seq<char>, ending: Seq<char>)
    requires
        !ending.contains('.'),
    ensures
        last_dot(stem.push('.') + ending) == Some(stem.len() as int),
    decreases ending.len(),
{
    let name = stem.push('.') + ending;
    if ending.len() == 0 {
        assert(name =~= stem.push('.'));
    } else {
        assert(name.last() == ending.last());
        assert(ending.contains(ending.last()));
        let shorter = ending.drop_last();
        assert(name.drop_last() =~= stem.push('.') + shorter);
        assert(!shorter.contains('.')) by {
            if shorter.contains('.') {
                let index = choose|index: int| 0 <= index < shorter.len() && shorter[index] == '.';
                assert(ending[index] == '.');
            }
        }
        last_dots_are_the_last(stem, shorter);
    }
}

/// What follows the last dot of a name is its extension, whatever stands before it;
/// what is hidden by a leading dot has none.
pub proof fn extensions_follow_the_last_dot(stem: Seq<char>, ending: Seq<char>)
    requires
        !ending.contains('.'),
        0 < ending.len(),
    ensures
        0 < stem.len() ==> extension(stem.push('.') + ending) == Some(ending),
        stem.len() == 0 ==> extension(stem.push('.') + ending) is None,
        extension(ending) is None,
{
    let name = stem.push('.') + ending;
    last_dots_are_the_last(stem, ending);
    reveal_strlit("..");
    if name == ".."@ {
        assert(name.last() == ending.last());
        assert(ending.contains(ending.last()));
    }
    assert(name.subrange(stem.len() as int + 1, name.len() as int) =~= ending);
    names_without_dots(ending);
}

proof fn names_without_dots(name: Seq<char>)
    requires
        !name.contains('.'),
    ensures
        last_dot(name) is None,
    decreases name.len(),
{
    if name.len() > 0 {
        assert(name.contains(name.last()));
        let shorter = name.drop_last();
        assert(!shorter.contains('.')) by {
            if shorter.contains('.') {
                let index = choose|index: int| 0 <= index < shorter.len() && shorter[index] == '.';
                assert(name[index] == '.');
            }
        }
        names_without_dots(shorter);
    }
}

/// Capital and small letters make no difference to the format of a file.
pub proof fn capitals_do_not_matter(stem: Seq<char>, ending: Seq<char>, settings: ExportSettings)
    requires
        0 < stem.len(),
        0 < ending.len(),
        !ending.contains('.'),
        !small_letters(ending).contains('.'),
    ensures
        options_for(stem.push('.') + ending, settings) == options_for(
            stem.push('.') + small_letters(ending),
            settings,
        ),
        forall|letter: char| 'A' <= letter <= 'Z' ==> #[trigger] small_letter(letter) as int
            == letter as int + 32,
        forall|letter: char| !('A' <= letter <= 'Z') ==> #[trigger] small_letter(letter)
            == letter,
{
    extensions_follow_the_last_dot(stem, ending);
    extensions_follow_the_last_dot(stem, small_letters(ending));
    assert(small_letters(small_letters(ending)) =~= small_letters(ending));
}

/// A file without a supported name, or none at all, has no options.
pub proof fn other_names_cannot_be_written(file: LocationView, settings: ExportSettings)
    ensures
        file.basename() is None ==> spec_export_options(file, settings) is None,
        file.basename() matches Some(name) ==> (spec_export_options(file, settings) is Some
            <==> has_extension(name, "png"@) || has_extension(name, "jpg"@) || has_extension(
            name,
            "jpeg"@,
        )),
{
}

/// To save writes over the file of the image where that can be done and asks for a
/// place where it cannot; to save under another name always asks. What is written
/// is the image that is shown. Without a document nothing is saved.
pub proof fn saving_goes_on_as_it_can(
    window: WindowView,
    modified: Option<Timestamp>,
    settings: ExportSettings,
    force_dialog: bool,
)
    ensures
        !window.session.content.has_document ==> {
            let (after, step) = window.save(force_dialog, modified, settings);
            &&& step == SaveStepView::Refused
            &&& asks_just(window, after, seq![Effect::Notify(Notice::OpenEditableFirst)])
        },
        window.session.content.has_document ==> {
            let (after, step) = window.save(force_dialog, modified, settings);
            let file = window.files.current;
            let writable = file is Some && file->0.is_local() && spec_export_options(
                file->0,
                settings,
            ) is Some;
            let shown = SnapshotView {
                source_file: window.files.current,
                load_generation: window.session.generations.load,
            };
            &&& force_dialog || !writable ==> after == window && step == SaveStepView::Choose(shown)
            &&& !force_dialog && writable && !window.session.flags.external_conflict
                && window.session.source_modified == modified ==> after == window && step
                == SaveStepView::Overwrite(shown, spec_export_options(file->0, settings)->0)
            &&& !force_dialog && writable && (window.session.flags.external_conflict
                || window.session.source_modified != modified) ==> {
                &&& step == SaveStepView::Refused
                &&& after.session == window.session
                &&& asks_just(window, after, seq![Effect::Notify(Notice::ChangedExternally)])
            }
        },
{
    let (after, step) = window.save(force_dialog, modified, settings);
    if !window.session.content.has_document {
        assert(after.effects =~= window.effects + seq![Effect::Notify(Notice::OpenEditableFirst)]);
    } else if step == SaveStepView::Refused {
        assert(after.effects =~= window.effects + seq![Effect::Notify(Notice::ChangedExternally)]);
    }
}

/// Save and Save As differ in whether they ask for a place.
pub proof fn save_as_asks_for_a_place(window: WindowView)
    ensures
        asks_just(
            window,
            window.activate(Action::Save),
            seq![Effect::RequestSave { force_dialog: false }],
        ),
        asks_just(
            window,
            window.activate(Action::SaveAs),
            seq![Effect::RequestSave { force_dialog: true }],
        ),
{
    reveal(WindowView::file_action);
    assert(window.activate(Action::Save).effects =~= window.effects + seq![
        Effect::RequestSave { force_dialog: false },
    ]);
    assert(window.activate(Action::SaveAs).effects =~= window.effects + seq![
        Effect::RequestSave { force_dialog: true },
    ]);
}

/// A place that cannot be written to is refused with the reason for it; another one
/// is taken without a word.
pub proof fn unwritable_places_are_refused(
    window: WindowView,
    target: LocationView,
    settings: ExportSettings,
)
    ensures
        !target.is_local() ==> asks_just(
            window,
            window.target_chosen(target, settings),
            seq![Effect::Notify(Notice::NoAtomicExport)],
        ),
        target.is_local() && spec_export_options(target, settings) is None ==> asks_just(
            window,
            window.target_chosen(target, settings),
            seq![Effect::Notify(Notice::UnsupportedName)],
        ),
        target.is_local() && spec_export_options(target, settings) is Some
            ==> window.target_chosen(target, settings) == window,
        window.target_chosen(target, settings).session == window.session,
{
    let after = window.target_chosen(target, settings);
    if !target.is_local() {
        assert(after.effects =~= window.effects + seq![Effect::Notify(Notice::NoAtomicExport)]);
    } else if spec_export_options(target, settings) is None {
        assert(after.effects =~= window.effects + seq![Effect::Notify(Notice::UnsupportedName)]);
    }
}

/// An export runs under a number of its own until it ends or is cancelled, and one
/// that ran before is cancelled for it.
pub proof fn exports_run_one_at_a_time(window: WindowView)
    ensures
        ({
            let after = window.start_export();
            let generation = after.session.generations.export;
            &&& generation != window.session.generations.export
            &&& after.session.flags.export_running
            &&& after.effects.last() == Effect::StartExport { generation }
            &&& asks_for(window, after, Effect::Notify(Notice::Exporting))
            &&& asks_for(window, after, Effect::CancelExport)
                <==> window.session.flags.export_running
        }),
        ({
            let after = window.activate(Action::CancelExport);
            &&& !after.session.flags.export_running
            &&& window.session.flags.export_running ==> asks_just(
                window,
                after,
                seq![Effect::CancelExport],
            )
            &&& !window.session.flags.export_running ==> after == window
        }),
{
    reveal(WindowView::file_action);
    let after = window.start_export();
    let place = window.effects.len() as int;
    if window.session.flags.export_running {
        assert(after.effects[place] == Effect::CancelExport);
        assert(after.effects[place + 1] == Effect::Notify(Notice::Exporting));
        assert(window.activate(Action::CancelExport).effects =~= window.effects + seq![
            Effect::CancelExport,
        ]);
    } else {
        assert(after.effects[place] == Effect::Notify(Notice::Exporting));
    }
}

/// An image under a new name has that name in its document and in its folder, whose
/// images are listed anew unless the user named them.
pub proof fn new_names_are_taken_over(window: WindowView, target: LocationView, had_source: bool)
    requires
        window.session.content.has_document,
    ensures
        ({
            let after = window.adopt_target(target, had_source);
            &&& keeps_asking(window, after)
            &&& after.files.current == Some(target)
            &&& asks_for(window, after, Effect::SetDocumentPath)
            &&& asks_for(window, after, Effect::RememberFolder)
            &&& asks_for(window, after, Effect::StopDirectoryMonitor)
            &&& !window.session.flags.explicit_navigation ==> asks_for(
                window,
                after,
                Effect::DropSequence,
            )
            &&& window.session.flags.explicit_navigation ==> asks_for(
                window,
                after,
                Effect::MonitorDirectory,
            )
            &&& window.session.flags.explicit_navigation && had_source
                && window.session.flags.has_sequence ==> asks_for(
                window,
                after,
                Effect::ReplaceInSequence,
            )
        }),
{
    reveal(WindowView::adopt_target);
    reveal(WindowView::rebuild_navigation);
    let after = window.adopt_target(target, had_source);
    let place = window.effects.len() as int;
    assert(after.effects[place] == Effect::SetDocumentPath);
    assert(after.effects[place + 1] == Effect::RememberFolder);
    if !window.session.flags.explicit_navigation {
        assert(after.effects[place + 2] == Effect::DropSequence);
        assert(after.effects[place + 3] == Effect::StopDirectoryMonitor);
    } else if had_source && window.session.flags.has_sequence {
        assert(after.effects[place + 2] == Effect::ReplaceInSequence);
        assert(after.effects[place + 3] == Effect::StopDirectoryMonitor);
        assert(after.effects[place + 5] == Effect::MonitorDirectory);
    } else {
        assert(after.effects[place + 2] == Effect::StopDirectoryMonitor);
        assert(after.effects[place + 4] == Effect::MonitorDirectory);
    }
}

/// A written image is marked as saved and told to be, or told to be saved but for
/// the newer edits. The time on disk is taken over, so that the next save finds the
/// file unchanged.
pub proof fn written_images_are_saved(
    window: WindowView,
    modified: Option<Timestamp>,
    newer_edits: bool,
    target: Option<LocationView>,
)
    requires
        window.session.content.has_document,
    ensures
        ({
            let after = window.export_finished(
                window.session.generations.export,
                window.snapshot(),
                ExportOutcome::Written { modified, newer_edits },
                target,
            );
            &&& after.effects[window.effects.len() as int] == Effect::MarkSaved
            &&& after.session.source_modified == modified
            &&& !after.session.flags.external_conflict
            &&& after.effects[after.effects.len() - 3] == Effect::Notify(
                if newer_edits {
                    Notice::NewerEditsUnsaved
                } else {
                    Notice::ImageSaved
                },
            )
            &&& after.effects[after.effects.len() - 2] == Effect::UpdateTitle
            &&& after.effects.last() == Effect::UpdateSubtitle
            &&& target is None ==> after.session.content.dirty == newer_edits && after.files
                == window.files
            &&& target matches Some(file) ==> after.files.current == Some(file)
        }),
{
    reveal(WindowView::file_written);
    let after = window.export_finished(
        window.session.generations.export,
        window.snapshot(),
        ExportOutcome::Written { modified, newer_edits },
        target,
    );
    let ended = window.with_flags(Flags { export_running: false, ..window.session.flags });
    let marked = ended.mark_saved(newer_edits);
    let place = window.effects.len() as int;
    assert(marked.effects[place] == Effect::MarkSaved);
    if target is Some {
        new_names_are_taken_over(marked, target->0, window.files.current is Some);
    }
}

/// An export that fails saves nothing, and is told of.
pub proof fn failed_exports_save_nothing(window: WindowView, target: Option<LocationView>)
    ensures
        ({
            let generation = window.session.generations.export;
            let failed = window.export_finished(
                generation,
                window.snapshot(),
                ExportOutcome::Failed,
                target,
            );
            let broken = window.export_finished(
                generation,
                window.snapshot(),
                ExportOutcome::WorkerFailed,
                target,
            );
            &&& asks_just(window, failed, seq![Effect::Notify(Notice::Failure)])
            &&& asks_just(window, broken, seq![Effect::Notify(Notice::ExportWorkerFailed)])
            &&& failed.session.content == window.session.content
            &&& broken.session.content == window.session.content
            &&& failed.files == window.files && broken.files == window.files
            &&& !failed.session.flags.export_running && !broken.session.flags.export_running
        }),
{
    let generation = window.session.generations.export;
    let failed = window.export_finished(
        generation,
        window.snapshot(),
        ExportOutcome::Failed,
        target,
    );
    assert(failed.effects =~= window.effects + seq![Effect::Notify(Notice::Failure)]);
    let broken = window.export_finished(
        generation,
        window.snapshot(),
        ExportOutcome::WorkerFailed,
        target,
    );
    assert(broken.effects =~= window.effects + seq![Effect::Notify(Notice::ExportWorkerFailed)]);
}

/// The content of an image is looked for, and what is found is asked about just as
/// it was found; once that is agreed to, the image is cropped to just that. Where
/// nothing is found for sure, that is told.
pub proof fn found_content_is_cropped_to(
    window: WindowView,
    x: u32,
    y: u32,
    width: u32,
    height: u32,
)
    requires
        window.session.content.has_document,
    ensures
        window.session.content.rendered is Some ==> asks_just(
            window,
            window.activate(Action::CropContent),
            seq![Effect::DetectContent],
        ),
        window.session.content.rendered is None ==> asks_just(
            window,
            window.activate(Action::CropContent),
            seq![Effect::Notify(Notice::OpenEditableFirst)],
        ),
        asks_just(
            window,
            window.content_detected(ContentOutcome::Found { x, y, width, height }),
            seq![Effect::ConfirmCrop { x, y, width, height }],
        ),
        asks_just(
            window,
            window.content_detected(ContentOutcome::Uncertain),
            seq![Effect::Notify(Notice::UncertainBackground)],
        ),
        asks_just(
            window,
            window.content_detected(ContentOutcome::Failed),
            seq![Effect::Notify(Notice::Failure)],
        ),
        asks_just(
            window,
            window.content_detected(ContentOutcome::WorkerFailed),
            seq![Effect::Notify(Notice::DetectionWorkerFailed)],
        ),
        edits_just(
            window,
            window.crop_confirmed(x, y, width, height),
            Operation::Crop { x, y, width, height },
        ),
{
    reveal(WindowView::editing_action);
    edits_are_applied_and_rendered(window, Operation::Crop { x, y, width, height });
    let asked = window.activate(Action::CropContent);
    if window.session.content.rendered is Some {
        assert(asked.effects =~= window.effects + seq![Effect::DetectContent]);
    } else {
        assert(asked.effects =~= window.effects + seq![Effect::Notify(Notice::OpenEditableFirst)]);
    }
    assert(window.content_detected(ContentOutcome::Found { x, y, width, height }).effects
        =~= window.effects + seq![Effect::ConfirmCrop { x, y, width, height }]);
    assert(window.content_detected(ContentOutcome::Uncertain).effects =~= window.effects + seq![
        Effect::Notify(Notice::UncertainBackground),
    ]);
    assert(window.content_detected(ContentOutcome::Failed).effects =~= window.effects + seq![
        Effect::Notify(Notice::Failure),
    ]);
    assert(window.content_detected(ContentOutcome::WorkerFailed).effects =~= window.effects + seq![
        Effect::Notify(Notice::DetectionWorkerFailed),
    ]);
}

/// The size of a palette is asked for, and the colours are reduced just as it was
/// chosen.
pub proof fn chosen_palettes_are_applied(
    window: WindowView,
    colors: u16,
    dithering: bool,
    preserve_accents: bool,
)
    requires
        window.session.content.has_document,
    ensures
        window.session.content.rendered is Some ==> asks_just(
            window,
            window.activate(Action::Palette),
            seq![Effect::ChoosePalette],
        ),
        window.session.content.rendered is None ==> asks_just(
            window,
            window.activate(Action::Palette),
            seq![Effect::Notify(Notice::OpenEditableFirst)],
        ),
        edits_just(
            window,
            window.palette_chosen(colors, dithering, preserve_accents),
            Operation::Palette { colors, dithering, preserve_accents },
        ),
{
    reveal(WindowView::editing_action);
    edits_are_applied_and_rendered(
        window,
        Operation::Palette { colors, dithering, preserve_accents },
    );
    let asked = window.activate(Action::Palette);
    if window.session.content.rendered is Some {
        assert(asked.effects =~= window.effects + seq![Effect::ChoosePalette]);
    } else {
        assert(asked.effects =~= window.effects + seq![Effect::Notify(Notice::OpenEditableFirst)]);
    }
}

/// A canvas is given just the size that was chosen for it.
pub proof fn canvases_are_given_their_size(window: WindowView, width: u32, height: u32)
    requires
        window.session.content.has_document,
    ensures
        edits_just(
            window,
            window.canvas_size_chosen(width, height),
            Operation::ResizeCanvas { width, height },
        ),
{
    edits_are_applied_and_rendered(window, Operation::ResizeCanvas { width, height });
}

} // verus!
