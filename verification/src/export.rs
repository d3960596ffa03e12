//! Saving an image: where to, in which form, and what comes of it.

use crate::effect::{Effect, Notice, Operation};
use crate::file_state::{
    export_context_matches, place, source_revision_changed, FileLocation, LocationView, Timestamp,
};
use crate::text::{decimal, push_decimal};
use crate::window::{
    following_generation, next_generation, Content, FilesView, Flags, Generations, Session,
    ViewerWindow, WindowView,
};
use vstd::prelude::*;

verus! {

/// How a PNG file is written.
#[derive(Debug, Clone, Copy, PartialEq, Eq, Structural)]
pub struct PngOptions {
    pub compression: u8,
    pub preserve_metadata: bool,
    pub convert_to_srgb: bool,
}

/// How a JPEG file is written.
#[derive(Debug, Clone, Copy, PartialEq, Eq)]
pub struct JpegOptions {
    pub quality: u8,
    /// What shows through transparent pixels.
    pub background: [u8; 3],
    pub preserve_metadata: bool,
}

/// How a file is written.
#[derive(Debug, Clone, Copy, PartialEq, Eq)]
pub enum ExportOptions {
    Png(PngOptions),
    Jpeg(JpegOptions),
}

/// What the settings say of exports.
#[derive(Debug, Clone, Copy, PartialEq, Eq)]
pub struct ExportSettings {
    pub png_compression: u8,
    pub jpeg_quality: u8,
    pub jpeg_background: [u8; 3],
    pub preserve_metadata: bool,
}

/// What was chosen in the export dialog.
#[derive(Debug, Clone, Copy, PartialEq, Eq, Structural)]
pub struct ExportChoice {
    /// The compression or the quality.
    pub value: u8,
    pub preserve_metadata: bool,
    pub convert_to_srgb: bool,
    /// The row of the background.
    pub background: u32,
}

/// Where the last dot of a name is.
pub open spec fn last_dot(name: Seq<char>) -> Option<int>
    decreases name.len(),
{
    if name.len() == 0 {
        None
    } else if name.last() == '.' {
        Some(name.len() - 1)
    } else {
        last_dot(name.drop_last())
    }
}

/// What follows the last dot of a file's name, unless the name begins with it.
pub open spec fn extension(name: Seq<char>) -> Option<Seq<char>> {
    match last_dot(name) {
        Some(dot) => if dot == 0 || name == ".."@ {
            None
        } else {
            Some(name.subrange(dot + 1, name.len() as int))
        },
        None => None,
    }
}

/// The small letter of a capital one of the ASCII letters.
pub open spec fn small_letter(letter: char) -> char {
    if 'A' <= letter <= 'Z' {
        (letter as u32 + 32) as char
    } else {
        letter
    }
}

/// A text without capital ASCII letters.
pub open spec fn small_letters(text: Seq<char>) -> Seq<char> {
    text.map_values(|letter: char| small_letter(letter))
}

/// Whether a file's name ends in an extension, however that is capitalised.
pub open spec fn has_extension(name: Seq<char>, expected: Seq<char>) -> bool {
    match extension(name) {
        Some(ending) => small_letters(ending) == expected,
        None => false,
    }
}

/// How a file of this name is written, where that is possible.
pub open spec fn options_for(name: Seq<char>, settings: ExportSettings) -> Option<ExportOptions> {
    if has_extension(name, "png"@) {
        Some(
            ExportOptions::Png(
                PngOptions {
                    compression: settings.png_compression,
                    preserve_metadata: settings.preserve_metadata,
                    convert_to_srgb: false,
                },
            ),
        )
    } else if has_extension(name, "jpg"@) || has_extension(name, "jpeg"@) {
        Some(
            ExportOptions::Jpeg(
                JpegOptions {
                    quality: settings.jpeg_quality,
                    background: settings.jpeg_background,
                    preserve_metadata: settings.preserve_metadata,
                },
            ),
        )
    } else {
        None
    }
}

/// How this file is written, where that is possible.
pub open spec fn spec_export_options(
    file: LocationView,
    settings: ExportSettings,
) -> Option<ExportOptions> {
    match file.basename() {
        Some(name) => options_for(name, settings),
        None => None,
    }
}

fn small(letter: char) -> (small: char)
    ensures
        small == small_letter(letter),
{
    let code: u32 = letter as u32;
    if 65 <= code && code <= 90 {
        (code as u8 + 32) as char
    } else {
        letter
    }
}

fn find_last_dot(name: &str) -> (dot: Option<usize>)
    ensures
        dot is Some == last_dot(name@) is Some,
        dot is Some ==> dot->0 == last_dot(name@)->0 && dot->0 < usize::MAX,
{
    let length: usize = name.unicode_len();
    let mut end: usize = length;
    assert(name@.take(end as int) == name@);
    while end > 0
        invariant
            length == name@.len(),
            end <= length,
            last_dot(name@) == last_dot(name@.take(end as int)),
        decreases end,
    {
        assert(name@.take(end as int).drop_last() == name@.take(end - 1));
        if name.get_char(end - 1) == '.' {
            return Some(end - 1);
        }
        end = end - 1;
    }
    None
}

proof fn last_dot_is_inside(name: Seq<char>)
    ensures
        last_dot(name) is Some ==> 0 <= last_dot(name)->0 < name.len(),
    decreases name.len(),
{
    if name.len() > 0 {
        last_dot_is_inside(name.drop_last());
    }
}

fn is_parent_name(name: &str) -> (same: bool)
    ensures
        same == (name@ == ".."@),
{
    proof {
        reveal_strlit("..");
    }
    let same = name.unicode_len() == 2 && name.get_char(0) == '.' && name.get_char(1) == '.';
    assert(same ==> name@ =~= ".."@);
    same
}

fn ends_in(name: &str, start: usize, expected: &str) -> (same: bool)
    requires
        start <= name@.len(),
    ensures
        same == (small_letters(name@.subrange(start as int, name@.len() as int)) == expected@),
{
    let ghost ending = name@.subrange(start as int, name@.len() as int);
    let length: usize = name.unicode_len();
    let expected_length: usize = expected.unicode_len();
    if length - start != expected_length {
        return false;
    }
    let mut index: usize = 0;
    while index < expected_length
        invariant
            start <= length,
            length == name@.len(),
            expected_length == expected@.len(),
            length - start == expected_length,
            index <= expected_length,
            ending == name@.subrange(start as int, name@.len() as int),
            forall|i: int| 0 <= i < index ==> small_letters(ending)[i] == #[trigger] expected@[i],
        decreases expected_length - index,
    {
        let letter = small(name.get_char(start + index));
        assert(small_letters(ending)[index as int] == letter);
        if letter != expected.get_char(index) {
            return false;
        }
        index = index + 1;
    }
    assert(small_letters(ending) =~= expected@);
    true
}

/// How a file is written, by the ending of its name and the settings. Other
/// names cannot be written.
pub fn export_options(file: &FileLocation, settings: &ExportSettings) -> (options: Option<
    ExportOptions,
>)
    ensures
        options == spec_export_options(file@, *settings),
{
    let name = match file.basename() {
        None => {
            return None;
        },
        Some(name) => name.as_str(),
    };
    let dot: usize = match find_last_dot(name) {
        None => {
            return None;
        },
        Some(dot) => dot,
    };
    if dot == 0 || is_parent_name(name) {
        return None;
    }
    proof {
        last_dot_is_inside(name@);
    }
    if ends_in(name, dot + 1, "png") {
        Some(
            ExportOptions::Png(
                PngOptions {
                    compression: settings.png_compression,
                    preserve_metadata: settings.preserve_metadata,
                    convert_to_srgb: false,
                },
            ),
        )
    } else if ends_in(name, dot + 1, "jpg") || ends_in(name, dot + 1, "jpeg") {
        Some(
            ExportOptions::Jpeg(
                JpegOptions {
                    quality: settings.jpeg_quality,
                    background: settings.jpeg_background,
                    preserve_metadata: settings.preserve_metadata,
                },
            ),
        )
    } else {
        None
    }
}

/// The row of the export dialog that shows a background.
pub open spec fn spec_background_index(background: [u8; 3]) -> u32 {
    if background@ == seq![128u8, 128, 128] {
        1
    } else if background@ == seq![0u8, 0, 0] {
        2
    } else {
        0
    }
}

/// The row of the export dialog that shows a background: white, gray, black.
/// Any other background is shown as white.
pub fn background_index(background: [u8; 3]) -> (index: u32)
    ensures
        index == spec_background_index(background),
{
    let (red, green, blue) = (background[0], background[1], background[2]);
    assert(background@ =~= seq![red, green, blue]);
    assert(background@ == seq![128u8, 128, 128] ==> background@[0] == 128 && background@[1] == 128
        && background@[2] == 128);
    assert(background@ == seq![0u8, 0, 0] ==> background@[0] == 0 && background@[1] == 0
        && background@[2] == 0);
    if red == 128 && green == 128 && blue == 128 {
        1
    } else if red == 0 && green == 0 && blue == 0 {
        2
    } else {
        0
    }
}

/// The background of a row of the export dialog.
pub open spec fn spec_background_at(index: u32) -> [u8; 3] {
    if index == 1 {
        [128, 128, 128]
    } else if index == 2 {
        [0, 0, 0]
    } else {
        [255, 255, 255]
    }
}

/// The background of a row of the export dialog.
pub fn background_at(index: u32) -> (background: [u8; 3])
    ensures
        background == spec_background_at(index),
{
    match index {
        1 => [128, 128, 128],
        2 => [0, 0, 0],
        _ => [255, 255, 255],
    }
}

/// A background that is on offer is found again under its row.
pub proof fn background_round_trip(index: u32)
    requires
        index < 3,
    ensures
        spec_background_index(spec_background_at(index)) == index,
{
    assert(spec_background_at(0)@[0] == 255);
    assert(spec_background_at(1)@ =~= seq![128u8, 128, 128]);
    assert(spec_background_at(2)@ =~= seq![0u8, 0, 0]);
    assert(seq![128u8, 128, 128][0] == 128);
    assert(seq![0u8, 0, 0][0] == 0);
}

/// The options that were chosen.
pub open spec fn spec_chosen_options(
    defaults: ExportOptions,
    choice: ExportChoice,
) -> ExportOptions {
    match defaults {
        ExportOptions::Png(_) => ExportOptions::Png(
            PngOptions {
                compression: choice.value,
                preserve_metadata: choice.preserve_metadata,
                convert_to_srgb: choice.convert_to_srgb,
            },
        ),
        ExportOptions::Jpeg(_) => ExportOptions::Jpeg(
            JpegOptions {
                quality: choice.value,
                background: spec_background_at(choice.background),
                preserve_metadata: choice.preserve_metadata,
            },
        ),
    }
}

/// The options that were chosen in the export dialog.
pub fn chosen_options(defaults: ExportOptions, choice: ExportChoice) -> (options: ExportOptions)
    ensures
        options == spec_chosen_options(defaults, choice),
{
    match defaults {
        ExportOptions::Png(_) => ExportOptions::Png(
            PngOptions {
                compression: choice.value,
                preserve_metadata: choice.preserve_metadata,
                convert_to_srgb: choice.convert_to_srgb,
            },
        ),
        ExportOptions::Jpeg(_) => ExportOptions::Jpeg(
            JpegOptions {
                quality: choice.value,
                background: background_at(choice.background),
                preserve_metadata: choice.preserve_metadata,
            },
        ),
    }
}

/// The settings with the chosen options in them.
pub open spec fn spec_remembered(
    settings: ExportSettings,
    options: ExportOptions,
) -> ExportSettings {
    match options {
        ExportOptions::Png(png) => ExportSettings {
            png_compression: png.compression,
            preserve_metadata: png.preserve_metadata,
            ..settings
        },
        ExportOptions::Jpeg(jpeg) => ExportSettings {
            jpeg_quality: jpeg.quality,
            jpeg_background: jpeg.background,
            preserve_metadata: jpeg.preserve_metadata,
            ..settings
        },
    }
}

/// The settings with the chosen options in them, for the next export.
pub fn remembered(settings: ExportSettings, options: ExportOptions) -> (after: ExportSettings)
    ensures
        after == spec_remembered(settings, options),
{
    match options {
        ExportOptions::Png(png) => ExportSettings {
            png_compression: png.compression,
            preserve_metadata: png.preserve_metadata,
            ..settings
        },
        ExportOptions::Jpeg(jpeg) => ExportSettings {
            jpeg_quality: jpeg.quality,
            jpeg_background: jpeg.background,
            preserve_metadata: jpeg.preserve_metadata,
            ..settings
        },
    }
}

/// The next export of a file is offered what was chosen for the one before,
/// but for the conversion of its colours.
pub proof fn choices_are_remembered(
    file: LocationView,
    settings: ExportSettings,
    choice: ExportChoice,
)
    requires
        spec_export_options(file, settings) is Some,
    ensures
        ({
            let chosen = spec_chosen_options(spec_export_options(file, settings)->0, choice);
            let offered = spec_export_options(file, spec_remembered(settings, chosen));
            match chosen {
                ExportOptions::Png(png) => offered == Some(
                    ExportOptions::Png(PngOptions { convert_to_srgb: false, ..png }),
                ),
                ExportOptions::Jpeg(_) => offered == Some(chosen),
            }
        }),
{
}

/// Which image was to be exported.
#[derive(Debug)]
pub struct ExportSnapshot {
    pub source_file: Option<FileLocation>,
    pub load_generation: u64,
}

/// Which image was to be exported, as a value.
pub ghost struct SnapshotView {
    pub source_file: Option<LocationView>,
    pub load_generation: u64,
}

impl View for ExportSnapshot {
    type V = SnapshotView;

    open spec fn view(&self) -> SnapshotView {
        SnapshotView {
            source_file: place(self.source_file),
            load_generation: self.load_generation,
        }
    }
}

/// How saving goes on. Along with the snapshot, the document is kept as it is.
#[derive(Debug)]
pub enum SaveStep {
    /// It does not.
    Refused,
    /// The user is asked where to.
    Choose(ExportSnapshot),
    /// The file is written over.
    Overwrite(ExportSnapshot, ExportOptions),
}

/// How saving goes on, as a value.
pub ghost enum SaveStepView {
    Refused,
    Choose(SnapshotView),
    Overwrite(SnapshotView, ExportOptions),
}

impl View for SaveStep {
    type V = SaveStepView;

    open spec fn view(&self) -> SaveStepView {
        match self {
            SaveStep::Refused => SaveStepView::Refused,
            SaveStep::Choose(snapshot) => SaveStepView::Choose(snapshot@),
            SaveStep::Overwrite(snapshot, options) => SaveStepView::Overwrite(
                snapshot@,
                *options,
            ),
        }
    }
}

/// How an export ended.
#[derive(Debug, Clone, Copy, PartialEq, Eq)]
pub enum ExportOutcome {
    /// The file is written; edits that came after the snapshot are not in it.
    Written { modified: Option<Timestamp>, newer_edits: bool },
    Failed,
    WorkerFailed,
}

/// What came of the search for the content of an image.
#[derive(Debug, Clone, Copy, PartialEq, Eq, Structural)]
pub enum ContentOutcome {
    Found { x: u32, y: u32, width: u32, height: u32 },
    Uncertain,
    Failed,
    WorkerFailed,
}

impl WindowView {
    pub open spec fn snapshot(self) -> SnapshotView {
        SnapshotView {
            source_file: self.files.current,
            load_generation: self.session.generations.load,
        }
    }

    /// How the current file can be written over, where it can.
    pub open spec fn overwrite_options(
        self,
        force_dialog: bool,
        settings: ExportSettings,
    ) -> Option<ExportOptions> {
        match self.files.current {
            Some(file) => if !force_dialog && file.is_local() {
                spec_export_options(file, settings)
            } else {
                None
            },
            None => None,
        }
    }

    /// Whether the file on disk is not the one that was read.
    pub open spec fn source_changed(self, modified: Option<Timestamp>) -> bool {
        self.session.flags.external_conflict || self.session.source_modified != modified
    }

    /// The window after a request to save, and how that goes on.
    pub open spec fn save(
        self,
        force_dialog: bool,
        modified: Option<Timestamp>,
        settings: ExportSettings,
    ) -> (WindowView, SaveStepView) {
        if !self.session.content.has_document {
            (self.emit(Effect::Notify(Notice::OpenEditableFirst)), SaveStepView::Refused)
        } else {
            match self.overwrite_options(force_dialog, settings) {
                None => (self, SaveStepView::Choose(self.snapshot())),
                Some(options) => if self.source_changed(modified) {
                    (self.emit(Effect::Notify(Notice::ChangedExternally)), SaveStepView::Refused)
                } else {
                    (self, SaveStepView::Overwrite(self.snapshot(), options))
                },
            }
        }
    }

    /// The window after a place to save at was chosen.
    pub open spec fn target_chosen(
        self,
        target: LocationView,
        settings: ExportSettings,
    ) -> WindowView {
        if !target.is_local() {
            self.emit(Effect::Notify(Notice::NoAtomicExport))
        } else if spec_export_options(target, settings) is None {
            self.emit(Effect::Notify(Notice::UnsupportedName))
        } else {
            self
        }
    }

    /// The window with an export running, in place of one that ran before.
    pub open spec fn start_export(self) -> WindowView {
        let generation = next_generation(self.session.generations.export);
        WindowView {
            session: Session {
                generations: Generations { export: generation, ..self.session.generations },
                flags: Flags { export_running: true, ..self.session.flags },
                ..self.session
            },
            ..self
        }.emit_if(self.session.flags.export_running, Effect::CancelExport).emit(
            Effect::Notify(Notice::Exporting),
        ).emit(Effect::StartExport { generation })
    }

    /// The window with no export running.
    pub open spec fn cancel_export(self) -> WindowView {
        if self.session.flags.export_running {
            self.with_flags(
                Flags { export_running: false, ..self.session.flags },
            ).emit(Effect::CancelExport)
        } else {
            self
        }
    }

    /// The window with the edits of a snapshot saved.
    pub open spec fn mark_saved(self, newer_edits: bool) -> WindowView {
        self.observe(
            Content {
                dirty: self.session.content.has_document && newer_edits,
                ..self.session.content
            },
        ).emit_if(self.session.content.has_document, Effect::MarkSaved)
    }

    /// The window with the exported file as its own.
    #[verifier::opaque]
    pub open spec fn adopt_target(self, target: LocationView, had_source: bool) -> WindowView {
        self.with_files(FilesView { current: Some(target), ..self.files }).emit_if(
            self.session.content.has_document,
            Effect::SetDocumentPath,
        ).emit(Effect::RememberFolder).emit_if(
            self.session.flags.explicit_navigation && had_source && self.session.flags.has_sequence,
            Effect::ReplaceInSequence,
        ).rebuild_navigation()
    }

    /// The window with its file written.
    #[verifier::opaque]
    pub open spec fn file_written(
        self,
        snapshot: SnapshotView,
        modified: Option<Timestamp>,
        newer_edits: bool,
        target: Option<LocationView>,
    ) -> WindowView {
        let marked = self.mark_saved(newer_edits);
        let placed = match target {
            Some(target) => marked.adopt_target(target, snapshot.source_file is Some),
            None => marked,
        };
        placed.report_written(modified, self.session.content.has_document && newer_edits)
    }

    /// The window that knows its file to be the one on disk, and says so.
    pub open spec fn report_written(
        self,
        modified: Option<Timestamp>,
        newer_edits: bool,
    ) -> WindowView {
        WindowView {
            session: Session {
                source_modified: modified,
                flags: Flags { external_conflict: false, ..self.session.flags },
                ..self.session
            },
            ..self
        }.emit(
            Effect::Notify(
                if newer_edits {
                    Notice::NewerEditsUnsaved
                } else {
                    Notice::ImageSaved
                },
            ),
        ).emit(Effect::UpdateTitle).emit(Effect::UpdateSubtitle)
    }

    /// The window after an export ended. `target` is the file that becomes the
    /// window's own.
    pub open spec fn export_finished(
        self,
        generation: u64,
        snapshot: SnapshotView,
        outcome: ExportOutcome,
        target: Option<LocationView>,
    ) -> WindowView {
        let ended = self.with_flags(Flags { export_running: false, ..self.session.flags });
        if generation != self.session.generations.export {
            self
        } else if snapshot != self.snapshot() {
            ended
        } else {
            match outcome {
                ExportOutcome::Written { modified, newer_edits } => ended.file_written(
                    snapshot,
                    modified,
                    newer_edits,
                    target,
                ),
                ExportOutcome::Failed => ended.emit(Effect::Notify(Notice::Failure)),
                ExportOutcome::WorkerFailed => ended.emit(
                    Effect::Notify(Notice::ExportWorkerFailed),
                ),
            }
        }
    }

    /// The window that looks for the content of its image.
    pub open spec fn crop_to_content(self) -> WindowView {
        self.emit(
            if self.session.content.rendered is Some {
                Effect::DetectContent
            } else {
                Effect::Notify(Notice::OpenEditableFirst)
            },
        )
    }

    /// The window after the search for the content of its image.
    pub open spec fn content_detected(self, outcome: ContentOutcome) -> WindowView {
        self.emit(
            match outcome {
                ContentOutcome::Found { x, y, width, height } => Effect::ConfirmCrop {
                    x,
                    y,
                    width,
                    height,
                },
                ContentOutcome::Uncertain => Effect::Notify(Notice::UncertainBackground),
                ContentOutcome::Failed => Effect::Notify(Notice::Failure),
                ContentOutcome::WorkerFailed => Effect::Notify(Notice::DetectionWorkerFailed),
            },
        )
    }

    /// The window with its image cropped to the content that was found.
    pub open spec fn crop_confirmed(self, x: u32, y: u32, width: u32, height: u32) -> WindowView {
        self.apply(Operation::Crop { x, y, width, height })
    }

    /// The window with the colours of its image reduced.
    pub open spec fn palette_chosen(
        self,
        colors: u16,
        dithering: bool,
        preserve_accents: bool,
    ) -> WindowView {
        self.apply(Operation::Palette { colors, dithering, preserve_accents })
    }

    /// The window that asks for the size of the palette.
    pub open spec fn show_palette_dialog(self) -> WindowView {
        self.emit(
            if self.session.content.rendered is Some {
                Effect::ChoosePalette
            } else {
                Effect::Notify(Notice::OpenEditableFirst)
            },
        )
    }
}

impl ViewerWindow {
    fn snapshot(&self) -> (snapshot: ExportSnapshot)
        ensures
            snapshot@ == self@.snapshot(),
    {
        ExportSnapshot {
            source_file: match &self.files.current {
                Some(file) => Some(file.clone()),
                None => None,
            },
            load_generation: self.session.generations.load,
        }
    }

    /// How the current file can be written over, where it can: not where the
    /// user wants to be asked, and only a file of this machine with a name that
    /// says how.
    pub fn overwrite_options(
        &self,
        force_dialog: bool,
        settings: &ExportSettings,
    ) -> (options: Option<ExportOptions>)
        ensures
            options == self@.overwrite_options(force_dialog, *settings),
    {
        match &self.files.current {
            Some(file) => if !force_dialog && file.is_local() {
                export_options(file, settings)
            } else {
                None
            },
            None => None,
        }
    }

    /// Whether the file on disk is not the one that was read.
    pub fn source_changed(&self, modified: Option<Timestamp>) -> (changed: bool)
        ensures
            changed == self@.source_changed(modified),
    {
        self.session.flags.external_conflict || source_revision_changed(
            self.session.source_modified,
            modified,
            true,
        )
    }

    /// Saves the document. A file that changed on disk is not written over.
    pub fn save(
        &mut self,
        force_dialog: bool,
        modified: Option<Timestamp>,
        settings: &ExportSettings,
    ) -> (step: SaveStep)
        ensures
            final(self)@ == old(self)@.save(force_dialog, modified, *settings).0,
            step@ == old(self)@.save(force_dialog, modified, *settings).1,
    {
        if !self.session.content.has_document {
            self.emit(Effect::Notify(Notice::OpenEditableFirst));
            return SaveStep::Refused;
        }
        match self.overwrite_options(force_dialog, settings) {
            None => SaveStep::Choose(self.snapshot()),
            Some(options) => {
                if self.source_changed(modified) {
                    self.emit(Effect::Notify(Notice::ChangedExternally));
                    return SaveStep::Refused;
                }
                SaveStep::Overwrite(self.snapshot(), options)
            },
        }
    }

    /// The options to ask about for a place that was chosen, or a word on why
    /// nothing can be written there.
    pub fn target_chosen(
        &mut self,
        target: &FileLocation,
        settings: &ExportSettings,
    ) -> (defaults: Option<ExportOptions>)
        ensures
            defaults == if target@.is_local() {
                spec_export_options(target@, *settings)
            } else {
                None
            },
            final(self)@ == old(self)@.target_chosen(target@, *settings),
    {
        if !target.is_local() {
            self.emit(Effect::Notify(Notice::NoAtomicExport));
            return None;
        }
        let defaults = export_options(target, settings);
        if defaults.is_none() {
            self.emit(Effect::Notify(Notice::UnsupportedName));
        }
        defaults
    }

    /// Starts an export, and gives its number. One that runs is cancelled.
    pub fn start_export(&mut self) -> (generation: u64)
        ensures
            generation == next_generation(old(self)@.session.generations.export),
            final(self)@ == old(self)@.start_export(),
    {
        let generation: u64 = following_generation(self.session.generations.export);
        let running = self.session.flags.export_running;
        self.session = Session {
            generations: Generations { export: generation, ..self.session.generations },
            flags: Flags { export_running: true, ..self.session.flags },
            ..self.session
        };
        if running {
            self.emit(Effect::CancelExport);
        }
        self.emit(Effect::Notify(Notice::Exporting));
        self.emit(Effect::StartExport { generation });
        generation
    }

    /// Cancels the export that runs, where one does.
    pub fn cancel_export(&mut self)
        ensures
            final(self)@ == old(self)@.cancel_export(),
    {
        if self.session.flags.export_running {
            self.session.flags = Flags { export_running: false, ..self.session.flags };
            self.emit(Effect::CancelExport);
        }
    }

    fn mark_saved(&mut self, newer_edits: bool)
        ensures
            final(self)@ == old(self)@.mark_saved(newer_edits),
    {
        let has_document = self.session.content.has_document;
        self.session.content = Content {
            dirty: has_document && newer_edits,
            ..self.session.content
        };
        if has_document {
            self.emit(Effect::MarkSaved);
        }
    }

    fn adopt_target(&mut self, target: FileLocation, had_source: bool)
        ensures
            final(self)@ == old(self)@.adopt_target(target@, had_source),
    {
        proof {
            reveal(WindowView::adopt_target);
        }
        self.files.current = Some(target);
        if self.session.content.has_document {
            self.emit(Effect::SetDocumentPath);
        }
        self.emit(Effect::RememberFolder);
        if self.session.flags.explicit_navigation && had_source && self.session.flags.has_sequence {
            self.emit(Effect::ReplaceInSequence);
        }
        self.rebuild_navigation();
    }

    fn report_written(&mut self, modified: Option<Timestamp>, newer_edits: bool)
        ensures
            final(self)@ == old(self)@.report_written(modified, newer_edits),
    {
        self.session = Session {
            source_modified: modified,
            flags: Flags { external_conflict: false, ..self.session.flags },
            ..self.session
        };
        self.emit(
            Effect::Notify(
                if newer_edits {
                    Notice::NewerEditsUnsaved
                } else {
                    Notice::ImageSaved
                },
            ),
        );
        self.emit(Effect::UpdateTitle);
        self.emit(Effect::UpdateSubtitle);
    }

    fn file_written(
        &mut self,
        snapshot: &ExportSnapshot,
        modified: Option<Timestamp>,
        newer_edits: bool,
        target: Option<FileLocation>,
    )
        ensures
            final(self)@ == old(self)@.file_written(
                snapshot@,
                modified,
                newer_edits,
                place(target),
            ),
    {
        proof {
            reveal(WindowView::file_written);
        }
        let unsaved = self.session.content.has_document && newer_edits;
        self.mark_saved(newer_edits);
        if let Some(target) = target {
            self.adopt_target(target, snapshot.source_file.is_some());
        }
        self.report_written(modified, unsaved);
    }

    /// Takes note of the end of an export, unless another one was started or
    /// another image is shown by now.
    pub fn export_finished(
        &mut self,
        generation: u64,
        snapshot: &ExportSnapshot,
        outcome: ExportOutcome,
        target: Option<FileLocation>,
    )
        ensures
            final(self)@ == old(self)@.export_finished(
                generation,
                snapshot@,
                outcome,
                place(target),
            ),
    {
        if generation != self.session.generations.export {
            return;
        }
        self.session.flags = Flags { export_running: false, ..self.session.flags };
        if !export_context_matches(
            self.session.generations.load,
            snapshot.load_generation,
            &self.files.current,
            &snapshot.source_file,
        ) {
            return;
        }
        match outcome {
            ExportOutcome::Written { modified, newer_edits } => self.file_written(
                snapshot,
                modified,
                newer_edits,
                target,
            ),
            ExportOutcome::Failed => self.emit(Effect::Notify(Notice::Failure)),
            ExportOutcome::WorkerFailed => self.emit(Effect::Notify(Notice::ExportWorkerFailed)),
        }
    }

    /// Looks for the content of the image, to crop the image to it.
    pub fn crop_to_content(&mut self)
        ensures
            final(self)@ == old(self)@.crop_to_content(),
    {
        self.emit(
            if self.session.content.rendered.is_some() {
                Effect::DetectContent
            } else {
                Effect::Notify(Notice::OpenEditableFirst)
            },
        );
    }

    /// Asks whether the image is to be cropped to the content that was found.
    pub fn content_detected(&mut self, outcome: ContentOutcome)
        ensures
            final(self)@ == old(self)@.content_detected(outcome),
    {
        self.emit(
            match outcome {
                ContentOutcome::Found { x, y, width, height } => Effect::ConfirmCrop {
                    x,
                    y,
                    width,
                    height,
                },
                ContentOutcome::Uncertain => Effect::Notify(Notice::UncertainBackground),
                ContentOutcome::Failed => Effect::Notify(Notice::Failure),
                ContentOutcome::WorkerFailed => Effect::Notify(Notice::DetectionWorkerFailed),
            },
        );
    }

    /// Crops the image to the content that was found.
    pub fn crop_confirmed(&mut self, x: u32, y: u32, width: u32, height: u32)
        ensures
            final(self)@ == old(self)@.apply(Operation::Crop { x, y, width, height }),
            final(self)@ == old(self)@.crop_confirmed(x, y, width, height),
    {
        self.apply(Operation::Crop { x, y, width, height });
    }

    /// Asks for the size of the palette.
    pub fn show_palette_dialog(&mut self)
        ensures
            final(self)@ == old(self)@.show_palette_dialog(),
    {
        self.emit(
            if self.session.content.rendered.is_some() {
                Effect::ChoosePalette
            } else {
                Effect::Notify(Notice::OpenEditableFirst)
            },
        );
    }

    /// Reduces the colours of the image.
    pub fn palette_chosen(&mut self, colors: u16, dithering: bool, preserve_accents: bool)
        ensures
            final(self)@ == old(self)@.apply(
                Operation::Palette { colors, dithering, preserve_accents },
            ),
            final(self)@ == old(self)@.palette_chosen(colors, dithering, preserve_accents),
    {
        self.apply(Operation::Palette { colors, dithering, preserve_accents });
    }
}

/// The question before an image is cropped to its content.
pub open spec fn spec_content_question(x: u32, y: u32, width: u32, height: u32) -> Seq<char> {
    "Detected bounds: x "@ + decimal(x as nat) + ", y "@ + decimal(y as nat) + ", "@ + decimal(
        width as nat,
    ) + " × "@ + decimal(height as nat) + " pixels"@
}

/// The question before an image is cropped to its content.
pub fn content_question(x: u32, y: u32, width: u32, height: u32) -> (text: String)
    ensures
        text@ == spec_content_question(x, y, width, height),
{
    let mut text = String::from_str("Detected bounds: x ");
    push_decimal(&mut text, x as u64);
    text.append(", y ");
    push_decimal(&mut text, y as u64);
    text.append(", ");
    push_decimal(&mut text, width as u64);
    text.append(" × ");
    push_decimal(&mut text, height as u64);
    text.append(" pixels");
    text
}

/// A file that changed on disk since it was read is never written over: saving
/// without asking for a place is refused.
pub proof fn changed_files_are_not_overwritten(
    window: WindowView,
    force_dialog: bool,
    modified: Option<Timestamp>,
    settings: ExportSettings,
)
    requires
        window.source_changed(modified),
    ensures
        !(window.save(force_dialog, modified, settings).1 is Overwrite),
{
}

/// An export of another image, or one that was started anew, changes nothing
/// that is shown.
pub proof fn superseded_exports_change_nothing(
    window: WindowView,
    generation: u64,
    snapshot: SnapshotView,
    outcome: ExportOutcome,
    target: Option<LocationView>,
)
    requires
        generation != window.session.generations.export || snapshot != window.snapshot(),
    ensures
        ({
            let after = window.export_finished(generation, snapshot, outcome, target);
            &&& after.session.content == window.session.content
            &&& after.session.source_modified == window.session.source_modified
            &&& after.files == window.files
            &&& after.effects == window.effects
        }),
{
}

/// What a new name leaves as it is.
proof fn adopting_keeps_the_rest(window: WindowView, target: LocationView, had_source: bool)
    ensures
        ({
            let after = window.adopt_target(target, had_source);
            &&& after.session.content == window.session.content
            &&& after.session.flags.export_running == window.session.flags.export_running
            &&& after.files.current == Some(target)
        }),
{
    reveal(WindowView::adopt_target);
    reveal(WindowView::rebuild_navigation);
}

/// Edits that were made while an export ran stay unsaved; without any, the
/// document is saved, and the file on disk is the one that it was read from.
pub proof fn exports_save_what_they_took(
    window: WindowView,
    modified: Option<Timestamp>,
    newer_edits: bool,
    target: Option<LocationView>,
)
    requires
        window.session.content.has_document,
    ensures
        ({
            let after = window.export_finished(
                window.session.generations.export,
                window.snapshot(),
                ExportOutcome::Written { modified, newer_edits },
                target,
            );
            &&& after.session.unsaved() == newer_edits
            &&& !after.session.flags.export_running
            &&& !after.source_changed(modified)
            &&& after.files.current == if target is Some {
                target
            } else {
                window.files.current
            }
        }),
{
    reveal(WindowView::file_written);
    if target is Some {
        let ended = window.with_flags(Flags { export_running: false, ..window.session.flags });
        adopting_keeps_the_rest(
            ended.mark_saved(newer_edits),
            target->0,
            window.files.current is Some,
        );
    }
}

} // verus!
