//! How a window begins.

use crate::effect::Effect;
use crate::file_state::{no_changes, place, FileLocation, LocationView, PendingDirectoryChanges};
use crate::scale::{ScaleMethod, ScaleUnit};
use crate::tool::Tool;
use crate::window::{
    Animation, Annotations, Comparison, Content, Files, FilesView, Flags, Generations, KeyboardAim,
    Pencil, Region, ScalePreviewView, Scaling, Session, Tools, ViewerWindow, WindowView,
    ZoomFilter, ZoomMode, Zooming,
};
use vstd::prelude::*;

verus! {

/// What the settings say of a new window.
#[derive(Debug, Clone, Copy, PartialEq, Eq, Structural)]
pub struct OpeningSettings {
    pub zoom_mode: ZoomMode,
    pub zoom_filter: ZoomFilter,
    pub scale_method: ScaleMethod,
}

/// Whether the images to navigate are those that the user named: there are
/// several, and the list of them could be made.
pub open spec fn named_by_the_user(files: nat, listed: Option<usize>) -> bool {
    files > 1 && listed is Some
}

/// The state of a window without an image.
pub open spec fn first_session(
    settings: OpeningSettings,
    explicit: bool,
    has_neighbors: bool,
) -> Session {
    Session {
        content: Content {
            texture: None,
            has_document: false,
            rendered: None,
            dirty: false,
            can_undo: false,
            can_redo: false,
            has_neighbors,
            selected_kind: None,
            comparison_rendered: false,
        },
        tools: Tools { tool: Tool::Idle, return_tool: None },
        annotations: Annotations { selected: None, nudged: None, drag: None, editor: None },
        aim: KeyboardAim { cursor: None, anchor: None },
        region: Region { selection: None, drag: None },
        pencil: Pencil { drag: None, line_anchor: None, line_annotation: None },
        scaling: Scaling {
            method: settings.scale_method,
            unit: ScaleUnit::Pixels,
            locked: true,
            source: None,
            preview: None,
            limits: (2, 2),
            target: (1, 1),
            view: ScalePreviewView::Footprint,
            showing_original: false,
            committing: false,
            running: false,
            pending_activation: false,
        },
        zooming: Zooming {
            mode: settings.zoom_mode,
            filter: settings.zoom_filter,
            pending_fit: None,
            fit_on_load: None,
            tick_scheduled: false,
        },
        comparison: Comparison {
            active: false,
            locked: true,
            syncing: false,
            lens_source: None,
            lens_active: false,
        },
        animation: Animation { frames: 0, index: 0, paused: false },
        generations: Generations {
            load: 0,
            render: 0,
            navigation: 0,
            directory: 0,
            external_reload: 0,
            comparison: 0,
            export: 0,
            scale_preview: 0,
        },
        flags: Flags {
            explicit_navigation: explicit,
            has_sequence: explicit,
            decode_pending: false,
            external_conflict: false,
            subtitle_ready: false,
            close_approved: false,
            deletion_running: false,
            export_running: false,
            directory_scheduled: false,
            comparison_scheduled: false,
        },
        source_modified: None,
        pending_discard: None,
    }
}

/// No files.
pub open spec fn no_files() -> FilesView {
    FilesView {
        current: None,
        comparison: None,
        pending_comparison: None,
        requested_comparison: None,
        comparison_renamed_to: None,
        awaiting_discard: None,
        pending_navigation: None,
        matched_against: None,
        vanished: None,
        deleting: None,
        pending_changes: no_changes(),
        settling_changes: no_changes(),
    }
}

/// A window that was just opened, about a file or none.
pub open spec fn opened(
    settings: OpeningSettings,
    explicit: bool,
    has_neighbors: bool,
    file: Option<LocationView>,
) -> WindowView {
    let empty = WindowView {
        session: first_session(settings, explicit, has_neighbors),
        files: no_files(),
        flattened_annotations: seq![],
        effects: seq![Effect::UpdateActionStates],
    };
    match file {
        Some(file) => empty.load_with_fit(file, true),
        None => empty,
    }
}

fn empty_session(settings: OpeningSettings, explicit: bool, has_neighbors: bool) -> (session: Session)
    ensures
        session == first_session(settings, explicit, has_neighbors),
{
    Session {
        content: Content {
            texture: None,
            has_document: false,
            rendered: None,
            dirty: false,
            can_undo: false,
            can_redo: false,
            has_neighbors,
            selected_kind: None,
            comparison_rendered: false,
        },
        tools: Tools { tool: Tool::Idle, return_tool: None },
        annotations: Annotations { selected: None, nudged: None, drag: None, editor: None },
        aim: KeyboardAim { cursor: None, anchor: None },
        region: Region { selection: None, drag: None },
        pencil: Pencil { drag: None, line_anchor: None, line_annotation: None },
        scaling: Scaling {
            method: settings.scale_method,
            unit: ScaleUnit::Pixels,
            locked: true,
            source: None,
            preview: None,
            limits: (2, 2),
            target: (1, 1),
            view: ScalePreviewView::Footprint,
            showing_original: false,
            committing: false,
            running: false,
            pending_activation: false,
        },
        zooming: Zooming {
            mode: settings.zoom_mode,
            filter: settings.zoom_filter,
            pending_fit: None,
            fit_on_load: None,
            tick_scheduled: false,
        },
        comparison: Comparison {
            active: false,
            locked: true,
            syncing: false,
            lens_source: None,
            lens_active: false,
        },
        animation: Animation { frames: 0, index: 0, paused: false },
        generations: Generations {
            load: 0,
            render: 0,
            navigation: 0,
            directory: 0,
            external_reload: 0,
            comparison: 0,
            export: 0,
            scale_preview: 0,
        },
        flags: Flags {
            explicit_navigation: explicit,
            has_sequence: explicit,
            decode_pending: false,
            external_conflict: false,
            subtitle_ready: false,
            close_approved: false,
            deletion_running: false,
            export_running: false,
            directory_scheduled: false,
            comparison_scheduled: false,
        },
        source_modified: None,
        pending_discard: None,
    }
}

fn empty_files() -> (files: Files)
    ensures
        files@ == no_files(),
{
    Files {
        current: None,
        comparison: None,
        pending_comparison: None,
        requested_comparison: None,
        comparison_renamed_to: None,
        awaiting_discard: None,
        pending_navigation: None,
        matched_against: None,
        vanished: None,
        deleting: None,
        pending_changes: PendingDirectoryChanges::default(),
        settling_changes: PendingDirectoryChanges::default(),
    }
}

impl ViewerWindow {
    fn open(
        settings: OpeningSettings,
        explicit: bool,
        has_neighbors: bool,
        file: Option<FileLocation>,
    ) -> (window: ViewerWindow)
        ensures
            window@ == opened(settings, explicit, has_neighbors, place(file)),
    {
        let mut window = ViewerWindow {
            session: empty_session(settings, explicit, has_neighbors),
            files: empty_files(),
            flattened_annotations: Vec::new(),
            effects: Vec::new(),
        };
        window.effects.push(Effect::UpdateActionStates);
        assert(window.effects@ =~= seq![Effect::UpdateActionStates]);
        if let Some(file) = file {
            window.load_with_fit(file, true);
        }
        window
    }

    /// A window about a file, or about none. The images of the file's folder are
    /// those to navigate.
    pub fn new(settings: OpeningSettings, file: Option<FileLocation>) -> (window: ViewerWindow)
        ensures
            window@ == opened(settings, false, false, place(file)),
    {
        ViewerWindow::open(settings, false, false, file)
    }

    /// A window about the first of some files. Where there are several, they are
    /// the images to navigate; `listed` is how many of them are in the list of
    /// these, where it could be made.
    pub fn new_with_files(
        settings: OpeningSettings,
        files: &Vec<FileLocation>,
        listed: Option<usize>,
    ) -> (window: ViewerWindow)
        ensures
            ({
                let explicit = named_by_the_user(files@.len(), listed);
                window@ == opened(
                    settings,
                    explicit,
                    explicit && listed->0 > 1,
                    if files@.len() > 0 {
                        Some(files@[0]@)
                    } else {
                        None
                    },
                )
            }),
    {
        let file = if files.len() > 0 {
            Some(files[0].clone())
        } else {
            None
        };
        match listed {
            Some(length) if files.len() > 1 => ViewerWindow::open(settings, true, length > 1, file),
            _ => ViewerWindow::open(settings, false, false, file),
        }
    }

    /// Puts the window on the screen.
    pub fn present(&mut self)
        ensures
            final(self)@ == old(self)@.emit(Effect::PresentWindow),
    {
        self.emit(Effect::PresentWindow);
    }
}

/// Several opened files are the images to navigate, and the first of them is the
/// current one, with no edit, tool or comparison.
pub proof fn opened_files_are_navigated(
    settings: OpeningSettings,
    explicit: bool,
    has_neighbors: bool,
    file: LocationView,
)
    ensures
        ({
            let window = opened(settings, explicit, has_neighbors, Some(file));
            &&& window.files.current == Some(file)
            &&& window.session.flags.explicit_navigation == explicit
            &&& window.session.flags.has_sequence == explicit
            &&& !window.session.unsaved()
            &&& window.session.tools.tool == Tool::Idle
            &&& !window.session.comparison.active
        }),
{
    let empty = opened(settings, explicit, has_neighbors, None);
    crate::load_laws::loading_starts_afresh(empty, file, true);
}

} // verus!
