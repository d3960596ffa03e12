//! What the window says of its image, of its tools and of what it has done.

use crate::effect::{Announcement, AnnotationKind};
use crate::file_state::{FileLocation, LocationView, Timestamp};
use crate::presentation::{
    dimensions_text, folder_path, folder_text, image_subtitle, push_dimensions, subtitle_text,
};
use crate::text::{decimal, push_decimal};
use crate::tool::Tool;
use crate::window::{ViewerWindow, WindowView};
use vstd::prelude::*;

verus! {

/// The name of a file, or its address where it has none.
pub open spec fn spec_display_name(file: LocationView) -> Seq<char> {
    match file.basename() {
        Some(name) => name,
        None => file.uri(),
    }
}

/// The name of a file, or its address where it has none.
pub fn display_name(file: &FileLocation) -> (name: String)
    ensures
        name@ == spec_display_name(file@),
{
    match file.basename() {
        Some(name) => name.clone(),
        None => file.uri(),
    }
}

/// Where a file lies: its path, or its address where it is not on this machine.
pub open spec fn spec_location(file: LocationView) -> Seq<char> {
    if file.is_local() {
        file.path()
    } else {
        file.uri()
    }
}

/// What is known of the metadata of an image.
#[derive(Debug, Clone, Copy, PartialEq, Eq, Structural)]
pub struct MetadataPresence {
    pub exif: bool,
    pub xmp: bool,
    pub icc: bool,
}

/// Whether something is there, in words.
pub open spec fn presence_text(present: bool) -> Seq<char> {
    if present {
        "Yes"@
    } else {
        "No"@
    }
}

fn presence(present: bool) -> (text: &'static str)
    ensures
        text@ == presence_text(present),
{
    if present {
        "Yes"
    } else {
        "No"
    }
}

/// What metadata an image has, in words.
pub open spec fn spec_metadata_summary(metadata: Option<MetadataPresence>) -> Seq<char> {
    match metadata {
        None => "EXIF: Unknown · XMP: Unknown · ICC profile: Unknown"@,
        Some(metadata) => "EXIF: "@ + presence_text(metadata.exif) + " · XMP: "@ + presence_text(
            metadata.xmp,
        ) + " · ICC profile: "@ + presence_text(metadata.icc),
    }
}

/// What metadata an image has, in words.
pub fn metadata_summary(metadata: Option<MetadataPresence>) -> (text: String)
    ensures
        text@ == spec_metadata_summary(metadata),
{
    match metadata {
        None => String::from_str("EXIF: Unknown · XMP: Unknown · ICC profile: Unknown"),
        Some(metadata) => {
            let mut text = String::from_str("EXIF: ");
            text.append(presence(metadata.exif));
            text.append(" · XMP: ");
            text.append(presence(metadata.xmp));
            text.append(" · ICC profile: ");
            text.append(presence(metadata.icc));
            text
        },
    }
}

/// The rows of the image properties.
#[derive(Debug)]
pub struct ImageProperties {
    pub dimensions: String,
    pub location: String,
    pub format: String,
    pub metadata: String,
}

impl WindowView {
    /// The title of the window, once it is about a file. Unsaved edits show in
    /// it.
    pub open spec fn title(self) -> Option<Seq<char>> {
        match self.files.current {
            None => None,
            Some(file) => Some(
                spec_display_name(file) + if self.session.unsaved() {
                    " •"@
                } else {
                    seq![]
                },
            ),
        }
    }

    /// The text under the title, once there is an image to speak of.
    pub open spec fn subtitle(self, zoom_percent: u64, now: Timestamp) -> Option<Seq<char>> {
        match (self.session.content.texture, self.files.current) {
            (Some(size), Some(file)) => if self.session.flags.subtitle_ready {
                Some(
                    subtitle_text(
                        folder_text(file),
                        size,
                        zoom_percent,
                        self.session.source_modified,
                        now,
                    ),
                )
            } else {
                None
            },
            _ => None,
        }
    }

    /// The size of the edited pixels, or else of the picture.
    pub open spec fn image_size(self) -> (u32, u32) {
        match (self.session.content.rendered, self.session.content.texture) {
            (Some(size), _) => size,
            (None, Some(size)) => size,
            (None, None) => (0, 0),
        }
    }

    /// Where the image lies, in words.
    pub open spec fn image_location(self, document_path: Option<Seq<char>>) -> Seq<char> {
        match (self.files.current, document_path) {
            (Some(file), _) => spec_location(file),
            (None, Some(path)) => path,
            (None, None) => "Unavailable"@,
        }
    }
}

/// The text behind a reference, where there is one.
pub open spec fn text_behind(text: Option<&str>) -> Option<Seq<char>> {
    match text {
        Some(text) => Some(text@),
        None => None,
    }
}

impl ViewerWindow {
    /// The title of the window, once it is about a file.
    pub fn title(&self) -> (title: Option<String>)
        ensures
            match title {
                Some(title) => self@.title() == Some(title@),
                None => self@.title() is None,
            },
    {
        match &self.files.current {
            None => None,
            Some(file) => {
                let mut title = display_name(file);
                if self.unsaved() {
                    title.append(" •");
                }
                assert(self@.title()->0 =~= title@);
                Some(title)
            },
        }
    }

    /// The text under the title, once there is an image to speak of.
    pub fn subtitle(&self, zoom_percent: u64, now: Timestamp) -> (subtitle: Option<String>)
        ensures
            match subtitle {
                Some(subtitle) => self@.subtitle(zoom_percent, now) == Some(subtitle@),
                None => self@.subtitle(zoom_percent, now) is None,
            },
    {
        if !self.session.flags.subtitle_ready {
            return None;
        }
        match (self.session.content.texture, &self.files.current) {
            (Some(size), Some(file)) => Some(
                image_subtitle(
                    folder_path(file).as_str(),
                    size,
                    zoom_percent,
                    self.session.source_modified,
                    now,
                ),
            ),
            _ => None,
        }
    }

    /// What the image properties show, where there is an image. The document
    /// knows its path and its metadata.
    pub fn image_properties(
        &self,
        document_path: Option<&str>,
        format: Option<&str>,
        metadata: Option<MetadataPresence>,
    ) -> (properties: Option<ImageProperties>)
        ensures
            properties is Some == self@.session.content.texture is Some,
            properties is Some ==> {
                let rows = properties->0;
                &&& rows.dimensions@ == dimensions_text(
                    self@.image_size().0,
                    self@.image_size().1,
                )
                &&& rows.location@ == self@.image_location(text_behind(document_path))
                &&& rows.format@ == match format {
                    Some(format) => format@,
                    None => "Unknown"@,
                }
                &&& rows.metadata@ == spec_metadata_summary(metadata)
            },
    {
        if self.session.content.texture.is_none() {
            return None;
        }
        let size = match (self.session.content.rendered, self.session.content.texture) {
            (Some(size), _) => size,
            (None, Some(size)) => size,
            (None, None) => (0, 0),
        };
        let mut dimensions = String::new();
        push_dimensions(&mut dimensions, size.0, size.1);
        assert(dimensions@ =~= dimensions_text(size.0, size.1));
        let location = match (&self.files.current, document_path) {
            (Some(file), _) => if file.is_local() {
                file.path()
            } else {
                file.uri()
            },
            (None, Some(path)) => String::from_str(path),
            (None, None) => String::from_str("Unavailable"),
        };
        let format = match format {
            Some(format) => String::from_str(format),
            None => String::from_str("Unknown"),
        };
        Some(ImageProperties { dimensions, location, format, metadata: metadata_summary(metadata) })
    }

    /// The folders to open a dialog in, the best one first: that of the file,
    /// the one that was used last, the user's own.
    pub fn initial_folders(
        &self,
        last: Option<FileLocation>,
        home: FileLocation,
    ) -> (folders: Vec<FileLocation>)
        ensures
            places(folders@) == self@.initial_folders(crate::file_state::place(last), home@),
    {
        let mut folders: Vec<FileLocation> = Vec::new();
        if let Some(file) = &self.files.current {
            if let Some(parent) = file.parent() {
                folders.push(parent);
            }
        }
        if let Some(last) = last {
            folders.push(last);
        }
        folders.push(home);
        assert(places(folders@) =~= self@.initial_folders(
            crate::file_state::place(last),
            home@,
        ));
        folders
    }
}

/// Some files as places.
pub open spec fn places(files: Seq<FileLocation>) -> Seq<LocationView> {
    files.map_values(|file: FileLocation| file@)
}

/// Something as a list of at most one.
pub open spec fn at_most_one(place: Option<LocationView>) -> Seq<LocationView> {
    match place {
        Some(place) => seq![place],
        None => seq![],
    }
}

impl WindowView {
    /// The folders to open a dialog in, the best one first.
    pub open spec fn initial_folders(
        self,
        last: Option<LocationView>,
        home: LocationView,
    ) -> Seq<LocationView> {
        let own = match self.files.current {
            Some(file) => file.parent(),
            None => None,
        };
        at_most_one(own) + at_most_one(last) + seq![home]
    }
}

/// How the canvas is named while a tool is active.
pub open spec fn spec_canvas_label(tool: Tool) -> Seq<char> {
    if tool == Tool::Idle {
        "Image canvas"@
    } else {
        "Image canvas, "@ + tool.spec_name() + " tool active"@
    }
}

/// How the canvas is named while a tool is active.
pub fn canvas_label(tool: Tool) -> (label: String)
    ensures
        label@ == spec_canvas_label(tool),
{
    let mut label = String::from_str("Image canvas");
    if matches!(tool, Tool::Idle) {
        return label;
    }
    label = String::from_str("Image canvas, ");
    label.append(tool.name());
    label.append(" tool active");
    label
}

impl AnnotationKind {
    /// What an annotation is called.
    pub open spec fn spec_name(self) -> Seq<char> {
        match self {
            AnnotationKind::PencilDrawing => "Pencil drawing"@,
            AnnotationKind::PencilLine => "Pencil line"@,
            AnnotationKind::PencilRectangle => "Pencil rectangle"@,
            AnnotationKind::PencilEllipse => "Pencil ellipse"@,
            AnnotationKind::Highlight => "Highlight"@,
            AnnotationKind::Arrow => "Arrow"@,
            AnnotationKind::Measurement => "Measurement"@,
            AnnotationKind::Text => "Text"@,
        }
    }

    /// What an annotation is called.
    pub fn name(self) -> (name: &'static str)
        ensures
            name@ == self.spec_name(),
    {
        match self {
            AnnotationKind::PencilDrawing => "Pencil drawing",
            AnnotationKind::PencilLine => "Pencil line",
            AnnotationKind::PencilRectangle => "Pencil rectangle",
            AnnotationKind::PencilEllipse => "Pencil ellipse",
            AnnotationKind::Highlight => "Highlight",
            AnnotationKind::Arrow => "Arrow",
            AnnotationKind::Measurement => "Measurement",
            AnnotationKind::Text => "Text",
        }
    }
}

impl Announcement {
    /// The announcement in words.
    pub open spec fn spec_text(self) -> Seq<char> {
        match self {
            Announcement::KeyboardHelp => "Use the arrow keys to move, Shift with an arrow to move faster, and Space or Enter to act."@,
            Announcement::Cursor { column, row } => "Column "@ + decimal(column as nat) + ", row "@
                + decimal(row as nat),
            Announcement::StartPointSet => "Start point set. Move to the end point and press Space or Enter."@,
            Announcement::RegionSelected { width, height } => "Region selected, "@ + decimal(
                width as nat,
            ) + " by "@ + decimal(height as nat) + " pixels. Choose zoom, crop, or copy."@,
            Announcement::AnnotationSelected(kind) => kind.spec_name() + " selected"@,
        }
    }

    /// The announcement in words.
    pub fn text(self) -> (text: String)
        ensures
            text@ == self.spec_text(),
    {
        match self {
            Announcement::KeyboardHelp => String::from_str(
                "Use the arrow keys to move, Shift with an arrow to move faster, and Space or Enter to act.",
            ),
            Announcement::Cursor { column, row } => {
                let mut text = String::from_str("Column ");
                push_decimal(&mut text, column);
                text.append(", row ");
                push_decimal(&mut text, row);
                text
            },
            Announcement::StartPointSet => String::from_str(
                "Start point set. Move to the end point and press Space or Enter.",
            ),
            Announcement::RegionSelected { width, height } => {
                let mut text = String::from_str("Region selected, ");
                push_decimal(&mut text, width as u64);
                text.append(" by ");
                push_decimal(&mut text, height as u64);
                text.append(" pixels. Choose zoom, crop, or copy.");
                text
            },
            Announcement::AnnotationSelected(kind) => {
                let mut text = String::from_str(kind.name());
                text.append(" selected");
                text
            },
        }
    }
}

/// What was copied, in words.
pub open spec fn spec_copied_text(width: u32, height: u32, selection: bool) -> Seq<char> {
    "Copied "@ + dimensions_text(width, height) + if selection {
        " selection"@
    } else {
        " image"@
    }
}

/// What was copied, in words: the selected region, or the whole image.
pub fn copied_text(width: u32, height: u32, selection: bool) -> (text: String)
    ensures
        text@ == spec_copied_text(width, height, selection),
{
    let mut text = String::from_str("Copied ");
    push_dimensions(&mut text, width, height);
    text.append(
        if selection {
            " selection"
        } else {
            " image"
        },
    );
    text
}

/// Which colour was copied, in words.
pub fn copied_color_text(color: &str) -> (text: String)
    ensures
        text@ == "Copied "@ + color@,
{
    let mut text = String::from_str("Copied ");
    text.append(color);
    text
}

} // verus!
