//! What is printed, and whether it can be.

use crate::effect::{Effect, Notice};
use crate::window::{ViewerWindow, WindowView};
use vstd::prelude::*;

verus! {

/// Where the pixels that are printed come from.
#[derive(Debug, Clone, Copy, PartialEq, Eq, Structural)]
pub enum PrintSource {
    /// The document, rendered as it is now.
    Document,
    /// What the canvas shows.
    Frame,
}

/// How an image lies in memory for the printer.
#[derive(Debug, Clone, Copy, PartialEq, Eq, Structural)]
pub struct PrintLayout {
    pub width: i32,
    pub height: i32,
    pub stride: i32,
}

/// Why an image cannot be printed.
#[derive(Debug, Clone, Copy, PartialEq, Eq, Structural)]
pub enum PrintError {
    WidthTooLarge,
    HeightTooLarge,
    StrideTooLarge,
    Empty,
}

/// Why an image of this size cannot be printed, where it cannot.
pub open spec fn print_error(width: u32, height: u32) -> Option<PrintError> {
    if width > i32::MAX {
        Some(PrintError::WidthTooLarge)
    } else if height > i32::MAX {
        Some(PrintError::HeightTooLarge)
    } else if 4 * width > i32::MAX {
        Some(PrintError::StrideTooLarge)
    } else if width == 0 || height == 0 {
        Some(PrintError::Empty)
    } else {
        None
    }
}

/// How an image of this size lies in memory for the printer.
pub fn print_layout(width: u32, height: u32) -> (layout: Result<PrintLayout, PrintError>)
    ensures
        match layout {
            Ok(layout) => {
                &&& print_error(width, height) is None
                &&& layout.width == width
                &&& layout.height == height
                &&& layout.stride == 4 * width
            },
            Err(error) => print_error(width, height) == Some(error),
        },
{
    if width > i32::MAX as u32 {
        return Err(PrintError::WidthTooLarge);
    }
    if height > i32::MAX as u32 {
        return Err(PrintError::HeightTooLarge);
    }
    let width: i32 = width as i32;
    let height: i32 = height as i32;
    match width.checked_mul(4) {
        None => Err(PrintError::StrideTooLarge),
        Some(stride) => {
            if width == 0 || height == 0 {
                return Err(PrintError::Empty);
            }
            Ok(PrintLayout { width, height, stride })
        },
    }
}

impl WindowView {
    /// Where the pixels to print come from, where there is an image. An animated
    /// image, and one that can only be viewed, is printed as it is shown.
    pub open spec fn print_source(self) -> Option<PrintSource> {
        if self.session.content.texture is None {
            None
        } else if self.session.animation.frames == 0 && self.session.content.has_document {
            Some(PrintSource::Document)
        } else {
            Some(PrintSource::Frame)
        }
    }

    /// The window with its image on the way to the printer.
    pub open spec fn print(self) -> WindowView {
        match self.print_source() {
            Some(source) => self.emit(
                Effect::PreparePrint { source, generation: self.session.generations.load },
            ),
            None => self,
        }
    }

    /// The window once the pixels to print are there, or cannot be had.
    pub open spec fn print_prepared(self, generation: u64, ready: bool) -> WindowView {
        if generation != self.session.generations.load {
            self
        } else {
            self.emit(
                if ready {
                    Effect::RunPrint
                } else {
                    Effect::Notify(Notice::PrintFailed)
                },
            )
        }
    }
}

impl ViewerWindow {
    /// Where the pixels to print come from, where there is an image.
    pub fn print_source(&self) -> (source: Option<PrintSource>)
        ensures
            source == self@.print_source(),
    {
        if self.session.content.texture.is_none() {
            None
        } else if self.session.animation.frames == 0 && self.session.content.has_document {
            Some(PrintSource::Document)
        } else {
            Some(PrintSource::Frame)
        }
    }

    /// Prints the image.
    pub fn print(&mut self)
        ensures
            final(self)@ == old(self)@.print(),
    {
        if let Some(source) = self.print_source() {
            self.emit(Effect::PreparePrint { source, generation: self.session.generations.load });
        }
    }

    /// Hands the pixels to the printer, unless another image was loaded since.
    pub fn print_prepared(&mut self, generation: u64, ready: bool)
        ensures
            final(self)@ == old(self)@.print_prepared(generation, ready),
    {
        if generation != self.session.generations.load {
            return;
        }
        self.emit(
            if ready {
                Effect::RunPrint
            } else {
                Effect::Notify(Notice::PrintFailed)
            },
        );
    }
}

} // verus!
