//! The rows of the preferences, and errors of the application chooser.

use crate::window::ZoomFilter;
use vstd::prelude::*;

verus! {

/// What shows through transparent pixels.
#[derive(Debug, Clone, Copy, PartialEq, Eq, Structural)]
pub enum Background {
    Checkerboard,
    Auto,
    White,
    Gray,
    Black,
}

impl Background {
    /// The row of a background.
    pub open spec fn spec_index(self) -> u32 {
        match self {
            Background::Checkerboard => 0,
            Background::Auto => 1,
            Background::White => 2,
            Background::Gray => 3,
            Background::Black => 4,
        }
    }

    /// The background of a row.
    pub open spec fn spec_at(index: u32) -> Background {
        match index {
            1 => Background::Auto,
            2 => Background::White,
            3 => Background::Gray,
            4 => Background::Black,
            _ => Background::Checkerboard,
        }
    }

    /// The row of the background.
    pub fn index(self) -> (index: u32)
        ensures
            index == self.spec_index(),
    {
        match self {
            Background::Checkerboard => 0,
            Background::Auto => 1,
            Background::White => 2,
            Background::Gray => 3,
            Background::Black => 4,
        }
    }

    /// The background of a row; the checkerboard for any other.
    pub fn at(index: u32) -> (background: Background)
        ensures
            background == Background::spec_at(index),
    {
        match index {
            1 => Background::Auto,
            2 => Background::White,
            3 => Background::Gray,
            4 => Background::Black,
            _ => Background::Checkerboard,
        }
    }
}

/// A background is found again under its row.
pub proof fn transparency_round_trip(background: Background)
    ensures
        Background::spec_at(background.spec_index()) == background,
{
}

/// The row of a lens of this diameter.
pub open spec fn spec_lens_size_index(diameter: u32) -> u32 {
    if diameter < 230 {
        0
    } else if diameter < 340 {
        1
    } else {
        2
    }
}

/// The row of a lens of this diameter, in whole pixels: small, medium or large.
pub fn lens_size_index(diameter: u32) -> (index: u32)
    ensures
        index == spec_lens_size_index(diameter),
{
    if diameter < 230 {
        0
    } else if diameter < 340 {
        1
    } else {
        2
    }
}

/// The diameter of the lens of a row.
pub open spec fn spec_lens_diameter_at(index: u32) -> u32 {
    match index {
        1 => 280,
        2 => 400,
        _ => 180,
    }
}

/// The diameter of the lens of a row; the small one for any other.
pub fn lens_diameter_at(index: u32) -> (diameter: u32)
    ensures
        diameter == spec_lens_diameter_at(index),
{
    match index {
        1 => 280,
        2 => 400,
        _ => 180,
    }
}

/// A lens that is on offer is found again under its row.
pub proof fn lens_round_trip(index: u32)
    requires
        index < 3,
    ensures
        spec_lens_size_index(spec_lens_diameter_at(index)) == index,
{
}

/// The filter that the switch for hard zoom stands for.
pub open spec fn spec_filter_for(hard: bool) -> ZoomFilter {
    if hard {
        ZoomFilter::Hard
    } else {
        ZoomFilter::Soft
    }
}

/// The filter that the switch for hard zoom stands for.
pub fn filter_for(hard: bool) -> (filter: ZoomFilter)
    ensures
        filter == spec_filter_for(hard),
        filter == if hard {
            ZoomFilter::Hard
        } else {
            ZoomFilter::Soft
        },
{
    if hard {
        ZoomFilter::Hard
    } else {
        ZoomFilter::Soft
    }
}

/// Why an image was not handed to another application.
#[derive(Debug, Clone, Copy, PartialEq, Eq, Structural)]
pub enum LaunchError {
    DialogCancelled,
    DialogDismissed,
    DialogFailed,
    OperationCancelled,
    Other,
}

/// Whether the user chose not to hand the image to another application.
pub open spec fn spec_open_with_was_cancelled(error: LaunchError) -> bool {
    error == LaunchError::DialogCancelled || error == LaunchError::DialogDismissed || error
        == LaunchError::OperationCancelled
}

/// Whether the user chose not to hand the image to another application, which
/// is no failure.
pub fn open_with_was_cancelled(error: LaunchError) -> (cancelled: bool)
    ensures
        cancelled == (error == LaunchError::DialogCancelled || error == LaunchError::DialogDismissed
            || error == LaunchError::OperationCancelled),
        cancelled == spec_open_with_was_cancelled(error),
{
    matches!(
        error,
        LaunchError::DialogCancelled | LaunchError::DialogDismissed | LaunchError::OperationCancelled
    )
}

} // verus!
