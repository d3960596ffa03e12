//! Text about the open image.

use crate::file_state::{FileLocation, LocationView, Timestamp};
use crate::text::{decimal, push_decimal};
use vstd::prelude::*;

verus! {

/// Where the folder of a file lies, in words.
pub open spec fn folder_text(file: LocationView) -> Seq<char> {
    match file.parent() {
        None => file.uri(),
        Some(folder) => if folder.is_local() {
            folder.path()
        } else {
            folder.uri()
        },
    }
}

/// The path of the folder that holds the file, or its address where it does
/// not lie on this machine. A root is shown by its own address.
pub fn folder_path(file: &FileLocation) -> (text: String)
    ensures
        text@ == folder_text(file@),
{
    match file.parent() {
        None => file.uri(),
        Some(folder) => if folder.is_local() {
            folder.path()
        } else {
            folder.uri()
        },
    }
}

/// The size of an image in words.
pub open spec fn dimensions_text(width: u32, height: u32) -> Seq<char> {
    decimal(width as nat) + " × "@ + decimal(height as nat)
}

/// Appends the size of an image.
pub fn push_dimensions(text: &mut String, width: u32, height: u32)
    ensures
        final(text)@ == old(text)@ + dimensions_text(width, height),
{
    push_decimal(text, width as u64);
    text.append(" × ");
    push_decimal(text, height as u64);
    assert(text@ == old(text)@ + dimensions_text(width, height));
}

/// The label of one side of a comparison: its folder and its size.
pub fn compare_metadata(file: &FileLocation, width: u32, height: u32) -> (text: String)
    ensures
        text@ == folder_text(file@) + " · "@ + dimensions_text(width, height),
{
    let mut text = folder_path(file);
    text.append(" · ");
    push_dimensions(&mut text, width, height);
    text
}

impl Timestamp {
    /// The moment in nanoseconds since the epoch.
    pub open spec fn total_nanos(self) -> int {
        self.seconds * 1_000_000_000 + self.nanos
    }
}

/// The whole seconds between two moments, whichever comes first.
pub open spec fn seconds_between(left: Timestamp, right: Timestamp) -> nat {
    let difference = if left.total_nanos() < right.total_nanos() {
        right.total_nanos() - left.total_nanos()
    } else {
        left.total_nanos() - right.total_nanos()
    };
    (difference / 1_000_000_000) as nat
}

/// The units in which an age is given.
#[derive(Debug, Clone, Copy, PartialEq, Eq, Structural)]
pub enum AgeUnit {
    Minute,
    Hour,
    Day,
    Month,
    Year,
}

impl AgeUnit {
    /// How many seconds the unit stands for.
    pub open spec fn spec_seconds(self) -> nat {
        match self {
            AgeUnit::Minute => 60,
            AgeUnit::Hour => 60 * 60,
            AgeUnit::Day => 24 * 60 * 60,
            AgeUnit::Month => 30 * 24 * 60 * 60,
            AgeUnit::Year => 365 * 24 * 60 * 60,
        }
    }

    /// The unit's name for one of it.
    pub open spec fn spec_name(self) -> Seq<char> {
        match self {
            AgeUnit::Minute => "minute"@,
            AgeUnit::Hour => "hour"@,
            AgeUnit::Day => "day"@,
            AgeUnit::Month => "month"@,
            AgeUnit::Year => "year"@,
        }
    }

    fn seconds(self) -> (seconds: u128)
        ensures
            seconds == self.spec_seconds(),
    {
        match self {
            AgeUnit::Minute => 60,
            AgeUnit::Hour => 60 * 60,
            AgeUnit::Day => 24 * 60 * 60,
            AgeUnit::Month => 30 * 24 * 60 * 60,
            AgeUnit::Year => 365 * 24 * 60 * 60,
        }
    }

    fn name(self) -> (name: &'static str)
        ensures
            name@ == self.spec_name(),
    {
        match self {
            AgeUnit::Minute => "minute",
            AgeUnit::Hour => "hour",
            AgeUnit::Day => "day",
            AgeUnit::Month => "month",
            AgeUnit::Year => "year",
        }
    }
}

/// The largest unit that fits into an age of at least a minute.
pub open spec fn age_unit(seconds: nat) -> AgeUnit {
    if seconds < AgeUnit::Hour.spec_seconds() {
        AgeUnit::Minute
    } else if seconds < AgeUnit::Day.spec_seconds() {
        AgeUnit::Hour
    } else if seconds < AgeUnit::Month.spec_seconds() {
        AgeUnit::Day
    } else if seconds < AgeUnit::Year.spec_seconds() {
        AgeUnit::Month
    } else {
        AgeUnit::Year
    }
}

/// An amount of a unit, in words.
pub open spec fn amount_text(count: nat, unit: AgeUnit) -> Seq<char> {
    decimal(count) + " "@ + unit.spec_name() + if count == 1 {
        seq![]
    } else {
        "s"@
    }
}

/// How far a moment lies from now, in words.
pub open spec fn relative_time_text(modified: Timestamp, now: Timestamp) -> Seq<char> {
    let seconds = seconds_between(modified, now);
    let unit = age_unit(seconds);
    let amount = amount_text(seconds / unit.spec_seconds(), unit);
    if seconds < 60 {
        "just now"@
    } else if modified.total_nanos() <= now.total_nanos() {
        amount + " ago"@
    } else {
        "in "@ + amount
    }
}

fn seconds_apart(left: Timestamp, right: Timestamp) -> (apart: (u128, bool))
    ensures
        apart.0 == seconds_between(left, right),
        apart.1 == (left.total_nanos() <= right.total_nanos()),
{
    let left_nanos: i128 = left.seconds as i128 * 1_000_000_000 + left.nanos as i128;
    let right_nanos: i128 = right.seconds as i128 * 1_000_000_000 + right.nanos as i128;
    let in_order = left_nanos <= right_nanos;
    let difference: u128 = if in_order {
        (right_nanos - left_nanos) as u128
    } else {
        (left_nanos - right_nanos) as u128
    };
    (difference / 1_000_000_000, in_order)
}

/// How long ago a file was modified, in its largest whole unit.
pub fn relative_modified_time(modified: Timestamp, now: Timestamp) -> (text: String)
    ensures
        text@ == relative_time_text(modified, now),
{
    let (seconds, is_past) = seconds_apart(modified, now);
    if seconds < 60 {
        return String::from_str("just now");
    }
    let unit = if seconds < 60 * 60 {
        AgeUnit::Minute
    } else if seconds < 24 * 60 * 60 {
        AgeUnit::Hour
    } else if seconds < 30 * 24 * 60 * 60 {
        AgeUnit::Day
    } else if seconds < 365 * 24 * 60 * 60 {
        AgeUnit::Month
    } else {
        AgeUnit::Year
    };
    assert(seconds / 31_536_000 <= u64::MAX);
    let value: u64 = (seconds / unit.seconds()) as u64;
    let mut text = if is_past {
        String::new()
    } else {
        String::from_str("in ")
    };
    push_decimal(&mut text, value);
    text.append(" ");
    text.append(unit.name());
    if value != 1 {
        text.append("s");
    }
    if is_past {
        text.append(" ago");
    }
    assert(text@ == relative_time_text(modified, now));
    text
}

/// An age is given in the largest unit that it fills: at least one of the
/// unit, and less than one of any larger unit.
pub proof fn age_unit_is_the_largest(seconds: nat, larger: AgeUnit)
    requires
        seconds >= 60,
        larger.spec_seconds() > age_unit(seconds).spec_seconds(),
    ensures
        seconds / age_unit(seconds).spec_seconds() >= 1,
        seconds < larger.spec_seconds(),
{
    match age_unit(seconds) {
        AgeUnit::Minute => assert(seconds / 60 >= 1),
        AgeUnit::Hour => assert(seconds / 3_600 >= 1),
        AgeUnit::Day => assert(seconds / 86_400 >= 1),
        AgeUnit::Month => assert(seconds / 2_592_000 >= 1),
        AgeUnit::Year => {},
    }
}

/// The text under the window's title.
pub open spec fn subtitle_text(
    folder: Seq<char>,
    dimensions: (u32, u32),
    zoom_percent: u64,
    modified: Option<Timestamp>,
    now: Timestamp,
) -> Seq<char> {
    let details = folder + " · "@ + dimensions_text(dimensions.0, dimensions.1) + " · "@ + decimal(
        zoom_percent as nat,
    ) + "%"@;
    match modified {
        Some(modified) => details + " · "@ + relative_time_text(modified, now),
        None => details,
    }
}

/// The text under the window's title: folder, size, zoom and age.
pub fn image_subtitle(
    folder: &str,
    dimensions: (u32, u32),
    zoom_percent: u64,
    modified: Option<Timestamp>,
    now: Timestamp,
) -> (text: String)
    ensures
        text@ == subtitle_text(folder@, dimensions, zoom_percent, modified, now),
{
    let mut text = String::from_str(folder);
    text.append(" · ");
    push_dimensions(&mut text, dimensions.0, dimensions.1);
    text.append(" · ");
    push_decimal(&mut text, zoom_percent);
    text.append("%");
    if let Some(modified) = modified {
        text.append(" · ");
        text.append(relative_modified_time(modified, now).as_str());
    }
    assert(text@ == subtitle_text(folder@, dimensions, zoom_percent, modified, now));
    text
}

} // verus!
