//! The arithmetic and the lists of the scaling controls.

use vstd::prelude::*;

verus! {

/// What the numbers of the scaling controls count.
#[derive(Debug, Clone, Copy, PartialEq, Eq, Structural)]
pub enum ScaleUnit {
    Pixels,
    Percent,
}

/// How strongly the edges of game assets are smoothed, in percent.
#[derive(Debug, Clone, Copy, PartialEq, Eq, Structural)]
pub struct GameAssetAa {
    pub percent: u8,
}

impl Default for GameAssetAa {
    fn default() -> (aa: Self)
        ensures
            aa == spec_default_aa(),
    {
        GameAssetAa { percent: 50 }
    }
}

/// The smoothing before the user has chosen one.
pub open spec fn spec_default_aa() -> GameAssetAa {
    GameAssetAa { percent: 50 }
}

/// The filters of the scaling panel.
#[derive(Debug, Clone, Copy, PartialEq, Eq, Structural)]
pub enum Resampling {
    Nearest,
    Bicubic,
    GameAsset(GameAssetAa),
    Lanczos,
}

/// The scaling methods of the preferences.
#[derive(Debug, Clone, Copy, PartialEq, Eq, Structural)]
pub enum ScaleMethod {
    Nearest,
    Linear,
    Bicubic,
    SeamCarving,
}

/// The nearest whole number to `left * right / divisor`, halves upwards.
pub open spec fn rounded_ratio(left: nat, right: nat, divisor: nat) -> nat {
    (left * right + divisor / 2) / divisor
}

/// A length as a pixel count: at least one, at most what the type can hold.
pub open spec fn clamped_length(length: nat) -> nat {
    if length < 1 {
        1
    } else if length > u32::MAX {
        u32::MAX as nat
    } else {
        length
    }
}

/// The length that goes with `target` where `along` goes with `across`.
pub open spec fn proportional(across: u32, along: u32, target: u32) -> nat {
    clamped_length(
        rounded_ratio(
            clamped_length(across as nat),
            clamped_length(target as nat),
            clamped_length(along as nat),
        ),
    )
}

fn at_least_one(length: u32) -> (clamped: u32)
    ensures
        clamped == clamped_length(length as nat),
{
    if length < 1 {
        1
    } else {
        length
    }
}

fn proportional_length(across: u32, along: u32, target: u32) -> (length: u32)
    ensures
        length == proportional(across, along, target),
{
    let across: u64 = at_least_one(across) as u64;
    let along: u64 = at_least_one(along) as u64;
    let target: u64 = at_least_one(target) as u64;
    assert(across * target <= 0xffff_ffff * 0xffff_ffff) by (nonlinear_arith)
        requires
            across <= 0xffff_ffff,
            target <= 0xffff_ffff,
    ;
    let length: u64 = (across * target + along / 2) / along;
    if length < 1 {
        1
    } else if length > 0xffff_ffff {
        0xffff_ffff
    } else {
        length as u32
    }
}

/// The size that an image of `width` by `height` has at `target_width` with
/// its proportions kept.
pub fn scaled_dimensions(width: u32, height: u32, target_width: u32) -> (size: (u32, u32))
    ensures
        size.0 == clamped_length(target_width as nat),
        size.1 == proportional(height, width, target_width),
{
    (at_least_one(target_width), proportional_length(height, width, target_width))
}

/// The width that an image of `width` by `height` has at `target_height` with
/// its proportions kept.
pub fn scaled_width_for_height(width: u32, height: u32, target_height: u32) -> (target_width: u32)
    ensures
        target_width == proportional(width, height, target_height),
{
    proportional_length(width, height, target_height)
}

/// The smallest percentage that counts, in millionths of a percent.
pub const LEAST_PERCENT: u64 = 10_000;

/// A length at a percentage, which is given in millionths of a percent.
pub open spec fn length_at_percent(length: u32, millionths: u64) -> nat {
    clamped_length(
        rounded_ratio(
            clamped_length(length as nat),
            if millionths < LEAST_PERCENT {
                LEAST_PERCENT as nat
            } else {
                millionths as nat
            },
            100_000_000,
        ),
    )
}

fn percent_of(length: u32, millionths: u64) -> (scaled: u32)
    ensures
        scaled == length_at_percent(length, millionths),
{
    let millionths: u64 = if millionths < LEAST_PERCENT {
        LEAST_PERCENT
    } else {
        millionths
    };
    let length: u128 = at_least_one(length) as u128;
    let share: u128 = millionths as u128;
    assert(length * share <= 0xffff_ffff * 0xffff_ffff_ffff_ffff) by (nonlinear_arith)
        requires
            length <= 0xffff_ffff,
            share <= 0xffff_ffff_ffff_ffff,
    ;
    let scaled: u128 = (length * share + 50_000_000) / 100_000_000;
    if scaled < 1 {
        1
    } else if scaled > 0xffff_ffff {
        0xffff_ffff
    } else {
        scaled as u32
    }
}

/// The size that an image has at a percentage, which is given in millionths of
/// a percent. No side vanishes.
pub fn dimensions_from_percent(width: u32, height: u32, millionths: u64) -> (size: (u32, u32))
    ensures
        size.0 == length_at_percent(width, millionths),
        size.1 == length_at_percent(height, millionths),
{
    (percent_of(width, millionths), percent_of(height, millionths))
}

/// At one hundred percent an image keeps its size.
pub proof fn whole_percentage_keeps_the_size(length: u32)
    requires
        1 <= length,
    ensures
        length_at_percent(length, 100_000_000) == length,
{
    assert((length * 100_000_000 + 50_000_000) / 100_000_000 == length) by (nonlinear_arith);
}

/// An image keeps its size where its own width, or its own height, is asked
/// for.
pub proof fn own_size_is_kept(width: u32, height: u32)
    requires
        1 <= width,
        1 <= height,
    ensures
        proportional(height, width, width) == height,
        proportional(width, height, height) == width,
{
    assert((height * width + width as int / 2) / (width as int) == height) by (nonlinear_arith)
        requires
            1 <= width,
    ;
    assert((width * height + height as int / 2) / (height as int) == width) by (nonlinear_arith)
        requires
            1 <= height,
    ;
}

/// The kept proportions are right to half a pixel, unless the length had to be
/// brought into the range of pixel counts.
pub proof fn proportions_are_kept(across: u32, along: u32, target: u32)
    requires
        1 <= across,
        1 <= along,
        1 <= target,
        1 <= rounded_ratio(across as nat, target as nat, along as nat) <= u32::MAX,
    ensures
        -along <= 2 * (proportional(across, along, target) * along - across * target) <= along,
{
    let exact = across * target;
    let length = proportional(across, along, target) as int;
    let divisor = along as int;
    assert(length == (exact + divisor / 2) / divisor);
    assert(length * divisor <= exact + divisor / 2 < length * divisor + divisor)
        by (nonlinear_arith)
        requires
            divisor >= 1,
            length == (exact + divisor / 2) / divisor,
    ;
}

/// A wider image is not lower: with its proportions kept, the height grows
/// with the width.
pub proof fn height_grows_with_width(width: u32, height: u32, small: u32, large: u32)
    requires
        small <= large,
    ensures
        proportional(height, width, small) <= proportional(height, width, large),
{
    let across = clamped_length(height as nat);
    let divisor = clamped_length(width as nat);
    let low = clamped_length(small as nat);
    let high = clamped_length(large as nat);
    assert(across * low <= across * high) by (nonlinear_arith)
        requires
            low <= high,
    ;
    vstd::arithmetic::div_mod::lemma_div_is_ordered(
        (across * low + divisor / 2) as int,
        (across * high + divisor / 2) as int,
        divisor as int,
    );
}

/// What the numbers count, by the place in the list of units.
pub open spec fn spec_scale_unit(index: u32) -> ScaleUnit {
    if index == 1 {
        ScaleUnit::Percent
    } else {
        ScaleUnit::Pixels
    }
}

/// What the numbers count, by the place in the list of units.
pub fn scale_unit(index: u32) -> (unit: ScaleUnit)
    ensures
        unit == (if index == 1 {
            ScaleUnit::Percent
        } else {
            ScaleUnit::Pixels
        }),
        unit == spec_scale_unit(index),
{
    if index == 1 {
        ScaleUnit::Percent
    } else {
        ScaleUnit::Pixels
    }
}

/// The place of a filter in the list of the panel.
pub open spec fn spec_resampling_index(resampling: Resampling) -> u32 {
    match resampling {
        Resampling::Nearest => 0,
        Resampling::Bicubic => 1,
        Resampling::GameAsset(_) => 2,
        Resampling::Lanczos => 3,
    }
}

/// The filter at a place of that list; bicubic for any other place.
pub open spec fn spec_resampling_at(index: u32) -> Resampling {
    if index == 0 {
        Resampling::Nearest
    } else if index == 2 {
        Resampling::GameAsset(spec_default_aa())
    } else if index == 3 {
        Resampling::Lanczos
    } else {
        Resampling::Bicubic
    }
}

/// The place of a filter in the list of the panel.
pub fn resampling_index(resampling: Resampling) -> (index: u32)
    ensures
        index == spec_resampling_index(resampling),
{
    match resampling {
        Resampling::Nearest => 0,
        Resampling::Bicubic => 1,
        Resampling::GameAsset(_) => 2,
        Resampling::Lanczos => 3,
    }
}

/// The filter at a place of that list.
pub fn resampling_at(index: u32) -> (resampling: Resampling)
    ensures
        resampling == spec_resampling_at(index),
{
    match index {
        0 => Resampling::Nearest,
        2 => Resampling::GameAsset(GameAssetAa::default()),
        3 => Resampling::Lanczos,
        _ => Resampling::Bicubic,
    }
}

/// Choosing the place of a filter gives the filter back, with the smoothing of
/// game assets at its default.
pub proof fn resampling_round_trip(resampling: Resampling)
    ensures
        spec_resampling_at(spec_resampling_index(resampling)) == match resampling {
            Resampling::GameAsset(_) => Resampling::GameAsset(spec_default_aa()),
            _ => resampling,
        },
        spec_resampling_index(spec_resampling_at(spec_resampling_index(resampling)))
            == spec_resampling_index(resampling),
{
}

impl ScaleMethod {
    /// The place of a method in the list of the preferences.
    pub open spec fn spec_index(self) -> u32 {
        match self {
            ScaleMethod::Nearest => 0,
            ScaleMethod::Linear => 1,
            ScaleMethod::Bicubic => 2,
            ScaleMethod::SeamCarving => 3,
        }
    }

    /// The method at a place of that list; bicubic for any other place.
    pub open spec fn spec_at(index: u32) -> ScaleMethod {
        if index == 0 {
            ScaleMethod::Nearest
        } else if index == 1 {
            ScaleMethod::Linear
        } else if index == 3 {
            ScaleMethod::SeamCarving
        } else {
            ScaleMethod::Bicubic
        }
    }

    /// The place of a method in the list of the preferences.
    pub fn index(self) -> (index: u32)
        ensures
            index == self.spec_index(),
    {
        match self {
            ScaleMethod::Nearest => 0,
            ScaleMethod::Linear => 1,
            ScaleMethod::Bicubic => 2,
            ScaleMethod::SeamCarving => 3,
        }
    }

    /// The method at a place of that list.
    pub fn at(index: u32) -> (method: ScaleMethod)
        ensures
            method == ScaleMethod::spec_at(index),
    {
        match index {
            0 => ScaleMethod::Nearest,
            1 => ScaleMethod::Linear,
            3 => ScaleMethod::SeamCarving,
            _ => ScaleMethod::Bicubic,
        }
    }

    /// How many times the source's size a target may have.
    pub open spec fn spec_growth(self) -> nat {
        if self == ScaleMethod::SeamCarving {
            1
        } else {
            2
        }
    }

    /// The largest target for a source of that length.
    pub open spec fn spec_limit(self, length: u32) -> nat {
        if length * self.spec_growth() > u32::MAX {
            u32::MAX as nat
        } else {
            (length * self.spec_growth()) as nat
        }
    }

    /// The largest target for a source of that length: seams are only carved
    /// out, the other methods double a length at most.
    pub fn limit(self, length: u32) -> (limit: u32)
        ensures
            limit == self.spec_limit(length),
    {
        if matches!(self, ScaleMethod::SeamCarving) {
            length
        } else if length > 0x7fff_ffff {
            0xffff_ffff
        } else {
            length * 2
        }
    }
}

/// Choosing the place of a method gives the method back.
pub proof fn scale_method_round_trip(method: ScaleMethod)
    ensures
        ScaleMethod::spec_at(method.spec_index()) == method,
{
}

} // verus!
