//! The interval of sizes that a parent offers to a widget.
use vstd::prelude::*;

use crate::length::Length;
use crate::padding::Padding;
use crate::size::Size;
use crate::units::{clamp_u32, max_int, max_u32, min_int, min_u32, sub_u32};

verus! {

/// The sizes that a widget may take: a smallest and a largest size, and the
/// floor that the widget's own sizing policy puts under whatever its content
/// asks for.
#[derive(Debug, Clone, Copy, PartialEq, Eq, Structural)]
pub struct Limits {
    /// The smallest size allowed.
    pub min: Size,
    /// The largest size allowed.
    pub max: Size,
    /// The size that the widget takes where its content asks for less.
    pub fill: Size,
}

/// One axis of `limits` after a widget that asks for `length` along it has
/// narrowed them: the new smallest size, largest size and floor.
pub open spec fn narrow_axis(min: u32, max: u32, fill: u32, length: Length) -> (u32, u32, u32) {
    match length {
        Length::Shrink => (min, max, min),
        Length::Fill | Length::FillPortion(_) => (min, max, min_int(fill as int, max as int) as u32),
        Length::Units(units) => {
            let fixed = max_int(min_int(units as int, max as int), min as int) as u32;
            (fixed, fixed, fixed)
        },
    }
}

/// The extent that content asking for `intrinsic` takes on one axis: no more
/// than `max`, and no less than the floor `fill`.
pub open spec fn resolve_axis(max: u32, fill: u32, intrinsic: u32) -> u32 {
    max_int(min_int(intrinsic as int, max as int), fill as int) as u32
}

impl Limits {
    /// The limits between `min` and `max`, with no sizing policy applied yet:
    /// the floor is as large as can be, so that a first fill policy lowers it
    /// to `max`.
    pub open spec fn new_spec(min: Size, max: Size) -> Limits {
        Limits { min, max, fill: Size { width: u32::MAX, height: u32::MAX } }
    }

    /// These limits narrowed by a widget that asks for `width`.
    pub open spec fn width_spec(self, width: Length) -> Limits {
        let (min, max, fill) = narrow_axis(self.min.width, self.max.width, self.fill.width, width);
        Limits {
            min: Size { width: min, height: self.min.height },
            max: Size { width: max, height: self.max.height },
            fill: Size { width: fill, height: self.fill.height },
        }
    }

    /// These limits narrowed by a widget that asks for `height`.
    pub open spec fn height_spec(self, height: Length) -> Limits {
        let (min, max, fill) = narrow_axis(self.min.height, self.max.height, self.fill.height, height);
        Limits {
            min: Size { width: self.min.width, height: min },
            max: Size { width: self.max.width, height: max },
            fill: Size { width: self.fill.width, height: fill },
        }
    }

    /// These limits with the largest width lowered to `max_width`, but not
    /// below the smallest width.
    pub open spec fn max_width_spec(self, max_width: u32) -> Limits {
        Limits {
            max: Size {
                width: max_int(min_int(self.max.width as int, max_width as int), self.min.width as int) as u32,
                height: self.max.height,
            },
            ..self
        }
    }

    /// These limits with the largest height lowered to `max_height`, but not
    /// below the smallest height.
    pub open spec fn max_height_spec(self, max_height: u32) -> Limits {
        Limits {
            max: Size {
                width: self.max.width,
                height: max_int(min_int(self.max.height as int, max_height as int), self.min.height as int) as u32,
            },
            ..self
        }
    }

    /// These limits with `size` taken off every bound; a bound smaller than
    /// `size` becomes zero.
    pub open spec fn shrink_spec(self, size: Size) -> Limits {
        Limits {
            min: Size {
                width: clamp_u32(self.min.width - size.width),
                height: clamp_u32(self.min.height - size.height),
            },
            max: Size {
                width: clamp_u32(self.max.width - size.width),
                height: clamp_u32(self.max.height - size.height),
            },
            fill: Size {
                width: clamp_u32(self.fill.width - size.width),
                height: clamp_u32(self.fill.height - size.height),
            },
        }
    }

    /// These limits with the space of `padding` taken off every bound.
    pub open spec fn pad_spec(self, padding: Padding) -> Limits {
        self.shrink_spec(
            Size { width: padding.horizontal_spec() as u32, height: padding.vertical_spec() as u32 },
        )
    }

    /// The size that content asking for `intrinsic` takes within these
    /// limits.
    pub open spec fn resolve_spec(self, intrinsic: Size) -> Size {
        Size {
            width: resolve_axis(self.max.width, self.fill.width, intrinsic.width),
            height: resolve_axis(self.max.height, self.fill.height, intrinsic.height),
        }
    }

    /// The limits between `min` and `max`.
    pub fn new(min: Size, max: Size) -> (limits: Limits)
        ensures
            limits == Limits::new_spec(min, max),
    {
        Limits { min, max, fill: Size { width: u32::MAX, height: u32::MAX } }
    }

    /// The smallest size allowed.
    pub fn min(&self) -> (size: Size)
        ensures
            size == self.min,
    {
        self.min
    }

    /// The largest size allowed.
    pub fn max(&self) -> (size: Size)
        ensures
            size == self.max,
    {
        self.max
    }

    /// The floor that the sizing policy puts under the content's size.
    pub fn fill(&self) -> (size: Size)
        ensures
            size == self.fill,
    {
        self.fill
    }

    /// Narrows the limits for a widget that asks for `width`.
    pub fn width(self, width: Length) -> (limits: Limits)
        ensures
            limits == self.width_spec(width),
    {
        let mut limits = self;
        match width {
            Length::Shrink => {
                limits.fill.width = self.min.width;
            },
            Length::Fill | Length::FillPortion(_) => {
                limits.fill.width = min_u32(self.fill.width, self.max.width);
            },
            Length::Units(units) => {
                let fixed = max_u32(min_u32(units as u32, self.max.width), self.min.width);
                limits.min.width = fixed;
                limits.max.width = fixed;
                limits.fill.width = fixed;
            },
        }
        limits
    }

    /// Narrows the limits for a widget that asks for `height`.
    pub fn height(self, height: Length) -> (limits: Limits)
        ensures
            limits == self.height_spec(height),
    {
        let mut limits = self;
        match height {
            Length::Shrink => {
                limits.fill.height = self.min.height;
            },
            Length::Fill | Length::FillPortion(_) => {
                limits.fill.height = min_u32(self.fill.height, self.max.height);
            },
            Length::Units(units) => {
                let fixed = max_u32(min_u32(units as u32, self.max.height), self.min.height);
                limits.min.height = fixed;
                limits.max.height = fixed;
                limits.fill.height = fixed;
            },
        }
        limits
    }

    /// Lowers the largest width to `max_width`.
    pub fn max_width(self, max_width: u32) -> (limits: Limits)
        ensures
            limits == self.max_width_spec(max_width),
    {
        let mut limits = self;
        limits.max.width = max_u32(min_u32(self.max.width, max_width), self.min.width);
        limits
    }

    /// Lowers the largest height to `max_height`.
    pub fn max_height(self, max_height: u32) -> (limits: Limits)
        ensures
            limits == self.max_height_spec(max_height),
    {
        let mut limits = self;
        limits.max.height = max_u32(min_u32(self.max.height, max_height), self.min.height);
        limits
    }

    /// Takes the space of `padding` off every bound.
    pub fn pad(&self, padding: Padding) -> (limits: Limits)
        ensures
            limits == self.pad_spec(padding),
    {
        self.shrink(Size { width: padding.horizontal(), height: padding.vertical() })
    }

    /// Takes `size` off every bound.
    pub fn shrink(&self, size: Size) -> (limits: Limits)
        ensures
            limits == self.shrink_spec(size),
    {
        Limits {
            min: Size {
                width: sub_u32(self.min.width, size.width),
                height: sub_u32(self.min.height, size.height),
            },
            max: Size {
                width: sub_u32(self.max.width, size.width),
                height: sub_u32(self.max.height, size.height),
            },
            fill: Size {
                width: sub_u32(self.fill.width, size.width),
                height: sub_u32(self.fill.height, size.height),
            },
        }
    }

    /// The size that content asking for `intrinsic_size` takes within these
    /// limits: on each axis no more than the largest size, and no less than
    /// the floor of the sizing policy.
    pub fn resolve(&self, intrinsic_size: Size) -> (size: Size)
        ensures
            size == self.resolve_spec(intrinsic_size),
    {
        Size {
            width: max_u32(min_u32(intrinsic_size.width, self.max.width), self.fill.width),
            height: max_u32(min_u32(intrinsic_size.height, self.max.height), self.fill.height),
        }
    }
}

} // verus!
