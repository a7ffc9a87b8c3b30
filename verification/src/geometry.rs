//! Visible geometry inside a coded frame.

use vstd::prelude::*;

use crate::error::ValidationError;

verus! {

/// A rectangle of pixels.
#[derive(Clone, Copy, Debug, PartialEq, Eq, Structural)]
pub struct Rect {
    pub x: u32,
    pub y: u32,
    pub width: u32,
    pub height: u32,
}

impl Rect {
    /// The pixels of the rectangle are some of the pixels of a coded frame.
    pub open spec fn lies_within(self, coded_width: u32, coded_height: u32) -> bool {
        &&& self.width > 0
        &&& self.height > 0
        &&& self.x + self.width <= coded_width
        &&& self.y + self.height <= coded_height
    }

    /// What `validate` returns.
    pub open spec fn verdict(self, coded_width: u32, coded_height: u32) -> Result<
        (),
        ValidationError,
    > {
        if coded_width == 0 || coded_height == 0 {
            Err(ValidationError::ZeroCodedSize { width: coded_width, height: coded_height })
        } else if self.width == 0 || self.height == 0 {
            Err(ValidationError::ZeroVisibleSize { width: self.width, height: self.height })
        } else if self.x + self.width > u32::MAX || self.y + self.height > u32::MAX {
            Err(ValidationError::VisibleRectOverflow)
        } else if !self.lies_within(coded_width, coded_height) {
            Err(
                ValidationError::VisibleRectOutOfBounds {
                    x: self.x,
                    y: self.y,
                    width: self.width,
                    height: self.height,
                    coded_width,
                    coded_height,
                },
            )
        } else {
            Ok(())
        }
    }

    /// Checks that the rectangle is not empty and lies inside the coded frame.
    pub fn validate(&self, coded_width: u32, coded_height: u32) -> (result: Result<
        (),
        ValidationError,
    >)
        ensures
            result == self.verdict(coded_width, coded_height),
            result is Ok <==> self.lies_within(coded_width, coded_height),
    {
        if coded_width == 0 || coded_height == 0 {
            return Err(ValidationError::ZeroCodedSize { width: coded_width, height: coded_height });
        }
        if self.width == 0 || self.height == 0 {
            return Err(
                ValidationError::ZeroVisibleSize { width: self.width, height: self.height },
            );
        }
        let right: u32 = match self.x.checked_add(self.width) {
            Some(right) => right,
            None => return Err(ValidationError::VisibleRectOverflow),
        };
        let bottom: u32 = match self.y.checked_add(self.height) {
            Some(bottom) => bottom,
            None => return Err(ValidationError::VisibleRectOverflow),
        };
        if right > coded_width || bottom > coded_height {
            return Err(
                ValidationError::VisibleRectOutOfBounds {
                    x: self.x,
                    y: self.y,
                    width: self.width,
                    height: self.height,
                    coded_width,
                    coded_height,
                },
            );
        }
        Ok(())
    }
}

} // verus!
