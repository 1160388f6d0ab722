//! Errors reported when a field is configured.

use vstd::prelude::*;

verus! {

/// Why a grid could not be laid out.
#[derive(Clone, Copy, Debug, PartialEq, Eq, Structural)]
pub enum ConfigError {
    /// The spacing between neighbouring points is zero or negative.
    NonPositiveSpacing,
    /// The width of the region is zero or negative.
    NonPositiveWidth,
    /// The height of the region is zero or negative.
    NonPositiveHeight,
}

/// The error that a region of `width` by `height` with points `spacing`
/// apart is rejected with, or `None` where all three are positive. The
/// spacing is looked at first, then the width, then the height.
pub open spec fn config_error(width: int, height: int, spacing: int) -> Option<ConfigError> {
    if spacing <= 0 {
        Some(ConfigError::NonPositiveSpacing)
    } else if width <= 0 {
        Some(ConfigError::NonPositiveWidth)
    } else if height <= 0 {
        Some(ConfigError::NonPositiveHeight)
    } else {
        None
    }
}

/// Checks a configuration, reporting the first of spacing, width and height
/// that is not positive.
pub fn check_config(width: i32, height: i32, spacing: i32) -> (r: Result<(), ConfigError>)
    ensures
        config_error(width as int, height as int, spacing as int) matches Some(e) ==> r == Err::<
            (),
            ConfigError,
        >(e),
        config_error(width as int, height as int, spacing as int) is None ==> r is Ok,
{
    if spacing <= 0 {
        Err(ConfigError::NonPositiveSpacing)
    } else if width <= 0 {
        Err(ConfigError::NonPositiveWidth)
    } else if height <= 0 {
        Err(ConfigError::NonPositiveHeight)
    } else {
        Ok(())
    }
}

} // verus!
