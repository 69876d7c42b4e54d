//! The sizes the window can take, in whole logical units.

use vstd::prelude::*;

verus! {

/// Width of the setup panel with no optional section open.
pub const BASIC_SETUP_WINDOW_WIDTH: u32 = 350;

/// Height of the setup panel with no optional section open.
pub const BASIC_SETUP_WINDOW_HEIGHT: u32 = 140;

/// Width of the setup panel while the programmes section is open.
pub const SETUP_WINDOW_WIDTH_WITH_PROGRAMMES: u32 = 720;

/// Height of the setup panel while the study list or the programmes section is open.
pub const SETUP_WINDOW_HEIGHT_WITH_LIST: u32 = 500;

/// Nominal width of the window while studying.
pub const STUDYING_WINDOW_WIDTH: u32 = 150;

/// Nominal height of the window while studying.
pub const STUDYING_WINDOW_HEIGHT: u32 = 150;

/// Height of the bar that spans the monitor while studying.
pub const STUDYING_WINDOW_HEIGHT_SMALL: u32 = 18;

/// Width used while studying when the monitor's size is not known.
pub const FALLBACK_WINDOW_WIDTH: u32 = 100;

/// Height used while studying when the monitor's size is not known.
pub const FALLBACK_WINDOW_HEIGHT: u32 = 100;

/// The width that belongs to a combination of flags.
///
/// Studying takes precedence over the programmes section.
pub open spec fn width_of(is_studying: bool, programmes_showing: bool) -> u32 {
    if is_studying {
        STUDYING_WINDOW_WIDTH
    } else if programmes_showing {
        SETUP_WINDOW_WIDTH_WITH_PROGRAMMES
    } else {
        BASIC_SETUP_WINDOW_WIDTH
    }
}

/// The height that belongs to a combination of flags.
///
/// Studying takes precedence; otherwise either open section makes the panel tall.
pub open spec fn height_of(
    is_studying: bool,
    study_list_showing: bool,
    programmes_showing: bool,
) -> u32 {
    if is_studying {
        STUDYING_WINDOW_HEIGHT
    } else if study_list_showing || programmes_showing {
        SETUP_WINDOW_HEIGHT_WITH_LIST
    } else {
        BASIC_SETUP_WINDOW_HEIGHT
    }
}

/// Window width for the given flags.
pub fn get_width(is_studying: bool, programmes_showing: bool) -> (width: u32)
    ensures
        width == width_of(is_studying, programmes_showing),
{
    if is_studying {
        return STUDYING_WINDOW_WIDTH;
    }
    if programmes_showing {
        return SETUP_WINDOW_WIDTH_WITH_PROGRAMMES;
    }
    BASIC_SETUP_WINDOW_WIDTH
}

/// Window height for the given flags.
pub fn get_height(
    is_studying: bool,
    study_list_showing: bool,
    programmes_showing: bool,
) -> (height: u32)
    ensures
        height == height_of(is_studying, study_list_showing, programmes_showing),
{
    if is_studying {
        return STUDYING_WINDOW_HEIGHT;
    }
    if study_list_showing || programmes_showing {
        return SETUP_WINDOW_HEIGHT_WITH_LIST;
    }
    BASIC_SETUP_WINDOW_HEIGHT
}

} // verus!
