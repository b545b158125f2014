//! How the banner before a run is set off on a terminal.

use vstd::prelude::*;

verus! {

/// The basic terminal colours.
#[derive(Copy, Clone, Debug, PartialEq, Eq, Structural)]
pub enum BannerColor {
    Black,
    Blue,
    Green,
    Red,
    Cyan,
    Magenta,
    Yellow,
    White,
}

/// Foreground colour and weight of a piece of terminal text.
#[derive(Copy, Clone, Debug, PartialEq, Eq, Structural)]
pub struct BannerStyle {
    pub fg: BannerColor,
    pub bold: bool,
}

/// The style of every banner: bold cyan, whatever the action is.
pub open spec fn spec_banner_style() -> BannerStyle {
    BannerStyle { fg: BannerColor::Cyan, bold: true }
}

/// The style in which the banner is to be written.
pub fn banner_style() -> (style: BannerStyle)
    ensures
        style == spec_banner_style(),
{
    BannerStyle { fg: BannerColor::Cyan, bold: true }
}

} // verus!
