//! Colours that follow from the theme.

use vstd::prelude::*;

verus! {

/// One part of background in two parts of accent.
pub open spec fn blend(bg: u8, accent: u8) -> int {
    (bg + 2 * accent) / 3
}

fn mix(bg: u8, accent: u8) -> (r: u8)
    ensures
        r == blend(bg, accent),
{
    ((bg as u16 + accent as u16 * 2) / 3) as u8
}

/// The background of selected text: the theme's accent, dimmed towards its
/// background.
pub fn selection_bg_for(bg: [u8; 3], accent: [u8; 3]) -> (r: [u8; 3])
    ensures
        forall|i: int| 0 <= i < 3 ==> #[trigger] r@[i] == blend(bg@[i], accent@[i]),
{
    [mix(bg[0], accent[0]), mix(bg[1], accent[1]), mix(bg[2], accent[2])]
}

/// The colour of the scroll bar's thumb: the theme's foreground, not quite
/// opaque.
pub fn scrollbar_thumb_for(fg: [u8; 3]) -> (r: [u8; 4])
    ensures
        r@ == seq![fg@[0], fg@[1], fg@[2], 160u8],
{
    let r: [u8; 4] = [fg[0], fg[1], fg[2], 160];
    assert(r@ =~= seq![fg@[0], fg@[1], fg@[2], 160u8]);
    r
}

/// A selection lies between the background and the accent.
pub proof fn law_blend_lies_between(bg: u8, accent: u8)
    ensures
        bg <= accent ==> bg <= blend(bg, accent) <= accent,
        accent <= bg ==> accent <= blend(bg, accent) <= bg,
{
}

/// The blend is two parts of the accent to one of the background: it lies twice
/// as far from the background as from the accent, but for rounding.
pub proof fn law_blend_leans_to_the_accent(bg: u8, accent: u8)
    ensures
        0 <= (bg + 2 * accent) - 3 * blend(bg, accent) <= 2,
        blend(bg, bg) == bg,
{
}

} // verus!
