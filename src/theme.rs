//! Color palettes for the tiles.

use vstd::prelude::*;

verus! {

/// A named color palette.
#[derive(Clone, Copy)]
pub struct Theme {
    pub name: &'static str,
    pub bg: &'static str,
    pub text: &'static str,
    pub icon: &'static str,
    pub star: &'static str,
}

/// The palette for light pages.
pub open spec fn light_theme() -> Theme {
    Theme { name: "light", bg: "#ffffff", text: "#1f2328", icon: "#59636e", star: "#e3b341" }
}

/// The palette for dark pages.
pub open spec fn dark_theme() -> Theme {
    Theme { name: "dark", bg: "#0d1117", text: "#f0f6fc", icon: "#7d8590", star: "#e3b341" }
}

/// The palette for light pages.
pub fn light() -> (t: Theme)
    ensures
        t == light_theme(),
{
    Theme { name: "light", bg: "#ffffff", text: "#1f2328", icon: "#59636e", star: "#e3b341" }
}

/// The palette for dark pages.
pub fn dark() -> (t: Theme)
    ensures
        t == dark_theme(),
{
    Theme { name: "dark", bg: "#0d1117", text: "#f0f6fc", icon: "#7d8590", star: "#e3b341" }
}

/// Every palette, light first.
pub fn all() -> (r: Vec<Theme>)
    ensures
        r@ == seq![light_theme(), dark_theme()],
{
    vec![light(), dark()]
}

} // verus!
