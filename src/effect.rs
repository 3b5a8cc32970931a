use vstd::prelude::*;
use crate::text::same_text;

verus! {

/// The operating-system family the shell runs on; each has its own
/// translucency effects.
#[derive(Clone, Copy, PartialEq, Eq, Structural, Debug)]
pub enum Platform {
    Windows,
    MacOs,
    Other,
}

/// A colour with its opacity, one byte per channel.
#[derive(Clone, Copy, PartialEq, Eq, Structural, Debug)]
pub struct Rgba {
    pub red: u8,
    pub green: u8,
    pub blue: u8,
    pub alpha: u8,
}

/// The vibrancy materials offered on macOS.
#[derive(Clone, Copy, PartialEq, Eq, Structural, Debug)]
pub enum Material {
    HudWindow,
    Popover,
    Sidebar,
    UnderWindowBackground,
}

/// One translucency effect that can be laid on a window's background.
#[derive(Clone, Copy, PartialEq, Eq, Structural, Debug)]
pub enum Effect {
    /// Windows blur behind a tint.
    Blur(Rgba),
    /// Windows acrylic behind a tint.
    Acrylic(Rgba),
    /// Windows mica, with the system's light or dark choice.
    Mica,
    /// macOS vibrancy with the given material.
    Vibrancy(Material),
}

/// The platform calls that one effect request amounts to: optionally remove
/// every Windows effect first, then optionally apply one effect.
#[derive(Clone, Copy, PartialEq, Eq, Structural, Debug)]
pub struct EffectPlan {
    pub clear_first: bool,
    pub apply: Option<Effect>,
}

/// The dark translucent tint used by the Windows blur and acrylic effects.
pub open spec fn dark_tint_spec() -> Rgba {
    Rgba { red: 18, green: 18, blue: 18, alpha: 125 }
}

/// The effect that `name` selects on `platform`, if it selects one.
pub open spec fn named_effect(platform: Platform, name: Seq<char>) -> Option<Effect> {
    match platform {
        Platform::Windows => {
            if name == "blur"@ {
                Some(Effect::Blur(dark_tint_spec()))
            } else if name == "acrylic"@ {
                Some(Effect::Acrylic(dark_tint_spec()))
            } else if name == "mica"@ {
                Some(Effect::Mica)
            } else {
                None
            }
        },
        Platform::MacOs => {
            if name == "hud"@ {
                Some(Effect::Vibrancy(Material::HudWindow))
            } else if name == "popover"@ {
                Some(Effect::Vibrancy(Material::Popover))
            } else if name == "sidebar"@ {
                Some(Effect::Vibrancy(Material::Sidebar))
            } else if name == "under_window"@ {
                Some(Effect::Vibrancy(Material::UnderWindowBackground))
            } else {
                None
            }
        },
        Platform::Other => None,
    }
}

/// Whether `name` is one of the effect names known on `platform`.
pub open spec fn is_recognized(platform: Platform, name: Seq<char>) -> bool {
    named_effect(platform, name) is Some
}

/// What an effect request does: on Windows every effect is removed first,
/// whatever the name; then the named effect, if any, is applied.
pub open spec fn effect_plan(platform: Platform, name: Seq<char>) -> EffectPlan {
    EffectPlan { clear_first: platform == Platform::Windows, apply: named_effect(platform, name) }
}

/// The effect applied at startup, before the window is first shown.
pub open spec fn default_effect_spec(platform: Platform) -> Option<Effect> {
    match platform {
        Platform::Windows => Some(Effect::Blur(dark_tint_spec())),
        Platform::MacOs => Some(Effect::Vibrancy(Material::HudWindow)),
        Platform::Other => None,
    }
}

/// The dark translucent tint used by the Windows blur and acrylic effects.
pub fn dark_tint() -> (r: Rgba)
    ensures
        r == dark_tint_spec(),
{
    Rgba { red: 18, green: 18, blue: 18, alpha: 125 }
}

/// The effect, if any, that `name` selects on `platform`.
pub fn effect_named(platform: Platform, name: &str) -> (r: Option<Effect>)
    ensures
        r == named_effect(platform, name@),
{
    match platform {
        Platform::Windows => {
            if same_text(name, "blur") {
                Some(Effect::Blur(dark_tint()))
            } else if same_text(name, "acrylic") {
                Some(Effect::Acrylic(dark_tint()))
            } else if same_text(name, "mica") {
                Some(Effect::Mica)
            } else {
                None
            }
        },
        Platform::MacOs => {
            if same_text(name, "hud") {
                Some(Effect::Vibrancy(Material::HudWindow))
            } else if same_text(name, "popover") {
                Some(Effect::Vibrancy(Material::Popover))
            } else if same_text(name, "sidebar") {
                Some(Effect::Vibrancy(Material::Sidebar))
            } else if same_text(name, "under_window") {
                Some(Effect::Vibrancy(Material::UnderWindowBackground))
            } else {
                None
            }
        },
        Platform::Other => None,
    }
}

/// Decides the platform calls for a request, from the front end, to give the
/// main window the effect called `effect`. An unknown name applies nothing.
pub fn plan_window_effect(platform: Platform, effect: &str) -> (r: EffectPlan)
    ensures
        r == effect_plan(platform, effect@),
{
    EffectPlan { clear_first: platform == Platform::Windows, apply: effect_named(platform, effect) }
}

/// The effect that startup applies to the main window on `platform`.
pub fn default_effect(platform: Platform) -> (r: Option<Effect>)
    ensures
        r == default_effect_spec(platform),
{
    match platform {
        Platform::Windows => Some(Effect::Blur(dark_tint())),
        Platform::MacOs => Some(Effect::Vibrancy(Material::HudWindow)),
        Platform::Other => None,
    }
}

} // verus!
