use vstd::prelude::*;
use crate::effect::{Platform, default_effect_spec, default_effect};

verus! {

/// A fault that ends the application while it starts.
#[derive(Clone, Copy, PartialEq, Eq, Structural, Debug)]
pub enum StartupError {
    /// No window carries the main window's identifier.
    MainWindowMissing,
    /// The platform refused the default effect, which startup requires.
    DefaultEffectRefused,
}

/// How startup ends on `platform`, given whether the main window was found
/// and whether the platform accepted the default effect (asked only where
/// the platform has one).
pub open spec fn startup_result(
    platform: Platform,
    main_window_found: bool,
    default_effect_applied: bool,
) -> Result<(), StartupError> {
    if !main_window_found {
        Err(StartupError::MainWindowMissing)
    } else if default_effect_spec(platform) is Some && !default_effect_applied {
        Err(StartupError::DefaultEffectRefused)
    } else {
        Ok(())
    }
}

/// Decides whether startup may go on to build the tray. Unlike an effect
/// request from the front end, a refused default effect is fatal.
pub fn check_startup(platform: Platform, main_window_found: bool, default_effect_applied: bool) -> (r:
    Result<(), StartupError>)
    ensures
        r == startup_result(platform, main_window_found, default_effect_applied),
        r is Err <==> (!main_window_found || (default_effect_spec(platform) is Some
            && !default_effect_applied)),
{
    if !main_window_found {
        Err(StartupError::MainWindowMissing)
    } else if default_effect(platform).is_some() && !default_effect_applied {
        Err(StartupError::DefaultEffectRefused)
    } else {
        Ok(())
    }
}

} // verus!
