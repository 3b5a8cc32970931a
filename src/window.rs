use vstd::prelude::*;
use crate::effect::{Effect, EffectPlan, Platform, effect_plan, is_recognized, named_effect};

verus! {

/// What the shell knows of the main window: whether it still exists, whether
/// it is shown and holds the input focus, and which effect lies on it.
#[derive(Clone, Copy, PartialEq, Eq, Structural, Debug)]
pub struct WindowState {
    pub exists: bool,
    pub visible: bool,
    pub focused: bool,
    pub effect: Option<Effect>,
}

/// Why a platform effect call was turned down.
#[derive(Clone, Copy, PartialEq, Eq, Structural, Debug)]
pub enum EffectFailure {
    /// The operating system does not offer the effect.
    Unsupported,
    /// The platform reported some other fault.
    Rejected,
}

/// The effect on a window after `plan` was carried out, where `applied`
/// tells whether the platform accepted the effect's call. A removal leaves
/// the window without an effect; a refused call leaves it as before.
pub open spec fn effect_after(current: Option<Effect>, plan: EffectPlan, applied: bool) -> Option<
    Effect,
> {
    let cleared = if plan.clear_first {
        None
    } else {
        current
    };
    match plan.apply {
        Some(e) => if applied {
            Some(e)
        } else {
            cleared
        },
        None => cleared,
    }
}

/// The window after an effect request whose calls were carried out.
pub open spec fn window_after_effect(w: WindowState, plan: EffectPlan, applied: bool) -> WindowState {
    WindowState { effect: effect_after(w.effect, plan, applied), ..w }
}

/// An effect request with a recognized name never ends in an error: the
/// request applies the named effect, and whatever the platform answers, the
/// window keeps its existence, visibility and focus, and ends with either the
/// named effect (when the call was accepted) or the effect it had once the
/// request's removals were done (when it was refused).
pub proof fn lemma_recognized_effect_request(
    w: WindowState,
    platform: Platform,
    name: Seq<char>,
    applied: bool,
)
    requires
        is_recognized(platform, name),
    ensures
        effect_plan(platform, name).apply == named_effect(platform, name),
        ({
            let after = window_after_effect(w, effect_plan(platform, name), applied);
            &&& after.exists == w.exists
            &&& after.visible == w.visible
            &&& after.focused == w.focused
            &&& applied ==> after.effect == named_effect(platform, name)
            &&& !applied ==> after.effect == (if platform == Platform::Windows {
                None
            } else {
                w.effect
            })
        }),
{
}

/// An effect request with an unrecognized name changes nothing on the window.
/// On Windows the request first removes every effect, so there this holds of
/// a window that had none.
pub proof fn lemma_unrecognized_effect_request(
    w: WindowState,
    platform: Platform,
    name: Seq<char>,
    applied: bool,
)
    requires
        !is_recognized(platform, name),
        platform == Platform::Windows ==> w.effect is None,
    ensures
        effect_plan(platform, name).apply is None,
        platform != Platform::Windows ==> !effect_plan(platform, name).clear_first,
        window_after_effect(w, effect_plan(platform, name), applied) == w,
{
}

impl WindowState {
    /// Records on the window the calls of `plan` and how the platform
    /// answered the effect's call. The effect is cosmetic: a refusal is
    /// absorbed here and nothing is reported back to the front end.
    pub fn record_effect(&mut self, plan: EffectPlan, outcome: Result<(), EffectFailure>)
        ensures
            *final(self) == window_after_effect(*old(self), plan, outcome is Ok),
    {
        if plan.clear_first {
            self.effect = None;
        }
        match plan.apply {
            Some(e) => {
                if outcome.is_ok() {
                    self.effect = Some(e);
                }
            },
            None => {},
        }
    }
}

} // verus!
