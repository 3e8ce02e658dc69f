//! The click-through state machine: one flag saying whether the overlay
//! window currently lets pointer input pass through to whatever is beneath
//! it, together with the decisions each trigger makes around that flag.

use vstd::prelude::*;
use vstd::string::StringExecFns;

verus! {

/// Why a command-style operation failed.
#[derive(Clone, Copy, Debug, PartialEq, Eq, Structural)]
pub enum PenetrationError {
    /// The overlay window does not currently exist; a user-visible failure
    /// for command callers, silently ignored on the hotkey path.
    WindowNotFound,
    /// The OS-level pointer-passthrough or visibility property could not be
    /// applied to the window.
    OsPropertyApplyFailed,
    /// The change notification could not be delivered; never fatal, only
    /// reported for logging.
    EventEmitFailed,
}

impl PenetrationError {
    /// The user-visible failure string for this error.
    pub open spec fn spec_message(self) -> Seq<char> {
        match self {
            PenetrationError::WindowNotFound => "window not found"@,
            PenetrationError::OsPropertyApplyFailed => "could not apply window property"@,
            PenetrationError::EventEmitFailed => "could not notify listeners"@,
        }
    }

    /// The user-visible failure string for this error.
    pub fn message(&self) -> (m: String)
        ensures
            m@ == self.spec_message(),
    {
        match self {
            PenetrationError::WindowNotFound => String::from_str("window not found"),
            PenetrationError::OsPropertyApplyFailed => {
                String::from_str("could not apply window property")
            },
            PenetrationError::EventEmitFailed => String::from_str("could not notify listeners"),
        }
    }
}

/// The flag after one toggle attempt: flipped when the window exists,
/// untouched when it does not.
pub open spec fn toggle_transition(p: bool, window_exists: bool) -> bool {
    if window_exists {
        !p
    } else {
        p
    }
}

/// The flag after the hotkey fires: flipped only when the window exists and
/// is visible, untouched otherwise.
pub open spec fn hotkey_transition(p: bool, window_exists: bool, window_visible: bool) -> bool {
    if window_exists && window_visible {
        !p
    } else {
        p
    }
}

/// The flag after the close-time reset: interactive, whatever held before.
pub open spec fn reset_transition(p: bool) -> bool {
    false
}

/// The one shared entity: whether the overlay currently ignores pointer
/// input. Callers serialize access to it (the surrounding application keeps
/// it behind a lock), so every mutation here sees a settled prior value.
pub struct PenetrationController {
    is_penetrable: bool,
}

impl PenetrationController {
    /// Whether the overlay is in the pass-through state.
    pub closed spec fn penetrable(self) -> bool {
        self.is_penetrable
    }

    /// A fresh controller: the overlay starts interactive.
    pub fn new() -> (c: Self)
        ensures
            !c.penetrable(),
    {
        PenetrationController { is_penetrable: false }
    }

    /// Read the current flag.
    pub fn is_penetrable(&self) -> (b: bool)
        ensures
            b == self.penetrable(),
    {
        self.is_penetrable
    }

    /// The toggle command's read-modify-write. With the window present the
    /// flag flips and the new value comes back, to be applied to the window
    /// and announced; with it absent nothing changes and the caller gets
    /// `WindowNotFound`.
    pub fn toggle(&mut self, window_exists: bool) -> (r: Result<bool, PenetrationError>)
        ensures
            final(self).penetrable() == toggle_transition(old(self).penetrable(), window_exists),
            window_exists ==> r == Ok::<bool, PenetrationError>(!old(self).penetrable()),
            !window_exists ==> r == Err::<bool, PenetrationError>(
                PenetrationError::WindowNotFound,
            ) && *final(self) == *old(self),
    {
        if window_exists {
            self.is_penetrable = !self.is_penetrable;
            Ok(self.is_penetrable)
        } else {
            Err(PenetrationError::WindowNotFound)
        }
    }

    /// The hotkey callback's half of the machine. It only has an effect when
    /// the window exists and is visible; then the flag flips and the new
    /// value comes back to be applied and announced, with any failure
    /// swallowed by the caller. Otherwise this is a no-op: no state change
    /// and nothing to apply or emit.
    pub fn query_and_apply_on_hotkey(
        &mut self,
        window_exists: bool,
        window_visible: bool,
    ) -> (r: Option<bool>)
        ensures
            final(self).penetrable() == hotkey_transition(
                old(self).penetrable(),
                window_exists,
                window_visible,
            ),
            window_exists && window_visible ==> r == Some(!old(self).penetrable()),
            !(window_exists && window_visible) ==> r == None::<bool> && *final(self) == *old(self),
    {
        if window_exists && window_visible {
            self.is_penetrable = !self.is_penetrable;
            Some(self.is_penetrable)
        } else {
            None
        }
    }

    /// The close-time reset: unconditionally back to interactive, so a
    /// closed overlay never keeps swallowing clicks and a reshown one never
    /// starts out click-through. The caller then applies `false` to the
    /// window and hides it.
    pub fn reset_on_close(&mut self)
        ensures
            final(self).penetrable() == reset_transition(old(self).penetrable()),
            !final(self).penetrable(),
    {
        self.is_penetrable = false;
    }
}

/// How the toggle command reports the OS property application: a failure is
/// surfaced as `OsPropertyApplyFailed` and stops the notification, but the
/// in-memory flag stays flipped — it is the source of truth for the next
/// toggle. On success the command goes on to announce `new_value`.
pub fn report_apply_outcome(new_value: bool, apply_ok: bool) -> (r: Result<
    bool,
    PenetrationError,
>)
    ensures
        apply_ok ==> r == Ok::<bool, PenetrationError>(new_value),
        !apply_ok ==> r == Err::<bool, PenetrationError>(PenetrationError::OsPropertyApplyFailed),
{
    if apply_ok {
        Ok(new_value)
    } else {
        Err(PenetrationError::OsPropertyApplyFailed)
    }
}

/// How the toggle command reports the notification outcome: delivery failure
/// is never fatal — the command still returns the new value, and the failure
/// only comes back separately, for logging.
pub fn report_emit_outcome(new_value: bool, emit_ok: bool) -> (r: (
    Result<bool, PenetrationError>,
    Option<PenetrationError>,
))
    ensures
        r.0 == Ok::<bool, PenetrationError>(new_value),
        emit_ok ==> r.1 == None::<PenetrationError>,
        !emit_ok ==> r.1 == Some(PenetrationError::EventEmitFailed),
{
    if emit_ok {
        (Ok(new_value), None)
    } else {
        (Ok(new_value), Some(PenetrationError::EventEmitFailed))
    }
}

/// How the show and close commands report one window step (navigating,
/// showing, focusing, applying the property, hiding): the first failure is
/// surfaced as `OsPropertyApplyFailed` and stops the steps after it.
pub fn report_window_step(step_ok: bool) -> (r: Result<(), PenetrationError>)
    ensures
        step_ok ==> r == Ok::<(), PenetrationError>(()),
        !step_ok ==> r == Err::<(), PenetrationError>(PenetrationError::OsPropertyApplyFailed),
{
    if step_ok {
        Ok(())
    } else {
        Err(PenetrationError::OsPropertyApplyFailed)
    }
}

} // verus!
