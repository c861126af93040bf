//! The startup decision about the global shortcut.
//!
//! Configuration supplies at most one accelerator string. A missing string
//! leaves the feature off; a string that fails to parse disables the feature
//! for the session, with a single logged parse error and no registration
//! attempt; a string that parses is registered with the operating system at
//! most once per process lifetime.

use crate::accel::{parse_spec, AccelParseError, Accelerator};
use vstd::prelude::*;

verus! {

/// What startup decides about the global shortcut.
#[derive(Clone, Copy, PartialEq, Eq, Structural, Debug)]
pub enum RegistrationPlan {
    /// No accelerator string is configured; nothing is registered.
    NoShortcut,
    /// The configured string failed to parse: the error is logged once, the
    /// feature stays off for the session, and registration is never
    /// attempted.
    Disabled { error: AccelParseError },
    /// The string parsed; the accelerator may be registered.
    Register { accel: Accelerator },
}

/// The plan for one configured accelerator string, over its bytes.
pub open spec fn plan_for_config(bytes: Seq<u8>) -> RegistrationPlan {
    match parse_spec(bytes) {
        Ok(a) => RegistrationPlan::Register { accel: a },
        Err(e) => RegistrationPlan::Disabled { error: e },
    }
}

/// Decide what to do with the configured accelerator string.
pub fn plan_registration(config: &Option<String>) -> (r: RegistrationPlan)
    ensures
        config is None ==> r == RegistrationPlan::NoShortcut,
        config matches Some(s) ==> r == plan_for_config(vstd::utf8::encode_utf8(s@)),
{
    match config {
        None => RegistrationPlan::NoShortcut,
        Some(s) => match crate::accel::parse_accelerator(s.as_str()) {
            Ok(a) => RegistrationPlan::Register { accel: a },
            Err(e) => RegistrationPlan::Disabled { error: e },
        },
    }
}

/// A string that fails to parse never reaches registration: its plan is to
/// disable the feature, carrying the one error to log.
pub proof fn lemma_rejected_string_never_registers(bytes: Seq<u8>, e: AccelParseError)
    requires
        parse_spec(bytes) == Err::<Accelerator, AccelParseError>(e),
    ensures
        plan_for_config(bytes) == (RegistrationPlan::Disabled { error: e }),
        !(plan_for_config(bytes) is Register),
{
}

/// The single registration attempt a process may make. The operating system
/// owns a registered accelerator until the process exits, so registration is
/// attempted at most once per process lifetime.
pub struct ShortcutRegistrar {
    pub attempted: bool,
}

impl ShortcutRegistrar {
    /// A fresh process state: no attempt made yet.
    pub fn new() -> (r: ShortcutRegistrar)
        ensures
            !r.attempted,
    {
        ShortcutRegistrar { attempted: false }
    }

    /// Claim the registration attempt. It is granted exactly once: a second
    /// claim is refused, so no accelerator is ever registered twice.
    pub fn try_begin(&mut self) -> (granted: bool)
        ensures
            final(self).attempted,
            granted == !old(self).attempted,
    {
        let granted = !self.attempted;
        self.attempted = true;
        granted
    }
}

} // verus!
