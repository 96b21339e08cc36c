//! Session configuration, resolved once at construction.
//!
//! The diagnostic toggle is environment-derived: the host reads the variable
//! and hands the raw value over; the recognition of truthy spellings is done
//! here. Once resolved, the toggle is immutable session configuration, never
//! ambient state consulted later.

use vstd::prelude::*;

verus! {

broadcast use vstd::string::next_postcondition, vstd::string::axiom_spec_iter;

/// Configuration the host resolved before constructing a session.
pub struct SessionConfig {
    /// Directory of the scene to load. Must be non-empty.
    pub scene_path: String,
    /// Writable output directory; also the root of resume artifacts.
    pub output_path: String,
    /// Zero for a cold start; a positive value asks to resume from the
    /// checkpoint written at that frame.
    pub resume_frame: u64,
    /// When set, contact processing is off: the frame number never advances
    /// and the rebuild pipeline is inert.
    pub disable_contact: bool,
    /// The resolved diagnostic toggle.
    pub verbose: bool,
}

impl SessionConfig {
    /// Whether construction restores a persisted checkpoint.
    pub open spec fn resuming(self) -> bool {
        self.resume_frame > 0
    }
}

/// The toggle values that count as enabled: the literal `1` and any ASCII
/// casing of `true`.
pub open spec fn truthy_debug_value(s: Seq<char>) -> bool {
    ||| (s.len() == 1 && s[0] == '1')
    ||| {
        &&& s.len() == 4
        &&& (s[0] == 't' || s[0] == 'T')
        &&& (s[1] == 'r' || s[1] == 'R')
        &&& (s[2] == 'u' || s[2] == 'U')
        &&& (s[3] == 'e' || s[3] == 'E')
    }
}

/// Resolves the diagnostic toggle from the raw environment value the host
/// read: enabled exactly for `1` and any ASCII-case-insensitive spelling of
/// `true`; absent or anything else means disabled.
pub fn debug_flag_enabled(value: &Option<String>) -> (r: bool)
    ensures
        r == match value {
            Some(s) => truthy_debug_value(s@),
            None => false,
        },
{
    match value {
        Option::None => false,
        Option::Some(s) => {
            let mut it = s.as_str().chars();
            let c0 = it.next();
            let c1 = it.next();
            let c2 = it.next();
            let c3 = it.next();
            let c4 = it.next();
            match (c0, c1, c2, c3, c4) {
                (Option::Some('1'), Option::None, _, _, _) => true,
                (
                    Option::Some('t') | Option::Some('T'),
                    Option::Some('r') | Option::Some('R'),
                    Option::Some('u') | Option::Some('U'),
                    Option::Some('e') | Option::Some('E'),
                    Option::None,
                ) => true,
                _ => false,
            }
        },
    }
}

} // verus!
