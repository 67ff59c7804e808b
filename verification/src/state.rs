//! What the applet remembers from one run to the next.

use crate::utils::{current_directory, former_directory, get_app_file_path, AppFile};
use vstd::prelude::*;

verus! {

/// What the applet remembers from one run to the next.
#[derive(Debug, Clone, Copy, PartialEq, Eq, Structural)]
pub struct State {
    /// How many updates the last check found.
    pub last_update_count: usize,
}

impl Default for State {
    fn default() -> (out: Self)
        ensures
            out.last_update_count == 0,
    {
        State { last_update_count: 0 }
    }
}

impl State {
    /// Where the state is stored: `state.toml`, in the applet's current
    /// directory unless it is missing there and present in the former one.
    pub fn state_path(in_current: bool, in_former: bool) -> (file: AppFile)
        ensures
            file@.file_name == "state.toml"@,
            file@.directory == if !in_current && in_former {
                former_directory()
            } else {
                current_directory()
            },
    {
        get_app_file_path("state.toml", in_current, in_former)
    }
}

} // verus!
