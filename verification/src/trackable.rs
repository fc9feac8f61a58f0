//! `trackable` module: sign-in statistics, recorded by the application when the
//! module is on.

use vstd::prelude::*;
use crate::config::{AuthConfig, AuthModule, module_active, module_on, opt_config};

verus! {

/// Whether the `trackable` module is enabled in the installed config.
pub fn enabled(config: Option<&AuthConfig>) -> (r: bool)
    ensures
        r == module_on(opt_config(config), AuthModule::Trackable),
{
    module_active(config, AuthModule::Trackable)
}

} // verus!
