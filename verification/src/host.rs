//! What the machine and the user's environment say, through `sys_info` and
//! `directories`.
//!
//! Each function of this file is one call into one of these crates. What
//! comes back depends on the machine, so none of them promises anything of
//! its result: the callers are verified for every outcome.

use vstd::prelude::*;

verus! {

/// `sys_info::Error`, what a failed look at the machine reports. It is only
/// told apart from success.
#[verifier::external_type_specification]
#[verifier::external_body]
pub struct ExHostError(sys_info::Error);

/// Calls `sys_info::os_type`: the name of the operating system, such as `Linux`.
#[verifier::external_body]
pub(crate) fn os_type() -> Result<String, sys_info::Error> {
    sys_info::os_type()
}

/// Calls `sys_info::os_release`: the release of the operating system's kernel.
#[verifier::external_body]
pub(crate) fn os_release() -> Result<String, sys_info::Error> {
    sys_info::os_release()
}

/// Calls `sys_info::cpu_num`: the number of logical processors.
#[verifier::external_body]
pub(crate) fn cpu_num() -> Result<u32, sys_info::Error> {
    sys_info::cpu_num()
}

/// Calls `sys_info::cpu_speed`: the processor's clock in MHz.
#[verifier::external_body]
pub(crate) fn cpu_speed() -> Result<u64, sys_info::Error> {
    sys_info::cpu_speed()
}

/// Calls `directories::ProjectDirs::from` and takes the `config_dir` of what
/// it returns: where this user keeps the configuration of the named
/// application. `None` where the user has no home directory, or where the
/// path is not UTF-8.
#[verifier::external_body]
pub(crate) fn project_config_dir(qualifier: &str, organization: &str, application: &str) -> Option<
    String,
> {
    let dirs = directories::ProjectDirs::from(qualifier, organization, application)?;
    Some(dirs.config_dir().to_str()?.to_owned())
}

} // verus!
