//! The operating system identity record, as the `uname` system call
//! reports it.  The call itself is the surrounding process's business;
//! the record's release string keys the primary kernel configuration
//! path.

use vstd::prelude::*;

verus! {

/// Represents the information obtained from the `uname` system call.
///
/// Corresponds to the `struct utsname` in C.
#[derive(Debug)]
pub struct UnameInfo {
    /// Operating system name (e.g., "Linux", "Darwin").
    pub sysname: String,
    /// Network node hostname (e.g., "my-laptop").
    pub nodename: String,
    /// Operating system release (e.g., "5.15.0-76-generic").
    pub pub_release: String,
    /// Operating system version.
    pub version: String,
    /// Hardware identifier (e.g., "x86_64", "arm64").
    pub machine: String,
    /// Present on some systems (like Linux) but not others.
    pub domainname: Option<String>,
}

} // verus!
