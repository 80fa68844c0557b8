use vstd::prelude::*;

verus! {

/// Settings of the service, read from the environment.
pub struct Config {
    /// Port the server listens on.
    pub port: u16,
    /// Directory that holds one repository per namespace.
    pub root_dir: String,
    /// Name used for commits that the service makes on its own behalf.
    pub git_user_name: String,
    /// Email used for commits that the service makes on its own behalf.
    pub git_user_email: String,
}

/// Port used when none is configured.
pub fn default_port() -> (port: u16)
    ensures
        port == 3000,
{
    3000
}

} // verus!
