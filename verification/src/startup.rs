//! The running application.

use vstd::prelude::*;

verus! {

/// A started application, known by the port it listens on.
pub struct Application {
    port: u16,
}

impl Application {
    /// The application listening on `port`.
    pub fn new(port: u16) -> (a: Application)
        ensures
            a.port() == port,
    {
        Application { port }
    }

    /// The port the application listens on.
    #[verifier::when_used_as_spec(spec_port)]
    pub fn port(&self) -> (p: u16)
        ensures
            p == self.spec_port(),
    {
        self.port
    }

    /// The port the application listens on.
    pub closed spec fn spec_port(&self) -> u16 {
        self.port
    }
}

} // verus!
