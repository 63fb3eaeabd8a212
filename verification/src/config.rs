//! The shared configuration a session is bound to.

use vstd::prelude::*;

verus! {

/// A handle to one shared configuration.
///
/// The bridge never looks inside a configuration. It needs to tell one from
/// another, so a handle carries the identity its creator chose, and it records
/// whether the configuration reacts to the peer's first message, because such
/// a reaction is what may bind a session to another configuration while it
/// negotiates.
#[derive(Clone, Copy, Debug, PartialEq, Eq, Structural)]
pub struct Config {
    id: u64,
    client_hello_callback: bool,
}

impl Config {
    pub closed spec fn spec_id(&self) -> u64 {
        self.id
    }

    pub closed spec fn spec_has_client_hello_callback(&self) -> bool {
        self.client_hello_callback
    }

    /// A configuration without any callback.
    pub fn new(id: u64) -> (c: Config)
        ensures
            c.spec_id() == id,
            !c.spec_has_client_hello_callback(),
    {
        Config { id, client_hello_callback: false }
    }

    /// The same configuration with a callback on the peer's first message.
    pub fn with_client_hello_callback(self) -> (c: Config)
        ensures
            c.spec_id() == self.spec_id(),
            c.spec_has_client_hello_callback(),
    {
        Config { id: self.id, client_hello_callback: true }
    }

    #[verifier::when_used_as_spec(spec_id)]
    pub fn id(&self) -> (id: u64)
        ensures
            id == self.spec_id(),
    {
        self.id
    }

    #[verifier::when_used_as_spec(spec_has_client_hello_callback)]
    pub fn has_client_hello_callback(&self) -> (b: bool)
        ensures
            b == self.spec_has_client_hello_callback(),
    {
        self.client_hello_callback
    }
}

impl Default for Config {
    fn default() -> (c: Config)
        ensures
            c.spec_id() == 0,
            !c.spec_has_client_hello_callback(),
    {
        Config { id: 0, client_hello_callback: false }
    }
}

} // verus!
