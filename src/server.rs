//! The server's identity: its name and version.

use vstd::prelude::*;

verus! {

/// The name and version the server announces.
pub struct MCPServer {
    name: String,
    version: String,
}

impl MCPServer {
    pub fn new(name: String, version: String) -> (r: MCPServer)
        ensures
            r.name_spec() == name@,
            r.version_spec() == version@,
    {
        MCPServer { name, version }
    }

    pub closed spec fn name_spec(&self) -> Seq<char> {
        self.name@
    }

    pub closed spec fn version_spec(&self) -> Seq<char> {
        self.version@
    }

    /// The server's name.
    pub fn name(&self) -> (r: &str)
        ensures
            r@ == self.name_spec(),
    {
        self.name.as_str()
    }

    /// The server's version.
    pub fn version(&self) -> (r: &str)
        ensures
            r@ == self.version_spec(),
    {
        self.version.as_str()
    }
}

} // verus!
