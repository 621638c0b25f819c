use vstd::prelude::*;

verus! {

/// The server's settings: where to listen and which directory to serve.
/// Fixed at startup and only read afterwards.
#[derive(Debug)]
pub struct Config {
    /// The `IP:PORT` to listen on.
    pub addr: String,
    /// The path of the served directory, as bytes.
    pub root_dir: Vec<u8>,
}

impl Config {
    pub fn new(addr: String, root_dir: Vec<u8>) -> (r: Config)
        ensures
            r.addr@ == addr@,
            r.root_dir@ == root_dir@,
    {
        Config { addr, root_dir }
    }
}

} // verus!
