//! Where the gateway listens and which mobilecoind it talks to.

use vstd::prelude::*;
use vstd::string::StringExecFns;

verus! {

/// Command line configuration; its defaults work with a standard
/// mobilecoind instance.
#[derive(Clone, Debug, PartialEq, Eq)]
pub struct Config {
    /// Host to listen on.
    pub listen_host: String,
    /// Port to start the web server on.
    pub listen_port: u16,
    /// URI of mobilecoind.
    pub mobilecoind_uri: String,
}

impl Default for Config {
    fn default() -> (res: Config)
        ensures
            res.listen_host@ == "127.0.0.1"@,
            res.listen_port == 9090,
            res.mobilecoind_uri@ == "insecure-mobilecoind://127.0.0.1/"@,
    {
        Config {
            listen_host: String::from_str("127.0.0.1"),
            listen_port: 9090,
            mobilecoind_uri: String::from_str("insecure-mobilecoind://127.0.0.1/"),
        }
    }
}

} // verus!
