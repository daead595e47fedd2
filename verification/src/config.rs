use vstd::prelude::*;

verus! {

/// The persisted settings: the address the session listens on or connects
/// to. Reading and writing the settings file is the shell's business; the
/// library only fixes the shape and the default.
pub struct Config {
    pub address: String,
}

/// The address used when the settings file names none.
pub fn default_address() -> (r: String)
    ensures
        r@ == "127.0.0.1:4999"@,
{
    String::from_str("127.0.0.1:4999")
}

impl Default for Config {
    /// A configuration holding the default address.
    fn default() -> (r: Config)
        ensures
            r.address@ == "127.0.0.1:4999"@,
    {
        Config { address: default_address() }
    }
}

} // verus!
