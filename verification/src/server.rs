use vstd::prelude::*;
use vstd::string::*;

use crate::env::DotenvyAdapter;
use crate::numeral::decimal_digits;
use crate::numeral::u16_to_decimal;

verus! {

/// The address the listener binds: the host, a colon, and the port printed
/// in decimal.
pub open spec fn address_model(host: Seq<char>, port: u16) -> Seq<char> {
    host + ":"@ + decimal_digits(port as int)
}

/// Renders the listen address, exactly as `address_model` says.
pub fn server_address(host: &str, port: u16) -> (r: String)
    ensures
        r@ == address_model(host@, port),
{
    let mut r = host.to_owned();
    r.append(":");
    let printed_port = u16_to_decimal(port);
    r.append(printed_port.as_str());
    r
}

/// The bootstrap state of the HTTP server: the configuration adapter, once
/// one has been prepared. Binding the listener and serving requests are
/// infrastructure wiring and live outside the library.
pub struct Server {
    pub env_adapter: Option<DotenvyAdapter>,
}

impl Server {
    pub fn new() -> (r: Self)
        ensures
            r.env_adapter is None,
    {
        Self { env_adapter: None }
    }

    /// Adopts a prepared configuration adapter, as the end of the bootstrap's
    /// configuration step.
    pub fn setup_env(&mut self, adapter: DotenvyAdapter)
        ensures
            final(self).env_adapter == Some(adapter),
    {
        self.env_adapter = Some(adapter);
    }
}

impl Default for Server {
    fn default() -> (r: Self)
        ensures
            r.env_adapter is None,
    {
        Self::new()
    }
}

} // verus!
