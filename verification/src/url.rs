//! A URL as a plain value: scheme, host, optional port, and path.

use vstd::prelude::*;

verus! {

/// serde_json's error type, declared so that it can stand in a result
/// signature. The library never constructs a value of it.
#[verifier::external_type_specification]
#[verifier::external_body]
pub struct ExSerdeJsonError(serde_json::Error);

/// A structured URL. The fields are plain values with no invariant beyond
/// holding what they were given.
#[derive(Clone, Debug)]
pub struct Url {
    pub protocol: String,
    pub host_name: String,
    pub port: Option<u16>,
    pub path: String,
}

impl Url {
    /// Moves the port up by one; a URL without a port is left alone.
    pub fn incr_port(&mut self)
        requires
            old(self).port matches Some(p) ==> p < 0xFFFF,
        ensures
            final(self).port == match old(self).port {
                Some(p) => Some((p + 1) as u16),
                None => None::<u16>,
            },
            final(self).protocol == old(self).protocol,
            final(self).host_name == old(self).host_name,
            final(self).path == old(self).path,
    {
        match self.port {
            Some(p) => {
                self.port = Some(p + 1);
            },
            None => {},
        }
    }
}

/// Fetches the resource a URL names. The transport is not modelled here:
/// every fetch succeeds with an empty body.
pub fn fetch(url: &Url) -> (r: Result<String, serde_json::Error>)
    ensures
        r matches Ok(body) && body@ == Seq::<char>::empty(),
{
    Ok(String::new())
}

} // verus!
