//! Verified core of the ma runtime daemon: access control on incoming
//! messages, the RPC ping/pong and IPFS publisher request handlers, the
//! namespace-creation flow, localised message catalogues and the status page.


pub mod acl;
pub mod cbor;
pub mod did;
pub mod i18n;
pub mod ipfs;
pub mod namespace;
pub mod rpc;
pub mod status;
pub mod text;

use vstd::prelude::*;

verus! {

/// Whether the IPFS publisher service runs: the `ipfs_publisher` setting of
/// the daemon configuration, on by default.
pub fn ipfs_publisher_enabled(setting: Option<bool>) -> (enabled: bool)
    ensures
        enabled == match setting {
            Some(b) => b,
            None => true,
        },
{
    match setting {
        Some(b) => b,
        None => true,
    }
}

} // verus!
