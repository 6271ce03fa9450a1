//! The network an application joins.
use vstd::prelude::*;
use crate::types::{SecurityType, SlSecParams};
use vstd::string::StringSliceAdditionalSpecFns;

verus! {

/// SSID of the network to join.
pub const SSID: &'static str = "YOUR-SSID-HERE";

/// Passphrase of the network to join.
pub const PASSPHRASE: &'static str = "YOUR-PASSWORD-HERE";

/// Security parameters of the network to join: WPA2 with `PASSPHRASE`.
/// An open network would have none.
pub fn security_params() -> (r: Option<SlSecParams>)
    ensures
        r matches Some(p) && p.sec_type == SecurityType::Wpa2.spec_code() && p.key@
            == PASSPHRASE.spec_bytes(),
{
    Some(SlSecParams::wpa2(PASSPHRASE))
}

} // verus!
