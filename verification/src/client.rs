//! The addresses of the catalog service.

use vstd::prelude::*;
use vstd::string::StringExecFns;
use crate::api_json_types::{Device, Firmware};

verus! {

/// The address that lists every device.
pub open spec fn devices_address() -> Seq<char> {
    "https://api.ipsw.me/v4/devices"@
}

/// The address that lists the images of the device with this identifier.
pub open spec fn listing_address(identifier: Seq<char>) -> Seq<char> {
    "https://api.ipsw.me/v4/device/"@ + identifier + "?type=ipsw"@
}

/// The address from which the image with this identifier and build is
/// downloaded.
pub open spec fn download_address(identifier: Seq<char>, buildid: Seq<char>) -> Seq<char> {
    "https://api.ipsw.me/v4/ipsw/download/"@ + identifier + "/"@ + buildid
}

/// The address that lists every device.
pub fn devices_url() -> (url: String)
    ensures
        url@ == devices_address(),
{
    String::from_str("https://api.ipsw.me/v4/devices")
}

/// The address that lists the images of a device.
pub fn device_firmware_url(device: &Device) -> (url: String)
    ensures
        url@ == listing_address(device.identifier@),
{
    let mut url = String::from_str("https://api.ipsw.me/v4/device/");
    url.append(device.identifier.as_str());
    url.append("?type=ipsw");
    url
}

/// The address from which an image is downloaded.
pub fn download_url(fw: &Firmware) -> (url: String)
    ensures
        url@ == download_address(fw.identifier@, fw.buildid@),
{
    let mut url = String::from_str("https://api.ipsw.me/v4/ipsw/download/");
    url.append(fw.identifier.as_str());
    url.append("/");
    url.append(fw.buildid.as_str());
    url
}

} // verus!
