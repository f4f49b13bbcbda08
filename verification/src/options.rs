//! The options of one run.

use vstd::prelude::*;

verus! {

/// What the user asked for. The downloader reads it and never changes it,
/// but for taking the filter term when a run begins.
#[derive(Clone, Debug, PartialEq, Eq)]
pub struct CliOpts {
    /// Directory under which the images are stored.
    pub download_path: String,
    /// Remove the other files of a device's directory before a newer image
    /// is fetched.
    pub delete_old_fw: bool,
    /// Visit every device.
    pub download_all: bool,
    /// Visit only the devices whose name contains this term.
    pub filter_term: Option<String>,
    /// Where the diagnostic log goes, if anywhere.
    pub log_path: Option<String>,
    /// Only print the device names.
    pub list_device_names: bool,
}

impl CliOpts {
    /// How many of the three modes are chosen: every device, the devices
    /// that match a term, or only the list of names.
    pub open spec fn modes_chosen(&self) -> int {
        (if self.download_all {
            1int
        } else {
            0int
        }) + (if self.filter_term.is_some() {
            1int
        } else {
            0int
        }) + (if self.list_device_names {
            1int
        } else {
            0int
        })
    }

    /// Tells whether exactly one mode is chosen, as a run needs it.
    pub fn has_one_mode(&self) -> (ok: bool)
        ensures
            ok == (self.modes_chosen() == 1),
    {
        let filtered = self.filter_term.is_some();
        if self.download_all {
            !filtered && !self.list_device_names
        } else if filtered {
            !self.list_device_names
        } else {
            self.list_device_names
        }
    }
}

} // verus!
