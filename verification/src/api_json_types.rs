//! The records that the catalog service hands out, and the rule that makes a
//! device name safe to use as a directory name.

use vstd::prelude::*;
use crate::text::push_char;

verus! {

/// One hardware device of the catalog. `identifier` is its identity.
#[derive(Clone, Debug, PartialEq, Eq)]
pub struct Device {
    pub name: String,
    pub identifier: String,
    pub platform: String,
    pub cpid: u32,
    pub bdid: u32,
}

/// One downloadable image of a device. `uploaddate` counts seconds since the
/// Unix epoch, in UTC.
#[derive(Clone, Debug, PartialEq, Eq)]
pub struct Firmware {
    pub identifier: String,
    pub version: String,
    pub buildid: String,
    pub sha1sum: String,
    pub md5sum: String,
    pub filesize: u64,
    pub url: String,
    pub uploaddate: i64,
}

/// A device together with its images, newest first as the catalog orders
/// them.
#[derive(Clone, Debug, PartialEq, Eq)]
pub struct FirmwareListing {
    pub name: String,
    pub identifier: String,
    pub platform: String,
    pub boardconfig: String,
    pub cpid: u32,
    pub bdid: u32,
    pub firmwares: Vec<Firmware>,
}

/// The character separates the components of a path.
pub open spec fn is_separator(c: char) -> bool {
    c == '/' || c == '\\'
}

/// What one character becomes in a directory name.
pub open spec fn safe_char(c: char) -> char {
    if is_separator(c) {
        'z'
    } else {
        c
    }
}

/// A name with every path separator replaced, character by character.
pub open spec fn sanitized(name: Seq<char>) -> Seq<char> {
    Seq::new(name.len(), |i: int| safe_char(name[i]))
}

/// No character of the name is a path separator.
pub open spec fn is_safe_name(name: Seq<char>) -> bool {
    forall|i: int| 0 <= i < name.len() ==> !is_separator(#[trigger] name[i])
}

/// Replaces `/` and `\` in a device name by `z`, so that the name can serve
/// as one directory component.
pub fn sanitize_name(name: &str) -> (safe: String)
    ensures
        safe@ == sanitized(name@),
        is_safe_name(safe@),
{
    let n: usize = name.unicode_len();
    let mut safe = String::new();
    let mut i: usize = 0;
    while i < n
        invariant
            n == name@.len(),
            i <= n,
            safe@ == sanitized(name@.subrange(0, i as int)),
        decreases n - i,
    {
        let c = name.get_char(i);
        let r = if c == '/' || c == '\\' {
            'z'
        } else {
            c
        };
        push_char(&mut safe, r);
        assert(safe@ =~= sanitized(name@.subrange(0, i + 1)));
        i += 1;
    }
    assert(name@.subrange(0, n as int) =~= name@);
    proof {
        sanitized_is_safe(name@);
    }
    safe
}

/// Sanitizing is defined on every name, keeps its length, and leaves no path
/// separator in it.
pub proof fn sanitized_is_safe(name: Seq<char>)
    ensures
        sanitized(name).len() == name.len(),
        is_safe_name(sanitized(name)),
        forall|i: int|
            0 <= i < name.len() ==> #[trigger] sanitized(name)[i] != '/' && sanitized(name)[i]
                != '\\',
{
}

/// A name without path separators is left as it is.
pub proof fn sanitized_keeps_safe_name(name: Seq<char>)
    requires
        is_safe_name(name),
    ensures
        sanitized(name) == name,
{
    assert(sanitized(name) =~= name);
}

/// Sanitizing twice gives what sanitizing once gives.
pub proof fn sanitized_is_idempotent(name: Seq<char>)
    ensures
        sanitized(sanitized(name)) == sanitized(name),
{
    sanitized_is_safe(name);
    sanitized_keeps_safe_name(sanitized(name));
}

impl FirmwareListing {
    /// The display name holds no path separator.
    pub open spec fn is_sanitized(&self) -> bool {
        is_safe_name(self.name@)
    }

    /// The newest image, if the catalog listed any.
    pub open spec fn newest(&self) -> Option<Firmware> {
        if self.firmwares@.len() == 0 {
            None
        } else {
            Some(self.firmwares@[0])
        }
    }

    /// The newest image, if the catalog listed any: the first of the list,
    /// whatever the dates say.
    pub fn newest_entry(&self) -> (entry: Option<&Firmware>)
        ensures
            entry.is_some() == self.newest().is_some(),
            entry.is_some() ==> *entry.unwrap() == self.newest().unwrap(),
    {
        if self.firmwares.len() == 0 {
            None
        } else {
            Some(&self.firmwares[0])
        }
    }

    /// Makes the display name safe for use as a directory name and leaves
    /// everything else as the catalog gave it.
    pub fn sanitize(&mut self)
        ensures
            final(self).name@ == sanitized(old(self).name@),
            final(self).is_sanitized(),
            final(self).identifier == old(self).identifier,
            final(self).platform == old(self).platform,
            final(self).boardconfig == old(self).boardconfig,
            final(self).cpid == old(self).cpid,
            final(self).bdid == old(self).bdid,
            final(self).firmwares == old(self).firmwares,
    {
        let safe = sanitize_name(self.name.as_str());
        self.name = safe;
    }
}

} // verus!
