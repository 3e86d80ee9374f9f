use vstd::prelude::*;
use vstd::string::StringSliceAdditionalSpecFns;

verus! {

/// The country through which a secure core server is entered.
#[derive(Clone, Copy, Debug, PartialEq, Eq, Structural)]
pub enum SecureCoreEntry {
    Switzerland,
    Iceland,
    Sweden,
}

/// Whether a name starts with the two given letters and a hyphen.
pub open spec fn has_prefix(name: Seq<u8>, a: u8, b: u8) -> bool {
    name.len() >= 3 && name[0] == a && name[1] == b && name[2] == 0x2d
}

/// The entry country that the name of a server tells: `CH-`, `IS-` or `SE-`
/// at the start of the name, and none for any other name.
pub open spec fn secure_core_entry_of(name: Seq<u8>) -> Option<SecureCoreEntry> {
    if has_prefix(name, 0x43, 0x48) {
        Some(SecureCoreEntry::Switzerland)
    } else if has_prefix(name, 0x49, 0x53) {
        Some(SecureCoreEntry::Iceland)
    } else if has_prefix(name, 0x53, 0x45) {
        Some(SecureCoreEntry::Sweden)
    } else {
        None
    }
}

/// Tells from the name of a server through which country it is entered, if
/// it is a secure core server.
pub fn secure_core_entry(name: &str) -> (entry: Option<SecureCoreEntry>)
    ensures
        entry == secure_core_entry_of(name.spec_bytes()),
{
    let bytes = name.as_bytes();
    if bytes.len() < 3 || bytes[2] != 0x2d {
        return None;
    }
    let first: u8 = bytes[0];
    let second: u8 = bytes[1];
    if first == 0x43 && second == 0x48 {
        Some(SecureCoreEntry::Switzerland)
    } else if first == 0x49 && second == 0x53 {
        Some(SecureCoreEntry::Iceland)
    } else if first == 0x53 && second == 0x45 {
        Some(SecureCoreEntry::Sweden)
    } else {
        None
    }
}

} // verus!
