use vstd::prelude::*;
use crate::country_code::CountryCode;

verus! {

/// Where a server's record stands in the status file, and what the backend
/// says of its cost.
#[derive(Debug, Default, Clone, Copy, PartialEq, Eq)]
pub struct StatusReference {
    /// The position of the server in the binary status file.
    pub index: u32,
    /// Is this server expensive? 1 for yes, 0 for no.
    pub cost: u8,
}

/// What is known of a server apart from the status file.
#[derive(Debug, Default, Clone, Copy, PartialEq, Eq)]
pub struct Logical {
    /// The information necessary for finding the status of the server.
    pub status_reference: StatusReference,
    /// The country that the server is in.
    pub exit_country: CountryCode,
}

} // verus!
