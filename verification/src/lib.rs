//! Ranking data for VPN servers: the binary status feed, country codes and the
//! penalty rules that decide how a server is scored for a client.

pub mod ascii;
pub mod compute_loads;
pub mod compute_score;
pub mod country;
pub mod country_code;
pub mod error;
pub mod load;
pub mod logical;
pub mod secure_core;
pub mod status;

pub use compute_loads::compute_loads;
pub use country::{Country, CountryConversionError};
pub use country_code::{CountryCode, CountryCodeConversionError};
pub use error::Error;
pub use load::Load;
pub use logical::{Logical, StatusReference};
pub use secure_core::{secure_core_entry, SecureCoreEntry};
pub use status::Parser;
