use vstd::prelude::*;
use vstd::string::{to_string_from_display_ensures, StringExecFns};

verus! {

/// What can make a whole batch fail.
#[derive(Debug)]
pub enum Error {
    /// The status file is structurally invalid; the message says how.
    ParserError(String),
    /// The output array and the server array differ in length.
    LengthsNotConsistent { servers: u64, loads: u64 },
}

/// Whether `text` is `value` as std prints it.
pub open spec fn is_printed(value: u64, text: Seq<char>) -> bool {
    exists|digits: String| #[trigger]
        to_string_from_display_ensures::<u64>(&value, digits) && digits@ == text
}

impl Error {
    /// Whether `text` describes this error.
    pub open spec fn is_message(self, text: Seq<char>) -> bool {
        match self {
            Error::ParserError(message) => text == "failed to parse status file with error "@
                + message@,
            Error::LengthsNotConsistent { servers, loads } => exists|
                servers_text: Seq<char>,
                loads_text: Seq<char>,
            |
                #![trigger is_printed(servers, servers_text), is_printed(loads, loads_text)]
                is_printed(servers, servers_text) && is_printed(loads, loads_text) && text
                    == "Length of Logicals ("@ + servers_text + ") and Loads ("@ + loads_text
                    + ") are not the same."@,
        }
    }

    /// Describes the error in a sentence.
    pub fn message(&self) -> (text: String)
        ensures
            self.is_message(text@),
    {
        match self {
            Error::ParserError(message) => {
                "failed to parse status file with error ".to_owned().concat(message.as_str())
            },
            Error::LengthsNotConsistent { servers, loads } => {
                let servers_text = servers.to_string();
                let loads_text = loads.to_string();
                let text = "Length of Logicals (".to_owned().concat(servers_text.as_str()).concat(
                    ") and Loads (",
                ).concat(loads_text.as_str()).concat(") are not the same.");
                proof {
                    assert(is_printed(*servers, servers_text@));
                    assert(is_printed(*loads, loads_text@));
                }
                text
            },
        }
    }
}

} // verus!
