use vstd::prelude::*;
use vstd::std_specs::cmp::PartialEqSpecImpl;
use vstd::std_specs::convert::TryFromSpecImpl;
use vstd::string::StringSliceAdditionalSpecFns;
use vstd::utf8::encode_utf8;
use crate::ascii::{is_letter, is_letter_byte, is_upper, pair_as_str, pair_text, to_upper, upper_byte};

verus! {

/// Why a value is not a country code.
#[derive(Debug, PartialEq, Eq, Structural, Clone, Copy)]
pub enum CountryCodeConversionError {
    /// One of the two bytes is not an ASCII letter.
    InvalidFormat,
    /// The text is not exactly two bytes long.
    InvalidLength,
}

impl CountryCodeConversionError {
    /// The sentence that describes the error.
    pub open spec fn spec_message(self) -> Seq<char> {
        match self {
            CountryCodeConversionError::InvalidFormat => "Country code must be ascii letters"@,
            CountryCodeConversionError::InvalidLength => "Country code must be exactly 2 bytes in size"@,
        }
    }

    /// Describes the error in a sentence.
    pub fn message(&self) -> (text: &'static str)
        ensures
            text@ == self.spec_message(),
    {
        match self {
            CountryCodeConversionError::InvalidFormat => "Country code must be ascii letters",
            CountryCodeConversionError::InvalidLength => "Country code must be exactly 2 bytes in size",
        }
    }
}

/// An ISO 3166-1 alpha-2 country code: two ASCII letters, kept in upper case.
///
/// A conversion accepts letters of either case and stores them in upper case.
/// The only value that no conversion gives is the default one, two zero bytes,
/// which stands for a country that was never set.
#[derive(Debug, Clone, Copy, Hash)]
pub struct CountryCode {
    bytes: [u8; 2],
}

impl View for CountryCode {
    type V = Seq<u8>;

    closed spec fn view(&self) -> Seq<u8> {
        self.bytes@
    }
}

/// Whether two bytes are what a country code may hold.
pub open spec fn code_bytes_valid(bytes: Seq<u8>) -> bool {
    bytes.len() == 2 && is_upper(bytes[0]) && is_upper(bytes[1])
}

/// Whether two bytes can be converted: both are ASCII letters.
pub open spec fn code_bytes_convertible(bytes: Seq<u8>) -> bool {
    bytes.len() == 2 && is_letter(bytes[0]) && is_letter(bytes[1])
}

/// The two bytes in upper case.
pub open spec fn code_bytes_upper(bytes: Seq<u8>) -> Seq<u8> {
    seq![to_upper(bytes[0]), to_upper(bytes[1])]
}

impl CountryCode {
    #[verifier::type_invariant]
    spec fn well_formed(self) -> bool {
        code_bytes_valid(self.bytes@) || self.bytes@ == seq![0u8, 0u8]
    }

    /// The code that holds `bytes`, which has two entries.
    pub closed spec fn of_bytes(bytes: Seq<u8>) -> CountryCode {
        CountryCode { bytes: [bytes[0], bytes[1]] }
    }

    /// Whether this is the default value, which names no country.
    pub open spec fn is_unset(&self) -> bool {
        self@ == seq![0u8, 0u8]
    }

    /// A code holds two bytes.
    pub broadcast proof fn view_has_two_bytes(code: CountryCode)
        ensures
            (#[trigger] code@).len() == 2,
    {
    }

    /// `of_bytes` holds the bytes it was given.
    pub broadcast proof fn of_bytes_view(bytes: Seq<u8>)
        requires
            bytes.len() == 2,
        ensures
            (#[trigger] CountryCode::of_bytes(bytes))@ == bytes,
    {
        assert(CountryCode::of_bytes(bytes).bytes@ =~= bytes);
    }

    /// Two codes with the same bytes are the same code.
    pub proof fn view_injective(a: CountryCode, b: CountryCode)
        requires
            a@ == b@,
        ensures
            a == b,
    {
        assert(a.bytes =~= b.bytes);
    }

    /// The two bytes of the code.
    pub fn as_bytes(&self) -> (bytes: &[u8; 2])
        ensures
            bytes@ == self@,
            code_bytes_valid(self@) || self.is_unset(),
    {
        proof {
            use_type_invariant(self);
        }
        &self.bytes
    }

    /// The code as text.
    pub fn as_str(&self) -> (text: &str)
        ensures
            text@ == pair_text(self@),
    {
        proof {
            use_type_invariant(self);
        }
        pair_as_str(&self.bytes)
    }

    /// The code as an owned text.
    pub fn to_string(&self) -> (text: String)
        ensures
            text@ == pair_text(self@),
    {
        self.as_str().to_owned()
    }
}

impl Default for CountryCode {
    /// The unset code: two zero bytes.
    fn default() -> (code: CountryCode)
        ensures
            code.is_unset(),
    {
        CountryCode { bytes: [0u8, 0u8] }
    }
}

impl PartialEq for CountryCode {
    fn eq(&self, other: &CountryCode) -> (same: bool) {
        let same = self.bytes[0] == other.bytes[0] && self.bytes[1] == other.bytes[1];
        proof {
            if same {
                assert(self.bytes@ =~= other.bytes@);
            }
        }
        same
    }
}

impl Eq for CountryCode {}

impl PartialEqSpecImpl for CountryCode {
    open spec fn obeys_eq_spec() -> bool {
        true
    }

    open spec fn eq_spec(&self, other: &CountryCode) -> bool {
        self@ == other@
    }
}

impl TryFrom<&[u8; 2]> for CountryCode {
    type Error = CountryCodeConversionError;

    /// Accepts two ASCII letters and stores them in upper case.
    fn try_from(value: &[u8; 2]) -> (result: Result<CountryCode, CountryCodeConversionError>)
        ensures
            result is Ok <==> code_bytes_convertible(value@),
            result matches Ok(code) ==> code@ == code_bytes_upper(value@) && code_bytes_valid(code@),
            result matches Err(error) ==> error == CountryCodeConversionError::InvalidFormat,
    {
        let first: u8 = value[0];
        let second: u8 = value[1];
        if !(is_letter_byte(first) && is_letter_byte(second)) {
            return Err(CountryCodeConversionError::InvalidFormat);
        }
        let code = CountryCode { bytes: [upper_byte(first), upper_byte(second)] };
        proof {
            assert(code.bytes@ =~= code_bytes_upper(value@));
            CountryCode::view_injective(code, CountryCode::of_bytes(code_bytes_upper(value@)));
        }
        Ok(code)
    }
}

impl TryFromSpecImpl<&[u8; 2]> for CountryCode {
    open spec fn obeys_try_from_spec() -> bool {
        true
    }

    open spec fn try_from_spec(value: &[u8; 2]) -> Result<CountryCode, CountryCodeConversionError> {
        if code_bytes_convertible(value@) {
            Ok(CountryCode::of_bytes(code_bytes_upper(value@)))
        } else {
            Err(CountryCodeConversionError::InvalidFormat)
        }
    }
}

impl TryFrom<&str> for CountryCode {
    type Error = CountryCodeConversionError;

    /// Accepts a text of exactly two bytes, both ASCII letters.
    fn try_from(value: &str) -> (result: Result<CountryCode, CountryCodeConversionError>)
        ensures
            result is Ok <==> code_bytes_convertible(value.spec_bytes()),
            result matches Ok(code) ==> code@ == code_bytes_upper(value.spec_bytes())
                && code_bytes_valid(code@),
            result matches Err(error) ==> error == (if value.spec_bytes().len() == 2 {
                CountryCodeConversionError::InvalidFormat
            } else {
                CountryCodeConversionError::InvalidLength
            }),
    {
        let bytes = value.as_bytes();
        if bytes.len() != 2 {
            return Err(CountryCodeConversionError::InvalidLength);
        }
        let pair: [u8; 2] = [bytes[0], bytes[1]];
        proof {
            assert(pair@ =~= bytes@);
        }
        CountryCode::try_from(&pair)
    }
}

impl TryFromSpecImpl<&str> for CountryCode {
    open spec fn obeys_try_from_spec() -> bool {
        true
    }

    open spec fn try_from_spec(value: &str) -> Result<CountryCode, CountryCodeConversionError> {
        let bytes = value.spec_bytes();
        if bytes.len() != 2 {
            Err(CountryCodeConversionError::InvalidLength)
        } else if code_bytes_convertible(bytes) {
            Ok(CountryCode::of_bytes(code_bytes_upper(bytes)))
        } else {
            Err(CountryCodeConversionError::InvalidFormat)
        }
    }
}

impl TryFrom<String> for CountryCode {
    type Error = CountryCodeConversionError;

    /// Accepts an owned text as the borrowed one is accepted.
    fn try_from(value: String) -> (result: Result<CountryCode, CountryCodeConversionError>)
        ensures
            result is Ok <==> code_bytes_convertible(encode_utf8(value@)),
            result matches Ok(code) ==> code@ == code_bytes_upper(encode_utf8(value@))
                && code_bytes_valid(code@),
            result matches Err(error) ==> error == (if encode_utf8(value@).len() == 2 {
                CountryCodeConversionError::InvalidFormat
            } else {
                CountryCodeConversionError::InvalidLength
            }),
    {
        CountryCode::try_from(value.as_str())
    }
}

impl TryFromSpecImpl<String> for CountryCode {
    open spec fn obeys_try_from_spec() -> bool {
        true
    }

    open spec fn try_from_spec(value: String) -> Result<CountryCode, CountryCodeConversionError> {
        let bytes = encode_utf8(value@);
        if bytes.len() != 2 {
            Err(CountryCodeConversionError::InvalidLength)
        } else if code_bytes_convertible(bytes) {
            Ok(CountryCode::of_bytes(code_bytes_upper(bytes)))
        } else {
            Err(CountryCodeConversionError::InvalidFormat)
        }
    }
}

} // verus!
