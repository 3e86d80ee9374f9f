use vstd::prelude::*;
use vstd::std_specs::cmp::PartialEqSpecImpl;
use vstd::std_specs::convert::TryFromSpecImpl;
use vstd::string::StringSliceAdditionalSpecFns;
use vstd::utf8::encode_utf8;
use crate::ascii::{is_upper, is_upper_byte, pair_as_str, pair_text};

verus! {

/// Why a value is not a country.
#[derive(Debug, PartialEq, Eq, Structural, Clone, Copy)]
pub enum CountryConversionError {
    /// One of the two bytes is not an upper-case ASCII letter.
    InvalidFormat,
    /// The text is not exactly two bytes long.
    InvalidLength,
}

impl CountryConversionError {
    /// The sentence that describes the error.
    pub open spec fn spec_message(self) -> Seq<char> {
        match self {
            CountryConversionError::InvalidFormat => "Country must be uppercase ascii letters"@,
            CountryConversionError::InvalidLength => "Country must be exactly 2 bytes in size"@,
        }
    }

    /// Describes the error in a sentence.
    pub fn message(&self) -> (text: &'static str)
        ensures
            text@ == self.spec_message(),
    {
        match self {
            CountryConversionError::InvalidFormat => "Country must be uppercase ascii letters",
            CountryConversionError::InvalidLength => "Country must be exactly 2 bytes in size",
        }
    }
}

/// A country in the ISO 3166-1 alpha-2 format: two upper-case ASCII letters.
///
/// A conversion accepts upper-case letters only and changes nothing. The only
/// value that no conversion gives is the default one, two zero bytes, which
/// stands for a country that was never set.
#[derive(Debug, Clone, Copy, Hash)]
pub struct Country {
    bytes: [u8; 2],
}

impl View for Country {
    type V = Seq<u8>;

    closed spec fn view(&self) -> Seq<u8> {
        self.bytes@
    }
}

/// Whether two bytes name a country: both are upper-case ASCII letters.
pub open spec fn country_bytes_valid(bytes: Seq<u8>) -> bool {
    bytes.len() == 2 && is_upper(bytes[0]) && is_upper(bytes[1])
}

impl Country {
    #[verifier::type_invariant]
    spec fn well_formed(self) -> bool {
        country_bytes_valid(self.bytes@) || self.bytes@ == seq![0u8, 0u8]
    }

    /// The country that holds `bytes`, which has two entries.
    pub closed spec fn of_bytes(bytes: Seq<u8>) -> Country {
        Country { bytes: [bytes[0], bytes[1]] }
    }

    /// Whether this is the default value, which names no country.
    pub open spec fn is_unset(&self) -> bool {
        self@ == seq![0u8, 0u8]
    }

    /// A country holds two bytes.
    pub broadcast proof fn view_has_two_bytes(country: Country)
        ensures
            (#[trigger] country@).len() == 2,
    {
    }

    /// `of_bytes` holds the bytes it was given.
    pub broadcast proof fn of_bytes_view(bytes: Seq<u8>)
        requires
            bytes.len() == 2,
        ensures
            (#[trigger] Country::of_bytes(bytes))@ == bytes,
    {
        assert(Country::of_bytes(bytes).bytes@ =~= bytes);
    }

    /// Two countries with the same bytes are the same country.
    pub proof fn view_injective(a: Country, b: Country)
        requires
            a@ == b@,
        ensures
            a == b,
    {
        assert(a.bytes =~= b.bytes);
    }

    /// The two bytes of the country.
    pub fn as_bytes(&self) -> (bytes: &[u8; 2])
        ensures
            bytes@ == self@,
            country_bytes_valid(self@) || self.is_unset(),
    {
        proof {
            use_type_invariant(self);
        }
        &self.bytes
    }

    /// The country as text.
    pub fn as_str(&self) -> (text: &str)
        ensures
            text@ == pair_text(self@),
    {
        proof {
            use_type_invariant(self);
        }
        pair_as_str(&self.bytes)
    }

    /// The country as an owned text.
    pub fn to_string(&self) -> (text: String)
        ensures
            text@ == pair_text(self@),
    {
        self.as_str().to_owned()
    }
}

impl Default for Country {
    /// The unset country: two zero bytes.
    fn default() -> (country: Country)
        ensures
            country.is_unset(),
    {
        Country { bytes: [0u8, 0u8] }
    }
}

impl PartialEq for Country {
    fn eq(&self, other: &Country) -> (same: bool) {
        let same = self.bytes[0] == other.bytes[0] && self.bytes[1] == other.bytes[1];
        proof {
            if same {
                assert(self.bytes@ =~= other.bytes@);
            }
        }
        same
    }
}

impl Eq for Country {}

impl PartialEqSpecImpl for Country {
    open spec fn obeys_eq_spec() -> bool {
        true
    }

    open spec fn eq_spec(&self, other: &Country) -> bool {
        self@ == other@
    }
}

impl TryFrom<&[u8; 2]> for Country {
    type Error = CountryConversionError;

    /// Accepts two upper-case ASCII letters.
    fn try_from(value: &[u8; 2]) -> (result: Result<Country, CountryConversionError>)
        ensures
            result is Ok <==> country_bytes_valid(value@),
            result matches Ok(country) ==> country@ == value@,
            result matches Err(error) ==> error == CountryConversionError::InvalidFormat,
    {
        let first: u8 = value[0];
        let second: u8 = value[1];
        if !(is_upper_byte(first) && is_upper_byte(second)) {
            return Err(CountryConversionError::InvalidFormat);
        }
        let country = Country { bytes: [first, second] };
        proof {
            assert(country.bytes@ =~= value@);
            Country::view_injective(country, Country::of_bytes(value@));
        }
        Ok(country)
    }
}

impl TryFromSpecImpl<&[u8; 2]> for Country {
    open spec fn obeys_try_from_spec() -> bool {
        true
    }

    open spec fn try_from_spec(value: &[u8; 2]) -> Result<Country, CountryConversionError> {
        if country_bytes_valid(value@) {
            Ok(Country::of_bytes(value@))
        } else {
            Err(CountryConversionError::InvalidFormat)
        }
    }
}

impl TryFrom<&str> for Country {
    type Error = CountryConversionError;

    /// Accepts a text of exactly two bytes, both upper-case ASCII letters.
    fn try_from(value: &str) -> (result: Result<Country, CountryConversionError>)
        ensures
            result is Ok <==> country_bytes_valid(value.spec_bytes()),
            result matches Ok(country) ==> country@ == value.spec_bytes(),
            result matches Err(error) ==> error == (if value.spec_bytes().len() == 2 {
                CountryConversionError::InvalidFormat
            } else {
                CountryConversionError::InvalidLength
            }),
    {
        let bytes = value.as_bytes();
        if bytes.len() != 2 {
            return Err(CountryConversionError::InvalidLength);
        }
        let pair: [u8; 2] = [bytes[0], bytes[1]];
        proof {
            assert(pair@ =~= bytes@);
        }
        Country::try_from(&pair)
    }
}

impl TryFromSpecImpl<&str> for Country {
    open spec fn obeys_try_from_spec() -> bool {
        true
    }

    open spec fn try_from_spec(value: &str) -> Result<Country, CountryConversionError> {
        let bytes = value.spec_bytes();
        if bytes.len() != 2 {
            Err(CountryConversionError::InvalidLength)
        } else if country_bytes_valid(bytes) {
            Ok(Country::of_bytes(bytes))
        } else {
            Err(CountryConversionError::InvalidFormat)
        }
    }
}

impl TryFrom<String> for Country {
    type Error = CountryConversionError;

    /// Accepts an owned text as the borrowed one is accepted.
    fn try_from(value: String) -> (result: Result<Country, CountryConversionError>)
        ensures
            result is Ok <==> country_bytes_valid(encode_utf8(value@)),
            result matches Ok(country) ==> country@ == encode_utf8(value@),
            result matches Err(error) ==> error == (if encode_utf8(value@).len() == 2 {
                CountryConversionError::InvalidFormat
            } else {
                CountryConversionError::InvalidLength
            }),
    {
        Country::try_from(value.as_str())
    }
}

impl TryFromSpecImpl<String> for Country {
    open spec fn obeys_try_from_spec() -> bool {
        true
    }

    open spec fn try_from_spec(value: String) -> Result<Country, CountryConversionError> {
        let bytes = encode_utf8(value@);
        if bytes.len() != 2 {
            Err(CountryConversionError::InvalidLength)
        } else if country_bytes_valid(bytes) {
            Ok(Country::of_bytes(bytes))
        } else {
            Err(CountryConversionError::InvalidFormat)
        }
    }
}

} // verus!
