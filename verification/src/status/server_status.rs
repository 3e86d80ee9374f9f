use vstd::prelude::*;
use vstd::std_specs::convert::FromSpecImpl;
use vstd::string::{to_string_from_display_ensures, StringExecFns};

verus! {

/// The number of bytes of one record: status, load and four bytes of score.
pub const SERVER_SIZE: usize = 6;

/// The largest load that a record may report, in percent.
pub const MAX_LOAD: u8 = 100;

/// The bit pattern of the score 1.0.
pub const SCORE_ONE: u32 = 0x3f80_0000;

/// The bit pattern of negative zero, which is equal to zero.
pub const SCORE_NEGATIVE_ZERO: u32 = 0x8000_0000;

/// Why a record was not accepted; the field is the message.
#[derive(Debug)]
pub struct ServerStatusError(pub String);

impl Clone for ServerStatusError {
    fn clone(&self) -> (copy: ServerStatusError)
        ensures
            copy.0@ == self.0@,
    {
        ServerStatusError(self.0.clone())
    }
}

/// One record of the status file.
///
/// The partial score is an IEEE-754 single-precision number in the file. It
/// is held here by its bit pattern, so that a record compares and copies
/// exactly; `f32::from_bits` gives the number.
#[derive(Clone, Copy, Debug, PartialEq, Eq, Structural)]
pub struct ServerStatus {
    /// Bit 0: enabled, bit 1: visible, bit 2: autoconnectable.
    pub status: u8,
    /// The load in percent.
    pub load: u8,
    /// The bit pattern of the partial score.
    pub partial_score_bits: u32,
}

/// Whether the number with this bit pattern lies between 0.0 and 1.0, both
/// included: it has the sign bit clear and is at most 1.0, or it is negative
/// zero. Among numbers without the sign bit the order of the bit patterns is
/// the order of the numbers. No negative number, no infinity and no NaN lies
/// in the range.
pub open spec fn score_in_range(bits: u32) -> bool {
    bits <= SCORE_ONE || bits == SCORE_NEGATIVE_ZERO
}

/// The 32-bit value whose little-endian bytes are `b0` to `b3`.
pub open spec fn le_u32(b0: u8, b1: u8, b2: u8, b3: u8) -> u32 {
    (b0 as u32) | ((b1 as u32) << 8) | ((b2 as u32) << 16) | ((b3 as u32) << 24)
}

/// Byte `k` of the little-endian form of `value`, for `k` from 0 to 3.
pub open spec fn le_byte(value: u32, k: u32) -> u8 {
    ((value >> (8 * k)) & 0xff) as u8
}

/// The record that six bytes hold.
pub open spec fn decode_record(bytes: Seq<u8>) -> ServerStatus {
    ServerStatus {
        status: bytes[0],
        load: bytes[1],
        partial_score_bits: le_u32(bytes[2], bytes[3], bytes[4], bytes[5]),
    }
}

/// The six bytes that hold a record.
pub open spec fn encode_record(server: ServerStatus) -> Seq<u8> {
    seq![
        server.status,
        server.load,
        le_byte(server.partial_score_bits, 0),
        le_byte(server.partial_score_bits, 1),
        le_byte(server.partial_score_bits, 2),
        le_byte(server.partial_score_bits, 3),
    ]
}

/// The message with which a record is refused, if it is refused. The load is
/// looked at first.
pub open spec fn validation_message(server: ServerStatus) -> Option<Seq<char>> {
    if server.load > MAX_LOAD {
        Some("Server load must be between 0 and 100"@)
    } else if !score_in_range(server.partial_score_bits) {
        Some("Server partial score must be between 0.0 and 1.0"@)
    } else {
        None
    }
}

/// The fixed text that the refusal of a slice of the wrong length starts with.
pub open spec fn length_message_prefix() -> Seq<char> {
    "Not enough bytes to parse ServerStatus: could not convert slice to array, original size is "@
}

/// Whether `message` is what a slice of `len` bytes, which is not six, is
/// refused with: the fixed text, then `len` as std prints it.
pub open spec fn is_length_message(len: usize, message: Seq<char>) -> bool {
    exists|digits: String| #[trigger]
        to_string_from_display_ensures::<usize>(&len, digits) && message
            == length_message_prefix() + digits@
}

/// Accepts a record whose load is at most 100 and whose partial score lies
/// between 0.0 and 1.0, and hands it back unchanged. A partial score that is
/// no number is refused like any other outside the range.
pub fn validate_server(server: ServerStatus) -> (result: Result<ServerStatus, ServerStatusError>)
    ensures
        result matches Ok(accepted) ==> accepted == server && server.is_valid(),
        result matches Err(error) ==> validation_message(server) == Some(error.0@),
{
    if server.load > MAX_LOAD {
        return Err(ServerStatusError("Server load must be between 0 and 100".to_owned()));
    }
    let bits: u32 = server.partial_score_bits;
    let in_range = bits <= SCORE_ONE || bits == SCORE_NEGATIVE_ZERO;
    if !in_range {
        return Err(
            ServerStatusError("Server partial score must be between 0.0 and 1.0".to_owned()),
        );
    }
    Ok(server)
}

impl ServerStatus {
    /// Whether the record passes validation.
    pub open spec fn is_valid(self) -> bool {
        validation_message(self) is None
    }

    /// What `try_from` makes of `bytes`: the record, if there are six bytes and
    /// the record passes validation.
    pub open spec fn accepted_from(bytes: Seq<u8>) -> Option<ServerStatus> {
        if bytes.len() == SERVER_SIZE && decode_record(bytes).is_valid() {
            Some(decode_record(bytes))
        } else {
            None
        }
    }

    /// Reads a record from a slice that must hold exactly six bytes, and
    /// validates it.
    pub fn try_from(src: &[u8]) -> (result: Result<ServerStatus, ServerStatusError>)
        ensures
            result matches Ok(server) ==> ServerStatus::accepted_from(src@) == Some(server),
            result matches Err(error) ==> ServerStatus::accepted_from(src@) is None && (if src@.len()
                == SERVER_SIZE {
                validation_message(decode_record(src@)) == Some(error.0@)
            } else {
                is_length_message(src.len(), error.0@)
            }),
    {
        if src.len() != SERVER_SIZE {
            let prefix =
                "Not enough bytes to parse ServerStatus: could not convert slice to array, original size is ";
            let digits = src.len().to_string();
            let message = prefix.to_owned().concat(digits.as_str());
            return Err(ServerStatusError(message));
        }
        let bytes: [u8; 6] = [src[0], src[1], src[2], src[3], src[4], src[5]];
        proof {
            assert(bytes@ =~= src@);
        }
        validate_server(ServerStatus::from(&bytes))
    }

    /// Writes the record as the six bytes of the file format.
    pub fn to_bytes(&self) -> (bytes: [u8; 6])
        ensures
            bytes@ == encode_record(*self),
            decode_record(bytes@) == *self,
    {
        let bits: u32 = self.partial_score_bits;
        let bytes: [u8; 6] = [
            self.status,
            self.load,
            (bits & 0xff) as u8,
            ((bits >> 8) & 0xff) as u8,
            ((bits >> 16) & 0xff) as u8,
            ((bits >> 24) & 0xff) as u8,
        ];
        proof {
            assert(bits >> 0 == bits) by (bit_vector);
            assert(bytes@ =~= encode_record(*self));
            encode_then_decode(*self);
        }
        bytes
    }
}

impl From<&[u8; 6]> for ServerStatus {
    /// Reads a record from six bytes, without validating it.
    fn from(src: &[u8; 6]) -> (server: ServerStatus) {
        ServerStatus {
            status: src[0],
            load: src[1],
            partial_score_bits: (src[2] as u32) | ((src[3] as u32) << 8) | ((src[4] as u32) << 16)
                | ((src[5] as u32) << 24),
        }
    }
}

impl FromSpecImpl<&[u8; 6]> for ServerStatus {
    open spec fn obeys_from_spec() -> bool {
        true
    }

    open spec fn from_spec(src: &[u8; 6]) -> ServerStatus {
        decode_record(src@)
    }
}

impl Default for ServerStatus {
    /// The record of a server of which nothing is known: all zero.
    fn default() -> (server: ServerStatus)
        ensures
            server == (ServerStatus { status: 0, load: 0, partial_score_bits: 0 }),
    {
        ServerStatus { status: 0, load: 0, partial_score_bits: 0 }
    }
}

/// The four little-endian bytes of a value give the value back.
pub proof fn le_bytes_round_trip(value: u32)
    ensures
        le_u32(le_byte(value, 0), le_byte(value, 1), le_byte(value, 2), le_byte(value, 3))
            == value,
{
    assert(((((value >> (8 * 0u32)) & 0xff) as u8) as u32) | (((((value >> (8 * 1u32)) & 0xff)
        as u8) as u32) << 8) | (((((value >> (8 * 2u32)) & 0xff) as u8) as u32) << 16) | (((((value
        >> (8 * 3u32)) & 0xff) as u8) as u32) << 24) == value) by (bit_vector);
}

/// Writing a record and reading the six bytes back gives the record again:
/// status, load and every bit of the partial score.
pub proof fn encode_then_decode(server: ServerStatus)
    ensures
        encode_record(server).len() == SERVER_SIZE,
        decode_record(encode_record(server)) == server,
{
    le_bytes_round_trip(server.partial_score_bits);
}

/// A record that passes validation is accepted again after it was written
/// and read back.
pub proof fn valid_record_survives_round_trip(server: ServerStatus)
    requires
        server.is_valid(),
    ensures
        ServerStatus::accepted_from(encode_record(server)) == Some(server),
{
    encode_then_decode(server);
}

} // verus!
