use vstd::prelude::*;
use vstd::slice::slice_subrange;
use crate::error::Error;
use crate::status::report::{DecodeErrorView, DecodeErrors, DecodeErrorsView};
use crate::status::server_status::{
    decode_record, encode_record, encode_then_decode, validation_message, ServerStatus,
    ServerStatusError, SERVER_SIZE,
};

verus! {

/// The number of bytes of the header that every status file starts with.
pub const HEADER_SIZE: usize = 4;

/// The header of a status file: format version 1, little-endian.
pub open spec fn version_header() -> Seq<u8> {
    seq![1u8, 0u8, 0u8, 0u8]
}

/// The records that a run of bytes holds, in the order of the file. The run
/// is the file without its header; a run that ends inside a record holds the
/// whole records before that point.
pub open spec fn records_of(body: Seq<u8>) -> Seq<ServerStatus> {
    Seq::new(
        (body.len() / SERVER_SIZE as nat) as nat,
        |i: int| decode_record(body.subrange(SERVER_SIZE * i, SERVER_SIZE * i + SERVER_SIZE)),
    )
}

/// The message with which a status file is refused, if it is refused: it is
/// shorter than the header, or starts with another header, or does not end
/// with a whole record.
pub open spec fn parse_failure(file: Seq<u8>) -> Option<Seq<char>> {
    if file.len() < HEADER_SIZE {
        Some("Failed to read first 4 bytes in magic number"@)
    } else if file.subrange(0, HEADER_SIZE as int) != version_header() {
        Some("Invalid magic number"@)
    } else if (file.len() - HEADER_SIZE) % (SERVER_SIZE as int) != 0 {
        Some("Status file is corrupt"@)
    } else {
        None
    }
}

/// The bytes in which `records` stand one after the other.
pub open spec fn body_of(records: Seq<ServerStatus>) -> Seq<u8>
    decreases records.len(),
{
    if records.len() == 0 {
        Seq::empty()
    } else {
        body_of(records.drop_last()) + encode_record(records.last())
    }
}

/// The status file that holds `records`: the header, then the records.
pub open spec fn file_of(records: Seq<ServerStatus>) -> Seq<u8> {
    version_header() + body_of(records)
}

/// In the bytes of `records`, each record takes six bytes and record `i`
/// stands at offset `6 * i`.
pub proof fn body_holds_each_record(records: Seq<ServerStatus>)
    ensures
        body_of(records).len() == SERVER_SIZE * records.len(),
        forall|i: int|
            0 <= i < records.len() ==> #[trigger] body_of(records).subrange(
                SERVER_SIZE * i,
                SERVER_SIZE * i + SERVER_SIZE,
            ) == encode_record(records[i]),
    decreases records.len(),
{
    if records.len() > 0 {
        let front = records.drop_last();
        body_holds_each_record(front);
        assert forall|i: int| 0 <= i < records.len() implies #[trigger] body_of(records).subrange(
            SERVER_SIZE * i,
            SERVER_SIZE * i + SERVER_SIZE,
        ) == encode_record(records[i]) by {
            let chunk = body_of(records).subrange(SERVER_SIZE * i, SERVER_SIZE * i + SERVER_SIZE);
            if i < front.len() {
                assert(chunk =~= body_of(front).subrange(
                    SERVER_SIZE * i,
                    SERVER_SIZE * i + SERVER_SIZE,
                ));
                assert(front[i] == records[i]);
            } else {
                assert(chunk =~= encode_record(records.last()));
            }
        }
    }
}

/// A status file that was written from `records` is accepted, and reading it
/// gives `records` back, as many and in the same order.
pub proof fn written_file_reads_back(records: Seq<ServerStatus>)
    ensures
        parse_failure(file_of(records)) is None,
        records_of(file_of(records).skip(HEADER_SIZE as int)) == records,
        records.len() == (file_of(records).len() - HEADER_SIZE) / (SERVER_SIZE as int),
{
    body_holds_each_record(records);
    let file = file_of(records);
    assert(file.subrange(0, HEADER_SIZE as int) =~= version_header());
    assert(file.skip(HEADER_SIZE as int) =~= body_of(records));
    let read = records_of(body_of(records));
    assert(read.len() == records.len());
    assert forall|i: int| 0 <= i < records.len() implies read[i] == records[i] by {
        encode_then_decode(records[i]);
    }
    assert(read =~= records);
}

/// Whether there is a record at `index` that does not pass validation.
pub open spec fn is_refused(records: Seq<ServerStatus>, index: int) -> bool {
    0 <= index < records.len() && !records[index].is_valid()
}

/// What is reported of the refused record at `index`: its index, the offset
/// of its first byte from the first record, and the reason.
pub open spec fn refusal(records: Seq<ServerStatus>, index: int) -> DecodeErrorView {
    DecodeErrorView {
        index: index as usize,
        byte_offset: (index * SERVER_SIZE) as usize,
        message: validation_message(records[index]).unwrap(),
    }
}

/// The record that a lookup at `index` gives: the record of the file if there
/// is one at `index` and it passes validation, else `default`.
pub open spec fn lookup(records: Seq<ServerStatus>, index: int, default: ServerStatus) -> ServerStatus {
    if 0 <= index < records.len() && !is_refused(records, index) {
        records[index]
    } else {
        default
    }
}

/// The log after a lookup at `index`: one report more if the record at
/// `index` is refused, else the log as it was.
pub open spec fn lookup_report(records: Seq<ServerStatus>, index: int, before: DecodeErrorsView) -> DecodeErrorsView {
    if is_refused(records, index) {
        let report = refusal(records, index);
        before.report(report.index, report.byte_offset, report.message)
    } else {
        before
    }
}

/// Settles one lookup: hands an accepted record on, and for a refused one
/// reports the refusal and hands out `default`.
fn handle_errors(
    index: usize,
    result: Result<ServerStatus, ServerStatusError>,
    default: &ServerStatus,
    errors: &mut DecodeErrors,
) -> (server: ServerStatus)
    requires
        index * SERVER_SIZE <= usize::MAX,
    ensures
        match result {
            Ok(accepted) => server == accepted && final(errors)@ == old(errors)@,
            Err(error) => server == *default && final(errors)@ == old(errors)@.report(
                index,
                (index * SERVER_SIZE) as usize,
                error.0@,
            ),
        },
{
    match result {
        Ok(server_status) => server_status,
        Err(error) => {
            errors.report(index, index * SERVER_SIZE, error.0.as_str());
            *default
        },
    }
}

/// Reads a status file as a sequence of records.
///
/// The view is the sequence of records as the bytes hold them, not validated.
#[derive(Debug)]
pub struct Parser<'a> {
    body: &'a [u8],
}

impl<'a> View for Parser<'a> {
    type V = Seq<ServerStatus>;

    closed spec fn view(&self) -> Seq<ServerStatus> {
        records_of(self.body@)
    }
}

impl<'a> Parser<'a> {
    #[verifier::type_invariant]
    spec fn well_formed(self) -> bool {
        self.body@.len() % SERVER_SIZE as nat == 0
    }

    /// Checks the header and the length of a status file and, if both are
    /// right, gives a reader of its records. The bytes are not copied.
    pub fn try_from(value: &'a [u8]) -> (result: Result<Parser<'a>, Error>)
        ensures
            match result {
                Ok(parser) => parse_failure(value@) is None && parser@ == records_of(
                    value@.skip(HEADER_SIZE as int),
                ) && parser@.len() == (value@.len() - HEADER_SIZE) / (SERVER_SIZE as int),
                Err(error) => error matches Error::ParserError(message) && parse_failure(value@)
                    == Some(message@),
            },
    {
        if value.len() < HEADER_SIZE {
            return Err(
                Error::ParserError("Failed to read first 4 bytes in magic number".to_owned()),
            );
        }
        let header_matches = value[0] == 1 && value[1] == 0 && value[2] == 0 && value[3] == 0;
        proof {
            let header = value@.subrange(0, HEADER_SIZE as int);
            if header_matches {
                assert(header =~= version_header());
            } else {
                assert(header[0] == value@[0] && header[1] == value@[1] && header[2] == value@[2]
                    && header[3] == value@[3]);
            }
        }
        if !header_matches {
            return Err(Error::ParserError("Invalid magic number".to_owned()));
        }
        if (value.len() - HEADER_SIZE) % SERVER_SIZE != 0 {
            return Err(Error::ParserError("Status file is corrupt".to_owned()));
        }
        let body = slice_subrange(value, HEADER_SIZE, value.len());
        proof {
            assert(body@ =~= value@.skip(HEADER_SIZE as int));
        }
        Ok(Parser { body })
    }

    /// Returns the record at index `i`.
    ///
    /// An index past the last record is no error: `default` is returned and
    /// nothing is reported. A record that does not pass validation is
    /// reported to `errors`, with its index and byte offset, and `default` is
    /// returned in its place.
    pub fn get(&self, i: usize, default: &ServerStatus, errors: &mut DecodeErrors) -> (server:
        ServerStatus)
        ensures
            server == lookup(self@, i as int, *default),
            final(errors)@ == lookup_report(self@, i as int, old(errors)@),
            i >= self@.len() ==> server == *default && final(errors)@ == old(errors)@,
    {
        proof {
            use_type_invariant(self);
        }
        if i >= self.body.len() / SERVER_SIZE {
            return *default;
        }
        proof {
            assert(self@[i as int] == decode_record(
                self.body@.subrange(SERVER_SIZE * i, SERVER_SIZE * i + SERVER_SIZE),
            ));
        }
        let lower = i * SERVER_SIZE;
        let upper = lower + SERVER_SIZE;
        let chunk = slice_subrange(self.body, lower, upper);
        handle_errors(i, ServerStatus::try_from(chunk), default, errors)
    }

    /// Returns the number of records in the status file.
    pub fn len(&self) -> (count: usize)
        ensures
            count == self@.len(),
    {
        self.body.len() / SERVER_SIZE
    }

    /// Tells whether the status file holds no record.
    pub fn is_empty(&self) -> (empty: bool)
        ensures
            empty == (self@.len() == 0),
    {
        self.len() == 0
    }

    /// Returns a cursor over the records as the bytes hold them, from the
    /// first one on. No record is validated or replaced.
    pub fn iter(&self) -> (records: Records<'a>)
        ensures
            records@ == self@,
    {
        proof {
            use_type_invariant(self);
        }
        let records = Records { body: self.body, position: 0 };
        proof {
            assert(records_of(self.body@).skip(0) =~= records_of(self.body@));
        }
        records
    }
}

/// A cursor over the records of a status file. The view is the sequence of
/// records that it has yet to hand out.
#[derive(Debug)]
pub struct Records<'a> {
    body: &'a [u8],
    position: usize,
}

impl<'a> View for Records<'a> {
    type V = Seq<ServerStatus>;

    closed spec fn view(&self) -> Seq<ServerStatus> {
        records_of(self.body@).skip(self.position as int)
    }
}

impl<'a> Records<'a> {
    #[verifier::type_invariant]
    spec fn well_formed(self) -> bool {
        self.body@.len() % SERVER_SIZE as nat == 0 && self.position <= self.body@.len()
            / SERVER_SIZE as nat
    }

    /// Hands out the next record and moves on, or `None` after the last one.
    pub fn next(&mut self) -> (record: Option<ServerStatus>)
        ensures
            old(self)@.len() == 0 ==> record is None && final(self)@ == old(self)@,
            old(self)@.len() > 0 ==> record == Some(old(self)@[0]) && final(self)@ == old(
                self,
            )@.skip(1),
    {
        proof {
            use_type_invariant(&*self);
        }
        if self.position >= self.body.len() / SERVER_SIZE {
            return None;
        }
        let lower = self.position * SERVER_SIZE;
        let chunk = slice_subrange(self.body, lower, lower + SERVER_SIZE);
        let bytes: [u8; 6] = [chunk[0], chunk[1], chunk[2], chunk[3], chunk[4], chunk[5]];
        proof {
            assert(bytes@ =~= chunk@);
            assert(records_of(self.body@).skip(self.position as int).skip(1) =~= records_of(
                self.body@,
            ).skip(self.position as int + 1));
        }
        self.position = self.position + 1;
        Some(ServerStatus::from(&bytes))
    }

    /// Collects the records that are left, in order.
    pub fn collect(self) -> (records: Vec<ServerStatus>)
        ensures
            records@ == self@,
    {
        let ghost all = self@;
        let mut cursor = self;
        let mut records: Vec<ServerStatus> = Vec::new();
        loop
            invariant
                all == self@,
                all == records@ + cursor@,
            decreases cursor@.len(),
        {
            match cursor.next() {
                Some(record) => {
                    proof {
                        assert(records@.push(record) + cursor@ =~= all);
                    }
                    records.push(record);
                },
                None => {
                    proof {
                        assert(records@ =~= all);
                    }
                    return records;
                },
            }
        }
    }
}

} // verus!
