use vstd::prelude::*;
use crate::compute_score::{
    compute_penalty, has_flag, penalty_for, STATUS_AUTOCONNECTABLE, STATUS_ENABLED, STATUS_VISIBLE,
};
use crate::country_code::CountryCode;
use crate::error::Error;
use crate::load::Load;
use crate::logical::Logical;
use crate::status::parser::{
    is_refused, lookup, lookup_report, parse_failure, records_of, refusal, Parser, HEADER_SIZE,
};
use crate::status::report::{DecodeErrors, DecodeErrorsView};
use crate::status::server_status::ServerStatus;

verus! {

/// The record of a server of which the status file says nothing.
pub open spec fn unknown_status() -> ServerStatus {
    ServerStatus { status: 0, load: 0, partial_score_bits: 0 }
}

/// The load of one server, given the records of the status file.
pub open spec fn load_for(
    logical: Logical,
    records: Seq<ServerStatus>,
    user_country: Option<CountryCode>,
) -> Load {
    let status = lookup(records, logical.status_reference.index as int, unknown_status());
    Load {
        is_enabled: has_flag(status.status, STATUS_ENABLED),
        is_visible: has_flag(status.status, STATUS_VISIBLE),
        is_autoconnectable: has_flag(status.status, STATUS_AUTOCONNECTABLE),
        load: status.load,
        partial_score_bits: status.partial_score_bits,
        penalty: penalty_for(
            logical.status_reference.cost,
            status.partial_score_bits,
            user_country,
            logical.exit_country,
            status.status,
        ),
    }
}

/// The log of refused records after the first `n` servers were looked up,
/// one after the other.
pub open spec fn reports_for(logicals: Seq<Logical>, records: Seq<ServerStatus>, n: int) -> DecodeErrorsView
    decreases n,
{
    if n <= 0 {
        DecodeErrorsView::empty()
    } else {
        lookup_report(
            records,
            logicals[n - 1].status_reference.index as int,
            reports_for(logicals, records, n - 1),
        )
    }
}

/// The number of servers among the first `n` whose record is refused.
pub open spec fn refused_servers(logicals: Seq<Logical>, records: Seq<ServerStatus>, n: int) -> nat
    decreases n,
{
    if n <= 0 {
        0
    } else {
        refused_servers(logicals, records, n - 1) + (if is_refused(
            records,
            logicals[n - 1].status_reference.index as int,
        ) {
            1nat
        } else {
            0nat
        })
    }
}

/// The log counts every server whose record is refused, and it holds a
/// report exactly if it counted one.
pub proof fn every_refused_server_is_counted(
    logicals: Seq<Logical>,
    records: Seq<ServerStatus>,
    n: int,
)
    requires
        0 <= n <= logicals.len() <= usize::MAX,
    ensures
        reports_for(logicals, records, n).count == refused_servers(logicals, records, n),
        refused_servers(logicals, records, n) <= n,
        (reports_for(logicals, records, n).first is None) == (refused_servers(logicals, records, n)
            == 0),
    decreases n,
{
    if n > 0 {
        every_refused_server_is_counted(logicals, records, n - 1);
    }
}

/// However many records are refused, the one report that the log holds is
/// that of the first server, in the order given, whose record is refused.
pub proof fn only_the_first_refusal_is_reported(
    logicals: Seq<Logical>,
    records: Seq<ServerStatus>,
    n: int,
    k: int,
)
    requires
        0 <= k < n <= logicals.len(),
        is_refused(records, logicals[k].status_reference.index as int),
        forall|j: int| 0 <= j < k ==> !is_refused(records, #[trigger] logicals[j].status_reference.index as int),
    ensures
        reports_for(logicals, records, n).first == Some(
            refusal(records, logicals[k].status_reference.index as int),
        ),
    decreases n,
{
    if n - 1 > k {
        only_the_first_refusal_is_reported(logicals, records, n - 1, k);
    } else {
        no_refusal_gives_no_report(logicals, records, k);
    }
}

/// Where no record is refused, the log stays empty.
pub proof fn no_refusal_gives_no_report(logicals: Seq<Logical>, records: Seq<ServerStatus>, n: int)
    requires
        0 <= n <= logicals.len(),
        forall|j: int| 0 <= j < n ==> !is_refused(records, #[trigger] logicals[j].status_reference.index as int),
    ensures
        reports_for(logicals, records, n) == DecodeErrorsView::empty(),
    decreases n,
{
    if n > 0 {
        no_refusal_gives_no_report(logicals, records, n - 1);
    }
}

/// Computes the load of each server from the status file.
///
/// `loads[i]` is filled for `logicals[i]`, in the order given. The call fails,
/// and leaves `loads` as it was, if the two differ in length or if the status
/// file is refused; the lengths are compared first. A record that does not
/// pass validation does not fail the call: the server gets the all-zero
/// record, and the log that is returned holds the first such record and the
/// number of them.
pub fn compute_loads(
    loads: &mut [Load],
    logicals: &[Logical],
    status_file: &[u8],
    user_country: &Option<CountryCode>,
) -> (result: Result<DecodeErrors, Error>)
    ensures
        final(loads)@.len() == old(loads)@.len(),
        match result {
            Ok(errors) => {
                let records = records_of(status_file@.skip(HEADER_SIZE as int));
                &&& old(loads)@.len() == logicals@.len()
                &&& parse_failure(status_file@) is None
                &&& forall|i: int|
                    0 <= i < logicals@.len() ==> #[trigger] final(loads)@[i] == load_for(
                        logicals@[i],
                        records,
                        *user_country,
                    )
                &&& errors@ == reports_for(logicals@, records, logicals@.len() as int)
            },
            Err(error) => {
                &&& final(loads)@ == old(loads)@
                &&& if old(loads)@.len() != logicals@.len() {
                    error == (Error::LengthsNotConsistent {
                        servers: logicals@.len() as u64,
                        loads: old(loads)@.len() as u64,
                    })
                } else {
                    error matches Error::ParserError(message) && parse_failure(status_file@)
                        == Some(message@)
                }
            },
        },
{
    if loads.len() != logicals.len() {
        return Err(
            Error::LengthsNotConsistent {
                servers: logicals.len() as u64,
                loads: loads.len() as u64,
            },
        );
    }
    let statuses = match Parser::try_from(status_file) {
        Ok(statuses) => statuses,
        Err(error) => {
            return Err(error);
        },
    };
    let ghost records = statuses@;
    let mut errors = DecodeErrors::new();
    let status_is_unknown = ServerStatus::default();
    let mut i: usize = 0;
    while i < logicals.len()
        invariant
            i <= logicals@.len(),
            loads@.len() == logicals@.len(),
            statuses@ == records,
            status_is_unknown == unknown_status(),
            forall|k: int|
                0 <= k < i ==> #[trigger] loads@[k] == load_for(logicals@[k], records, *user_country),
            errors@ == reports_for(logicals@, records, i as int),
        decreases logicals@.len() - i,
    {
        let logical = &logicals[i];
        let status = statuses.get(
            logical.status_reference.index as usize,
            &status_is_unknown,
            &mut errors,
        );
        let penalty = compute_penalty(
            logical.status_reference.cost,
            status.partial_score_bits,
            user_country,
            logical.exit_country,
            status.status,
        );
        loads[i] = Load {
            is_enabled: status.status & STATUS_ENABLED != 0,
            is_visible: status.status & STATUS_VISIBLE != 0,
            is_autoconnectable: status.status & STATUS_AUTOCONNECTABLE != 0,
            load: status.load,
            partial_score_bits: status.partial_score_bits,
            penalty,
        };
        i = i + 1;
    }
    Ok(errors)
}

} // verus!
