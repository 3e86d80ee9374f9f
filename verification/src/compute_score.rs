use vstd::prelude::*;
use crate::country_code::CountryCode;

verus! {

/// The status bit of a server that accepts connections.
pub const STATUS_ENABLED: u8 = 0b001;

/// The status bit of a server that is shown to users.
pub const STATUS_VISIBLE: u8 = 0b010;

/// The status bit of a server that may be picked without the user asking.
pub const STATUS_AUTOCONNECTABLE: u8 = 0b100;

/// The bit pattern of the least single-precision number that is not below
/// 0.99, the partial score of a server with 100 Mbps left.
pub const PARTIAL_SCORE_CEILING: u32 = 0x3f7d_70a4;

/// The bit pattern of positive infinity in single precision. The patterns
/// above it are NaNs, up to the sign bit, and negative numbers from there on.
pub const SCORE_INFINITY: u32 = 0x7f80_0000;

/// What a server that is disabled or hidden is charged.
pub const UNAVAILABLE_PENALTY: u32 = 1000;

/// What a server abroad, or one whose partial score is at the ceiling, is charged.
pub const ABROAD_OR_SATURATED_PENALTY: u32 = 1;

/// What an expensive server abroad is charged on top.
pub const EXPENSIVE_ABROAD_PENALTY: u32 = 3;

/// Whether a status has the given bit set.
pub open spec fn has_flag(status: u8, flag: u8) -> bool {
    status & flag != 0
}

/// Whether a partial score is at the ceiling: the number with this bit
/// pattern compares at or above 0.99. No negative number and no NaN does.
pub open spec fn score_saturated(bits: u32) -> bool {
    PARTIAL_SCORE_CEILING <= bits <= SCORE_INFINITY
}

/// Whether the client is known to be in another country than the server. A
/// client whose country is unknown is taken to be in the server's country.
pub open spec fn is_abroad(client_country: Option<CountryCode>, server_country: CountryCode) -> bool {
    match client_country {
        Some(country) => country@ != server_country@,
        None => false,
    }
}

/// The charges that apply to a server, on top of the penalty that the backend
/// gave it. Each one is decided on its own; the score adds them in this order.
#[derive(Clone, Copy, Debug, Default, PartialEq, Eq, Structural)]
pub struct Penalty {
    /// The server is disabled or hidden: 1000.
    pub unavailable: bool,
    /// The server is abroad, or its partial score is at the ceiling: 1.
    pub abroad_or_saturated: bool,
    /// The server is abroad and expensive: 3.
    pub expensive_abroad: bool,
}

impl Penalty {
    /// The sum of the charges that apply.
    pub open spec fn total(self) -> nat {
        let unavailable: nat = if self.unavailable {
            UNAVAILABLE_PENALTY as nat
        } else {
            0
        };
        let abroad_or_saturated: nat = if self.abroad_or_saturated {
            ABROAD_OR_SATURATED_PENALTY as nat
        } else {
            0
        };
        let expensive_abroad: nat = if self.expensive_abroad {
            EXPENSIVE_ABROAD_PENALTY as nat
        } else {
            0
        };
        unavailable + abroad_or_saturated + expensive_abroad
    }

    /// The sum of the two charges that depend on the countries, the cost and
    /// the partial score, without the one for a server that is unavailable.
    pub open spec fn country_and_cost(self) -> nat {
        (Penalty { unavailable: false, ..self }).total()
    }

    /// Adds up the charges that apply.
    pub fn amount(&self) -> (amount: u32)
        ensures
            amount == self.total(),
    {
        let mut amount: u32 = 0;
        if self.unavailable {
            amount = amount + UNAVAILABLE_PENALTY;
        }
        if self.abroad_or_saturated {
            amount = amount + ABROAD_OR_SATURATED_PENALTY;
        }
        if self.expensive_abroad {
            amount = amount + EXPENSIVE_ABROAD_PENALTY;
        }
        amount
    }
}

/// The charges for a server with the given cost flag, partial score,
/// country and status, seen by a client in `client_country`.
pub open spec fn penalty_for(
    status_cost: u8,
    partial_score_bits: u32,
    client_country: Option<CountryCode>,
    server_country: CountryCode,
    server_status: u8,
) -> Penalty {
    let abroad = is_abroad(client_country, server_country);
    Penalty {
        unavailable: !has_flag(server_status, STATUS_ENABLED) || !has_flag(
            server_status,
            STATUS_VISIBLE,
        ),
        abroad_or_saturated: abroad || score_saturated(partial_score_bits),
        expensive_abroad: abroad && status_cost == 1,
    }
}

/// Decides which charges apply to a server.
///
/// The penalty that the backend gave the server is not among them: the score
/// starts from it and adds the charges decided here.
pub fn compute_penalty(
    status_cost: u8,
    partial_score_bits: u32,
    client_country: &Option<CountryCode>,
    server_country: CountryCode,
    server_status: u8,
) -> (penalty: Penalty)
    ensures
        penalty == penalty_for(
            status_cost,
            partial_score_bits,
            *client_country,
            server_country,
            server_status,
        ),
{
    let is_in_same_country = match client_country {
        Some(country) => *country == server_country,
        None => true,
    };
    let server_disabled = (server_status & STATUS_ENABLED) == 0;
    let server_hidden = (server_status & STATUS_VISIBLE) == 0;
    let saturated = PARTIAL_SCORE_CEILING <= partial_score_bits && partial_score_bits
        <= SCORE_INFINITY;
    Penalty {
        unavailable: server_disabled || server_hidden,
        abroad_or_saturated: !is_in_same_country || saturated,
        expensive_abroad: !is_in_same_country && status_cost == 1,
    }
}

/// A server whose status lacks the enabled bit or the visible bit is charged
/// at least 1000.
pub proof fn unavailable_server_is_charged(
    status_cost: u8,
    partial_score_bits: u32,
    client_country: Option<CountryCode>,
    server_country: CountryCode,
    server_status: u8,
)
    requires
        !has_flag(server_status, STATUS_ENABLED) || !has_flag(server_status, STATUS_VISIBLE),
    ensures
        penalty_for(
            status_cost,
            partial_score_bits,
            client_country,
            server_country,
            server_status,
        ).total() >= 1000,
{
}

/// Where the client is in the server's country, or its country is unknown,
/// and the partial score is below the ceiling, the countries, the cost and the
/// partial score add nothing to the penalty.
pub proof fn home_server_below_ceiling_is_not_charged(
    status_cost: u8,
    partial_score_bits: u32,
    client_country: Option<CountryCode>,
    server_country: CountryCode,
    server_status: u8,
)
    requires
        !is_abroad(client_country, server_country),
        !score_saturated(partial_score_bits),
    ensures
        penalty_for(
            status_cost,
            partial_score_bits,
            client_country,
            server_country,
            server_status,
        ).country_and_cost() == 0,
{
}

/// Where the client is known to be in another country than the server and
/// the server is expensive, the countries and the cost add exactly 1 and 3 to
/// the penalty.
pub proof fn expensive_server_abroad_is_charged_four(
    status_cost: u8,
    partial_score_bits: u32,
    client_country: Option<CountryCode>,
    server_country: CountryCode,
    server_status: u8,
)
    requires
        is_abroad(client_country, server_country),
        status_cost == 1,
    ensures
        ({
            let penalty = penalty_for(
                status_cost,
                partial_score_bits,
                client_country,
                server_country,
                server_status,
            );
            &&& penalty.abroad_or_saturated
            &&& penalty.expensive_abroad
            &&& penalty.country_and_cost() == 1 + 3
            &&& penalty.total() == penalty.country_and_cost() + (if penalty.unavailable {
                1000nat
            } else {
                0nat
            })
        }),
{
}

} // verus!
