use server_score::compute_score::{
    compute_penalty, Penalty, PARTIAL_SCORE_CEILING, STATUS_AUTOCONNECTABLE, STATUS_ENABLED,
    STATUS_VISIBLE,
};
use server_score::CountryCode;

fn code(text: &str) -> CountryCode {
    CountryCode::try_from(text).unwrap()
}

/// The penalty as the score adds it up: the backend's penalty first, then
/// each charge that applies.
fn penalty_from(status_penalty: f64, charges: Penalty) -> f64 {
    let mut penalty = status_penalty;
    if charges.unavailable {
        penalty += 1000.0;
    }
    if charges.abroad_or_saturated {
        penalty += 1.0;
    }
    if charges.expensive_abroad {
        penalty += 3.0;
    }
    penalty
}

fn penalty(
    status_penalty: f64,
    status_cost: u8,
    partial_score: f32,
    client_country: &Option<CountryCode>,
    server_country: CountryCode,
    server_status: u8,
) -> f64 {
    let charges = compute_penalty(
        status_cost,
        partial_score.to_bits(),
        client_country,
        server_country,
        server_status,
    );
    assert_eq!(penalty_from(0.0, charges), charges.amount() as f64);
    penalty_from(status_penalty, charges)
}

#[test]
fn test_compute_penalty() {
    assert_eq!(
        0.0, // Everything is optimal
        penalty(0.0, 0_u8, 0.5, &Some(code("FR")), code("FR"), STATUS_ENABLED | STATUS_VISIBLE)
    );
    assert_eq!(
        123.0, // Because the status penalty is high
        penalty(123.0, 0_u8, 0.5, &Some(code("FR")), code("FR"), STATUS_ENABLED | STATUS_VISIBLE)
    );
    assert_eq!(
        1.0, // Because load score is high
        penalty(0.0, 0_u8, 0.99, &Some(code("FR")), code("FR"), STATUS_ENABLED | STATUS_VISIBLE)
    );
    assert_eq!(
        1.0, // Because countries are different
        penalty(0.0, 0_u8, 0.5, &Some(code("FR")), code("GB"), STATUS_ENABLED | STATUS_VISIBLE)
    );
    assert_eq!(
        4.0, // Because countries are different and cost is 1
        penalty(0.0, 1_u8, 0.5, &Some(code("FR")), code("GB"), STATUS_ENABLED | STATUS_VISIBLE)
    );
    assert_eq!(
        1000.0, // Because server active but not visible
        penalty(0.0, 0_u8, 0.5, &Some(code("FR")), code("FR"), STATUS_ENABLED)
    );
    assert_eq!(
        1000.0, // Because server is visible but not active
        penalty(0.0, 0_u8, 0.5, &Some(code("FR")), code("FR"), STATUS_VISIBLE)
    );
    assert_eq!(
        1000.0, // Because server is disabled and hidden
        penalty(0.0, 0_u8, 0.5, &Some(code("FR")), code("FR"), 0_u8)
    );

    assert_eq!(
        0.0, // We do not know if countries are different, so we assume
        // they are the same and therefore everything is optimal.
        penalty(0.0, 0_u8, 0.5, &None, code("FR"), STATUS_ENABLED | STATUS_VISIBLE)
    );
}

#[test]
fn status_bits_are_the_three_lowest() {
    assert_eq!(STATUS_ENABLED, 1 << 0);
    assert_eq!(STATUS_VISIBLE, 1 << 1);
    assert_eq!(STATUS_AUTOCONNECTABLE, 1 << 2);
}

#[test]
fn ceiling_is_the_least_score_that_is_not_below_ninety_nine_hundredths() {
    assert_eq!(PARTIAL_SCORE_CEILING, 0.99_f32.to_bits());
    assert!(f32::from_bits(PARTIAL_SCORE_CEILING) as f64 >= 0.99_f64);
    assert!((f32::from_bits(PARTIAL_SCORE_CEILING - 1) as f64) < 0.99_f64);
}

#[test]
fn saturation_agrees_with_the_comparison_of_numbers() {
    let mut patterns: Vec<u32> = vec![
        0,
        PARTIAL_SCORE_CEILING - 1,
        PARTIAL_SCORE_CEILING,
        PARTIAL_SCORE_CEILING + 1,
        1.0_f32.to_bits(),
        2.0_f32.to_bits(),
        f32::INFINITY.to_bits(),
        f32::INFINITY.to_bits() + 1,
        f32::NAN.to_bits(),
        (-0.0_f32).to_bits(),
        (-0.99_f32).to_bits(),
        (-1.0_f32).to_bits(),
        f32::NEG_INFINITY.to_bits(),
        u32::MAX,
    ];
    let mut state: u32 = 0x0bad_cafe;
    for _ in 0..20_000 {
        state = state.wrapping_mul(1_664_525).wrapping_add(1_013_904_223);
        patterns.push(state);
    }
    for bits in patterns {
        let charges =
            compute_penalty(0, bits, &None, code("FR"), STATUS_ENABLED | STATUS_VISIBLE);
        let saturated = f32::from_bits(bits) as f64 >= 0.99_f64;
        assert_eq!(charges.abroad_or_saturated, saturated, "bits {bits:#010x}");
        assert!(!charges.unavailable);
        assert!(!charges.expensive_abroad);
    }
}

#[test]
fn server_without_enabled_or_visible_bit_is_charged_at_least_a_thousand() {
    for status in 0..=255_u8 {
        for cost in [0_u8, 1, 2] {
            for client in [None, Some(code("FR")), Some(code("GB"))] {
                let charges = compute_penalty(cost, 0.5_f32.to_bits(), &client, code("FR"), status);
                let lacking = status & STATUS_ENABLED == 0 || status & STATUS_VISIBLE == 0;
                assert_eq!(charges.unavailable, lacking);
                assert_eq!(charges.amount() >= 1000, lacking);
            }
        }
    }
}

#[test]
fn same_or_unknown_country_below_the_ceiling_costs_nothing() {
    for client in [None, Some(code("FR")), Some(code("fr"))] {
        for cost in [0_u8, 1, 255] {
            for score in [0.0_f32, 0.5, 0.98, 0.989_999_9] {
                let charges = compute_penalty(
                    cost,
                    score.to_bits(),
                    &client,
                    code("FR"),
                    STATUS_ENABLED | STATUS_VISIBLE | STATUS_AUTOCONNECTABLE,
                );
                assert_eq!(charges, Penalty::default());
                assert_eq!(charges.amount(), 0);
            }
        }
    }
}

#[test]
fn expensive_server_abroad_costs_one_and_three() {
    for status in [0_u8, 1, 2, 3] {
        for score in [0.0_f32, 0.5, 0.99, 1.0] {
            let charges = compute_penalty(1, score.to_bits(), &Some(code("CH")), code("FR"), status);
            assert!(charges.abroad_or_saturated);
            assert!(charges.expensive_abroad);
            let base = if status == 3 { 0 } else { 1000 };
            assert_eq!(charges.amount(), base + 1 + 3);
        }
    }
}

#[test]
fn cost_other_than_one_is_not_expensive() {
    for cost in [0_u8, 2, 3, 255] {
        let charges = compute_penalty(cost, 0, &Some(code("CH")), code("FR"), 3);
        assert_eq!(
            charges,
            Penalty { unavailable: false, abroad_or_saturated: true, expensive_abroad: false }
        );
        assert_eq!(charges.amount(), 1);
    }
}

#[test]
fn every_charge_together_is_one_thousand_and_four() {
    let charges = compute_penalty(1, 1.0_f32.to_bits(), &Some(code("CH")), code("FR"), 4);
    assert_eq!(
        charges,
        Penalty { unavailable: true, abroad_or_saturated: true, expensive_abroad: true }
    );
    assert_eq!(charges.amount(), 1004);
}
