use server_score::status::ServerStatus;
use server_score::{compute_loads, CountryCode, Error, Load, Logical, StatusReference};

fn create_dummy_country() -> CountryCode {
    CountryCode::try_from(b"CH").expect("Invalid country code")
}

fn server_at(index: u32) -> Logical {
    Logical { status_reference: StatusReference { index, ..Default::default() }, ..Default::default() }
}

fn status_file(records: &[ServerStatus]) -> Vec<u8> {
    let mut file = vec![1_u8, 0, 0, 0];
    for record in records {
        file.extend_from_slice(&record.to_bytes());
    }
    file
}

#[test]
fn test_compute_loads_error_lengths_not_consistent() {
    let lengths = [(1, 2), (1, 2)];

    for (loads_len, servers_len) in lengths {
        let mut loads = Vec::new();
        loads.resize(loads_len, Load::default());

        let mut servers = Vec::new();
        servers.resize(servers_len, Logical::default());

        let error = compute_loads(
            &mut loads,
            &servers,
            &[1_u8, 0_u8, 0_u8, 0_u8],
            &Some(create_dummy_country()),
        )
        .unwrap_err();

        match error {
            Error::LengthsNotConsistent { servers, loads } => {
                assert_eq!(servers, 2);
                assert_eq!(loads, 1);
            }
            _ => panic!("Expected LengthsNotConsistent error"),
        }
    }
}

#[test]
fn test_compute_loads_status_flags() {
    let servers = vec![server_at(0), server_at(1), server_at(2), server_at(3)];

    let mut loads = Vec::new();
    loads.resize(servers.len(), Load::default());

    let status_file = [
        1_u8, 0_u8, 0_u8, 0_u8, // Version
        0_u8, 0_u8, 0_u8, 0_u8, 0_u8, 0_u8, // Disabled, not visible
        1_u8, 0_u8, 0_u8, 0_u8, 0_u8, 0_u8, // Enabled, not visible
        2_u8, 0_u8, 0_u8, 0_u8, 0_u8, 0_u8, // Disabled, visible
        3_u8, 0_u8, 0_u8, 0_u8, 0_u8, 0_u8, // Enabled, visible
    ];

    compute_loads(&mut loads, &servers, &status_file, &Some(create_dummy_country()))
        .expect("Failed to compute loads");

    assert!(!loads[0].is_enabled);
    assert!(!loads[0].is_visible);

    assert!(loads[1].is_enabled);
    assert!(!loads[1].is_visible);

    assert!(!loads[2].is_enabled);
    assert!(loads[2].is_visible);

    assert!(loads[3].is_enabled);
    assert!(loads[3].is_visible);
}

#[test]
fn one_server_and_two_loads_are_reported_as_such() {
    let mut loads = vec![Load::default(); 2];
    let servers = vec![Logical::default(); 1];
    match compute_loads(&mut loads, &servers, &[1_u8, 0, 0, 0], &None) {
        Err(Error::LengthsNotConsistent { servers, loads }) => {
            assert_eq!(servers, 1);
            assert_eq!(loads, 2);
        }
        other => panic!("expected a length mismatch, got {:?}", other),
    }
}

#[test]
fn lengths_are_compared_before_the_status_file_is_read() {
    let mut loads = vec![Load::default(); 2];
    let servers = vec![Logical::default(); 3];
    match compute_loads(&mut loads, &servers, &[9_u8, 9, 9], &None) {
        Err(Error::LengthsNotConsistent { servers, loads }) => {
            assert_eq!(servers, 3);
            assert_eq!(loads, 2);
        }
        other => panic!("expected a length mismatch, got {:?}", other),
    }
}

#[test]
fn refused_status_file_fails_the_call_and_leaves_the_loads_alone() {
    let before = Load {
        is_enabled: true,
        is_visible: true,
        is_autoconnectable: true,
        load: 77,
        partial_score_bits: 0.25_f32.to_bits(),
        ..Default::default()
    };
    let servers = vec![server_at(0), server_at(1)];
    for (file, message) in [
        (&[1_u8, 0, 0][..], "Failed to read first 4 bytes in magic number"),
        (&[2_u8, 0, 0, 0, 3, 10, 0, 0, 0, 0][..], "Invalid magic number"),
        (&[1_u8, 0, 0, 0, 3, 10, 0, 0, 0][..], "Status file is corrupt"),
    ] {
        let mut loads = vec![before; 2];
        match compute_loads(&mut loads, &servers, file, &None) {
            Err(Error::ParserError(found)) => assert_eq!(found, message),
            other => panic!("expected a parser error, got {:?}", other),
        }
        assert_eq!(loads, vec![before; 2]);
    }
}

#[test]
fn two_records_with_an_invalid_load_give_two_defaults_and_one_report() {
    let file = status_file(&[
        ServerStatus { status: 3, load: 150, partial_score_bits: 0.5_f32.to_bits() },
        ServerStatus { status: 3, load: 150, partial_score_bits: 0.5_f32.to_bits() },
    ]);
    let servers = vec![server_at(0), server_at(1)];
    let mut loads = vec![
        Load { load: 9, is_enabled: true, ..Default::default() };
        2
    ];

    let errors = compute_loads(&mut loads, &servers, &file, &None).unwrap();

    for load in &loads {
        assert!(!load.is_enabled);
        assert!(!load.is_visible);
        assert!(!load.is_autoconnectable);
        assert_eq!(load.load, 0);
        assert_eq!(f32::from_bits(load.partial_score_bits), 0.0);
        assert!(load.penalty.unavailable);
    }
    let first = errors.first().expect("one report");
    assert_eq!(first.index, 0);
    assert_eq!(first.byte_offset, 0);
    assert_eq!(first.message, "Server load must be between 0 and 100");
    assert_eq!(errors.count(), 2);
    assert_eq!(errors.suppressed(), 1);
}

#[test]
fn loads_follow_the_servers_and_not_the_status_file() {
    let records = [
        ServerStatus { status: 3, load: 10, partial_score_bits: 0.1_f32.to_bits() },
        ServerStatus { status: 7, load: 20, partial_score_bits: 0.995_f32.to_bits() },
        ServerStatus { status: 1, load: 30, partial_score_bits: 0.3_f32.to_bits() },
        ServerStatus { status: 3, load: 101, partial_score_bits: 0.4_f32.to_bits() },
    ];
    let file = status_file(&records);
    let ch = CountryCode::try_from("CH").unwrap();
    let fr = CountryCode::try_from("FR").unwrap();
    let servers = vec![
        Logical { status_reference: StatusReference { index: 2, cost: 1 }, exit_country: fr },
        Logical { status_reference: StatusReference { index: 0, cost: 1 }, exit_country: fr },
        Logical { status_reference: StatusReference { index: 1, cost: 0 }, exit_country: ch },
        Logical { status_reference: StatusReference { index: 9, cost: 0 }, exit_country: ch },
        Logical { status_reference: StatusReference { index: 3, cost: 0 }, exit_country: ch },
        Logical { status_reference: StatusReference { index: 0, cost: 0 }, exit_country: ch },
    ];
    let mut loads = vec![Load::default(); servers.len()];

    let errors = compute_loads(&mut loads, &servers, &file, &Some(ch)).unwrap();

    // Enabled, hidden, abroad and expensive.
    assert_eq!(
        (loads[0].is_enabled, loads[0].is_visible, loads[0].is_autoconnectable, loads[0].load),
        (true, false, false, 30)
    );
    assert_eq!(f32::from_bits(loads[0].partial_score_bits), 0.3);
    assert_eq!(loads[0].penalty.amount(), 1004);
    // Available, abroad and expensive.
    assert_eq!(
        (loads[1].is_enabled, loads[1].is_visible, loads[1].is_autoconnectable, loads[1].load),
        (true, true, false, 10)
    );
    assert_eq!(loads[1].penalty.amount(), 4);
    // Available, at home, at the ceiling.
    assert_eq!(
        (loads[2].is_enabled, loads[2].is_visible, loads[2].is_autoconnectable, loads[2].load),
        (true, true, true, 20)
    );
    assert_eq!(f32::from_bits(loads[2].partial_score_bits), 0.995);
    assert_eq!(loads[2].penalty.amount(), 1);
    // Past the end of the file: the all-zero record, and no report.
    assert_eq!(
        (loads[3].is_enabled, loads[3].is_visible, loads[3].is_autoconnectable, loads[3].load),
        (false, false, false, 0)
    );
    assert_eq!(loads[3].partial_score_bits, 0);
    assert_eq!(loads[3].penalty.amount(), 1000);
    // Refused: the all-zero record, and a report.
    assert_eq!(loads[4], loads[3]);
    // Available and at home.
    assert_eq!(loads[5].load, 10);
    assert_eq!(loads[5].penalty.amount(), 0);

    assert_eq!(errors.count(), 1);
    assert_eq!(errors.suppressed(), 0);
    let first = errors.first().unwrap();
    assert_eq!((first.index, first.byte_offset), (3, 18));
}

#[test]
fn no_server_gives_no_load_and_no_report() {
    let mut loads: Vec<Load> = Vec::new();
    let errors = compute_loads(&mut loads, &[], &[1_u8, 0, 0, 0], &None).unwrap();
    assert!(loads.is_empty());
    assert_eq!(errors.count(), 0);
    assert!(errors.first().is_none());
}

#[test]
fn server_whose_score_is_no_number_gets_the_all_zero_record() {
    let file = status_file(&[
        ServerStatus { status: 7, load: 64, partial_score_bits: f32::NAN.to_bits() },
        ServerStatus { status: 7, load: 65, partial_score_bits: 1.0_f32.to_bits() },
    ]);
    let servers = vec![server_at(0), server_at(1)];
    let mut loads = vec![Load::default(); 2];

    let errors = compute_loads(&mut loads, &servers, &file, &None).unwrap();

    assert_eq!(
        (loads[0].is_enabled, loads[0].is_visible, loads[0].is_autoconnectable, loads[0].load),
        (false, false, false, 0)
    );
    assert_eq!(loads[0].partial_score_bits, 0);
    assert_eq!(loads[0].penalty.amount(), 1000);
    assert_eq!(
        (loads[1].is_enabled, loads[1].is_visible, loads[1].is_autoconnectable, loads[1].load),
        (true, true, true, 65)
    );
    assert_eq!(loads[1].penalty.amount(), 1);
    assert_eq!(errors.count(), 1);
    let first = errors.first().unwrap();
    assert_eq!((first.index, first.byte_offset), (0, 0));
    assert_eq!(first.message, "Server partial score must be between 0.0 and 1.0");
}
