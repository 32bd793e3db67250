use tlc_core::error::TlcError;
use tlc_core::utils::{generate_date_range, generate_filename, generate_url, parse_date};

#[test]
fn parse_date_accepts_plain_year_month() {
    assert!(matches!(parse_date("2023-01"), Ok((2023, 1))));
    assert!(matches!(parse_date("2019-12"), Ok((2019, 12))));
    assert!(matches!(parse_date("0-1"), Ok((0, 1))));
}

#[test]
fn parse_date_rejects_missing_hyphen() {
    match parse_date("2023") {
        Err(TlcError::InvalidDate(m)) => assert_eq!(m.as_str(), "Expected YYYY-MM"),
        other => panic!("unexpected result: {:?}", other),
    }
}

#[test]
fn parse_date_rejects_two_hyphens() {
    match parse_date("2023-01-05") {
        Err(TlcError::InvalidDate(m)) => assert_eq!(m.as_str(), "Expected YYYY-MM"),
        other => panic!("unexpected result: {:?}", other),
    }
}

#[test]
fn parse_date_rejects_non_numeric_year() {
    match parse_date("abcd-01") {
        Err(TlcError::InvalidDate(m)) => assert_eq!(m.as_str(), "Invalid year"),
        other => panic!("unexpected result: {:?}", other),
    }
}

#[test]
fn parse_date_rejects_non_numeric_month() {
    match parse_date("2023-xx") {
        Err(TlcError::InvalidDate(m)) => assert_eq!(m.as_str(), "Invalid month"),
        other => panic!("unexpected result: {:?}", other),
    }
}

#[test]
fn parse_date_rejects_empty_month() {
    match parse_date("2023-") {
        Err(TlcError::InvalidDate(m)) => assert_eq!(m.as_str(), "Invalid month"),
        other => panic!("unexpected result: {:?}", other),
    }
}

#[test]
fn parse_date_rejects_month_zero() {
    assert!(matches!(parse_date("2023-00"), Err(TlcError::InvalidMonth(0))));
}

#[test]
fn parse_date_rejects_month_thirteen() {
    assert!(matches!(parse_date("2023-13"), Err(TlcError::InvalidMonth(13))));
}

#[test]
fn parse_date_rejects_year_overflow() {
    match parse_date("99999999999-01") {
        Err(TlcError::InvalidDate(m)) => assert_eq!(m.as_str(), "Invalid year"),
        other => panic!("unexpected result: {:?}", other),
    }
}

#[test]
fn date_range_expands_inclusive_interval() {
    let dates = generate_date_range("2023-01", "2023-03").unwrap();
    assert_eq!(dates, vec![(2023, 1), (2023, 2), (2023, 3)]);
}

#[test]
fn date_range_crosses_year_boundary() {
    let dates = generate_date_range("2022-11", "2023-02").unwrap();
    assert_eq!(dates, vec![(2022, 11), (2022, 12), (2023, 1), (2023, 2)]);
}

#[test]
fn date_range_single_month() {
    let dates = generate_date_range("2021-07", "2021-07").unwrap();
    assert_eq!(dates, vec![(2021, 7)]);
}

#[test]
fn date_range_is_strictly_increasing_with_month_count_length() {
    let dates = generate_date_range("2019-05", "2024-02").unwrap();
    assert_eq!(dates.len(), (2024 - 2019) * 12 + 2 - 5 + 1);
    for w in dates.windows(2) {
        let (y1, m1) = w[0];
        let (y2, m2) = w[1];
        assert!(y1 < y2 || (y1 == y2 && m1 < m2));
        assert!((1..=12).contains(&m1) && (1..=12).contains(&m2));
    }
}

#[test]
fn date_range_start_after_end_is_empty() {
    let dates = generate_date_range("2023-04", "2023-01").unwrap();
    assert!(dates.is_empty());
    let dates = generate_date_range("2024-01", "2023-12").unwrap();
    assert!(dates.is_empty());
}

#[test]
fn date_range_reports_start_error_first() {
    match generate_date_range("bad", "also-bad") {
        Err(TlcError::InvalidDate(m)) => assert_eq!(m.as_str(), "Expected YYYY-MM"),
        other => panic!("unexpected result: {:?}", other),
    }
    match generate_date_range("2023-01", "2023-99") {
        Err(TlcError::InvalidMonth(99)) => {},
        other => panic!("unexpected result: {:?}", other),
    }
}

#[test]
fn url_has_expected_exact_form() {
    assert_eq!(
        generate_url("yellow", 2023, 1),
        "https://d37ci6vzurychx.cloudfront.net/trip-data/yellow_tripdata_2023-01.parquet"
    );
    assert_eq!(
        generate_url("fhvhv", 2019, 12),
        "https://d37ci6vzurychx.cloudfront.net/trip-data/fhvhv_tripdata_2019-12.parquet"
    );
}

#[test]
fn filename_zero_pads_single_digit_months() {
    assert_eq!(generate_filename("green", 2020, 9), "green_tripdata_2020-09.parquet");
    assert_eq!(generate_filename("green", 2020, 10), "green_tripdata_2020-10.parquet");
}

#[test]
fn filename_is_deterministic() {
    assert_eq!(generate_filename("yellow", 2023, 3), generate_filename("yellow", 2023, 3));
    assert_eq!(generate_url("yellow", 2023, 3), generate_url("yellow", 2023, 3));
}

#[test]
fn filenames_of_distinct_triples_differ() {
    let triples = [
        ("yellow", 2023, 1),
        ("yellow", 2023, 2),
        ("yellow", 2024, 1),
        ("green", 2023, 1),
        ("fhv", 2023, 1),
        ("fhvhv", 2023, 12),
        ("yellow_tripdata_1", 2023, 1),
    ];
    for (i, a) in triples.iter().enumerate() {
        for (j, b) in triples.iter().enumerate() {
            let fa = generate_filename(a.0, a.1, a.2);
            let fb = generate_filename(b.0, b.1, b.2);
            if i == j {
                assert_eq!(fa, fb);
            } else {
                assert_ne!(fa, fb);
            }
        }
    }
}
