use egutil::options::IngestOptions;
use egutil::query::create_sql;
use egutil::text::{digit_of, parse_port, parse_unsigned, to_decimal};

fn options(min_id: Option<usize>, max_id: Option<usize>, newest_first: bool) -> IngestOptions {
    let mut options = IngestOptions::defaults();
    options.min_id = min_id;
    options.max_id = max_id;
    options.newest_first = newest_first;
    options
}

#[test]
fn query_with_both_bounds_ascending() {
    assert_eq!(
        create_sql(&options(Some(100), Some(200), false)),
        "SELECT id FROM biblio.record_entry WHERE NOT deleted AND id > 100 AND id < 200 ORDER BY id"
    );
}

#[test]
fn query_with_lower_bound_only() {
    let sql = create_sql(&options(Some(42), None, false));
    assert_eq!(
        sql,
        "SELECT id FROM biblio.record_entry WHERE NOT deleted AND id > 42 ORDER BY id"
    );
    assert!(sql.contains("id > 42"));
    assert!(!sql.contains("id <"));
}

#[test]
fn query_with_upper_bound_only() {
    let sql = create_sql(&options(None, Some(9), false));
    assert_eq!(
        sql,
        "SELECT id FROM biblio.record_entry WHERE NOT deleted AND id < 9 ORDER BY id"
    );
    assert!(!sql.contains("id >"));
}

#[test]
fn query_without_bounds() {
    let sql = create_sql(&options(None, None, false));
    assert_eq!(sql, "SELECT id FROM biblio.record_entry WHERE NOT deleted ORDER BY id");
    assert!(!sql.contains("id >"));
    assert!(!sql.contains("id <"));
}

#[test]
fn query_with_lower_bound_zero() {
    assert_eq!(
        create_sql(&options(Some(0), None, false)),
        "SELECT id FROM biblio.record_entry WHERE NOT deleted AND id > 0 ORDER BY id"
    );
}

#[test]
fn query_newest_first() {
    let sql = create_sql(&options(None, None, true));
    assert_eq!(
        sql,
        "SELECT id FROM biblio.record_entry WHERE NOT deleted ORDER BY create_date DESC, id DESC"
    );
    assert!(sql.ends_with("ORDER BY create_date DESC, id DESC"));
}

#[test]
fn query_oldest_first_orders_by_id_alone() {
    let sql = create_sql(&options(Some(1), Some(2), false));
    assert!(sql.ends_with("ORDER BY id"));
    assert!(!sql.contains("DESC"));
    assert_eq!(sql.matches("ORDER BY").count(), 1);
}

#[test]
fn query_excludes_deleted_records_once() {
    for min_id in [None, Some(0), Some(77)] {
        for max_id in [None, Some(5), Some(usize::MAX)] {
            for newest_first in [false, true] {
                let sql = create_sql(&options(min_id, max_id, newest_first));
                assert_eq!(sql.matches("NOT deleted").count(), 1);
                assert_eq!(sql.find("NOT deleted"), Some(41));
            }
        }
    }
}

#[test]
fn query_with_largest_bounds() {
    let sql = create_sql(&options(Some(usize::MAX), Some(usize::MAX), true));
    let bound = format!("{}", usize::MAX);
    assert_eq!(
        sql,
        format!(
            "SELECT id FROM biblio.record_entry WHERE NOT deleted AND id > {} AND id < {} ORDER BY create_date DESC, id DESC",
            bound, bound
        )
    );
}

#[test]
fn decimal_text_of_numbers() {
    assert_eq!(to_decimal(0), "0");
    assert_eq!(to_decimal(7), "7");
    assert_eq!(to_decimal(10), "10");
    assert_eq!(to_decimal(5432), "5432");
    assert_eq!(to_decimal(1000000), "1000000");
    assert_eq!(to_decimal(u64::MAX), "18446744073709551615");
}

#[test]
fn decimal_text_reads_back() {
    for number in [0u64, 9, 10, 99, 100, 5432, 65535] {
        assert_eq!(parse_port(&to_decimal(number)), Some(number as u16));
        assert_eq!(parse_unsigned(&to_decimal(number), 65535), Some(number));
    }
    assert_eq!(parse_unsigned(&to_decimal(u64::MAX), u64::MAX), Some(u64::MAX));
    assert_eq!(parse_unsigned(&to_decimal(65536), 65535), None);
    assert_eq!(parse_unsigned("18446744073709551616", u64::MAX), None);
    assert_eq!(parse_unsigned("7", 6), None);
    assert_eq!(parse_unsigned("6", 6), Some(6));
}

#[test]
fn digits_and_other_characters() {
    assert_eq!(digit_of('0'), Some(0));
    assert_eq!(digit_of('9'), Some(9));
    assert_eq!(digit_of('a'), None);
    assert_eq!(digit_of('+'), None);
}

#[test]
fn port_from_digits() {
    assert_eq!(parse_port("5432"), Some(5432));
    assert_eq!(parse_port("0"), Some(0));
    assert_eq!(parse_port("65535"), Some(65535));
    assert_eq!(parse_port("0005432"), Some(5432));
    assert_eq!(parse_port("+80"), Some(80));
}

#[test]
fn port_from_other_text() {
    assert_eq!(parse_port(""), None);
    assert_eq!(parse_port("+"), None);
    assert_eq!(parse_port("++80"), None);
    assert_eq!(parse_port("-80"), None);
    assert_eq!(parse_port(" 80"), None);
    assert_eq!(parse_port("80 "), None);
    assert_eq!(parse_port("8o"), None);
    assert_eq!(parse_port("65536"), None);
    assert_eq!(parse_port("99999999999999999999"), None);
    assert_eq!(parse_port("5_432"), None);
}

#[test]
fn port_reads_as_the_standard_library_does() {
    for text in ["5432", "0", "65535", "65536", "", "+", "+1", "++1", "-1", "007", "1a", " 1", "٣"] {
        assert_eq!(parse_port(text), text.parse::<u16>().ok());
    }
}
