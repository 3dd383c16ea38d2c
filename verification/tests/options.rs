use egutil::cli::{given_value, given_values, is_given};
use egutil::options::{IngestOptions, OptionsError};
use egutil::query::create_sql;

fn defined() -> getopts::Options {
    let mut opts = getopts::Options::new();
    opts.optopt("", "max-threads", "Max Worker Threads", "MAX_THREADS");
    opts.optopt("", "batch-size", "Number of Records to Process per Batch", "BATCH_SIZE");
    opts.optopt("", "min-id", "Minimum Record ID", "MIN_REC_ID");
    opts.optopt("", "max-id", "Maximum Record ID", "MAX_REC_ID");
    opts.optmulti("", "attr", "Reingest Specific Attribute, Repetable", "RECORD_ATTR");
    opts.optflag("h", "help", "Show Help Text");
    opts.optflag("", "do-browse", "Update Browse");
    opts.optflag("", "do-attrs", "Update Record Attributes");
    opts.optflag("", "do-search", "Update Search Indexes");
    opts.optflag("", "do-facets", "Update Facets");
    opts.optflag("", "do-display", "Update Display Fields");
    opts.optflag("", "newest-first", "Update Records Newest to Oldest");
    opts
}

fn read(args: &[&str]) -> Result<IngestOptions, OptionsError> {
    IngestOptions::from_matches(&defined().parse(args).unwrap())
}

#[test]
fn options_of_an_empty_command_line() {
    let options = read(&[]).unwrap();
    assert_eq!(options.max_threads, 5);
    assert_eq!(options.batch_size, 100);
    assert_eq!(options.min_id, None);
    assert_eq!(options.max_id, None);
    assert!(!options.newest_first);
    assert!(!options.do_browse && !options.do_attrs && !options.do_search);
    assert!(!options.do_facets && !options.do_display);
    assert!(options.attrs.is_empty());
    assert_eq!(options.validate(), Ok(()));
}

#[test]
fn options_of_a_full_command_line() {
    let options = read(&[
        "--max-threads", "8", "--batch-size", "25", "--min-id", "100", "--max-id", "200",
        "--attr", "item_lang", "--attr", "pub_status", "--do-attrs", "--do-browse",
        "--newest-first",
    ])
    .unwrap();
    assert_eq!(options.max_threads, 8);
    assert_eq!(options.batch_size, 25);
    assert_eq!(options.min_id, Some(100));
    assert_eq!(options.max_id, Some(200));
    assert!(options.newest_first);
    assert!(options.do_browse && options.do_attrs);
    assert!(!options.do_search && !options.do_facets && !options.do_display);
    assert_eq!(options.attrs, vec!["item_lang".to_string(), "pub_status".to_string()]);
    assert_eq!(
        create_sql(&options),
        "SELECT id FROM biblio.record_entry WHERE NOT deleted AND id > 100 AND id < 200 ORDER BY create_date DESC, id DESC"
    );
}

#[test]
fn upper_bound_of_zero_is_no_bound() {
    let options = read(&["--max-id", "0", "--min-id", "0"]).unwrap();
    assert_eq!(options.max_id, None);
    assert_eq!(options.min_id, Some(0));
}

#[test]
fn values_that_are_no_numbers() {
    assert_eq!(read(&["--max-threads", "many"]).err(), Some(OptionsError::InvalidMaxThreads));
    assert_eq!(read(&["--max-threads", "256"]).err(), Some(OptionsError::InvalidMaxThreads));
    assert_eq!(read(&["--min-id", "-1"]).err(), Some(OptionsError::InvalidMinId));
    assert_eq!(read(&["--max-id", "1e3"]).err(), Some(OptionsError::InvalidMaxId));
    assert_eq!(read(&["--batch-size", ""]).err(), Some(OptionsError::InvalidBatchSize));
    assert_eq!(
        read(&["--batch-size", "x", "--max-id", "y"]).err(),
        Some(OptionsError::InvalidMaxId)
    );
}

#[test]
fn no_worker_and_empty_batches() {
    assert_eq!(read(&["--max-threads", "0"]).err(), Some(OptionsError::NoWorkers));
    assert_eq!(read(&["--batch-size", "0"]).err(), Some(OptionsError::EmptyBatches));
    assert_eq!(
        read(&["--batch-size", "0", "--max-threads", "0"]).err(),
        Some(OptionsError::NoWorkers)
    );
    assert_eq!(read(&["--max-threads", "255"]).unwrap().max_threads, 255);
}

#[test]
fn options_that_are_not_defined_count_as_not_given() {
    let mut opts = getopts::Options::new();
    opts.optflag("", "do-attrs", "Update Record Attributes");
    let params = opts.parse(["--do-attrs"]).unwrap();
    let options = IngestOptions::from_matches(&params).unwrap();
    assert!(options.do_attrs);
    assert_eq!(options.max_threads, 5);
    assert_eq!(options.batch_size, 100);
    assert!(options.attrs.is_empty());
    assert!(!options.newest_first);
}

#[test]
fn command_line_as_the_library_reads_it() {
    let mut opts = getopts::Options::new();
    opts.optopt("n", "name", "A name", "NAME");
    opts.optmulti("", "attr", "An attribute", "ATTR");
    opts.optflagopt("c", "colour", "Colour", "WHEN");
    opts.optflag("v", "verbose", "Verbose");
    let params = opts
        .parse(["--attr", "a", "-n", "first", "--colour", "--attr", "b", "-v"])
        .unwrap();
    assert!(is_given(&params, "verbose"));
    assert!(is_given(&params, "v"));
    assert!(is_given(&params, "colour"));
    assert!(!is_given(&params, "missing"));
    assert_eq!(given_value(&params, "name"), Some("first".to_string()));
    assert_eq!(given_value(&params, "n"), Some("first".to_string()));
    assert_eq!(given_value(&params, "colour"), None);
    assert_eq!(given_value(&params, "verbose"), None);
    assert_eq!(given_value(&params, "missing"), None);
    assert_eq!(given_value(&params, "attr"), Some("a".to_string()));
    assert_eq!(given_values(&params, "attr"), vec!["a".to_string(), "b".to_string()]);
    assert_eq!(given_values(&params, "colour"), Vec::<String>::new());
    assert_eq!(given_values(&params, "missing"), Vec::<String>::new());
    let empty = opts.parse(Vec::<String>::new()).unwrap();
    assert!(!is_given(&empty, "verbose"));
    assert_eq!(given_value(&empty, "name"), None);
    assert_eq!(given_values(&empty, "attr"), Vec::<String>::new());
}

#[test]
fn numbers_are_read_as_getopts_reads_them() {
    for text in ["1", "255", "256", "007", "+3", "", "x", "-1", "0", "99999999999999999999999"] {
        let params = defined().parse(["--max-threads", text]).unwrap();
        let expected: Result<u8, _> = params.opt_get_default("max-threads", 5);
        let read = IngestOptions::from_matches(&params);
        match expected {
            Ok(0) => assert_eq!(read.err(), Some(OptionsError::NoWorkers)),
            Ok(number) => assert_eq!(read.unwrap().max_threads, number),
            Err(_) => assert_eq!(read.err(), Some(OptionsError::InvalidMaxThreads)),
        }
    }
    for text in ["1", "18446744073709551615", "18446744073709551616", "+0", "12a", " 7"] {
        let params = defined().parse(["--batch-size", text]).unwrap();
        let expected: Result<usize, _> = params.opt_get_default("batch-size", 100);
        let read = IngestOptions::from_matches(&params);
        match expected {
            Ok(0) => assert_eq!(read.err(), Some(OptionsError::EmptyBatches)),
            Ok(number) => assert_eq!(read.unwrap().batch_size, number),
            Err(_) => assert_eq!(read.err(), Some(OptionsError::InvalidBatchSize)),
        }
    }
}
