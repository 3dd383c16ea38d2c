use egutil::options::{IngestOptions, OptionsError};
use egutil::worker::{plan, BatchWorker, Phase, ReingestStatement, WorkerAction};

fn attributes(names: &[&str]) -> IngestOptions {
    let mut options = IngestOptions::defaults();
    options.do_attrs = true;
    options.attrs = names.iter().map(|name| name.to_string()).collect();
    options
}

/// Drives a worker to its end and gives back what it asked for, step by step.
fn drive(worker: &mut BatchWorker, outcome: impl Fn(WorkerAction) -> bool) -> Vec<WorkerAction> {
    let mut asked = Vec::new();
    let mut action = worker.pending();
    while action != WorkerAction::Finish {
        asked.push(action);
        action = worker.advance(outcome(action));
    }
    asked
}

#[test]
fn worker_calls_every_record_once_in_order() {
    let mut worker = BatchWorker::new(&attributes(&[]), vec![1, 2, 3]);
    let asked = drive(&mut worker, |_| true);
    let statement = ReingestStatement::Full;
    assert_eq!(
        asked,
        vec![
            WorkerAction::Connect,
            WorkerAction::Prepare { statement },
            WorkerAction::Execute { statement, id: 1 },
            WorkerAction::Execute { statement, id: 2 },
            WorkerAction::Execute { statement, id: 3 },
        ]
    );
    assert!(worker.is_finished());
    assert!(!worker.is_abandoned());
    assert!(worker.failed().is_empty());
}

#[test]
fn worker_with_named_attributes_uses_the_scoped_statement() {
    let mut worker = BatchWorker::new(&attributes(&["item_lang", "pub_status"]), vec![8, 9]);
    let asked = drive(&mut worker, |_| true);
    let statement = ReingestStatement::Scoped;
    assert_eq!(
        asked,
        vec![
            WorkerAction::Connect,
            WorkerAction::Prepare { statement },
            WorkerAction::Execute { statement, id: 8 },
            WorkerAction::Execute { statement, id: 9 },
        ]
    );
}

#[test]
fn failed_record_does_not_stop_the_batch() {
    let mut worker = BatchWorker::new(&attributes(&[]), vec![1, 2, 3, 4]);
    let asked = drive(&mut worker, |action| {
        !matches!(action, WorkerAction::Execute { id: 2, .. })
    });
    let statement = ReingestStatement::Full;
    assert_eq!(
        asked[2..],
        [
            WorkerAction::Execute { statement, id: 1 },
            WorkerAction::Execute { statement, id: 2 },
            WorkerAction::Execute { statement, id: 3 },
            WorkerAction::Execute { statement, id: 4 },
        ]
    );
    assert!(worker.is_finished());
    assert!(!worker.is_abandoned());
    assert_eq!(worker.failed(), &vec![2]);
}

#[test]
fn every_record_failing_is_still_called() {
    let mut worker = BatchWorker::new(&attributes(&["x"]), vec![5, 6, 7]);
    let asked = drive(&mut worker, |action| {
        !matches!(action, WorkerAction::Execute { .. })
    });
    assert_eq!(asked.len(), 5);
    assert_eq!(worker.failed(), &vec![5, 6, 7]);
    assert!(!worker.is_abandoned());
}

#[test]
fn lost_connection_gives_the_batch_up() {
    let mut worker = BatchWorker::new(&attributes(&[]), vec![1, 2]);
    assert_eq!(worker.pending(), WorkerAction::Connect);
    assert_eq!(worker.advance(false), WorkerAction::Finish);
    assert!(worker.is_finished());
    assert!(worker.is_abandoned());
    assert!(worker.failed().is_empty());
    assert_eq!(worker.advance(true), WorkerAction::Finish);
}

#[test]
fn lost_connection_of_one_worker_leaves_the_others_alone() {
    let options = attributes(&[]);
    let mut first = BatchWorker::new(&options, vec![1, 2]);
    let mut second = BatchWorker::new(&options, vec![3, 4]);
    let mut third = BatchWorker::new(&options, vec![5]);
    let asked_first = drive(&mut first, |_| true);
    let asked_second = drive(&mut second, |_| false);
    let asked_third = drive(&mut third, |_| true);
    assert!(second.is_abandoned());
    assert_eq!(asked_second, vec![WorkerAction::Connect]);
    assert!(!first.is_abandoned());
    assert!(!third.is_abandoned());
    assert_eq!(asked_first.len(), 4);
    assert_eq!(asked_third.len(), 3);
}

#[test]
fn statement_that_cannot_be_prepared_gives_the_batch_up() {
    let mut worker = BatchWorker::new(&attributes(&[]), vec![1, 2]);
    let asked = drive(&mut worker, |action| matches!(action, WorkerAction::Connect));
    assert_eq!(
        asked,
        vec![
            WorkerAction::Connect,
            WorkerAction::Prepare { statement: ReingestStatement::Full },
        ]
    );
    assert!(worker.is_abandoned());
}

#[test]
fn worker_without_a_phase_only_connects() {
    let mut worker = BatchWorker::new(&IngestOptions::defaults(), vec![1, 2]);
    let asked = drive(&mut worker, |_| true);
    assert_eq!(asked, vec![WorkerAction::Connect]);
    assert!(!worker.is_abandoned());
}

#[test]
fn phases_without_a_statement_do_nothing() {
    let mut options = IngestOptions::defaults();
    options.do_browse = true;
    options.do_search = true;
    options.do_facets = true;
    options.do_display = true;
    assert_eq!(plan(&options), Vec::<ReingestStatement>::new());
    options.do_attrs = true;
    assert_eq!(plan(&options), vec![ReingestStatement::Full]);
    for phase in [Phase::Browse, Phase::Search, Phase::Facets, Phase::Display] {
        assert!(phase.is_asked(&options));
        assert_eq!(phase.operation(&options.attrs), None);
    }
    assert_eq!(
        Phase::Attributes.operation(&options.attrs),
        Some(ReingestStatement::Full)
    );
}

#[test]
fn worker_with_an_empty_batch_prepares_and_ends() {
    let mut worker = BatchWorker::new(&attributes(&[]), Vec::new());
    let asked = drive(&mut worker, |_| true);
    assert_eq!(
        asked,
        vec![
            WorkerAction::Connect,
            WorkerAction::Prepare { statement: ReingestStatement::Full },
        ]
    );
    assert!(!worker.is_abandoned());
}

#[test]
fn statements_and_their_arguments() {
    assert_eq!(
        ReingestStatement::Full.sql(),
        "SELECT metabib.reingest_record_attributes($1) FROM biblio.record_entry WHERE id = $2"
    );
    assert_eq!(
        ReingestStatement::Scoped.sql(),
        "SELECT metabib.reingest_record_attributes($1, $3) FROM biblio.record_entry WHERE id = $2"
    );
    assert_eq!(ReingestStatement::Full.argument_count(), 2);
    assert_eq!(ReingestStatement::Scoped.argument_count(), 3);
    assert_eq!(ReingestStatement::select(&Vec::new()), ReingestStatement::Full);
    assert_eq!(
        ReingestStatement::select(&vec!["item_lang".to_string()]),
        ReingestStatement::Scoped
    );
}

#[test]
fn options_are_checked() {
    let mut options = IngestOptions::defaults();
    assert_eq!(options.validate(), Ok(()));
    assert_eq!(options.pool_size(), 5);
    assert_eq!(options.batch_size, 100);
    options.batch_size = 0;
    assert_eq!(options.validate(), Err(OptionsError::EmptyBatches));
    options.max_threads = 0;
    assert_eq!(options.validate(), Err(OptionsError::NoWorkers));
    options.batch_size = 1;
    assert_eq!(options.validate(), Err(OptionsError::NoWorkers));
    options.max_threads = 1;
    assert_eq!(options.validate(), Ok(()));
    assert_eq!(options.pool_size(), 1);
}
