//! What a reingest worker does with its batch, one decision at a time.
//!
//! A worker owns one batch and one connection. It opens the connection,
//! prepares one statement for each phase it has to run, and executes it
//! once for each record of the batch. The worker here decides; whoever
//! drives it performs each step against the database and reports back
//! whether the step succeeded.

use crate::options::IngestOptions;
use vstd::prelude::*;

verus! {

/// The phases of a reingest, in the order in which a worker runs them.
#[derive(Clone, Copy, Debug, PartialEq, Eq, Structural)]
pub enum Phase {
    Browse,
    Attributes,
    Search,
    Facets,
    Display,
}

/// The two forms of the statement that reingests the attributes of a record.
#[derive(Clone, Copy, Debug, PartialEq, Eq, Structural)]
pub enum ReingestStatement {
    /// All attributes: the record twice.
    Full,
    /// The attributes named: the record twice, then the names.
    Scoped,
}

/// The next thing to do for a batch.
#[derive(Clone, Copy, Debug, PartialEq, Eq, Structural)]
pub enum WorkerAction {
    /// Open the worker's connection.
    Connect,
    /// Prepare `statement` on the connection.
    Prepare { statement: ReingestStatement },
    /// Execute the prepared `statement` for the record `id`.
    Execute { statement: ReingestStatement, id: i64 },
    /// Nothing is left to do: drop the connection.
    Finish,
}

/// How far a worker has come.
#[derive(Clone, Copy, Debug, PartialEq, Eq, Structural)]
pub enum WorkerStage {
    Connecting,
    Working,
    Finished,
}

impl ReingestStatement {
    /// The text of the statement.
    pub open spec fn text(self) -> Seq<char> {
        match self {
            ReingestStatement::Full =>
                "SELECT metabib.reingest_record_attributes($1) FROM biblio.record_entry WHERE id = $2"@,
            ReingestStatement::Scoped =>
                "SELECT metabib.reingest_record_attributes($1, $3) FROM biblio.record_entry WHERE id = $2"@,
        }
    }

    /// The number of arguments that the statement takes.
    pub open spec fn arguments(self) -> nat {
        match self {
            ReingestStatement::Full => 2,
            ReingestStatement::Scoped => 3,
        }
    }

    /// The statement for a run that names `named` attributes: the scoped
    /// one where any is named, the full one where none is.
    pub open spec fn choice(named: nat) -> ReingestStatement {
        if named > 0 {
            ReingestStatement::Scoped
        } else {
            ReingestStatement::Full
        }
    }

    /// The text to prepare.
    pub fn sql(&self) -> (text: &'static str)
        ensures
            text@ == self.text(),
    {
        match self {
            ReingestStatement::Full =>
                "SELECT metabib.reingest_record_attributes($1) FROM biblio.record_entry WHERE id = $2",
            ReingestStatement::Scoped =>
                "SELECT metabib.reingest_record_attributes($1, $3) FROM biblio.record_entry WHERE id = $2",
        }
    }

    /// The number of arguments to bind.
    pub fn argument_count(&self) -> (count: usize)
        ensures
            count == self.arguments(),
    {
        match self {
            ReingestStatement::Full => 2,
            ReingestStatement::Scoped => 3,
        }
    }

    /// Chooses the statement for the attributes that a run names.
    pub fn select(attrs: &Vec<String>) -> (statement: ReingestStatement)
        ensures
            statement == Self::choice(attrs@.len()),
    {
        if attrs.len() > 0 {
            ReingestStatement::Scoped
        } else {
            ReingestStatement::Full
        }
    }
}

impl Phase {
    /// Whether the options ask for the phase.
    pub open spec fn asked(self, options: &IngestOptions) -> bool {
        match self {
            Phase::Browse => options.do_browse,
            Phase::Attributes => options.do_attrs,
            Phase::Search => options.do_search,
            Phase::Facets => options.do_facets,
            Phase::Display => options.do_display,
        }
    }

    /// The statement that the phase runs for each record. Only the
    /// attributes have one; the other phases do nothing.
    pub open spec fn statement(self, named: nat) -> Option<ReingestStatement> {
        match self {
            Phase::Attributes => Some(ReingestStatement::choice(named)),
            _ => None,
        }
    }

    /// What the phase adds to the plan of a worker: its statement where
    /// the options ask for the phase and the phase has one.
    pub open spec fn planned(self, options: &IngestOptions) -> Seq<ReingestStatement> {
        match self.statement(options.attrs@.len()) {
            Some(statement) if self.asked(options) => seq![statement],
            _ => Seq::empty(),
        }
    }

    /// Tells whether the options ask for the phase.
    pub fn is_asked(&self, options: &IngestOptions) -> (asked: bool)
        ensures
            asked == self.asked(options),
    {
        match self {
            Phase::Browse => options.do_browse,
            Phase::Attributes => options.do_attrs,
            Phase::Search => options.do_search,
            Phase::Facets => options.do_facets,
            Phase::Display => options.do_display,
        }
    }

    /// The statement of the phase, if it has one, for a run that names
    /// `attrs`.
    pub fn operation(&self, attrs: &Vec<String>) -> (statement: Option<ReingestStatement>)
        ensures
            statement == self.statement(attrs@.len()),
    {
        match self {
            Phase::Attributes => Some(ReingestStatement::select(attrs)),
            _ => None,
        }
    }
}

/// The statements that a worker runs for its batch, in their order.
pub open spec fn plan_of(options: &IngestOptions) -> Seq<ReingestStatement> {
    Phase::Browse.planned(options) + Phase::Attributes.planned(options) + Phase::Search.planned(
        options,
    ) + Phase::Facets.planned(options) + Phase::Display.planned(options)
}

/// Adds to `plan` what `phase` runs under `options`.
fn add_phase(plan: &mut Vec<ReingestStatement>, phase: Phase, options: &IngestOptions)
    ensures
        final(plan)@ == old(plan)@ + phase.planned(options),
{
    if phase.is_asked(options) {
        match phase.operation(&options.attrs) {
            Some(statement) => {
                plan.push(statement);
                assert(plan@ =~= old(plan)@ + phase.planned(options));
            },
            None => {
                assert(plan@ =~= old(plan)@ + phase.planned(options));
            },
        }
    } else {
        assert(plan@ =~= old(plan)@ + phase.planned(options));
    }
}

/// Lays out the statements that a worker runs under `options`.
pub fn plan(options: &IngestOptions) -> (statements: Vec<ReingestStatement>)
    ensures
        statements@ == plan_of(options),
{
    let mut statements: Vec<ReingestStatement> = Vec::new();
    add_phase(&mut statements, Phase::Browse, options);
    add_phase(&mut statements, Phase::Attributes, options);
    add_phase(&mut statements, Phase::Search, options);
    add_phase(&mut statements, Phase::Facets, options);
    add_phase(&mut statements, Phase::Display, options);
    assert(statements@ =~= plan_of(options));
    statements
}

/// A worker as the contracts see it.
pub struct WorkerModel {
    /// The statements to run, one for each phase that has one.
    pub plan: Seq<ReingestStatement>,
    /// The records of the batch.
    pub ids: Seq<i64>,
    /// How far the worker has come.
    pub stage: WorkerStage,
    /// While working: the index in `plan` of the statement at hand.
    pub phase: nat,
    /// While working: zero before the statement is prepared, and then one
    /// more than the number of records it was executed for.
    pub step: nat,
    /// Whether the batch was given up: the connection could not be opened,
    /// or a statement could not be prepared.
    pub abandoned: bool,
    /// The records for which a statement failed, in the order of the calls.
    pub failed: Seq<i64>,
}

impl WorkerModel {
    /// A worker that has done nothing yet.
    pub open spec fn start(plan: Seq<ReingestStatement>, ids: Seq<i64>) -> WorkerModel {
        WorkerModel {
            plan,
            ids,
            stage: WorkerStage::Connecting,
            phase: 0,
            step: 0,
            abandoned: false,
            failed: Seq::empty(),
        }
    }

    /// While it works, a worker is at a statement of its plan and at a
    /// record of its batch, or just behind the last.
    pub open spec fn wf(self) -> bool {
        self.stage == WorkerStage::Working ==> self.phase < self.plan.len() && self.step
            <= self.ids.len()
    }

    /// What the worker wants done next.
    pub open spec fn pending(self) -> WorkerAction {
        match self.stage {
            WorkerStage::Connecting => WorkerAction::Connect,
            WorkerStage::Working => if self.step == 0 {
                WorkerAction::Prepare { statement: self.plan[self.phase as int] }
            } else {
                WorkerAction::Execute {
                    statement: self.plan[self.phase as int],
                    id: self.ids[self.step - 1],
                }
            },
            WorkerStage::Finished => WorkerAction::Finish,
        }
    }

    /// The worker, done with its batch.
    pub open spec fn finish(self, abandoned: bool) -> WorkerModel {
        WorkerModel { stage: WorkerStage::Finished, abandoned, ..self }
    }

    /// The worker at step `step` of the statement at hand, or, where the
    /// batch has no such step, at the next statement, or done.
    pub open spec fn move_to(self, step: nat) -> WorkerModel {
        if step <= self.ids.len() {
            WorkerModel { step, ..self }
        } else if self.phase + 1 < self.plan.len() {
            WorkerModel { phase: self.phase + 1, step: 0, ..self }
        } else {
            self.finish(self.abandoned)
        }
    }

    /// The worker after what it wanted done has succeeded or failed.
    ///
    /// A connection that cannot be opened and a statement that cannot be
    /// prepared end the batch. A record for which the statement fails is
    /// noted, and the worker goes on to the next record.
    pub open spec fn advance(self, succeeded: bool) -> WorkerModel {
        match self.stage {
            WorkerStage::Connecting => if !succeeded {
                self.finish(true)
            } else if self.plan.len() == 0 {
                self.finish(false)
            } else {
                WorkerModel { stage: WorkerStage::Working, phase: 0, step: 0, ..self }
            },
            WorkerStage::Working => if self.step == 0 {
                if succeeded {
                    self.move_to(1)
                } else {
                    self.finish(true)
                }
            } else if succeeded {
                self.move_to(self.step + 1)
            } else {
                WorkerModel { failed: self.failed.push(self.ids[self.step - 1]), ..self }.move_to(
                    self.step + 1,
                )
            },
            WorkerStage::Finished => self,
        }
    }

    /// The worker after one step for each of `outcomes`, in their order.
    pub open spec fn run(self, outcomes: Seq<bool>) -> WorkerModel
        decreases outcomes.len(),
    {
        if outcomes.len() == 0 {
            self
        } else {
            self.run(outcomes.drop_last()).advance(outcomes.last())
        }
    }
}

/// A worker and its batch.
pub struct BatchWorker {
    plan: Vec<ReingestStatement>,
    ids: Vec<i64>,
    stage: WorkerStage,
    phase: usize,
    step: usize,
    abandoned: bool,
    failed: Vec<i64>,
}

impl View for BatchWorker {
    type V = WorkerModel;

    closed spec fn view(&self) -> WorkerModel {
        WorkerModel {
            plan: self.plan@,
            ids: self.ids@,
            stage: self.stage,
            phase: self.phase as nat,
            step: self.step as nat,
            abandoned: self.abandoned,
            failed: self.failed@,
        }
    }
}

impl BatchWorker {
    /// A worker for the batch `ids` of a run under `options`.
    pub fn new(options: &IngestOptions, ids: Vec<i64>) -> (worker: BatchWorker)
        ensures
            worker@ == WorkerModel::start(plan_of(options), ids@),
            worker@.wf(),
    {
        BatchWorker {
            plan: plan(options),
            ids,
            stage: WorkerStage::Connecting,
            phase: 0,
            step: 0,
            abandoned: false,
            failed: Vec::new(),
        }
    }

    /// What the worker wants done next.
    pub fn pending(&self) -> (action: WorkerAction)
        requires
            self@.wf(),
        ensures
            action == self@.pending(),
    {
        match self.stage {
            WorkerStage::Connecting => WorkerAction::Connect,
            WorkerStage::Working => if self.step == 0 {
                WorkerAction::Prepare { statement: self.plan[self.phase] }
            } else {
                WorkerAction::Execute {
                    statement: self.plan[self.phase],
                    id: self.ids[self.step - 1],
                }
            },
            WorkerStage::Finished => WorkerAction::Finish,
        }
    }

    /// Takes note of whether what the worker wanted done has succeeded, and
    /// tells what it wants done next.
    pub fn advance(&mut self, succeeded: bool) -> (action: WorkerAction)
        requires
            old(self)@.wf(),
        ensures
            final(self)@ == old(self)@.advance(succeeded),
            final(self)@.wf(),
            action == final(self)@.pending(),
    {
        match self.stage {
            WorkerStage::Connecting => {
                if !succeeded {
                    self.stage = WorkerStage::Finished;
                    self.abandoned = true;
                } else if self.plan.len() == 0 {
                    self.stage = WorkerStage::Finished;
                    self.abandoned = false;
                } else {
                    self.stage = WorkerStage::Working;
                    self.phase = 0;
                    self.step = 0;
                }
            },
            WorkerStage::Working => {
                if self.step == 0 && !succeeded {
                    self.stage = WorkerStage::Finished;
                    self.abandoned = true;
                } else {
                    if self.step > 0 && !succeeded {
                        self.failed.push(self.ids[self.step - 1]);
                    }
                    let statements = self.plan.len();
                    if self.step < self.ids.len() {
                        self.step = self.step + 1;
                    } else if self.phase + 1 < statements {
                        self.phase = self.phase + 1;
                        self.step = 0;
                    } else {
                        self.stage = WorkerStage::Finished;
                    }
                }
            },
            WorkerStage::Finished => {},
        }
        assert(self@ == old(self)@.advance(succeeded));
        self.pending()
    }

    /// Tells whether the worker is done with its batch.
    pub fn is_finished(&self) -> (finished: bool)
        ensures
            finished == (self@.stage == WorkerStage::Finished),
    {
        match self.stage {
            WorkerStage::Finished => true,
            _ => false,
        }
    }

    /// Tells whether the batch was given up.
    pub fn is_abandoned(&self) -> (abandoned: bool)
        ensures
            abandoned == self@.abandoned,
    {
        self.abandoned
    }

    /// The records for which a statement failed, in the order of the calls.
    pub fn failed(&self) -> (ids: &Vec<i64>)
        ensures
            ids@ == self@.failed,
    {
        &self.failed
    }
}

/// Of `ids`, those whose outcome in `outcomes`, at the same index, is a
/// failure.
pub open spec fn missed(ids: Seq<i64>, outcomes: Seq<bool>) -> Seq<i64>
    decreases outcomes.len(),
{
    if outcomes.len() == 0 || ids.len() != outcomes.len() {
        Seq::empty()
    } else if outcomes.last() {
        missed(ids.drop_last(), outcomes.drop_last())
    } else {
        missed(ids.drop_last(), outcomes.drop_last()).push(ids.last())
    }
}

/// A step changes neither the plan nor the batch of a worker, and leaves
/// it well formed.
pub proof fn law_worker_keeps_its_batch(worker: WorkerModel, outcomes: Seq<bool>)
    requires
        worker.wf(),
    ensures
        worker.run(outcomes).wf(),
        worker.run(outcomes).plan == worker.plan,
        worker.run(outcomes).ids == worker.ids,
    decreases outcomes.len(),
{
    if outcomes.len() > 0 {
        law_worker_keeps_its_batch(worker, outcomes.drop_last());
    }
}

/// Only the attributes put a statement into a plan. So a plan that holds
/// a statement holds that one alone, and it is the one that the named
/// attributes ask for: the scoped one where any is named, the full one
/// where none is.
pub proof fn law_plan_follows_attributes(options: &IngestOptions, k: int)
    requires
        0 <= k < plan_of(options).len(),
    ensures
        plan_of(options)[k] == ReingestStatement::choice(options.attrs@.len()),
        options.do_attrs,
        plan_of(options).len() == 1,
{
}

/// Whatever has succeeded and whatever has failed, the statement that a
/// worker prepares or executes is the scoped one, of three arguments,
/// where the run names attributes, and the full one, of two, where it
/// names none.
pub proof fn law_statement_follows_attributes(
    options: &IngestOptions,
    ids: Seq<i64>,
    outcomes: Seq<bool>,
)
    ensures
        match WorkerModel::start(plan_of(options), ids).run(outcomes).pending() {
            WorkerAction::Prepare { statement } => statement == ReingestStatement::choice(
                options.attrs@.len(),
            ),
            WorkerAction::Execute { statement, id } => statement == ReingestStatement::choice(
                options.attrs@.len(),
            ),
            _ => true,
        },
        options.attrs@.len() > 0 ==> ReingestStatement::choice(options.attrs@.len()).arguments()
            == 3,
        options.attrs@.len() == 0 ==> ReingestStatement::choice(options.attrs@.len()).arguments()
            == 2,
{
    let start = WorkerModel::start(plan_of(options), ids);
    law_worker_keeps_its_batch(start, outcomes);
    let now = start.run(outcomes);
    if now.stage == WorkerStage::Working {
        law_plan_follows_attributes(options, now.phase as int);
    }
}

/// A worker that executes a statement goes from record to record,
/// whatever the outcome for each: after as many outcomes as there are
/// records left, less one, it is at the record that many places on, with
/// the same statement, and has noted the records that failed. No failure
/// ends the batch.
pub proof fn law_failure_does_not_stop(worker: WorkerModel, outcomes: Seq<bool>)
    requires
        worker.wf(),
        worker.stage == WorkerStage::Working,
        worker.step >= 1,
        worker.step + outcomes.len() <= worker.ids.len(),
    ensures
        worker.run(outcomes).stage == WorkerStage::Working,
        worker.run(outcomes).phase == worker.phase,
        worker.run(outcomes).step == worker.step + outcomes.len(),
        worker.run(outcomes).pending() == (WorkerAction::Execute {
            statement: worker.plan[worker.phase as int],
            id: worker.ids[worker.step + outcomes.len() - 1],
        }),
        worker.run(outcomes).abandoned == worker.abandoned,
        worker.run(outcomes).failed == worker.failed + missed(
            worker.ids.subrange(worker.step - 1, worker.step - 1 + outcomes.len()),
            outcomes,
        ),
    decreases outcomes.len(),
{
    law_worker_keeps_its_batch(worker, outcomes);
    if outcomes.len() > 0 {
        let earlier = outcomes.drop_last();
        law_failure_does_not_stop(worker, earlier);
        law_worker_keeps_its_batch(worker, earlier);
        let called = worker.ids.subrange(worker.step - 1, worker.step - 1 + outcomes.len());
        assert(called.drop_last() =~= worker.ids.subrange(
            worker.step - 1,
            worker.step - 1 + earlier.len(),
        ));
        assert(called.last() == worker.ids[worker.step + earlier.len() - 1]);
        assert(worker.run(outcomes).failed =~= worker.failed + missed(called, outcomes));
    } else {
        assert(worker.run(outcomes).failed =~= worker.failed + missed(
            worker.ids.subrange(worker.step - 1, worker.step - 1 + outcomes.len()),
            outcomes,
        ));
    }
}

/// When the outcome for the last record of the batch is in, whatever it
/// is, the worker turns to the next statement of its plan, or is done
/// where the plan has no other; the batch is not given up on that account.
pub proof fn law_batch_runs_to_its_end(worker: WorkerModel, outcomes: Seq<bool>)
    requires
        worker.wf(),
        worker.stage == WorkerStage::Working,
        worker.step >= 1,
        worker.step + outcomes.len() == worker.ids.len() + 1,
    ensures
        worker.run(outcomes).abandoned == worker.abandoned,
        worker.phase + 1 < worker.plan.len() ==> worker.run(outcomes).pending() == (
        WorkerAction::Prepare { statement: worker.plan[(worker.phase + 1) as int] }),
        worker.phase + 1 >= worker.plan.len() ==> worker.run(outcomes).pending()
            == WorkerAction::Finish,
{
    let earlier = outcomes.drop_last();
    law_failure_does_not_stop(worker, earlier);
    law_worker_keeps_its_batch(worker, earlier);
    assert(worker.run(outcomes) == worker.run(earlier).advance(outcomes.last()));
}

/// A worker whose connection cannot be opened is done at once: it gives
/// its batch up, and has called the database for no record.
pub proof fn law_lost_connection_ends_batch(plan: Seq<ReingestStatement>, ids: Seq<i64>)
    ensures
        WorkerModel::start(plan, ids).pending() == WorkerAction::Connect,
        WorkerModel::start(plan, ids).advance(false).pending() == WorkerAction::Finish,
        WorkerModel::start(plan, ids).advance(false).abandoned,
        WorkerModel::start(plan, ids).advance(false).failed.len() == 0,
{
}

/// To run a worker through some outcomes and then through others is to
/// run it through all of them.
pub proof fn law_run_in_two(worker: WorkerModel, first: Seq<bool>, then: Seq<bool>)
    ensures
        worker.run(first + then) == worker.run(first).run(then),
    decreases then.len(),
{
    if then.len() == 0 {
        assert(first + then =~= first);
    } else {
        law_run_in_two(worker, first, then.drop_last());
        assert((first + then).drop_last() =~= first + then.drop_last());
    }
}

/// A worker that reingests attributes, once its connection is open and its
/// statement prepared, calls the database for each record of its batch
/// once, in the order of the batch and with the statement that the named
/// attributes ask for, whatever the outcomes. After the last record it is
/// done, has not given the batch up, and has noted the records that failed
/// and no others.
pub proof fn law_every_record_is_called_once(
    options: &IngestOptions,
    ids: Seq<i64>,
    outcomes: Seq<bool>,
    k: int,
)
    requires
        options.do_attrs,
        outcomes.len() == ids.len(),
        0 <= k < ids.len(),
    ensures
        WorkerModel::start(plan_of(options), ids).run(seq![true, true] + outcomes.take(k)).pending()
            == (WorkerAction::Execute {
            statement: ReingestStatement::choice(options.attrs@.len()),
            id: ids[k],
        }),
        WorkerModel::start(plan_of(options), ids).run(seq![true, true] + outcomes).pending()
            == WorkerAction::Finish,
        !WorkerModel::start(plan_of(options), ids).run(seq![true, true] + outcomes).abandoned,
        WorkerModel::start(plan_of(options), ids).run(seq![true, true] + outcomes).failed
            == missed(ids, outcomes),
{
    let start = WorkerModel::start(plan_of(options), ids);
    let opened = seq![true, true];
    assert(plan_of(options) =~= seq![ReingestStatement::choice(options.attrs@.len())]);
    assert(opened.drop_last() =~= seq![true]);
    assert(seq![true].drop_last() =~= Seq::<bool>::empty());
    assert(start.run(Seq::<bool>::empty()) == start);
    assert(start.run(seq![true]) == start.advance(true));
    let ready = start.run(opened);
    assert(ready == start.advance(true).advance(true));
    assert(ready.stage == WorkerStage::Working && ready.step == 1 && ready.phase == 0);
    law_run_in_two(start, opened, outcomes.take(k));
    law_failure_does_not_stop(ready, outcomes.take(k));
    law_run_in_two(start, opened, outcomes);
    law_batch_runs_to_its_end(ready, outcomes);
    let earlier = outcomes.drop_last();
    law_failure_does_not_stop(ready, earlier);
    law_worker_keeps_its_batch(ready, earlier);
    assert(ready.run(outcomes) == ready.run(earlier).advance(outcomes.last()));
    assert(ids.subrange(0, earlier.len() as int) =~= ids.drop_last());
    assert(ready.run(outcomes).failed =~= missed(ids, outcomes));
}

} // verus!
