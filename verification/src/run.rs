//! A run from the records that were found to the work of each worker.
//!
//! The records are found over one connection. That connection is closed
//! before the first batch is handed out, so that at no time more
//! connections are open than workers run. Each batch then leaves with a
//! copy of the options and with a connection of its own, not yet open.

use crate::batch::{first_batch, BatchQueue};
use crate::db::{ConnectionModel, DatabaseConnection};
use crate::options::IngestOptions;
use vstd::prelude::*;

verus! {

/// Why the records of a run could not be found. Nothing is reingested then.
#[derive(Debug, PartialEq, Eq)]
pub enum QueryError {
    /// The connection is not open.
    NotConnected,
    /// The database did not answer the query; its reason is kept.
    Rejected(String),
}

/// Judges what came back from the discovery query.
///
/// `found` is what the database answered over `connection`: the
/// identifiers in the order of the answer, or the reason for which it gave
/// none. The identifiers are handed on as they came. Over a connection that
/// is not open nothing can have been found.
pub fn get_record_ids(connection: &DatabaseConnection, found: Result<Vec<i64>, String>) -> (ids:
    Result<Vec<i64>, QueryError>)
    ensures
        !connection@.connected() ==> ids == Err::<Vec<i64>, QueryError>(QueryError::NotConnected),
        connection@.connected() ==> match found {
            Ok(rows) => ids == Ok::<Vec<i64>, QueryError>(rows),
            Err(reason) => ids == Err::<Vec<i64>, QueryError>(QueryError::Rejected(reason)),
        },
{
    if !connection.is_connected() {
        return Err(QueryError::NotConnected);
    }
    match found {
        Ok(rows) => Ok(rows),
        Err(reason) => Err(QueryError::Rejected(reason)),
    }
}

/// What one worker gets: a batch, and a copy of the options and a
/// connection that are its own.
pub struct WorkUnit {
    pub options: IngestOptions,
    pub connection: DatabaseConnection,
    pub ids: Vec<i64>,
}

/// The records of a run that wait for a worker, and what each worker is
/// given besides its batch.
pub struct Dispatch {
    options: IngestOptions,
    connection: DatabaseConnection,
    queue: BatchQueue,
}

impl Dispatch {
    /// The records that no worker was given yet, in their order.
    pub closed spec fn waiting(&self) -> Seq<i64> {
        self.queue.remaining()
    }

    /// The number of records that a batch holds at most.
    pub closed spec fn size(&self) -> nat {
        self.queue.size()
    }

    /// The options of the run.
    pub closed spec fn options(&self) -> IngestOptions {
        self.options
    }

    /// The parameters of the connections that the workers are given.
    pub closed spec fn template(&self) -> ConnectionModel {
        self.connection@.closed()
    }

    /// The number of slots of the worker pool.
    pub fn pool_size(&self) -> (slots: usize)
        ensures
            slots == self.options().max_threads,
    {
        self.options.max_threads as usize
    }

    /// The number of records that wait.
    pub fn len(&self) -> (count: usize)
        ensures
            count == self.waiting().len(),
    {
        self.queue.len()
    }

    /// Takes the next batch off the front, if a record is left, and gives
    /// it a copy of the options and a connection that is not open.
    pub fn next_unit(&mut self) -> (unit: Option<WorkUnit>)
        ensures
            final(self).size() == old(self).size(),
            final(self).template() == old(self).template(),
            final(self).options() == old(self).options(),
            old(self).waiting().len() == 0 ==> unit is None && final(self).waiting() == old(
                self,
            ).waiting(),
            old(self).waiting().len() > 0 ==> unit is Some && unit->0.ids@ == first_batch(
                old(self).waiting(),
                old(self).size(),
            ) && final(self).waiting() == old(self).waiting().skip(unit->0.ids@.len() as int)
                && unit->0.connection@ == old(self).template() && unit->0.options.agrees(
                &old(self).options(),
            ),
    {
        match self.queue.next_batch() {
            Some(ids) => Some(
                WorkUnit {
                    options: self.options.copy(),
                    connection: self.connection.partial_clone(),
                    ids,
                },
            ),
            None => None,
        }
    }
}

/// Makes the records that were found ready to be handed out in batches.
///
/// The connection over which they were found is closed first: a worker
/// opens its connection only after that.
pub fn ingest_records(
    options: &IngestOptions,
    connection: &mut DatabaseConnection,
    ids: Vec<i64>,
) -> (dispatch: Dispatch)
    requires
        options.wf(),
    ensures
        final(connection)@ == old(connection)@.closed(),
        dispatch.waiting() == ids@,
        dispatch.size() == options.batch_size,
        dispatch.template() == old(connection)@.closed(),
        dispatch.options().agrees(options),
{
    connection.disconnect();
    Dispatch {
        options: options.copy(),
        connection: connection.partial_clone(),
        queue: BatchQueue::new(ids, options.batch_size),
    }
}

} // verus!
