//! The configuration of one reingest run.

use crate::cli::{
    given_value, given_values, is_given, matched, option_present, option_value, option_values,
};
use crate::text::{parse_unsigned, unsigned_of};
use vstd::prelude::*;

verus! {

/// What a reingest run was asked to do. It is read once, before any batch is
/// handed out, and every worker gets a copy of its own.
#[derive(Clone, Debug)]
pub struct IngestOptions {
    /// How many workers may run at the same time.
    pub max_threads: u8,
    /// Update the browse entries.
    pub do_browse: bool,
    /// Update the record attributes.
    pub do_attrs: bool,
    /// Update the search indexes.
    pub do_search: bool,
    /// Update the facets.
    pub do_facets: bool,
    /// Update the display fields.
    pub do_display: bool,
    /// Only records whose identifier is above this value, where one is set.
    pub min_id: Option<usize>,
    /// Only records whose identifier is below this value, where one is set.
    pub max_id: Option<usize>,
    /// Newest records first, by creation date; otherwise by identifier.
    pub newest_first: bool,
    /// How many records one batch holds at most.
    pub batch_size: usize,
    /// The attributes to reingest; none named means all of them.
    pub attrs: Vec<String>,
}

/// Why a configuration cannot be run.
#[derive(Clone, Copy, Debug, PartialEq, Eq, Structural)]
pub enum OptionsError {
    /// The value of `max-threads` is no number of at most 255.
    InvalidMaxThreads,
    /// The value of `min-id` is no number.
    InvalidMinId,
    /// The value of `max-id` is no number.
    InvalidMaxId,
    /// The value of `batch-size` is no number.
    InvalidBatchSize,
    /// No worker may run.
    NoWorkers,
    /// A batch may hold no record.
    EmptyBatches,
}

/// The number that the command line gives to the option `name`: `default`
/// where it gives no value, and none where the value is no number of at
/// most `max`.
pub open spec fn number_option(
    options: Map<Seq<char>, Seq<Option<Seq<char>>>>,
    name: Seq<char>,
    default: nat,
    max: nat,
) -> Option<nat> {
    match option_value(options, name) {
        Some(text) => unsigned_of(text, max),
        None => Some(default),
    }
}

/// What is wrong first with the options of a run on the command line, if
/// anything is.
pub open spec fn fault(options: Map<Seq<char>, Seq<Option<Seq<char>>>>) -> Option<OptionsError> {
    if number_option(options, "max-threads"@, 5, u8::MAX as nat) is None {
        Some(OptionsError::InvalidMaxThreads)
    } else if number_option(options, "min-id"@, 0, usize::MAX as nat) is None {
        Some(OptionsError::InvalidMinId)
    } else if number_option(options, "max-id"@, 0, usize::MAX as nat) is None {
        Some(OptionsError::InvalidMaxId)
    } else if number_option(options, "batch-size"@, 100, usize::MAX as nat) is None {
        Some(OptionsError::InvalidBatchSize)
    } else if number_option(options, "max-threads"@, 5, u8::MAX as nat) == Some(0nat) {
        Some(OptionsError::NoWorkers)
    } else if number_option(options, "batch-size"@, 100, usize::MAX as nat) == Some(0nat) {
        Some(OptionsError::EmptyBatches)
    } else {
        None
    }
}

/// Reads the number that the command line gives to the option `name`.
fn given_number(params: &getopts::Matches, name: &str, default: u64, max: u64) -> (number: Option<
    u64,
>)
    requires
        default <= max,
    ensures
        number is Some <==> number_option(matched(*params), name@, default as nat, max as nat)
            is Some,
        number matches Some(n) ==> number_option(
            matched(*params),
            name@,
            default as nat,
            max as nat,
        ) == Some(n as nat) && n <= max,
{
    match given_value(params, name) {
        Some(text) => parse_unsigned(text.as_str(), max),
        None => Some(default),
    }
}

impl IngestOptions {
    /// A run needs at least one worker, and batches of at least one record.
    pub open spec fn wf(&self) -> bool {
        self.max_threads >= 1 && self.batch_size >= 1
    }

    /// Whether two configurations say the same.
    pub open spec fn agrees(&self, other: &IngestOptions) -> bool {
        &&& self.max_threads == other.max_threads
        &&& self.do_browse == other.do_browse
        &&& self.do_attrs == other.do_attrs
        &&& self.do_search == other.do_search
        &&& self.do_facets == other.do_facets
        &&& self.do_display == other.do_display
        &&& self.min_id == other.min_id
        &&& self.max_id == other.max_id
        &&& self.newest_first == other.newest_first
        &&& self.batch_size == other.batch_size
        &&& self.attrs.deep_view() == other.attrs.deep_view()
    }

    /// A configuration of its own that says the same.
    pub fn copy(&self) -> (copy: IngestOptions)
        ensures
            copy.agrees(self),
    {
        let mut attrs: Vec<String> = Vec::with_capacity(self.attrs.len());
        let mut at: usize = 0;
        while at < self.attrs.len()
            invariant
                at <= self.attrs@.len(),
                attrs@.len() == at,
                forall|k: int| 0 <= k < at ==> attrs@[k]@ == self.attrs@[k]@,
            decreases self.attrs@.len() - at,
        {
            attrs.push(self.attrs[at].clone());
            at = at + 1;
        }
        assert(attrs.deep_view() =~= self.attrs.deep_view());
        IngestOptions {
            max_threads: self.max_threads,
            do_browse: self.do_browse,
            do_attrs: self.do_attrs,
            do_search: self.do_search,
            do_facets: self.do_facets,
            do_display: self.do_display,
            min_id: self.min_id,
            max_id: self.max_id,
            newest_first: self.newest_first,
            batch_size: self.batch_size,
            attrs,
        }
    }

    /// The configuration of a run with no option given: five workers,
    /// batches of a hundred records, no bounds, oldest first, no phase.
    pub fn defaults() -> (options: IngestOptions)
        ensures
            options.wf(),
            options.max_threads == 5,
            options.batch_size == 100,
            options.min_id is None,
            options.max_id is None,
            !options.newest_first,
            !options.do_browse && !options.do_attrs && !options.do_search && !options.do_facets
                && !options.do_display,
            options.attrs@.len() == 0,
    {
        IngestOptions {
            max_threads: 5,
            do_browse: false,
            do_attrs: false,
            do_search: false,
            do_facets: false,
            do_display: false,
            min_id: None,
            max_id: None,
            newest_first: false,
            batch_size: 100,
            attrs: Vec::new(),
        }
    }

    /// Reads the options of a run from the command line.
    ///
    /// `max-threads` gives the number of workers, five where it is not
    /// given, and `batch-size` the size of a batch, a hundred where it is
    /// not given. `min-id` sets the lower bound. `max-id` sets the upper
    /// bound, unless its value is zero. `newest-first` and the five options
    /// from `do-browse` to `do-display` are set by being there. Each value
    /// of `attr` names one attribute. An option that is not defined counts
    /// as not given.
    pub fn from_matches(params: &getopts::Matches) -> (read: Result<IngestOptions, OptionsError>)
        ensures
            match read {
                Ok(options) => {
                    let found = matched(*params);
                    &&& fault(found) is None
                    &&& options.wf()
                    &&& Some(options.max_threads as nat) == number_option(
                        found,
                        "max-threads"@,
                        5,
                        u8::MAX as nat,
                    )
                    &&& Some(options.batch_size as nat) == number_option(
                        found,
                        "batch-size"@,
                        100,
                        usize::MAX as nat,
                    )
                    &&& options.min_id is Some <==> option_value(found, "min-id"@) is Some
                    &&& options.min_id matches Some(min) ==> Some(min as nat) == number_option(
                        found,
                        "min-id"@,
                        0,
                        usize::MAX as nat,
                    )
                    &&& options.max_id is Some <==> number_option(
                        found,
                        "max-id"@,
                        0,
                        usize::MAX as nat,
                    ) != Some(0nat)
                    &&& options.max_id matches Some(max) ==> Some(max as nat) == number_option(
                        found,
                        "max-id"@,
                        0,
                        usize::MAX as nat,
                    )
                    &&& options.newest_first == option_present(found, "newest-first"@)
                    &&& options.do_browse == option_present(found, "do-browse"@)
                    &&& options.do_attrs == option_present(found, "do-attrs"@)
                    &&& options.do_search == option_present(found, "do-search"@)
                    &&& options.do_facets == option_present(found, "do-facets"@)
                    &&& options.do_display == option_present(found, "do-display"@)
                    &&& options.attrs.deep_view() == option_values(found, "attr"@)
                },
                Err(error) => fault(matched(*params)) == Some(error),
            },
    {
        let max_threads = match given_number(params, "max-threads", 5, 255) {
            Some(number) => number as u8,
            None => {
                return Err(OptionsError::InvalidMaxThreads);
            },
        };
        let min_given = given_value(params, "min-id").is_some();
        let min_id = match given_number(params, "min-id", 0, usize::MAX as u64) {
            Some(number) => number as usize,
            None => {
                return Err(OptionsError::InvalidMinId);
            },
        };
        let max_id = match given_number(params, "max-id", 0, usize::MAX as u64) {
            Some(number) => number as usize,
            None => {
                return Err(OptionsError::InvalidMaxId);
            },
        };
        let batch_size = match given_number(params, "batch-size", 100, usize::MAX as u64) {
            Some(number) => number as usize,
            None => {
                return Err(OptionsError::InvalidBatchSize);
            },
        };
        if max_threads == 0 {
            return Err(OptionsError::NoWorkers);
        }
        if batch_size == 0 {
            return Err(OptionsError::EmptyBatches);
        }
        Ok(
            IngestOptions {
                max_threads,
                do_browse: is_given(params, "do-browse"),
                do_attrs: is_given(params, "do-attrs"),
                do_search: is_given(params, "do-search"),
                do_facets: is_given(params, "do-facets"),
                do_display: is_given(params, "do-display"),
                min_id: if min_given {
                    Some(min_id)
                } else {
                    None
                },
                max_id: if max_id > 0 {
                    Some(max_id)
                } else {
                    None
                },
                newest_first: is_given(params, "newest-first"),
                batch_size,
                attrs: given_values(params, "attr"),
            },
        )
    }

    /// Tells whether the run can start, and if not, what is wrong first.
    pub fn validate(&self) -> (checked: Result<(), OptionsError>)
        ensures
            checked is Ok <==> self.wf(),
            checked == Err::<(), OptionsError>(OptionsError::NoWorkers) <==> self.max_threads == 0,
            checked == Err::<(), OptionsError>(OptionsError::EmptyBatches) <==> self.max_threads
                >= 1 && self.batch_size == 0,
    {
        if self.max_threads == 0 {
            Err(OptionsError::NoWorkers)
        } else if self.batch_size == 0 {
            Err(OptionsError::EmptyBatches)
        } else {
            Ok(())
        }
    }

    /// The number of slots of the worker pool.
    pub fn pool_size(&self) -> (slots: usize)
        ensures
            slots == self.max_threads,
            self.wf() ==> slots >= 1,
    {
        self.max_threads as usize
    }
}

} // verus!
