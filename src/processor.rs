use vstd::prelude::*;

use crate::record::{byte_len, rfc3339_utc, item_message, make_message, ProcessResult, RecordData};

verus! {

/// Relies on chrono's `From<SystemTime> for DateTime<Utc>`, which takes clock
/// readings before 1970 too, and on `DateTime::to_rfc3339`, which writes the
/// date and time with an offset of `+00:00` for UTC. Which time it is, nothing
/// says.
#[verifier::external_body]
fn current_timestamp() -> (r: String)
    ensures
        rfc3339_utc(r@),
{
    chrono::DateTime::<chrono::Utc>::from(std::time::SystemTime::now()).to_rfc3339()
}

/// A snapshot of a processor's state.
#[derive(Clone, Copy, Debug, PartialEq, Eq, Structural)]
pub struct Stats {
    /// Number of lines processed so far.
    pub processed_count: usize,
    /// The verbosity the processor was made with.
    pub verbose: bool,
}

/// Turns lines into result records, numbering them in the order they come.
#[derive(Debug)]
pub struct TreasuryManagerProcessor {
    verbose: bool,
    processed_count: usize,
}

impl TreasuryManagerProcessor {
    /// Number of lines processed so far.
    pub closed spec fn count(&self) -> nat {
        self.processed_count as nat
    }

    /// The count is always a `usize` value.
    pub proof fn lemma_count_fits(&self)
        ensures
            self.count() <= usize::MAX,
    {
    }

    /// The verbosity fixed at construction.
    pub closed spec fn is_verbose(&self) -> bool {
        self.verbose
    }

    /// The statistics that `get_stats` reports.
    pub open spec fn spec_stats(&self) -> Stats {
        Stats { processed_count: self.count() as usize, verbose: self.is_verbose() }
    }

    /// A processor that has processed nothing yet.
    pub fn new(verbose: bool) -> (r: Self)
        ensures
            r.count() == 0,
            r.is_verbose() == verbose,
    {
        Self { verbose, processed_count: 0 }
    }

    /// Processes one line, stamping the record with `processed_at`.
    pub fn process_at(&mut self, data: &str, processed_at: String) -> (r: ProcessResult)
        requires
            old(self).count() < usize::MAX,
        ensures
            final(self).count() == old(self).count() + 1,
            final(self).is_verbose() == old(self).is_verbose(),
            r.describes(byte_len(data@), final(self).count()),
            r.data->Some_0.processed_at == processed_at,
    {
        self.processed_count = self.processed_count + 1;
        let message = make_message(self.processed_count);
        let length = data.as_bytes().len();
        ProcessResult {
            success: true,
            message,
            data: Some(
                RecordData {
                    length,
                    processed_at,
                    item_number: self.processed_count,
                },
            ),
        }
    }

    /// Processes one line, stamping the record with the current time.
    pub fn process(&mut self, data: &str) -> (r: ProcessResult)
        requires
            old(self).count() < usize::MAX,
        ensures
            final(self).count() == old(self).count() + 1,
            final(self).is_verbose() == old(self).is_verbose(),
            r.describes(byte_len(data@), final(self).count()),
            rfc3339_utc(r.data->Some_0.processed_at@),
    {
        let now = current_timestamp();
        self.process_at(data, now)
    }

    /// The current count and verbosity.
    pub fn get_stats(&self) -> (r: Stats)
        ensures
            r == self.spec_stats(),
    {
        Stats { processed_count: self.processed_count, verbose: self.verbose }
    }
}

} // verus!
