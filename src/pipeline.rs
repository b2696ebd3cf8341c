use vstd::prelude::*;
use vstd::string::StringExecFns;

use crate::processor::{Stats, TreasuryManagerProcessor};
use crate::record::{byte_len, ProcessResult};
use vstd::utf8::encode_utf8;

verus! {

/// The pieces of `s` between newline characters, in order; there is always
/// one more piece than there are newlines.
pub open spec fn newline_pieces(s: Seq<char>) -> Seq<Seq<char>>
    decreases s.len(),
{
    if s.len() == 0 {
        seq![Seq::empty()]
    } else if s.last() == '\n' {
        newline_pieces(s.drop_last()).push(Seq::empty())
    } else {
        let p = newline_pieces(s.drop_last());
        p.update(p.len() - 1, p.last().push(s.last()))
    }
}

/// A terminated line without the carriage return of a `\r\n` ending.
pub open spec fn strip_cr(l: Seq<char>) -> Seq<char> {
    if l.len() > 0 && l.last() == '\r' {
        l.drop_last()
    } else {
        l
    }
}

/// The lines of `s`: split at `\n` or `\r\n`, without the terminators; the
/// last line may lack a terminator, and a terminator at the very end opens no
/// further line, so the empty text has no lines.
pub open spec fn lines_of(s: Seq<char>) -> Seq<Seq<char>> {
    let p = newline_pieces(s);
    let terminated = p.drop_last().map_values(|l: Seq<char>| strip_cr(l));
    if p.last().len() == 0 {
        terminated
    } else {
        terminated.push(p.last())
    }
}

/// `results` are the records of `lines` processed in order, numbered from
/// `start + 1` on.
pub open spec fn batch_records(
    start: nat,
    lines: Seq<Seq<char>>,
    results: Seq<ProcessResult>,
) -> bool {
    &&& results.len() == lines.len()
    &&& forall|i: int|
        0 <= i < results.len() ==> #[trigger] results[i].describes(
            byte_len(lines[i]),
            (start + i + 1) as nat,
        )
}

/// Processing the lines of `text` took the processor from `before` to `after`
/// and produced `results`.
pub open spec fn batch_step(
    before: TreasuryManagerProcessor,
    after: TreasuryManagerProcessor,
    text: Seq<char>,
    results: Seq<ProcessResult>,
) -> bool {
    &&& after.count() == before.count() + lines_of(text).len()
    &&& after.is_verbose() == before.is_verbose()
    &&& batch_records(before.count(), lines_of(text), results)
}

/// Relies on std's `str::lines`: the lines of the text, split at `\n` or
/// `\r\n`, terminators removed, with no empty line after a final terminator.
#[verifier::external_body]
fn split_lines(s: &str) -> (r: Vec<String>)
    ensures
        r@.len() == lines_of(s@).len(),
        forall|i: int| 0 <= i < r@.len() ==> #[trigger] r@[i]@ == lines_of(s@)[i],
{
    s.lines().map(String::from).collect()
}

/// Processes every line of `input_data` in order and collects the records.
pub fn process_input_data(
    processor: &mut TreasuryManagerProcessor,
    input_data: String,
) -> (r: Vec<ProcessResult>)
    requires
        old(processor).count() + lines_of(input_data@).len() <= usize::MAX,
    ensures
        batch_step(*old(processor), *final(processor), input_data@, r@),
{
    let lines = split_lines(input_data.as_str());
    let ghost start = processor.count();
    let ghost expected = lines_of(input_data@);
    let mut results: Vec<ProcessResult> = Vec::new();
    let mut i: usize = 0;
    while i < lines.len()
        invariant
            lines@.len() == expected.len(),
            forall|j: int| 0 <= j < lines@.len() ==> #[trigger] lines@[j]@ == expected[j],
            start + expected.len() <= usize::MAX,
            i <= lines@.len(),
            processor.count() == start + i,
            processor.is_verbose() == old(processor).is_verbose(),
            start == old(processor).count(),
            batch_records(start, expected.take(i as int), results@),
        decreases lines@.len() - i,
    {
        let record = processor.process(lines[i].as_str());
        results.push(record);
        assert(expected.take(i + 1) =~= expected.take(i as int).push(expected[i as int]));
        i = i + 1;
    }
    assert(expected.take(i as int) =~= expected);
    results
}

/// The text a run processes: what was read, or nothing when no input was given.
pub open spec fn input_text(input: Option<String>) -> Seq<char> {
    match input {
        Some(t) => t@,
        None => Seq::empty(),
    }
}

/// The computing part of a run: a fresh processor with the given verbosity
/// processes the input text; the records and the final statistics come back.
pub fn run_batch(verbose: bool, input: Option<String>) -> (r: (Vec<ProcessResult>, Stats))
    ensures
        batch_records(0, lines_of(input_text(input)), r.0@),
        r.1 == (Stats { processed_count: lines_of(input_text(input)).len() as usize, verbose }),
{
    let mut processor = TreasuryManagerProcessor::new(verbose);
    let text = match input {
        Some(t) => t,
        None => String::new(),
    };
    // The byte length of a text in memory bounds its number of lines.
    let byte_count: usize = text.as_str().as_bytes().len();
    proof {
        lemma_lines_bounded(text@);
        lemma_encoding_not_shorter(text@);
        assert(byte_count == encode_utf8(text@).len());
    }
    let results = process_input_data(&mut processor, text);
    (results, processor.get_stats())
}

/// Why a run failed.
#[derive(Clone, Debug, PartialEq, Eq)]
pub enum RunError {
    /// The input file could not be read as text.
    InputRead(String),
    /// The records could not be serialized.
    OutputSerialization(String),
    /// The output file could not be written.
    OutputWrite(String),
}

impl RunError {
    /// The phase that failed, as it leads the message.
    pub open spec fn spec_phase(&self) -> Seq<char> {
        match self {
            RunError::InputRead(_) => "failed to read input: "@,
            RunError::OutputSerialization(_) => "failed to serialize output: "@,
            RunError::OutputWrite(_) => "failed to write output: "@,
        }
    }

    /// The underlying cause.
    pub open spec fn spec_cause(&self) -> Seq<char> {
        match self {
            RunError::InputRead(c) => c@,
            RunError::OutputSerialization(c) => c@,
            RunError::OutputWrite(c) => c@,
        }
    }

    /// A message naming the failed phase, then the cause.
    pub fn message(&self) -> (r: String)
        ensures
            r@ == self.spec_phase() + self.spec_cause(),
    {
        proof {
            reveal_strlit("failed to read input: ");
            reveal_strlit("failed to serialize output: ");
            reveal_strlit("failed to write output: ");
        }
        let (phase, cause) = match self {
            RunError::InputRead(c) => ("failed to read input: ", c),
            RunError::OutputSerialization(c) => ("failed to serialize output: ", c),
            RunError::OutputWrite(c) => ("failed to write output: ", c),
        };
        let mut s = String::from_str(phase);
        s.append(cause.as_str());
        s
    }
}

proof fn lemma_pieces_nonempty(s: Seq<char>)
    ensures
        newline_pieces(s).len() >= 1,
        s.len() > 0 && s.last() == '\n' ==> newline_pieces(s).len() >= 2,
        newline_pieces(s).last().len() == 0 <==> (s.len() == 0 || s.last() == '\n'),
    decreases s.len(),
{
    if s.len() > 0 {
        lemma_pieces_nonempty(s.drop_last());
    }
}

proof fn lemma_pieces_bounded(s: Seq<char>)
    ensures
        newline_pieces(s).len() - 1 + (if newline_pieces(s).last().len() > 0 {
            1int
        } else {
            0
        }) <= s.len(),
    decreases s.len(),
{
    if s.len() > 0 {
        lemma_pieces_bounded(s.drop_last());
        lemma_pieces_nonempty(s.drop_last());
    }
}

/// A text has no more lines than characters.
pub proof fn lemma_lines_bounded(text: Seq<char>)
    ensures
        lines_of(text).len() <= text.len(),
{
    lemma_pieces_bounded(text);
    lemma_pieces_nonempty(text);
}

/// The UTF-8 encoding of a text has at least one byte per character.
pub proof fn lemma_encoding_not_shorter(text: Seq<char>)
    ensures
        text.len() <= encode_utf8(text).len(),
    decreases text.len(),
{
    if text.len() > 0 {
        lemma_encoding_not_shorter(text.drop_first());
    }
}

/// A non-empty text has at least one line, and the empty text has none.
pub proof fn lemma_lines_nonempty(text: Seq<char>)
    ensures
        text.len() > 0 <==> lines_of(text).len() > 0,
{
    lemma_pieces_nonempty(text);
    assert(newline_pieces(Seq::<char>::empty()) == seq![Seq::<char>::empty()]);
}

/// A fresh processor numbers the records of a text 1, 2, ... in line order,
/// one record for each line, and a non-empty text yields at least one.
pub proof fn lemma_fresh_batch_numbering(
    before: TreasuryManagerProcessor,
    after: TreasuryManagerProcessor,
    text: Seq<char>,
    results: Seq<ProcessResult>,
)
    requires
        before.count() == 0,
        batch_step(before, after, text, results),
    ensures
        results.len() == lines_of(text).len(),
        text.len() > 0 ==> results.len() > 0,
        forall|i: int|
            0 <= i < results.len() ==> (#[trigger] results[i]).data->Some_0.item_number == i + 1,
{
    lemma_lines_nonempty(text);
    assert forall|i: int| 0 <= i < results.len() implies (
    #[trigger] results[i]).data->Some_0.item_number == i + 1 by {
        assert(results[i].describes(byte_len(lines_of(text)[i]), (0 + i + 1) as nat));
    }
}

/// After a batch the processor has counted every line, whatever the lines
/// hold: empty and blank lines count too.
pub proof fn lemma_count_after_batch(
    before: TreasuryManagerProcessor,
    after: TreasuryManagerProcessor,
    text: Seq<char>,
    results: Seq<ProcessResult>,
)
    requires
        batch_step(before, after, text, results),
    ensures
        after.count() == before.count() + results.len(),
        results.len() == lines_of(text).len(),
{
}

/// The empty text yields no records and leaves the count where it was.
pub proof fn lemma_empty_text(
    before: TreasuryManagerProcessor,
    after: TreasuryManagerProcessor,
    results: Seq<ProcessResult>,
)
    requires
        batch_step(before, after, Seq::empty(), results),
    ensures
        results.len() == 0,
        after.count() == before.count(),
{
    lemma_lines_nonempty(Seq::empty());
}

/// Each record's length is the byte length of the line it was made from,
/// zero for an empty line.
pub proof fn lemma_record_lengths(
    before: TreasuryManagerProcessor,
    after: TreasuryManagerProcessor,
    text: Seq<char>,
    results: Seq<ProcessResult>,
)
    requires
        batch_step(before, after, text, results),
    ensures
        forall|i: int|
            0 <= i < results.len() ==> (#[trigger] results[i]).data->Some_0.length == byte_len(
                lines_of(text)[i],
            ),
        forall|i: int|
            0 <= i < results.len() && lines_of(text)[i].len() == 0 ==> (#[trigger] results[i]).data->Some_0.length == 0,
{
    assert forall|i: int| 0 <= i < results.len() implies (
    #[trigger] results[i]).data->Some_0.length == byte_len(lines_of(text)[i]) by {
        assert(results[i].describes(byte_len(lines_of(text)[i]), (before.count() + i + 1) as nat));
    }
    assert forall|i: int|
        0 <= i < results.len() && lines_of(text)[i].len() == 0 implies (
        #[trigger] results[i]).data->Some_0.length == 0 by {
        assert(results[i].describes(byte_len(lines_of(text)[i]), (before.count() + i + 1) as nat));
        assert(lines_of(text)[i] =~= Seq::<char>::empty());
        assert(encode_utf8(Seq::<char>::empty()) =~= Seq::<u8>::empty());
    }
}

/// The statistics after a batch on a fresh processor report one count per
/// line and the verbosity the processor was made with.
pub proof fn lemma_stats_after_batch(
    before: TreasuryManagerProcessor,
    after: TreasuryManagerProcessor,
    text: Seq<char>,
    results: Seq<ProcessResult>,
)
    requires
        before.count() == 0,
        batch_step(before, after, text, results),
    ensures
        after.spec_stats().processed_count == lines_of(text).len(),
        after.spec_stats().verbose == before.is_verbose(),
{
    after.lemma_count_fits();
}

} // verus!
