use treasurymanager::pipeline::{process_input_data, run_batch, RunError};
use treasurymanager::processor::{Stats, TreasuryManagerProcessor};
use treasurymanager::record::{make_message, push_decimal, ProcessResult};

fn item(r: &ProcessResult) -> (usize, usize) {
    let d = r.data.as_ref().expect("record carries data");
    (d.item_number, d.length)
}

#[test]
fn new_processor_has_zero_count() {
    let p = TreasuryManagerProcessor::new(true);
    assert_eq!(p.get_stats(), Stats { processed_count: 0, verbose: true });
    let q = TreasuryManagerProcessor::new(false);
    assert_eq!(q.get_stats(), Stats { processed_count: 0, verbose: false });
}

#[test]
fn process_numbers_items_and_measures_lines() {
    let mut p = TreasuryManagerProcessor::new(false);
    let a = p.process("hello");
    assert!(a.success);
    assert_eq!(a.message, "Successfully processed item #1");
    assert_eq!(item(&a), (1, 5));
    let b = p.process("");
    assert_eq!(b.message, "Successfully processed item #2");
    assert_eq!(item(&b), (2, 0));
    assert_eq!(p.get_stats().processed_count, 2);
}

#[test]
fn length_counts_utf8_bytes() {
    let mut p = TreasuryManagerProcessor::new(false);
    let r = p.process("h\u{e9}llo");
    assert_eq!(item(&r), (1, 6));
}

#[test]
fn process_at_keeps_the_given_timestamp() {
    let mut p = TreasuryManagerProcessor::new(false);
    let r = p.process_at("abc", String::from("2024-01-02T03:04:05+00:00"));
    let d = r.data.expect("record carries data");
    assert_eq!(d.processed_at, "2024-01-02T03:04:05+00:00");
    assert_eq!(d.length, 3);
    assert_eq!(d.item_number, 1);
}

#[test]
fn timestamps_are_rfc3339_and_non_decreasing() {
    let mut p = TreasuryManagerProcessor::new(false);
    let records = process_input_data(&mut p, String::from("a\nb\nc"));
    let mut last = None;
    for r in &records {
        let ts = &r.data.as_ref().expect("record carries data").processed_at;
        assert!(ts.ends_with("+00:00"));
        assert_eq!(ts.as_bytes()[10], b'T');
        let t = chrono::DateTime::parse_from_rfc3339(ts).expect("well-formed timestamp");
        if let Some(prev) = last {
            assert!(prev <= t);
        }
        last = Some(t);
    }
}

#[test]
fn messages_render_decimal_numbers() {
    assert_eq!(make_message(0), "Successfully processed item #0");
    assert_eq!(make_message(10), "Successfully processed item #10");
    assert_eq!(make_message(1234567), "Successfully processed item #1234567");
    let mut s = String::from("n=");
    push_decimal(&mut s, 905);
    assert_eq!(s, "n=905");
}

#[test]
fn three_lines_without_trailing_newline() {
    let mut p = TreasuryManagerProcessor::new(false);
    let records = process_input_data(&mut p, String::from("alpha\nbeta\ngamma"));
    let got: Vec<(usize, usize)> = records.iter().map(item).collect();
    assert_eq!(got, vec![(1, 5), (2, 4), (3, 5)]);
    assert_eq!(p.get_stats().processed_count, 3);
}

#[test]
fn blank_and_whitespace_lines_are_counted() {
    let mut p = TreasuryManagerProcessor::new(false);
    let records = process_input_data(&mut p, String::from("\n  \n\t\nx"));
    let got: Vec<(usize, usize)> = records.iter().map(item).collect();
    assert_eq!(got, vec![(1, 0), (2, 2), (3, 1), (4, 1)]);
    assert_eq!(p.get_stats().processed_count, 4);
}

#[test]
fn line_endings_are_stripped() {
    let mut p = TreasuryManagerProcessor::new(false);
    let records = process_input_data(&mut p, String::from("ab\r\ncd\n"));
    let got: Vec<(usize, usize)> = records.iter().map(item).collect();
    assert_eq!(got, vec![(1, 2), (2, 2)]);
    let mut q = TreasuryManagerProcessor::new(false);
    assert_eq!(process_input_data(&mut q, String::from("\n")).len(), 1);
}

#[test]
fn empty_text_yields_no_records() {
    let mut p = TreasuryManagerProcessor::new(true);
    let records = process_input_data(&mut p, String::new());
    assert!(records.is_empty());
    assert_eq!(p.get_stats(), Stats { processed_count: 0, verbose: true });
}

#[test]
fn numbering_continues_across_batches() {
    let mut p = TreasuryManagerProcessor::new(false);
    process_input_data(&mut p, String::from("a\nb"));
    let records = process_input_data(&mut p, String::from("c"));
    assert_eq!(records[0].message, "Successfully processed item #3");
    assert_eq!(item(&records[0]), (3, 1));
}

#[test]
fn stats_reflect_processing_and_do_not_change_on_reading() {
    let mut p = TreasuryManagerProcessor::new(true);
    process_input_data(&mut p, String::from("one\ntwo"));
    let first = p.get_stats();
    let second = p.get_stats();
    assert_eq!(first, Stats { processed_count: 2, verbose: true });
    assert_eq!(first, second);
}

#[test]
fn run_without_input_processes_nothing() {
    let (records, stats) = run_batch(false, None);
    assert!(records.is_empty());
    assert_eq!(stats, Stats { processed_count: 0, verbose: false });
}

#[test]
fn run_with_input_computes_records() {
    let (records, stats) = run_batch(true, Some(String::from("alpha\nbeta\ngamma")));
    let got: Vec<(usize, usize)> = records.iter().map(item).collect();
    assert_eq!(got, vec![(1, 5), (2, 4), (3, 5)]);
    assert_eq!(stats, Stats { processed_count: 3, verbose: true });
}

#[test]
fn error_messages_name_the_phase() {
    let e = RunError::InputRead(String::from("no such file"));
    assert_eq!(e.message(), "failed to read input: no such file");
    let e = RunError::OutputSerialization(String::from("bad"));
    assert_eq!(e.message(), "failed to serialize output: bad");
    let e = RunError::OutputWrite(String::from("denied"));
    assert_eq!(e.message(), "failed to write output: denied");
}

#[test]
fn process_stamps_an_rfc3339_utc_time() {
    let mut p = TreasuryManagerProcessor::new(false);
    let r = p.process("line");
    let ts = r.data.expect("record carries data").processed_at;
    assert!(ts.ends_with("+00:00"));
    assert!(chrono::DateTime::parse_from_rfc3339(&ts).is_ok());
}
