use block_scan::hash::TxHash;
use block_scan::prefix::matches_any;
use block_scan::scanner::{Diagnostic, Fetched, Request, ScanError, Scanner};
use block_scan::sink::sink_record;

/// What a whole scan did, as its driver saw it.
struct Trace {
    blocks: Vec<u64>,
    transactions: Vec<TxHash>,
    lines: Vec<String>,
    diagnostics: Vec<Diagnostic>,
}

fn id(n: u8) -> TxHash {
    let mut bytes = [0u8; 32];
    bytes[31] = n;
    bytes
}

fn strings(items: &[&str]) -> Vec<String> {
    items.iter().map(|s| s.to_string()).collect()
}

/// Runs a scan against a chain given by two functions, appending to `sink`.
fn drive(
    start: u64,
    end: u64,
    prefixes: &[&str],
    block_of: &dyn Fn(u64) -> Fetched<Vec<TxHash>>,
    text_of: &dyn Fn(TxHash) -> Fetched<String>,
    sink: &mut Vec<String>,
) -> Trace {
    let mut scanner = Scanner::new(start, end, strings(prefixes)).expect("a valid range");
    let mut trace =
        Trace { blocks: vec![], transactions: vec![], lines: vec![], diagnostics: vec![] };
    let mut next = scanner.request();
    loop {
        let outcome = match next {
            Request::Block(number) => {
                trace.blocks.push(number);
                scanner.accept_block(block_of(number)).expect("a block was asked for")
            }
            Request::Transaction(tx) => {
                trace.transactions.push(tx);
                scanner.accept_hash_text(text_of(tx)).expect("a transaction was asked for")
            }
            Request::Finished => break,
        };
        if let Some(line) = outcome.line {
            sink.push(line.clone());
            trace.lines.push(line);
        }
        if let Some(diagnostic) = outcome.diagnostic {
            trace.diagnostics.push(diagnostic);
        }
        assert_eq!(outcome.next, scanner.request());
        next = outcome.next;
    }
    assert!(scanner.is_finished());
    trace
}

fn two_hash_texts(tx: TxHash) -> Fetched<String> {
    if tx == id(1) {
        Fetched::Found("0xAAAA1111".to_string())
    } else if tx == id(2) {
        Fetched::Found("0xBBBB2222".to_string())
    } else {
        Fetched::Missing
    }
}

#[test]
fn single_block_one_of_two_matches() {
    let mut sink = Vec::new();
    let trace = drive(
        100,
        100,
        &["0xAAAA"],
        &|_| Fetched::Found(vec![id(1), id(2)]),
        &two_hash_texts,
        &mut sink,
    );
    assert_eq!(sink, vec!["0xAAAA1111".to_string()]);
    assert_eq!(trace.blocks, vec![100]);
    assert_eq!(trace.transactions, vec![id(1), id(2)]);
    assert!(trace.diagnostics.is_empty());
}

#[test]
fn failed_block_is_skipped_and_scan_goes_on() {
    let mut sink = Vec::new();
    let trace = drive(
        100,
        102,
        &["0x"],
        &|n| match n {
            100 => Fetched::Found(vec![id(1)]),
            101 => Fetched::Failed,
            _ => Fetched::Found(vec![id(2)]),
        },
        &two_hash_texts,
        &mut sink,
    );
    assert_eq!(sink, vec!["0xAAAA1111".to_string(), "0xBBBB2222".to_string()]);
    assert_eq!(trace.blocks, vec![100, 101, 102]);
    assert_eq!(trace.diagnostics, vec![Diagnostic::BlockFailed(101)]);
    assert_eq!(trace.transactions, vec![id(1), id(2)]);
}

#[test]
fn no_prefixes_nothing_written() {
    let mut sink = Vec::new();
    let trace = drive(
        1,
        3,
        &[],
        &|_| Fetched::Found(vec![id(1), id(2)]),
        &two_hash_texts,
        &mut sink,
    );
    assert!(sink.is_empty());
    assert_eq!(trace.transactions.len(), 6);
    assert!(!matches_any(&Vec::new(), "0xAAAA1111"));
    assert!(!matches_any(&Vec::new(), ""));
}

#[test]
fn empty_prefix_matches_every_transaction() {
    let mut sink = Vec::new();
    drive(
        1,
        2,
        &[""],
        &|_| Fetched::Found(vec![id(1), id(2)]),
        &two_hash_texts,
        &mut sink,
    );
    assert_eq!(
        sink,
        strings(&["0xAAAA1111", "0xBBBB2222", "0xAAAA1111", "0xBBBB2222"])
    );
    assert!(matches_any(&strings(&[""]), ""));
}

#[test]
fn prefix_test_is_exact_and_case_sensitive() {
    let prefixes = strings(&["0xd927889d", "0x8df811fa"]);
    assert!(matches_any(&prefixes, "0xd927889d00"));
    assert!(matches_any(&prefixes, "0x8df811fa"));
    assert!(!matches_any(&prefixes, "0xD927889D00"));
    assert!(!matches_any(&prefixes, "0xd927889"));
    assert!(!matches_any(&prefixes, "00xd927889d"));
    assert!(!matches_any(&prefixes, " 0x8df811fa"));
    assert!(!matches_any(&prefixes, ""));
    assert!(matches_any(&strings(&["é"]), "école"));
    assert!(!matches_any(&strings(&["e"]), "école"));
}

#[test]
fn duplicate_and_overlapping_prefixes_write_one_line() {
    let mut sink = Vec::new();
    drive(
        9,
        9,
        &["0xAAAA", "0xAAAA", "0xAA", ""],
        &|_| Fetched::Found(vec![id(1)]),
        &two_hash_texts,
        &mut sink,
    );
    assert_eq!(sink, strings(&["0xAAAA1111"]));
}

#[test]
fn blocks_are_asked_in_ascending_order_without_gaps() {
    let mut sink = Vec::new();
    let trace = drive(
        5,
        9,
        &["0x"],
        &|n| match n {
            5 => Fetched::Missing,
            6 => Fetched::Found(vec![]),
            7 => Fetched::Failed,
            8 => Fetched::Found(vec![id(3), id(1)]),
            _ => Fetched::Found(vec![id(2)]),
        },
        &two_hash_texts,
        &mut sink,
    );
    assert_eq!(trace.blocks, vec![5, 6, 7, 8, 9]);
    assert_eq!(
        trace.diagnostics,
        vec![
            Diagnostic::BlockMissing(5),
            Diagnostic::BlockFailed(7),
            Diagnostic::TransactionMissing(id(3)),
        ]
    );
    assert_eq!(sink, strings(&["0xAAAA1111", "0xBBBB2222"]));
}

#[test]
fn transactions_are_asked_in_the_order_listed() {
    let mut sink = Vec::new();
    let listed = vec![id(7), id(2), id(9), id(1), id(2)];
    let trace = drive(
        3,
        3,
        &["0xBBBB"],
        &|_| Fetched::Found(vec![id(7), id(2), id(9), id(1), id(2)]),
        &two_hash_texts,
        &mut sink,
    );
    assert_eq!(trace.transactions, listed);
    assert_eq!(sink, strings(&["0xBBBB2222", "0xBBBB2222"]));
}

#[test]
fn missing_block_does_not_stop_the_next() {
    let mut scanner = Scanner::new(10, 11, vec![]).unwrap();
    assert_eq!(scanner.request(), Request::Block(10));
    let outcome = scanner.accept_block(Fetched::Missing).unwrap();
    assert_eq!(outcome.line, None);
    assert_eq!(outcome.diagnostic, Some(Diagnostic::BlockMissing(10)));
    assert_eq!(outcome.next, Request::Block(11));
    let outcome = scanner.accept_block(Fetched::Missing).unwrap();
    assert_eq!(outcome.diagnostic, Some(Diagnostic::BlockMissing(11)));
    assert_eq!(outcome.next, Request::Finished);
    assert!(scanner.is_finished());
}

#[test]
fn failed_transaction_does_not_stop_the_next() {
    let mut scanner = Scanner::new(10, 11, strings(&["0x"])).unwrap();
    let outcome = scanner.accept_block(Fetched::Found(vec![id(1), id(2)])).unwrap();
    assert_eq!(outcome.diagnostic, None);
    assert_eq!(outcome.next, Request::Transaction(id(1)));
    let outcome = scanner.accept_hash_text(Fetched::Failed).unwrap();
    assert_eq!(outcome.line, None);
    assert_eq!(outcome.diagnostic, Some(Diagnostic::TransactionFailed(id(1))));
    assert_eq!(outcome.next, Request::Transaction(id(2)));
    let outcome = scanner.accept_hash_text(Fetched::Failed).unwrap();
    assert_eq!(outcome.diagnostic, Some(Diagnostic::TransactionFailed(id(2))));
    assert_eq!(outcome.next, Request::Block(11));
    let outcome = scanner.accept_block(Fetched::Found(vec![id(2)])).unwrap();
    assert_eq!(outcome.next, Request::Transaction(id(2)));
    let outcome = scanner.accept_hash_text(Fetched::Found("0xBBBB2222".to_string())).unwrap();
    assert_eq!(outcome.line, Some("0xBBBB2222".to_string()));
    assert_eq!(outcome.diagnostic, None);
    assert_eq!(outcome.next, Request::Finished);
}

#[test]
fn missing_transaction_is_reported_and_skipped() {
    let mut scanner = Scanner::new(0, 0, strings(&[""])).unwrap();
    scanner.accept_block(Fetched::Found(vec![id(4)])).unwrap();
    let outcome = scanner.accept_transaction(Fetched::Missing).unwrap();
    assert_eq!(outcome.line, None);
    assert_eq!(outcome.diagnostic, Some(Diagnostic::TransactionMissing(id(4))));
    assert_eq!(outcome.next, Request::Finished);
}

#[test]
fn second_scan_appends_the_same_lines_again() {
    let mut sink = Vec::new();
    for _ in 0..2 {
        drive(
            100,
            100,
            &["0xAAAA"],
            &|_| Fetched::Found(vec![id(1), id(2)]),
            &two_hash_texts,
            &mut sink,
        );
    }
    assert_eq!(sink, strings(&["0xAAAA1111", "0xAAAA1111"]));
}

#[test]
fn empty_range_is_refused() {
    assert_eq!(Scanner::new(5, 4, vec![]).err(), Some(ScanError::EmptyRange));
    assert_eq!(Scanner::new(u64::MAX, 0, strings(&[""])).err(), Some(ScanError::EmptyRange));
    assert!(Scanner::new(4, 4, vec![]).is_ok());
    assert!(Scanner::new(0, u64::MAX, vec![]).is_ok());
}

#[test]
fn last_possible_block_ends_the_scan() {
    let mut scanner = Scanner::new(u64::MAX, u64::MAX, vec![]).unwrap();
    assert_eq!(scanner.request(), Request::Block(u64::MAX));
    let outcome = scanner.accept_block(Fetched::Found(vec![])).unwrap();
    assert_eq!(outcome.next, Request::Finished);
    assert_eq!(outcome.diagnostic, None);
}

#[test]
fn reply_that_answers_nothing_is_refused() {
    let mut scanner = Scanner::new(1, 1, strings(&[""])).unwrap();
    assert_eq!(
        scanner.accept_hash_text(Fetched::Found("0x00".to_string())).err(),
        Some(ScanError::UnexpectedReply)
    );
    assert_eq!(scanner.accept_transaction(Fetched::Failed).err(), Some(ScanError::UnexpectedReply));
    assert_eq!(scanner.request(), Request::Block(1));
    scanner.accept_block(Fetched::Found(vec![id(1)])).unwrap();
    assert_eq!(scanner.accept_block(Fetched::Missing).err(), Some(ScanError::UnexpectedReply));
    assert_eq!(scanner.request(), Request::Transaction(id(1)));
    scanner.accept_transaction(Fetched::Found(id(1))).unwrap();
    assert!(scanner.is_finished());
    assert_eq!(scanner.accept_block(Fetched::Missing).err(), Some(ScanError::UnexpectedReply));
    assert_eq!(scanner.accept_transaction(Fetched::Missing).err(), Some(ScanError::UnexpectedReply));
    assert_eq!(scanner.request(), Request::Finished);
}

#[test]
fn fetched_hash_is_written_in_canonical_text() {
    let mut hash: TxHash = [0u8; 32];
    hash[0] = 0xd9;
    hash[1] = 0x27;
    hash[2] = 0x88;
    hash[3] = 0x9d;
    hash[4] = 0x0a;
    hash[31] = 0xf0;
    let mut scanner = Scanner::new(1, 1, strings(&["0xd927889d", "0x8df811fa"])).unwrap();
    scanner.accept_block(Fetched::Found(vec![id(1), id(2), id(3)])).unwrap();
    let outcome = scanner.accept_transaction(Fetched::Found(hash)).unwrap();
    assert_eq!(
        outcome.line,
        Some("0xd927889d0a0000000000000000000000000000000000000000000000000000f0".to_string())
    );
    assert_eq!(outcome.next, Request::Transaction(id(2)));
    hash[0] = 0xd8;
    let outcome = scanner.accept_transaction(Fetched::Found(hash)).unwrap();
    assert_eq!(outcome.line, None);
    assert_eq!(outcome.diagnostic, None);
    let mut scanner = Scanner::new(1, 1, strings(&["0xD927889D"])).unwrap();
    scanner.accept_block(Fetched::Found(vec![id(1)])).unwrap();
    hash[0] = 0xd9;
    assert_eq!(scanner.accept_transaction(Fetched::Found(hash)).unwrap().line, None);
}

#[test]
fn record_is_the_line_and_one_line_feed() {
    assert_eq!(sink_record("0xAAAA1111"), b"0xAAAA1111\n".to_vec());
    assert_eq!(sink_record(""), vec![10u8]);
    assert_eq!(sink_record("é"), vec![0xc3, 0xa9, 0x0a]);
}
