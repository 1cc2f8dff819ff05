use mdsim::records::{load_positions, load_velocities, parse_record, LoadError, RecordError};

fn chars(s: &str) -> Vec<char> {
    s.chars().collect()
}

fn lines(ls: &[&str]) -> Vec<Vec<char>> {
    ls.iter().map(|l| chars(l)).collect()
}

fn text(v: &[char]) -> String {
    v.iter().collect()
}

#[test]
fn record_of_three_numbers() {
    let t = parse_record(&chars("0.0 0.0 0.0")).unwrap();
    assert_eq!(text(&t.x), "0.0");
    assert_eq!(text(&t.y), "0.0");
    assert_eq!(text(&t.z), "0.0");
}

#[test]
fn record_with_mixed_blanks() {
    let t = parse_record(&chars("  1.5\t-2e3   +.25\r")).unwrap();
    assert_eq!(text(&t.x), "1.5");
    assert_eq!(text(&t.y), "-2e3");
    assert_eq!(text(&t.z), "+.25");
}

#[test]
fn record_split_by_unicode_blank() {
    let t = parse_record(&chars("1\u{a0}2\u{3000}3")).unwrap();
    assert_eq!(text(&t.x), "1");
    assert_eq!(text(&t.y), "2");
    assert_eq!(text(&t.z), "3");
}

#[test]
fn record_with_two_fields() {
    assert_eq!(
        parse_record(&chars("1.0 2.0")).err(),
        Some(RecordError::WrongFieldCount { found: 2 })
    );
}

#[test]
fn record_with_four_fields() {
    assert_eq!(
        parse_record(&chars("1 2 3 4")).err(),
        Some(RecordError::WrongFieldCount { found: 4 })
    );
}

#[test]
fn empty_line_is_no_record() {
    assert_eq!(
        parse_record(&chars("")).err(),
        Some(RecordError::WrongFieldCount { found: 0 })
    );
    assert_eq!(
        parse_record(&chars(" \t ")).err(),
        Some(RecordError::WrongFieldCount { found: 0 })
    );
}

#[test]
fn record_with_a_word() {
    assert_eq!(
        parse_record(&chars("1.0 x 2.0")).err(),
        Some(RecordError::NotANumber { field: 1 })
    );
    assert_eq!(
        parse_record(&chars("1.0 2.0 3e")).err(),
        Some(RecordError::NotANumber { field: 2 })
    );
    assert_eq!(
        parse_record(&chars("- 2.0 3")).err(),
        Some(RecordError::NotANumber { field: 0 })
    );
}

#[test]
fn positions_in_file_order() {
    let recs = load_positions(&lines(&["0.0 0.0 0.0", "2.0 0.0 0.0"])).unwrap();
    assert_eq!(recs.len(), 2);
    assert_eq!(text(&recs[0].x), "0.0");
    assert_eq!(text(&recs[1].x), "2.0");
    assert_eq!(text(&recs[1].z), "0.0");
}

#[test]
fn empty_position_file() {
    assert_eq!(load_positions(&lines(&[])).unwrap().len(), 0);
}

#[test]
fn position_line_with_two_fields_is_fatal() {
    let r = load_positions(&lines(&["0.0 0.0 0.0", "2.0 0.0", "1.0 1.0 1.0"]));
    let e = r.err().unwrap();
    assert_eq!(
        e,
        LoadError::Record { line: 1, error: RecordError::WrongFieldCount { found: 2 } }
    );
    assert_eq!(e.line(), 1);
}

#[test]
fn first_fault_is_reported() {
    let r = load_positions(&lines(&["1 2 3", "a b c", "1 2"]));
    assert_eq!(
        r.err(),
        Some(LoadError::Record { line: 1, error: RecordError::NotANumber { field: 0 } })
    );
}

#[test]
fn velocities_for_every_particle() {
    let recs = load_velocities(&lines(&["0 0 0", "1 -1 0.5"]), 2).unwrap();
    assert_eq!(recs.len(), 2);
    assert_eq!(text(&recs[1].y), "-1");
    assert_eq!(text(&recs[1].z), "0.5");
}

#[test]
fn fewer_velocities_than_particles() {
    let recs = load_velocities(&lines(&["0 0 0"]), 3).unwrap();
    assert_eq!(recs.len(), 1);
}

#[test]
fn more_velocities_than_particles_is_fatal() {
    let r = load_velocities(&lines(&["0 0 0", "1 1 1", "2 2 2"]), 2);
    let e = r.err().unwrap();
    assert_eq!(e, LoadError::TooManyRecords { line: 2 });
    assert_eq!(e.line(), 2);
}

#[test]
fn malformed_velocity_before_bound() {
    let r = load_velocities(&lines(&["0 0 0", "1 1"]), 1);
    assert_eq!(
        r.err(),
        Some(LoadError::Record { line: 1, error: RecordError::WrongFieldCount { found: 2 } })
    );
}
