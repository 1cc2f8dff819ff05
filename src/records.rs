//! Records of three real numbers, one per line of a position or velocity
//! file, and the rules by which a whole file is accepted or refused.

use vstd::prelude::*;
use crate::number::{is_real_literal, is_real_text};
use crate::text::{split_words, words};

verus! {

/// The three written coordinates of one record, in the order x, y, z.
pub struct Triple {
    pub x: Vec<char>,
    pub y: Vec<char>,
    pub z: Vec<char>,
}

impl View for Triple {
    type V = Seq<Seq<char>>;

    open spec fn view(&self) -> Seq<Seq<char>> {
        seq![self.x@, self.y@, self.z@]
    }
}

/// Why one line is not a record.
#[derive(Clone, Copy, Debug, PartialEq, Eq, Structural)]
pub enum RecordError {
    /// The line holds `found` words where three are needed.
    WrongFieldCount { found: usize },
    /// The word at position `field` (from 0) is not a real number.
    NotANumber { field: usize },
}

/// Why a file of records is refused.
#[derive(Clone, Copy, Debug, PartialEq, Eq, Structural)]
pub enum LoadError {
    /// Line `line` (from 0) is not a record.
    Record { line: usize, error: RecordError },
    /// Line `line` is a record for a particle that does not exist.
    TooManyRecords { line: usize },
}

impl LoadError {
    /// The line, counted from 0, at which the file was refused.
    pub open spec fn line_spec(self) -> usize {
        match self {
            LoadError::Record { line, .. } => line,
            LoadError::TooManyRecords { line } => line,
        }
    }

    /// The line, counted from 0, at which the file was refused.
    pub fn line(&self) -> (r: usize)
        ensures
            r == self.line_spec(),
    {
        match self {
            LoadError::Record { line, .. } => *line,
            LoadError::TooManyRecords { line } => *line,
        }
    }
}

/// What a line reads as: its three words, or why it is not a record.
pub open spec fn record_of(line: Seq<char>) -> Result<Seq<Seq<char>>, RecordError> {
    let w = words(line);
    if w.len() != 3 {
        Err(RecordError::WrongFieldCount { found: w.len() as usize })
    } else if !is_real_literal(w[0]) {
        Err(RecordError::NotANumber { field: 0 })
    } else if !is_real_literal(w[1]) {
        Err(RecordError::NotANumber { field: 1 })
    } else if !is_real_literal(w[2]) {
        Err(RecordError::NotANumber { field: 2 })
    } else {
        Ok(w)
    }
}

/// What is wrong with line `i` of a file whose records may set at most
/// `limit` particles, if anything.
pub open spec fn line_fault(lines: Seq<Seq<char>>, i: int, limit: int) -> Option<LoadError> {
    match record_of(lines[i]) {
        Err(e) => Some(LoadError::Record { line: i as usize, error: e }),
        Ok(_) => if i >= limit {
            Some(LoadError::TooManyRecords { line: i as usize })
        } else {
            None
        },
    }
}

/// `r` is what loading `lines` with at most `limit` records gives: every
/// record in order, or the fault of the first faulty line.
pub open spec fn load_outcome(
    lines: Seq<Seq<char>>,
    limit: int,
    r: Result<Seq<Seq<Seq<char>>>, LoadError>,
) -> bool {
    match r {
        Ok(recs) => {
            &&& recs.len() == lines.len()
            &&& forall|i: int|
                0 <= i < lines.len() ==> #[trigger] line_fault(lines, i, limit) is None
                    && record_of(lines[i]) == Ok::<Seq<Seq<char>>, RecordError>(recs[i])
        },
        Err(e) => {
            &&& e.line_spec() < lines.len()
            &&& line_fault(lines, e.line_spec() as int, limit) == Some(e)
            &&& forall|k: int| 0 <= k < e.line_spec() ==> #[trigger] line_fault(lines, k, limit) is None
        },
    }
}

/// The text of each line.
pub open spec fn lines_view(lines: Seq<Vec<char>>) -> Seq<Seq<char>> {
    lines.map_values(|l: Vec<char>| l@)
}

/// The words of each record, or the error.
pub open spec fn triples_view(r: Result<Vec<Triple>, LoadError>) -> Result<
    Seq<Seq<Seq<char>>>,
    LoadError,
> {
    match r {
        Ok(v) => Ok(v@.map_values(|t: Triple| t@)),
        Err(e) => Err(e),
    }
}

/// Reads one line as a record of three real numbers.
pub fn parse_record(line: &[char]) -> (r: Result<Triple, RecordError>)
    ensures
        match record_of(line@) {
            Ok(w) => r matches Ok(t) && t@ == w,
            Err(e) => r == Err::<Triple, RecordError>(e),
        },
{
    let mut w = split_words(line);
    let n = w.len();
    if n != 3 {
        return Err(RecordError::WrongFieldCount { found: n });
    }
    if !is_real_text(w[0].as_slice()) {
        return Err(RecordError::NotANumber { field: 0 });
    }
    if !is_real_text(w[1].as_slice()) {
        return Err(RecordError::NotANumber { field: 1 });
    }
    if !is_real_text(w[2].as_slice()) {
        return Err(RecordError::NotANumber { field: 2 });
    }
    let z = w.pop().unwrap();
    let y = w.pop().unwrap();
    let x = w.pop().unwrap();
    let t = Triple { x, y, z };
    assert(t@ =~= words(line@));
    Ok(t)
}

/// Reads `lines` as records for at most `limit` particles.
fn load_records(lines: &Vec<Vec<char>>, limit: usize) -> (r: Result<Vec<Triple>, LoadError>)
    ensures
        load_outcome(lines_view(lines@), limit as int, triples_view(r)),
{
    let ghost ls = lines_view(lines@);
    let mut out: Vec<Triple> = Vec::new();
    let mut i: usize = 0;
    while i < lines.len()
        invariant
            i <= lines@.len(),
            ls == lines_view(lines@),
            out@.len() == i,
            forall|k: int|
                0 <= k < i ==> #[trigger] line_fault(ls, k, limit as int) is None
                    && record_of(ls[k]) == Ok::<Seq<Seq<char>>, RecordError>(out@[k]@),
        decreases lines@.len() - i,
    {
        assert(ls[i as int] == lines@[i as int]@);
        match parse_record(lines[i].as_slice()) {
            Err(e) => {
                let r = Err(LoadError::Record { line: i, error: e });
                assert(line_fault(ls, i as int, limit as int) == Some(
                    LoadError::Record { line: i, error: e },
                ));
                return r;
            },
            Ok(t) => {
                if i >= limit {
                    assert(line_fault(ls, i as int, limit as int) == Some(
                        LoadError::TooManyRecords { line: i },
                    ));
                    return Err(LoadError::TooManyRecords { line: i });
                }
                out.push(t);
            },
        }
        i = i + 1;
    }
    let r = Ok(out);
    assert(triples_view(r) matches Ok(recs) && recs.len() == ls.len() && forall|k: int|
        0 <= k < ls.len() ==> recs[k] == out@[k]@);
    r
}

/// Reads a position file given as its lines: one particle for each line,
/// in order. Every line must be a record of three real numbers.
pub fn load_positions(lines: &Vec<Vec<char>>) -> (r: Result<Vec<Triple>, LoadError>)
    ensures
        load_outcome(lines_view(lines@), lines@.len() as int, triples_view(r)),
{
    load_records(lines, lines.len())
}

/// Reads a velocity file given as its lines, for a set of `n_particles`
/// particles: line `i` is the velocity of particle `i`. Every line must be a
/// record of three real numbers, and no line may name a particle past the
/// last.
pub fn load_velocities(lines: &Vec<Vec<char>>, n_particles: usize) -> (r: Result<
    Vec<Triple>,
    LoadError,
>)
    ensures
        load_outcome(lines_view(lines@), n_particles as int, triples_view(r)),
{
    load_records(lines, n_particles)
}

/// A velocity file that is accepted for a set of `n_particles` particles
/// has no more records than there are particles, so record `i` always has a
/// particle `i` to set.
pub proof fn lemma_velocities_fit(
    lines: Seq<Seq<char>>,
    n_particles: int,
    recs: Seq<Seq<Seq<char>>>,
)
    requires
        0 <= n_particles,
        load_outcome(lines, n_particles, Ok(recs)),
    ensures
        lines.len() <= n_particles,
        recs.len() <= n_particles,
{
    if lines.len() > 0 {
        let last = lines.len() - 1;
        assert(line_fault(lines, last, n_particles) is None);
    }
}

} // verus!
