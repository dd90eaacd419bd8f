use crate::grade::{row_outcome, trimmed_cells, Grade, GradeView};
use vstd::prelude::*;

verus! {

/// Rows at the top of the results table that hold headings, not grades.
pub const HEADER_ROWS: usize = 2;

/// Position of the semester table among the selector tables, and of the link
/// within it, as the portal lays them out.
pub const SEMESTER_POSITION: usize = 1;

/// The record a row of trimmed cells stands for, if any.
pub open spec fn accepted_row(cells: Seq<Seq<char>>) -> Option<GradeView> {
    match row_outcome(cells) {
        Ok(g) => Some(g),
        Err(_) => None,
    }
}

/// The records that the rows of a results table give: the heading rows are
/// passed over, and rows that are incomplete or not graded yet are dropped.
pub open spec fn table_grades(rows: Seq<Vec<String>>) -> Seq<GradeView> {
    if rows.len() <= HEADER_ROWS {
        Seq::empty()
    } else {
        rows.map_values(|r: Vec<String>| trimmed_cells(r@)).skip(HEADER_ROWS as int).filter_map(
            |c: Seq<Seq<char>>| accepted_row(c),
        )
    }
}

/// Turns the text of the rows of the results table into records, in order.
pub fn grades_from_rows(rows: &Vec<Vec<String>>) -> (r: Vec<Grade>)
    ensures
        r@.map_values(|g: Grade| g@) == table_grades(rows@),
{
    let ghost body = rows@.map_values(|r: Vec<String>| trimmed_cells(r@)).skip(HEADER_ROWS as int);
    let ghost f = |c: Seq<Seq<char>>| accepted_row(c);
    let mut out: Vec<Grade> = Vec::new();
    if rows.len() <= HEADER_ROWS {
        assert(out@.map_values(|g: Grade| g@) =~= Seq::<GradeView>::empty());
        return out;
    }
    let mut i: usize = HEADER_ROWS;
    while i < rows.len()
        invariant
            HEADER_ROWS <= i <= rows.len(),
            body == rows@.map_values(|r: Vec<String>| trimmed_cells(r@)).skip(HEADER_ROWS as int),
            f == (|c: Seq<Seq<char>>| accepted_row(c)),
            out@.map_values(|g: Grade| g@) == body.take(i - HEADER_ROWS).filter_map(f),
        decreases rows.len() - i,
    {
        let ghost before = out@;
        let ghost k = i - HEADER_ROWS;
        proof {
            body.lemma_filter_map_take_succ(f, k);
            assert(body[k] == trimmed_cells(rows@[i as int]@));
        }
        match Grade::from_row(&rows[i]) {
            Ok(g) => {
                let ghost gv = g@;
                out.push(g);
                assert(out@.map_values(|g: Grade| g@) =~= before.map_values(|g: Grade| g@)
                    + seq![gv]);
            },
            Err(_) => {
                assert(out@.map_values(|g: Grade| g@) =~= before.map_values(|g: Grade| g@));
            },
        }
        i = i + 1;
    }
    assert(body.take(rows.len() - HEADER_ROWS) =~= body);
    out
}

/// Which of `count` matching elements holds the semester: none when there are
/// too few.
pub fn semester_index(count: usize) -> (r: Option<usize>)
    ensures
        count > SEMESTER_POSITION ==> r == Some(SEMESTER_POSITION),
        count <= SEMESTER_POSITION ==> r is None,
{
    if count > SEMESTER_POSITION {
        Some(SEMESTER_POSITION)
    } else {
        None
    }
}

/// Which of `count` matching tables holds the results: the last one, if any.
pub fn results_table_index(count: usize) -> (r: Option<usize>)
    ensures
        count > 0 ==> r == Some((count - 1) as usize),
        count == 0 ==> r is None,
{
    if count > 0 {
        Some(count - 1)
    } else {
        None
    }
}

} // verus!
