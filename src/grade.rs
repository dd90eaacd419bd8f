use vstd::prelude::*;

verus! {

/// The mathematical value of a grade record: its seven text cells.
pub struct GradeView {
    pub code: Seq<char>,
    pub label: Seq<char>,
    pub session1: Seq<char>,
    pub resultat1: Seq<char>,
    pub session2: Seq<char>,
    pub resultat2: Seq<char>,
    pub rang: Seq<char>,
}

/// One row of the grade report. Two grades are the same record exactly when
/// all seven fields are equal; there is no other key.
#[derive(Debug, Clone, Hash)]
pub struct Grade {
    pub code: String,
    pub label: String,
    pub session1: String,
    pub resultat1: String,
    pub session2: String,
    pub resultat2: String,
    pub rang: String,
}

impl View for Grade {
    type V = GradeView;

    open spec fn view(&self) -> GradeView {
        GradeView {
            code: self.code@,
            label: self.label@,
            session1: self.session1@,
            resultat1: self.resultat1@,
            session2: self.session2@,
            resultat2: self.resultat2@,
            rang: self.rang@,
        }
    }
}

impl PartialEq for Grade {
    fn eq(&self, o: &Grade) -> (r: bool)
        ensures
            r == (self@ == o@),
    {
        self.code == o.code && self.label == o.label && self.session1 == o.session1
            && self.resultat1 == o.resultat1 && self.session2 == o.session2 && self.resultat2
            == o.resultat2 && self.rang == o.rang
    }
}

impl vstd::std_specs::cmp::PartialEqSpecImpl for Grade {
    open spec fn obeys_eq_spec() -> bool {
        true
    }

    open spec fn eq_spec(&self, o: &Grade) -> bool {
        self@ == o@
    }
}

impl Eq for Grade {}

/// Why a row of the report yields no record. Both are ordinary: the row is skipped.
#[derive(Debug, Clone, Copy, PartialEq, Eq, Structural)]
pub enum RowError {
    /// The row holds fewer than seven cells.
    IncompleteRow,
    /// The first-session cell is empty: no grade is posted yet.
    NotYetGraded,
}

/// The cells of a row as text.
pub open spec fn cells_view(cells: Seq<String>) -> Seq<Seq<char>> {
    cells.map_values(|c: String| c@)
}

/// What a row of cells (already trimmed) stands for.
pub open spec fn row_outcome(cells: Seq<Seq<char>>) -> Result<GradeView, RowError> {
    if cells.len() < 7 {
        Err(RowError::IncompleteRow)
    } else if cells[2].len() == 0 {
        Err(RowError::NotYetGraded)
    } else {
        Ok(
            GradeView {
                code: cells[0],
                label: cells[1],
                session1: cells[2],
                resultat1: cells[3],
                session2: cells[4],
                resultat2: cells[5],
                rang: cells[6],
            },
        )
    }
}

/// A construction result, seen through the view of the grade.
pub open spec fn outcome_view(r: Result<Grade, RowError>) -> Result<GradeView, RowError> {
    match r {
        Ok(g) => Ok(g@),
        Err(e) => Err(e),
    }
}

/// The text that `str::trim` leaves of `s`.
pub uninterp spec fn trimmed(s: Seq<char>) -> Seq<char>;

/// The cells of a row once each is trimmed.
pub open spec fn trimmed_cells(cells: Seq<String>) -> Seq<Seq<char>> {
    cells.map_values(|c: String| trimmed(c@))
}

/// Relies on `str::trim`: the result depends on the text alone, and an empty
/// text stays empty.
#[verifier::external_body]
fn trim_cell(s: &String) -> (r: String)
    ensures
        r@ == trimmed(s@),
        s@.len() == 0 ==> r@.len() == 0,
{
    s.trim().to_string()
}

impl Grade {
    /// A copy of this record, field by field.
    pub fn duplicate(&self) -> (r: Grade)
        ensures
            r@ == self@,
    {
        Grade {
            code: self.code.clone(),
            label: self.label.clone(),
            session1: self.session1.clone(),
            resultat1: self.resultat1.clone(),
            session2: self.session2.clone(),
            resultat2: self.resultat2.clone(),
            rang: self.rang.clone(),
        }
    }

    /// Builds a record from cells that are already trimmed.
    pub fn from_trimmed(cells: &Vec<String>) -> (r: Result<Grade, RowError>)
        ensures
            outcome_view(r) == row_outcome(cells_view(cells@)),
    {
        if cells.len() < 7 {
            return Err(RowError::IncompleteRow);
        }
        if cells[2].as_str().unicode_len() == 0 {
            return Err(RowError::NotYetGraded);
        }
        let g = Grade {
            code: cells[0].clone(),
            label: cells[1].clone(),
            session1: cells[2].clone(),
            resultat1: cells[3].clone(),
            session2: cells[4].clone(),
            resultat2: cells[5].clone(),
            rang: cells[6].clone(),
        };
        Ok(g)
    }

    /// Builds a record from the text of the cells of one report row, trimming each
    /// cell: fewer than seven cells give `IncompleteRow`, an empty first-session
    /// cell gives `NotYetGraded`.
    pub fn from_row(cells: &Vec<String>) -> (r: Result<Grade, RowError>)
        ensures
            outcome_view(r) == row_outcome(trimmed_cells(cells@)),
            cells@.len() >= 7 && cells@[2]@.len() == 0 ==> r == Err::<Grade, RowError>(
                RowError::NotYetGraded,
            ),
    {
        let mut t: Vec<String> = Vec::new();
        let mut i: usize = 0;
        while i < cells.len()
            invariant
                i <= cells.len(),
                t.len() == i,
                forall|j: int| 0 <= j < i ==> #[trigger] t@[j]@ == trimmed(cells@[j]@),
                forall|j: int| 0 <= j < i && cells@[j]@.len() == 0 ==> #[trigger] t@[j]@.len() == 0,
            decreases cells.len() - i,
        {
            let c = trim_cell(&cells[i]);
            t.push(c);
            i = i + 1;
        }
        assert(cells_view(t@) =~= trimmed_cells(cells@));
        Grade::from_trimmed(&t)
    }
}

/// A row whose first-session cell is empty is never accepted, whatever the
/// other cells hold.
pub proof fn lemma_empty_session_rejected(cells: Seq<Seq<char>>)
    requires
        cells.len() >= 7,
        cells[2].len() == 0,
    ensures
        row_outcome(cells) == Err::<GradeView, RowError>(RowError::NotYetGraded),
{
}

} // verus!
