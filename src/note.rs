use crate::grade::{row_outcome, trimmed_cells, Grade, GradeView, RowError};
use vstd::prelude::*;

verus! {

/// A report row under its other name: the same seven cells as a `Grade`.
#[derive(Debug, Clone, Hash)]
pub struct Note {
    pub code: String,
    pub label: String,
    pub session1: String,
    pub resultat1: String,
    pub session2: String,
    pub resultat2: String,
    pub rang: String,
}

impl View for Note {
    type V = GradeView;

    open spec fn view(&self) -> GradeView {
        GradeView {
            code: self.code@,
            label: self.label@,
            session1: self.session1@,
            resultat1: self.resultat1@,
            session2: self.session2@,
            resultat2: self.resultat2@,
            rang: self.rang@,
        }
    }
}

impl PartialEq for Note {
    fn eq(&self, o: &Note) -> (r: bool)
        ensures
            r == (self@ == o@),
    {
        self.code == o.code && self.label == o.label && self.session1 == o.session1
            && self.resultat1 == o.resultat1 && self.session2 == o.session2 && self.resultat2
            == o.resultat2 && self.rang == o.rang
    }
}

impl vstd::std_specs::cmp::PartialEqSpecImpl for Note {
    open spec fn obeys_eq_spec() -> bool {
        true
    }

    open spec fn eq_spec(&self, o: &Note) -> bool {
        self@ == o@
    }
}

impl Eq for Note {}

impl Note {
    /// Builds a note from the text of the cells of one report row, under the
    /// same rules as `Grade::from_row`.
    pub fn from_row(cells: &Vec<String>) -> (r: Result<Note, RowError>)
        ensures
            match r {
                Ok(n) => row_outcome(trimmed_cells(cells@)) == Ok::<GradeView, RowError>(n@),
                Err(e) => row_outcome(trimmed_cells(cells@)) == Err::<GradeView, RowError>(e),
            },
    {
        match Grade::from_row(cells) {
            Ok(g) => Ok(
                Note {
                    code: g.code,
                    label: g.label,
                    session1: g.session1,
                    resultat1: g.resultat1,
                    session2: g.session2,
                    resultat2: g.resultat2,
                    rang: g.rang,
                },
            ),
            Err(e) => Err(e),
        }
    }
}

} // verus!
