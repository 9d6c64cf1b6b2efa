//! The list of EPCs kept in a spreadsheet: the second column of its first
//! sheet, one EPC per row.
use vstd::prelude::*;

verus! {

/// Why no EPC list could be read.
#[derive(PartialEq, Eq, Structural, Clone, Copy, Debug)]
pub enum EpcListError {
    /// The workbook has no readable sheet named `Sheet1`.
    NoSheet,
}

/// The second cell of every row, in order.
pub open spec fn second_column(rows: Seq<Vec<String>>) -> Seq<Seq<char>> {
    Seq::new(rows.len(), |i: int| rows[i]@[1]@)
}

/// The EPC list of a sheet given as rows of cell texts (`None` when the
/// workbook has no readable `Sheet1`): the text of each row's second cell.
pub fn get_epc_vec(sheet: Option<Vec<Vec<String>>>) -> (epcs: Result<Vec<String>, EpcListError>)
    requires
        sheet matches Some(rows) ==> forall|i: int| 0 <= i < rows@.len() ==> #[trigger] rows@[i]@.len() >= 2,
    ensures
        sheet is None ==> epcs == Err::<Vec<String>, EpcListError>(EpcListError::NoSheet),
        sheet matches Some(rows) ==> (epcs matches Ok(v) && Seq::new(v@.len(), |i: int| v@[i]@) == second_column(rows@)),
{
    match sheet {
        Some(rows) => {
            let mut epc_vec: Vec<String> = Vec::new();
            let mut i: usize = 0;
            while i < rows.len()
                invariant
                    i <= rows@.len(),
                    forall|k: int| 0 <= k < rows@.len() ==> #[trigger] rows@[k]@.len() >= 2,
                    epc_vec@.len() == i,
                    forall|k: int| 0 <= k < i ==> #[trigger] epc_vec@[k]@ == rows@[k]@[1]@,
                decreases rows@.len() - i,
            {
                assert(rows@[i as int]@.len() >= 2);
                let log: String = rows[i][1].clone();
                epc_vec.push(log);
                i = i + 1;
            }
            assert(Seq::new(epc_vec@.len(), |k: int| epc_vec@[k]@) =~= second_column(rows@));
            Ok(epc_vec)
        },
        None => Err(EpcListError::NoSheet),
    }
}

} // verus!
