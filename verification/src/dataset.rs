//! The assembled flat table: an ordered sequence of rows under the fixed
//! schema. A dataset is an immutable snapshot once assembled; filtering
//! always produces a new table.

use vstd::prelude::*;

use crate::datatypes::spec_datatype_of;
use crate::errors::ErrModel;
use crate::errors::SigError;
use crate::parser::FileInput;
use crate::parser::SigMFParser;
use crate::parser::spec_annotations;
use crate::parser::spec_data_path;
use crate::parser::spec_input_error;
use crate::parser::spec_input_ok;
use crate::parser::spec_ml_of;
use crate::parser::spec_row_of;
use crate::row::Row;
use crate::row::RowModel;

verus! {

/// The ordered sequence of all rows produced from one or more files.
#[derive(Debug)]
pub struct Dataset {
    /// The rows, in discovery order.
    pub rows: Vec<Row>,
}

impl View for Dataset {
    type V = Seq<RowModel>;

    open spec fn view(&self) -> Seq<RowModel> {
        self.rows@.map_values(|r: Row| r@)
    }
}

impl Dataset {
    /// An empty table.
    pub fn new() -> (d: Dataset)
        ensures
            d@ =~= Seq::<RowModel>::empty(),
    {
        Dataset { rows: Vec::new() }
    }

    /// Number of rows.
    pub fn height(&self) -> (r: usize)
        ensures
            r == self@.len(),
    {
        self.rows.len()
    }

    /// Appends another table's rows after this table's rows, preserving
    /// order.
    pub fn concat(self, other: Dataset) -> (r: Dataset)
        ensures
            r@ == self@ + other@,
    {
        let mut rows = self.rows;
        let mut other_rows = other.rows;
        let ghost left = rows@;
        let ghost right = other_rows@;
        rows.append(&mut other_rows);
        let d = Dataset { rows };
        proof {
            assert(d@ =~= left.map_values(|r: Row| r@) + right.map_values(|r: Row| r@));
        }
        d
    }

    /// A borrowed row.
    pub fn get_row(&self, i: usize) -> (r: &Row)
        requires
            i < self@.len(),
        ensures
            r@ == self@[i as int],
    {
        &self.rows[i]
    }

    /// Whether two tables hold equal rows in equal order.
    #[verifier::loop_isolation(false)]
    pub fn eq_dataset(&self, other: &Dataset) -> (r: bool)
        ensures
            r == (self@ == other@),
    {
        if self.rows.len() != other.rows.len() {
            return false;
        }
        let n = self.rows.len();
        let mut i: usize = 0;
        while i < n
            invariant
                i <= n,
                n == self@.len() == other@.len(),
                forall|k: int| 0 <= k < i ==> self@[k] == other@[k],
            decreases n - i,
        {
            if !self.rows[i].eq_row(&other.rows[i]) {
                proof {
                    assert(self@[i as int] == self.rows@[i as int]@);
                    assert(other@[i as int] == other.rows@[i as int]@);
                }
                return false;
            }
            i += 1;
        }
        proof {
            assert(self@ =~= other@);
        }
        true
    }
}

/// The rows one validating file input contributes: one per ML annotation,
/// or a single defaulted row. Meaningful when the input validates.
pub open spec fn spec_file_rows(input: FileInput) -> Seq<RowModel> {
    let md = input.metadata->0;
    let dt = spec_datatype_of(md.global.datatype@)->0;
    let path = spec_data_path(input.meta_path@);
    let mls = spec_ml_of(spec_annotations(md));
    if mls.len() == 0 {
        seq![spec_row_of(md, dt, path, input.file_size_bytes, None)]
    } else {
        Seq::new(
            mls.len(),
            |i: int| spec_row_of(md, dt, path, input.file_size_bytes, Some(mls[i])),
        )
    }
}

/// All rows a sequence of file inputs contributes, in input order,
/// skipping the inputs that fail to validate.
pub open spec fn spec_assembled_rows(inputs: Seq<FileInput>) -> Seq<RowModel>
    decreases inputs.len(),
{
    if inputs.len() == 0 {
        Seq::empty()
    } else {
        (if spec_input_ok(inputs[0]) {
            spec_file_rows(inputs[0])
        } else {
            Seq::empty()
        }) + spec_assembled_rows(inputs.drop_first())
    }
}

/// The recorded failures of a sequence of file inputs, in input order:
/// each failing input's path and error.
pub open spec fn spec_failures(inputs: Seq<FileInput>) -> Seq<(Seq<char>, ErrModel)>
    decreases inputs.len(),
{
    if inputs.len() == 0 {
        Seq::empty()
    } else {
        (if spec_input_ok(inputs[0]) {
            Seq::empty()
        } else {
            seq![(inputs[0].meta_path@, spec_input_error(inputs[0]))]
        }) + spec_failures(inputs.drop_first())
    }
}

/// The index of the first input that fails to validate, if any.
pub open spec fn spec_first_bad(inputs: Seq<FileInput>) -> Option<int>
    decreases inputs.len(),
{
    if inputs.len() == 0 {
        None
    } else if !spec_input_ok(inputs[0]) {
        Some(0)
    } else {
        match spec_first_bad(inputs.drop_first()) {
            Some(j) => Some(j + 1),
            None => None,
        }
    }
}

/// Appending one input extends the assembled rows by that input's
/// contribution.
pub proof fn lemma_assembled_rows_push(inputs: Seq<FileInput>, x: FileInput)
    ensures
        spec_assembled_rows(inputs.push(x)) == spec_assembled_rows(inputs) + (if spec_input_ok(x) {
            spec_file_rows(x)
        } else {
            Seq::empty()
        }),
    decreases inputs.len(),
{
    let p = inputs.push(x);
    reveal_with_fuel(spec_assembled_rows, 3);
    if inputs.len() == 0 {
        assert(p[0] == x);
        assert(p.drop_first() =~= Seq::<FileInput>::empty());
        assert(spec_assembled_rows(p) =~= spec_assembled_rows(inputs) + (if spec_input_ok(x) {
            spec_file_rows(x)
        } else {
            Seq::empty()
        }));
    } else {
        assert(p[0] == inputs[0]);
        assert(p.drop_first() =~= inputs.drop_first().push(x));
        lemma_assembled_rows_push(inputs.drop_first(), x);
        assert(spec_assembled_rows(p) =~= spec_assembled_rows(inputs) + (if spec_input_ok(x) {
            spec_file_rows(x)
        } else {
            Seq::empty()
        }));
    }
}

/// Assembly distributes over concatenation of input lists: the rows of
/// files discovered as one list equal the rows of its two halves
/// assembled separately and concatenated, in the same order.
pub proof fn lemma_assembled_rows_concat(a: Seq<FileInput>, b: Seq<FileInput>)
    ensures
        spec_assembled_rows(a + b) == spec_assembled_rows(a) + spec_assembled_rows(b),
    decreases a.len(),
{
    reveal_with_fuel(spec_assembled_rows, 2);
    if a.len() == 0 {
        assert(a + b =~= b);
        assert(spec_assembled_rows(a) + spec_assembled_rows(b) =~= spec_assembled_rows(b));
    } else {
        assert((a + b)[0] == a[0]);
        assert((a + b).len() > 0);
        assert((a + b).drop_first() =~= a.drop_first() + b);
        lemma_assembled_rows_concat(a.drop_first(), b);
        assert(spec_assembled_rows(a + b) =~= spec_assembled_rows(a) + spec_assembled_rows(b));
    }
}

/// Appending one input extends the recorded failures by that input's
/// failure, if it fails.
pub proof fn lemma_failures_push(inputs: Seq<FileInput>, x: FileInput)
    ensures
        spec_failures(inputs.push(x)) == spec_failures(inputs) + (if spec_input_ok(x) {
            Seq::empty()
        } else {
            seq![(x.meta_path@, spec_input_error(x))]
        }),
    decreases inputs.len(),
{
    let p = inputs.push(x);
    reveal_with_fuel(spec_failures, 3);
    if inputs.len() == 0 {
        assert(p[0] == x);
        assert(p.drop_first() =~= Seq::<FileInput>::empty());
        assert(spec_failures(p) =~= spec_failures(inputs) + (if spec_input_ok(x) {
            Seq::empty()
        } else {
            seq![(x.meta_path@, spec_input_error(x))]
        }));
    } else {
        assert(p[0] == inputs[0]);
        assert(p.drop_first() =~= inputs.drop_first().push(x));
        lemma_failures_push(inputs.drop_first(), x);
        assert(spec_failures(p) =~= spec_failures(inputs) + (if spec_input_ok(x) {
            Seq::empty()
        } else {
            seq![(x.meta_path@, spec_input_error(x))]
        }));
    }
}

/// `spec_first_bad` is characterized by the first failing index.
pub proof fn lemma_first_bad_is(inputs: Seq<FileInput>, i: int)
    requires
        0 <= i <= inputs.len(),
        forall|k: int| 0 <= k < i ==> spec_input_ok(#[trigger] inputs[k]),
        i < inputs.len() ==> !spec_input_ok(inputs[i]),
    ensures
        spec_first_bad(inputs) == if i == inputs.len() {
            None::<int>
        } else {
            Some(i)
        },
    decreases inputs.len(),
{
    if inputs.len() > 0 && i > 0 {
        lemma_first_bad_is(inputs.drop_first(), i - 1);
    }
}

/// The outcome of a failure-tolerant assembly run: the concatenated table
/// and the per-file failures that were recorded and skipped.
pub struct Assembled {
    /// All rows of the inputs that validated, in input order.
    pub dataset: Dataset,
    /// Path and error of each input that failed, in input order.
    pub failures: Vec<(String, SigError)>,
}

/// The dataset assembler.
pub struct SigMFDataset;

impl SigMFDataset {
    /// Assembles a table from per-file inputs, tolerating per-file
    /// failures: each failing input is recorded and skipped, and the run
    /// fails only when no input yields any row, with
    /// [`SigError::NoValidFiles`].
    #[verifier::loop_isolation(false)]
    pub fn assemble(inputs: Vec<FileInput>) -> (r: Result<Assembled, SigError>)
        ensures
            r is Ok <==> spec_assembled_rows(inputs@).len() > 0,
            r matches Ok(a) ==> {
                &&& a.dataset@ == spec_assembled_rows(inputs@)
                &&& a.failures@.len() == spec_failures(inputs@).len()
                &&& forall|i: int|
                    0 <= i < spec_failures(inputs@).len() ==> ((#[trigger] a.failures@[i]).0@
                        == spec_failures(inputs@)[i].0 && a.failures@[i].1@ == spec_failures(
                        inputs@,
                    )[i].1)
            },
            r matches Err(e) ==> e@ == ErrModel::NoValidFiles && spec_assembled_rows(inputs@).len()
                == 0,
    {
        let ghost all = inputs@;
        let mut pending = inputs;
        let total = pending.len();
        proof {
            assert(all.len() == total);
        }
        let mut rows: Vec<Row> = Vec::new();
        let mut failures: Vec<(String, SigError)> = Vec::new();
        let mut processed: usize = 0;
        while pending.len() > 0
            invariant
                all.len() <= usize::MAX,
                processed == all.len() - pending@.len(),
                pending@ =~= all.skip(processed as int),
                rows@.map_values(|r: Row| r@) =~= spec_assembled_rows(all.take(processed as int)),
                failures@.len() == spec_failures(all.take(processed as int)).len(),
                forall|i: int|
                    0 <= i < failures@.len() ==> ((#[trigger] failures@[i]).0@ == spec_failures(
                        all.take(processed as int),
                    )[i].0 && failures@[i].1@ == spec_failures(all.take(processed as int))[i].1),
            decreases pending@.len(),
        {
            let input = pending.remove(0);
            proof {
                assert(input == all[processed as int]);
                assert(pending@ =~= all.skip(processed as int + 1));
                assert(all.take(processed as int + 1) =~= all.take(processed as int).push(input));
                lemma_assembled_rows_push(all.take(processed as int), input);
                lemma_failures_push(all.take(processed as int), input);
            }
            let fs = input.file_size_bytes;
            let path_copy = input.meta_path.clone();
            match SigMFParser::from_input(input) {
                Ok(p) => {
                    let d = p.to_summary_rows(fs);
                    proof {
                        assert(d@ =~= spec_file_rows(all[processed as int]));
                        assert(rows@.map_values(|r: Row| r@) + d.rows@.map_values(|r: Row| r@)
                            =~= spec_assembled_rows(all.take(processed as int + 1)));
                    }
                    let ghost rows_before = rows@;
                    let mut new_rows = d.rows;
                    rows.append(&mut new_rows);
                    proof {
                        assert(rows@.map_values(|r: Row| r@) =~= rows_before.map_values(
                            |r: Row| r@,
                        ) + spec_file_rows(all[processed as int]));
                    }
                },
                Err(e) => {
                    failures.push((path_copy, e));
                },
            }
            processed += 1;
        }
        proof {
            assert(all.take(processed as int) =~= all);
        }
        if rows.len() == 0 {
            proof {
                assert(spec_assembled_rows(all).len() == 0);
            }
            return Err(SigError::NoValidFiles);
        }
        Ok(Assembled { dataset: Dataset { rows }, failures })
    }

    /// Assembles a table from per-file inputs strictly: the first failing
    /// input aborts the run with its error, and an empty input list fails
    /// with [`SigError::NoValidFiles`].
    #[verifier::loop_isolation(false)]
    pub fn from_files(inputs: Vec<FileInput>) -> (r: Result<Dataset, SigError>)
        ensures
            inputs@.len() == 0 ==> (r matches Err(e) && e@ == ErrModel::NoValidFiles),
            spec_first_bad(inputs@) matches Some(j) ==> (r matches Err(e) && e@
                == spec_input_error(inputs@[j])),
            inputs@.len() > 0 && spec_first_bad(inputs@) is None ==> (r matches Ok(d) && d@
                == spec_assembled_rows(inputs@)),
    {
        let ghost all = inputs@;
        if inputs.len() == 0 {
            return Err(SigError::NoValidFiles);
        }
        let mut pending = inputs;
        let total = pending.len();
        proof {
            assert(all.len() == total);
        }
        let mut rows: Vec<Row> = Vec::new();
        let mut processed: usize = 0;
        while pending.len() > 0
            invariant
                all.len() <= usize::MAX,
                processed == all.len() - pending@.len(),
                pending@ =~= all.skip(processed as int),
                forall|k: int| 0 <= k < processed ==> spec_input_ok(#[trigger] all[k]),
                rows@.map_values(|r: Row| r@) =~= spec_assembled_rows(all.take(processed as int)),
            decreases pending@.len(),
        {
            let input = pending.remove(0);
            proof {
                assert(input == all[processed as int]);
                assert(pending@ =~= all.skip(processed as int + 1));
                assert(all.take(processed as int + 1) =~= all.take(processed as int).push(input));
                lemma_assembled_rows_push(all.take(processed as int), input);
            }
            let fs = input.file_size_bytes;
            match SigMFParser::from_input(input) {
                Ok(p) => {
                    let d = p.to_summary_rows(fs);
                    proof {
                        assert(d@ =~= spec_file_rows(all[processed as int]));
                    }
                    let ghost rows_before = rows@;
                    let mut new_rows = d.rows;
                    rows.append(&mut new_rows);
                    proof {
                        assert(rows@.map_values(|r: Row| r@) =~= rows_before.map_values(
                            |r: Row| r@,
                        ) + spec_file_rows(all[processed as int]));
                    }
                },
                Err(e) => {
                    proof {
                        lemma_first_bad_is(all, processed as int);
                    }
                    return Err(e);
                },
            }
            processed += 1;
        }
        proof {
            assert(all.take(processed as int) =~= all);
            lemma_first_bad_is(all, all.len() as int);
        }
        Ok(Dataset { rows })
    }
}

} // verus!
