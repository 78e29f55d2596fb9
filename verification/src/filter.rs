//! The filter/query engine: builds one type-dispatched predicate per
//! column from raw filter text and returns the rows passing all of them.
//!
//! Per-column semantics dispatch on the column's declared type: text
//! columns require exact equality, numeric columns require the cell to be
//! at least the parsed number, boolean columns require the parsed flag.
//! Blank or unusable filter text constrains nothing.

use vstd::prelude::*;

use crate::dataset::Dataset;
use crate::errors::ErrModel;
use crate::errors::SigError;
use crate::numeric::Fixed;
use crate::numeric::parse_i64;
use crate::numeric::spec_parse_fixed;
use crate::numeric::spec_parse_i64;
use crate::row::CellModel;
use crate::row::CellValue;
use crate::row::ColumnId;
use crate::row::ColumnType;
use crate::row::Row;
use crate::row::RowModel;
use crate::row::column_id_of;
use crate::row::column_type;
use crate::row::spec_cell;
use crate::row::spec_column_id;
use crate::row::spec_column_type;
use crate::strutil::chars_of;

verus! {

/// The comparison one active predicate applies to its column's cells.
#[derive(Debug)]
pub enum PredKind {
    /// The cell text equals the filter text exactly.
    StrEq(String),
    /// The fixed-point cell is at least the given number.
    FloatGe(Fixed),
    /// The integer cell is at least the given number.
    IntGe(i64),
    /// The boolean cell equals the given flag.
    BoolIs(bool),
}

/// Mathematical model of a [`PredKind`].
pub ghost enum PredModel {
    /// Exact text equality.
    StrEq(Seq<char>),
    /// At least the given fixed-point units.
    FloatGe(int),
    /// At least the given integer.
    IntGe(int),
    /// Equality with the given flag.
    BoolIs(bool),
}

impl View for PredKind {
    type V = PredModel;

    open spec fn view(&self) -> PredModel {
        match self {
            PredKind::StrEq(t) => PredModel::StrEq(t@),
            PredKind::FloatGe(f) => PredModel::FloatGe(f@),
            PredKind::IntGe(v) => PredModel::IntGe(*v as int),
            PredKind::BoolIs(b) => PredModel::BoolIs(*b),
        }
    }
}

/// One active per-column predicate.
#[derive(Debug)]
pub struct Pred {
    /// The column it constrains.
    pub col: ColumnId,
    /// The comparison it applies.
    pub kind: PredKind,
}

impl View for Pred {
    type V = (ColumnId, PredModel);

    open spec fn view(&self) -> (ColumnId, PredModel) {
        (self.col, self.kind@)
    }
}

/// The models of a predicate vector.
pub open spec fn preds_model(preds: Seq<Pred>) -> Seq<(ColumnId, PredModel)> {
    preds.map_values(|p: Pred| p@)
}

/// The ASCII-lowercased scalar of a character.
pub open spec fn spec_lower_u32(c: char) -> u32 {
    if 'A' as u32 <= c as u32 && c as u32 <= 'Z' as u32 {
        (c as u32 + 32) as u32
    } else {
        c as u32
    }
}

/// Equality of two character sequences up to ASCII case.
pub open spec fn spec_eq_icase(a: Seq<char>, b: Seq<char>) -> bool {
    a.len() == b.len() && (forall|i: int|
        0 <= i < a.len() ==> spec_lower_u32(#[trigger] a[i]) == spec_lower_u32(b[i]))
}

/// The flag boolean filter text denotes: `true` or `false` up to ASCII
/// case; anything else denotes nothing.
pub open spec fn spec_parse_bool(s: Seq<char>) -> Option<bool> {
    if spec_eq_icase(s, "true"@) {
        Some(true)
    } else if spec_eq_icase(s, "false"@) {
        Some(false)
    } else {
        None
    }
}

/// The predicate a column type and raw filter text denote; nothing for
/// blank text or text the type cannot read.
pub open spec fn spec_pred_of(ty: ColumnType, text: Seq<char>) -> Option<PredModel> {
    if text.len() == 0 {
        None
    } else {
        match ty {
            ColumnType::Str => Some(PredModel::StrEq(text)),
            ColumnType::Float => match spec_parse_fixed(text) {
                Some(v) => Some(PredModel::FloatGe(v)),
                None => None,
            },
            ColumnType::Int => match spec_parse_i64(text) {
                Some(v) => Some(PredModel::IntGe(v)),
                None => None,
            },
            ColumnType::UInt => match spec_parse_i64(text) {
                Some(v) => Some(PredModel::IntGe(v)),
                None => None,
            },
            ColumnType::Bool => match spec_parse_bool(text) {
                Some(b) => Some(PredModel::BoolIs(b)),
                None => None,
            },
        }
    }
}

/// Whether a cell satisfies a predicate; a type mismatch (which well-typed
/// predicates never produce) satisfies nothing.
pub open spec fn spec_cell_passes(c: CellModel, p: PredModel) -> bool {
    match (c, p) {
        (CellModel::S(s), PredModel::StrEq(t)) => s == t,
        (CellModel::F(x), PredModel::FloatGe(y)) => x >= y,
        (CellModel::I(x), PredModel::IntGe(y)) => x >= y,
        (CellModel::U(x), PredModel::IntGe(y)) => x >= y,
        (CellModel::B(x), PredModel::BoolIs(y)) => x == y,
        _ => false,
    }
}

/// Whether a row satisfies every predicate of a list.
pub open spec fn spec_row_passes(m: RowModel, preds: Seq<(ColumnId, PredModel)>) -> bool {
    forall|i: int|
        0 <= i < preds.len() ==> spec_cell_passes(
            spec_cell(m, (#[trigger] preds[i]).0),
            preds[i].1,
        )
}

/// The rows of a sequence that satisfy every predicate, in order.
pub open spec fn spec_apply(rows: Seq<RowModel>, preds: Seq<(ColumnId, PredModel)>) -> Seq<
    RowModel,
>
    decreases rows.len(),
{
    if rows.len() == 0 {
        Seq::empty()
    } else {
        (if spec_row_passes(rows[0], preds) {
            seq![rows[0]]
        } else {
            Seq::empty()
        }) + spec_apply(rows.drop_first(), preds)
    }
}

/// The views of a filter mapping's entries.
pub open spec fn filters_model(filters: Seq<(String, String)>) -> Seq<(Seq<char>, Seq<char>)> {
    filters.map_values(|p: (String, String)| (p.0@, p.1@))
}

/// Whether a filter mapping can be evaluated: every entry with non-blank
/// text names a schema column.
pub open spec fn spec_filters_ok(filters: Seq<(Seq<char>, Seq<char>)>) -> bool {
    forall|i: int|
        0 <= i < filters.len() ==> ((#[trigger] filters[i]).1.len() > 0 ==> spec_column_id(
            filters[i].0,
        ) is Some)
}

/// The index of the first entry naming no schema column with non-blank
/// text, if any.
pub open spec fn spec_first_bad_filter(filters: Seq<(Seq<char>, Seq<char>)>) -> Option<int>
    decreases filters.len(),
{
    if filters.len() == 0 {
        None
    } else if filters[0].1.len() > 0 && spec_column_id(filters[0].0) is None {
        Some(0)
    } else {
        match spec_first_bad_filter(filters.drop_first()) {
            Some(j) => Some(j + 1),
            None => None,
        }
    }
}

/// The contribution of one mapping entry to the active predicates.
pub open spec fn spec_entry_preds(entry: (Seq<char>, Seq<char>)) -> Seq<(ColumnId, PredModel)> {
    match spec_column_id(entry.0) {
        Some(id) => match spec_pred_of(spec_column_type(id), entry.1) {
            Some(pm) => seq![(id, pm)],
            None => Seq::empty(),
        },
        None => Seq::empty(),
    }
}

/// The active predicates a filter mapping denotes, in mapping order.
pub open spec fn spec_preds_of(filters: Seq<(Seq<char>, Seq<char>)>) -> Seq<(ColumnId, PredModel)>
    decreases filters.len(),
{
    if filters.len() == 0 {
        Seq::empty()
    } else {
        spec_entry_preds(filters[0]) + spec_preds_of(filters.drop_first())
    }
}

/// Appending one entry extends the active predicates by its contribution.
pub proof fn lemma_preds_of_push(filters: Seq<(Seq<char>, Seq<char>)>, x: (Seq<char>, Seq<char>))
    ensures
        spec_preds_of(filters.push(x)) == spec_preds_of(filters) + spec_entry_preds(x),
    decreases filters.len(),
{
    let p = filters.push(x);
    reveal_with_fuel(spec_preds_of, 3);
    if filters.len() == 0 {
        assert(p[0] == x);
        assert(p.drop_first() =~= Seq::<(Seq<char>, Seq<char>)>::empty());
        assert(spec_preds_of(p) =~= spec_preds_of(filters) + spec_entry_preds(x));
    } else {
        assert(p[0] == filters[0]);
        assert(p.drop_first() =~= filters.drop_first().push(x));
        lemma_preds_of_push(filters.drop_first(), x);
        assert(spec_preds_of(p) =~= spec_preds_of(filters) + spec_entry_preds(x));
    }
}

/// Appending one row extends the filtered rows by it exactly when it
/// passes.
pub proof fn lemma_apply_push(
    rows: Seq<RowModel>,
    x: RowModel,
    preds: Seq<(ColumnId, PredModel)>,
)
    ensures
        spec_apply(rows.push(x), preds) == spec_apply(rows, preds) + (if spec_row_passes(
            x,
            preds,
        ) {
            seq![x]
        } else {
            Seq::empty()
        }),
    decreases rows.len(),
{
    let p = rows.push(x);
    reveal_with_fuel(spec_apply, 3);
    if rows.len() == 0 {
        assert(p[0] == x);
        assert(p.drop_first() =~= Seq::<RowModel>::empty());
        assert(spec_apply(p, preds) =~= spec_apply(rows, preds) + (if spec_row_passes(x, preds) {
            seq![x]
        } else {
            Seq::empty()
        }));
    } else {
        assert(p[0] == rows[0]);
        assert(p.drop_first() =~= rows.drop_first().push(x));
        lemma_apply_push(rows.drop_first(), x, preds);
        assert(spec_apply(p, preds) =~= spec_apply(rows, preds) + (if spec_row_passes(x, preds) {
            seq![x]
        } else {
            Seq::empty()
        }));
    }
}

/// `spec_first_bad_filter` is characterized by the first offending index.
pub proof fn lemma_first_bad_filter_is(filters: Seq<(Seq<char>, Seq<char>)>, i: int)
    requires
        0 <= i <= filters.len(),
        forall|k: int|
            0 <= k < i ==> ((#[trigger] filters[k]).1.len() > 0 ==> spec_column_id(
                filters[k].0,
            ) is Some),
        i < filters.len() ==> filters[i].1.len() > 0 && spec_column_id(filters[i].0) is None,
    ensures
        spec_first_bad_filter(filters) == if i == filters.len() {
            None::<int>
        } else {
            Some(i)
        },
    decreases filters.len(),
{
    if filters.len() > 0 && i > 0 {
        lemma_first_bad_filter_is(filters.drop_first(), i - 1);
    }
}

/// Filtering distributes over concatenation: filtering a concatenated
/// table equals concatenating the separately filtered parts, since the
/// predicates are stateless per row. With [`crate::dataset::Dataset::concat`]
/// this says concatenation commutes with row-wise filtering.
pub proof fn lemma_apply_concat(
    a: Seq<RowModel>,
    b: Seq<RowModel>,
    preds: Seq<(ColumnId, PredModel)>,
)
    ensures
        spec_apply(a + b, preds) == spec_apply(a, preds) + spec_apply(b, preds),
    decreases a.len(),
{
    reveal_with_fuel(spec_apply, 2);
    if a.len() == 0 {
        assert(a + b =~= b);
        assert(spec_apply(a, preds) + spec_apply(b, preds) =~= spec_apply(b, preds));
    } else {
        assert((a + b)[0] == a[0]);
        assert((a + b).len() > 0);
        assert((a + b).drop_first() =~= a.drop_first() + b);
        lemma_apply_concat(a.drop_first(), b, preds);
        assert(spec_apply(a + b, preds) =~= spec_apply(a, preds) + spec_apply(b, preds));
    }
}

/// A dataset built from two discovery lists and then filtered equals the
/// concatenation of the two halves assembled and filtered separately:
/// concatenation commutes with row-wise filtering.
pub proof fn lemma_assembly_filter_commutes(
    a: Seq<crate::parser::FileInput>,
    b: Seq<crate::parser::FileInput>,
    preds: Seq<(ColumnId, PredModel)>,
)
    ensures
        spec_apply(crate::dataset::spec_assembled_rows(a + b), preds) == spec_apply(
            crate::dataset::spec_assembled_rows(a),
            preds,
        ) + spec_apply(crate::dataset::spec_assembled_rows(b), preds),
{
    crate::dataset::lemma_assembled_rows_concat(a, b);
    lemma_apply_concat(
        crate::dataset::spec_assembled_rows(a),
        crate::dataset::spec_assembled_rows(b),
        preds,
    );
}

/// Every row of a filtered table satisfies the predicates.
pub proof fn lemma_apply_all_pass(rows: Seq<RowModel>, preds: Seq<(ColumnId, PredModel)>)
    ensures
        forall|i: int|
            0 <= i < spec_apply(rows, preds).len() ==> spec_row_passes(
                #[trigger] spec_apply(rows, preds)[i],
                preds,
            ),
    decreases rows.len(),
{
    if rows.len() > 0 {
        lemma_apply_all_pass(rows.drop_first(), preds);
        let out = spec_apply(rows, preds);
        let rest = spec_apply(rows.drop_first(), preds);
        if spec_row_passes(rows[0], preds) {
            assert(out == seq![rows[0]] + rest);
            assert forall|i: int| 0 <= i < out.len() implies spec_row_passes(
                #[trigger] out[i],
                preds,
            ) by {
                if i == 0 {
                    assert(out[0] == rows[0]);
                } else {
                    assert(out[i] == rest[i - 1]);
                }
            }
        } else {
            assert forall|i: int| 0 <= i < out.len() implies spec_row_passes(
                #[trigger] out[i],
                preds,
            ) by {
                assert(out[i] == rest[i]);
            }
        }
    }
}

/// Filtering a table whose rows all satisfy the predicates returns it
/// unchanged.
pub proof fn lemma_apply_of_passing(rows: Seq<RowModel>, preds: Seq<(ColumnId, PredModel)>)
    requires
        forall|i: int| 0 <= i < rows.len() ==> spec_row_passes(#[trigger] rows[i], preds),
    ensures
        spec_apply(rows, preds) == rows,
    decreases rows.len(),
{
    if rows.len() > 0 {
        lemma_apply_of_passing(rows.drop_first(), preds);
        assert(seq![rows[0]] + rows.drop_first() =~= rows);
    }
}

/// Filter idempotence: applying the same predicates twice yields the same
/// table as applying them once.
pub proof fn lemma_apply_idempotent(rows: Seq<RowModel>, preds: Seq<(ColumnId, PredModel)>)
    ensures
        spec_apply(spec_apply(rows, preds), preds) == spec_apply(rows, preds),
{
    lemma_apply_all_pass(rows, preds);
    lemma_apply_of_passing(spec_apply(rows, preds), preds);
}

/// A mapping whose every entry is blank denotes no predicate at all.
pub proof fn lemma_blank_preds_empty(filters: Seq<(Seq<char>, Seq<char>)>)
    requires
        forall|i: int| 0 <= i < filters.len() ==> (#[trigger] filters[i]).1.len() == 0,
    ensures
        spec_preds_of(filters) == Seq::<(ColumnId, PredModel)>::empty(),
    decreases filters.len(),
{
    if filters.len() > 0 {
        assert(spec_entry_preds(filters[0]) =~= Seq::<(ColumnId, PredModel)>::empty());
        lemma_blank_preds_empty(filters.drop_first());
        assert(spec_preds_of(filters) =~= Seq::<(ColumnId, PredModel)>::empty());
    }
}

/// Filter identity: an all-blank mapping can always be evaluated and
/// returns the table unchanged, rows and order alike.
pub proof fn lemma_blank_filters_identity(rows: Seq<RowModel>, filters: Seq<(Seq<char>, Seq<char>)>)
    requires
        forall|i: int| 0 <= i < filters.len() ==> (#[trigger] filters[i]).1.len() == 0,
    ensures
        spec_filters_ok(filters),
        spec_apply(rows, spec_preds_of(filters)) == rows,
{
    lemma_blank_preds_empty(filters);
    lemma_apply_of_passing(rows, spec_preds_of(filters));
}

/// The ASCII-lowercased scalar of a character.
fn lower_u32(c: char) -> (r: u32)
    ensures
        r == spec_lower_u32(c),
{
    let cu = c as u32;
    if 'A' as u32 <= cu && cu <= 'Z' as u32 {
        cu + 32
    } else {
        cu
    }
}

/// Equality of two string slices up to ASCII case.
#[verifier::loop_isolation(false)]
fn eq_ignore_case(a: &str, b: &str) -> (r: bool)
    ensures
        r == spec_eq_icase(a@, b@),
{
    let ca = chars_of(a);
    let cb = chars_of(b);
    if ca.len() != cb.len() {
        return false;
    }
    let n = ca.len();
    let mut i: usize = 0;
    while i < n
        invariant
            i <= n,
            forall|k: int| 0 <= k < i ==> spec_lower_u32(#[trigger] a@[k]) == spec_lower_u32(b@[k]),
        decreases n - i,
    {
        if lower_u32(ca[i]) != lower_u32(cb[i]) {
            return false;
        }
        i += 1;
    }
    true
}

/// Parses boolean filter text per [`spec_parse_bool`].
pub fn parse_bool(s: &str) -> (r: Option<bool>)
    ensures
        r == spec_parse_bool(s@),
{
    if eq_ignore_case(s, "true") {
        Some(true)
    } else if eq_ignore_case(s, "false") {
        Some(false)
    } else {
        None
    }
}

/// Whether a cell satisfies a predicate.
pub fn cell_passes(c: &CellValue, p: &PredKind) -> (r: bool)
    ensures
        r == spec_cell_passes(c@, p@),
{
    match (c, p) {
        (CellValue::S(s), PredKind::StrEq(t)) => *s == *t,
        (CellValue::F(x), PredKind::FloatGe(y)) => x.ge(y),
        (CellValue::I(x), PredKind::IntGe(y)) => *x >= *y,
        (CellValue::U(x), PredKind::IntGe(y)) => {
            if *y < 0 {
                true
            } else {
                *x >= (*y as u64)
            }
        },
        (CellValue::B(x), PredKind::BoolIs(y)) => *x == *y,
        _ => false,
    }
}

/// Whether a row satisfies every predicate of a list.
#[verifier::loop_isolation(false)]
pub fn row_passes(row: &Row, preds: &Vec<Pred>) -> (r: bool)
    ensures
        r == spec_row_passes(row@, preds_model(preds@)),
{
    let n = preds.len();
    let mut i: usize = 0;
    while i < n
        invariant
            i <= n,
            forall|k: int|
                0 <= k < i ==> spec_cell_passes(
                    spec_cell(row@, (#[trigger] preds_model(preds@)[k]).0),
                    preds_model(preds@)[k].1,
                ),
        decreases n - i,
    {
        let cell = row.cell(preds[i].col);
        if !cell_passes(&cell, &preds[i].kind) {
            proof {
                assert(preds_model(preds@)[i as int] == preds@[i as int]@);
            }
            return false;
        }
        proof {
            assert(preds_model(preds@)[i as int] == preds@[i as int]@);
        }
        i += 1;
    }
    true
}

/// Builds and evaluates one predicate per mapping entry against the
/// table and returns the qualifying rows, in order; fails with
/// [`SigError::FilterEvaluationError`] exactly when an entry with
/// non-blank text names no schema column. Blank and unusable filter text
/// constrains nothing, and an all-blank mapping returns the table
/// unchanged.
#[verifier::loop_isolation(false)]
pub fn apply_filters(d: &Dataset, filters: &Vec<(String, String)>) -> (r: Result<
    Dataset,
    SigError,
>)
    ensures
        r is Ok <==> spec_filters_ok(filters_model(filters@)),
        r matches Ok(out) ==> out@ == spec_apply(d@, spec_preds_of(filters_model(filters@))),
        r matches Err(e) ==> (spec_first_bad_filter(filters_model(filters@)) matches Some(j) && e@
            == ErrModel::FilterEvaluation(filters_model(filters@)[j].0)),
{
    let ghost fm = filters_model(filters@);
    let n = filters.len();
    let mut preds: Vec<Pred> = Vec::new();
    let mut i: usize = 0;
    while i < n
        invariant
            i <= n,
            n == fm.len(),
            preds_model(preds@) =~= spec_preds_of(fm.take(i as int)),
            forall|k: int|
                0 <= k < i ==> ((#[trigger] fm[k]).1.len() > 0 ==> spec_column_id(
                    fm[k].0,
                ) is Some),
        decreases n - i,
    {
        proof {
            assert(fm[i as int] == (filters@[i as int].0@, filters@[i as int].1@));
            assert(fm.take(i as int + 1) =~= fm.take(i as int).push(fm[i as int]));
            lemma_preds_of_push(fm.take(i as int), fm[i as int]);
        }
        let name = &filters[i].0;
        let text = &filters[i].1;
        if !text.as_str().is_empty() {
            match column_id_of(name.as_str()) {
                None => {
                    proof {
                        lemma_first_bad_filter_is(fm, i as int);
                    }
                    return Err(SigError::FilterEvaluationError(name.clone()));
                },
                Some(id) => {
                    let ghost preds_before = preds@;
                    match column_type(id) {
                        ColumnType::Str => {
                            preds.push(Pred { col: id, kind: PredKind::StrEq(text.clone()) });
                        },
                        ColumnType::Float => {
                            match Fixed::from_text(text.as_str()) {
                                Some(f) => {
                                    preds.push(Pred { col: id, kind: PredKind::FloatGe(f) });
                                },
                                None => {},
                            }
                        },
                        ColumnType::Int => {
                            match parse_i64(text.as_str()) {
                                Some(v) => {
                                    preds.push(Pred { col: id, kind: PredKind::IntGe(v) });
                                },
                                None => {},
                            }
                        },
                        ColumnType::UInt => {
                            match parse_i64(text.as_str()) {
                                Some(v) => {
                                    preds.push(Pred { col: id, kind: PredKind::IntGe(v) });
                                },
                                None => {},
                            }
                        },
                        ColumnType::Bool => {
                            match parse_bool(text.as_str()) {
                                Some(b) => {
                                    preds.push(Pred { col: id, kind: PredKind::BoolIs(b) });
                                },
                                None => {},
                            }
                        },
                    }
                    proof {
                        assert(preds_model(preds@) =~= spec_preds_of(fm.take(i as int))
                            + spec_entry_preds(fm[i as int]));
                    }
                },
            }
        } else {
            proof {
                assert(spec_entry_preds(fm[i as int]) =~= Seq::<(ColumnId, PredModel)>::empty());
                assert(preds_model(preds@) =~= spec_preds_of(fm.take(i as int + 1)));
            }
        }
        i += 1;
    }
    proof {
        assert(fm.take(n as int) =~= fm);
    }
    let m = d.rows.len();
    let mut out: Vec<Row> = Vec::new();
    let mut j: usize = 0;
    while j < m
        invariant
            j <= m,
            m == d@.len(),
            preds_model(preds@) =~= spec_preds_of(fm),
            out@.map_values(|r: Row| r@) =~= spec_apply(d@.take(j as int), preds_model(preds@)),
        decreases m - j,
    {
        proof {
            assert(d@.take(j as int + 1) =~= d@.take(j as int).push(d@[j as int]));
            lemma_apply_push(d@.take(j as int), d@[j as int], preds_model(preds@));
            assert(d@[j as int] == d.rows@[j as int]@);
        }
        if row_passes(&d.rows[j], &preds) {
            let row = d.rows[j].clone();
            out.push(row);
        }
        j += 1;
    }
    proof {
        assert(d@.take(m as int) =~= d@);
    }
    Ok(Dataset { rows: out })
}

} // verus!
