//! Generated-column declarations and the per-row resolution of their values.
use vstd::prelude::*;
use crate::protocol::{able_to_gc, features_of, spec_able_to_gc, Protocol};
use crate::batch::{columns_wf, conforms, duplicate_cell, Batch, Column, ColumnView, DataType, Scalar};

verus! {

/// A column whose value is computed from `generation_expression` when a
/// writer does not supply it.
#[derive(Clone, Debug)]
pub struct GeneratedColumn {
    pub name: String,
    pub generation_expression: String,
    pub data_type: DataType,
    pub nullable: bool,
}

impl GeneratedColumn {
    /// The column's name.
    pub fn get_name(&self) -> (r: &String)
        ensures
            r == &self.name,
    {
        &self.name
    }

    /// The expression text that computes the column.
    pub fn get_generation_expression(&self) -> (r: &String)
        ensures
            r == &self.generation_expression,
    {
        &self.generation_expression
    }
}

/// Why resolving generated columns failed; each one fails the whole batch.
#[derive(Clone, Debug)]
pub enum GenerationError {
    /// The generation expression could not be bound against the batch.
    ExpressionBinding { column: String, message: String },
    /// A resolved value does not have the declared type.
    TypeCast { column: String, data_type: DataType },
    /// The batch does not hold exactly one column of that name, or the
    /// evaluated values do not cover its rows.
    SchemaMismatch { column: String },
}

/// What the expression engine gave for one generated column: its values, one
/// per row, cast to the declared type; or the message of a binding failure.
pub type Evaluation = Result<Vec<Option<Scalar>>, String>;

/// The supplied value when there is one, else the computed one.
pub open spec fn coalesce(existing: Option<Scalar>, computed: Option<Scalar>) -> Option<Scalar> {
    match existing {
        Some(v) => Some(v),
        None => computed,
    }
}

/// Exactly one column is called `name`.
pub open spec fn unique_column(cols: Seq<ColumnView>, name: Seq<char>) -> bool {
    exists|k: int|
        0 <= k < cols.len() && (#[trigger] cols[k]).name == name && forall|j: int|
            0 <= j < cols.len() && j != k ==> (#[trigger] cols[j]).name != name
}

/// The column's resolved values, row by row.
pub open spec fn resolved_values(existing: Seq<Option<Scalar>>, computed: Seq<Option<Scalar>>) -> Seq<Option<Scalar>> {
    Seq::new(existing.len(), |r: int| coalesce(existing[r], computed[r]))
}

/// Some resolved value of the column called `name` lacks the type `t`.
pub open spec fn has_cast_failure(cols: Seq<ColumnView>, name: Seq<char>, computed: Seq<Option<Scalar>>, t: DataType) -> bool {
    exists|i: int, r: int|
        0 <= i < cols.len() && (#[trigger] cols[i]).name == name && 0 <= r < cols[i].values.len()
            && !fits(#[trigger] coalesce(cols[i].values[r], computed[r]), t)
}

/// A cell is null or has the type `t`.
pub open spec fn fits(c: Option<Scalar>, t: DataType) -> bool {
    match c {
        Some(v) => conforms(v, t),
        None => true,
    }
}

/// The column called `name` with its values resolved and its type declared.
pub open spec fn replace_resolved(cols: Seq<ColumnView>, name: Seq<char>, computed: Seq<Option<Scalar>>, t: DataType) -> Seq<ColumnView> {
    cols.map_values(|c: ColumnView|
        if c.name == name {
            ColumnView { name, data_type: Some(t), values: resolved_values(c.values, computed) }
        } else {
            c
        })
}

/// The outcome of resolving one generated column on `cols`.
pub open spec fn resolve_one(cols: Seq<ColumnView>, num_rows: nat, gc: GeneratedColumn, eval: Evaluation) -> Result<Seq<ColumnView>, GenerationError> {
    match eval {
        Err(message) => Err(GenerationError::ExpressionBinding { column: gc.name, message }),
        Ok(computed) => {
            if !unique_column(cols, gc.name@) || computed@.len() != num_rows {
                Err(GenerationError::SchemaMismatch { column: gc.name })
            } else if has_cast_failure(cols, gc.name@, computed@, gc.data_type) {
                Err(GenerationError::TypeCast { column: gc.name, data_type: gc.data_type })
            } else {
                Ok(replace_resolved(cols, gc.name@, computed@, gc.data_type))
            }
        },
    }
}

/// The outcome of resolving the generated columns in declaration order; the
/// first failure ends it.
pub open spec fn resolve_all(cols: Seq<ColumnView>, num_rows: nat, gcs: Seq<GeneratedColumn>, evals: Seq<Evaluation>) -> Result<Seq<ColumnView>, GenerationError>
    decreases gcs.len(),
{
    if gcs.len() == 0 || evals.len() == 0 {
        Ok(cols)
    } else {
        match resolve_all(cols, num_rows, gcs.drop_last(), evals.drop_last()) {
            Err(e) => Err(e),
            Ok(before) => resolve_one(before, num_rows, gcs.last(), evals.last()),
        }
    }
}

/// Resolves one generated column: each row keeps its supplied value, and a
/// null row takes the computed one; the column then carries the declared type.
pub fn add_generated_column(batch: Batch, gc: &GeneratedColumn, eval: Evaluation) -> (r: Result<Batch, GenerationError>)
    requires
        batch.wf(),
    ensures
        match r {
            Ok(b) => resolve_one(batch@, batch.num_rows as nat, *gc, eval) == Ok::<Seq<ColumnView>, GenerationError>(b@)
                && b.wf() && b.num_rows == batch.num_rows,
            Err(e) => resolve_one(batch@, batch.num_rows as nat, *gc, eval) == Err::<Seq<ColumnView>, GenerationError>(e),
        },
{
    let ghost evaluation = eval;
    let computed = match eval {
        Err(message) => {
            return Err(GenerationError::ExpressionBinding { column: gc.name.clone(), message });
        },
        Ok(computed) => computed,
    };
    assert(evaluation == Ok::<Vec<Option<Scalar>>, String>(computed));
    let ghost cols = batch@;
    let ghost name = gc.name@;
    let mut found: Option<usize> = None;
    let mut i: usize = 0;
    while i < batch.columns.len()
        invariant
            i <= cols.len(),
            cols == batch@,
            name == gc.name@,
            evaluation == Ok::<Vec<Option<Scalar>>, String>(computed),
            evaluation == eval,
            found is None ==> forall|j: int| 0 <= j < i ==> (#[trigger] cols[j]).name != name,
            found matches Some(k) ==> k < i && cols[k as int].name == name && forall|j: int|
                0 <= j < i && j != k ==> (#[trigger] cols[j]).name != name,
        decreases cols.len() - i,
    {
        if batch.columns[i].name == gc.name {
            if let Some(k) = found {
                proof {
                    assert(cols[k as int].name == name && cols[i as int].name == name);
                    assert(!unique_column(cols, name));
                }
                return Err(GenerationError::SchemaMismatch { column: gc.name.clone() });
            }
            found = Some(i);
        }
        i += 1;
    }
    let idx = match found {
        None => {
            return Err(GenerationError::SchemaMismatch { column: gc.name.clone() });
        },
        Some(k) => k,
    };
    proof {
        assert(unique_column(cols, name));
    }
    if computed.len() != batch.num_rows {
        return Err(GenerationError::SchemaMismatch { column: gc.name.clone() });
    }
    let existing = &batch.columns[idx].values;
    assert(cols[idx as int] == batch.columns@[idx as int]@);
    let mut merged: Vec<Option<Scalar>> = Vec::new();
    let mut r: usize = 0;
    while r < batch.num_rows
        invariant
            r <= batch.num_rows,
            batch.wf(),
            idx < cols.len(),
            cols == batch@,
            *existing == batch.columns@[idx as int].values,
            cols[idx as int].values == existing@,
            name == gc.name@,
            evaluation == Ok::<Vec<Option<Scalar>>, String>(computed),
            evaluation == eval,
            cols[idx as int].name == name,
            unique_column(cols, name),
            forall|j: int| 0 <= j < cols.len() && j != idx ==> (#[trigger] cols[j]).name != name,
            existing@.len() == batch.num_rows,
            computed@.len() == batch.num_rows,
            merged@.len() == r,
            forall|j: int| 0 <= j < r ==> #[trigger] merged@[j] == coalesce(existing@[j], computed@[j]),
            forall|j: int| 0 <= j < r ==> fits(#[trigger] coalesce(existing@[j], computed@[j]), gc.data_type),
        decreases batch.num_rows - r,
    {
        assert(cols[idx as int].values.len() == batch.num_rows);
        let cell = match &existing[r] {
            Some(v) => Some(v.duplicate()),
            None => duplicate_cell(&computed[r]),
        };
        assert(cell == coalesce(existing@[r as int], computed@[r as int]));
        let ok = match &cell {
            Some(v) => v.has_type(gc.data_type),
            None => true,
        };
        if !ok {
            proof {
                let (wi, wr) = (idx as int, r as int);
                assert(0 <= wi < cols.len() && cols[wi].name == name && 0 <= wr < cols[wi].values.len()
                    && !fits(coalesce(cols[wi].values[wr], computed@[wr]), gc.data_type));
                assert(has_cast_failure(cols, name, computed@, gc.data_type));
            }
            return Err(GenerationError::TypeCast { column: gc.name.clone(), data_type: gc.data_type });
        }
        merged.push(cell);
        r += 1;
    }
    proof {
        assert(cols[idx as int].values.len() == batch.num_rows);
        assert(merged@ =~= resolved_values(existing@, computed@));
        assert(!has_cast_failure(cols, name, computed@, gc.data_type)) by {
            assert forall|i: int, r: int|
                0 <= i < cols.len() && (#[trigger] cols[i]).name == name && 0 <= r < cols[i].values.len()
                implies fits(#[trigger] coalesce(cols[i].values[r], computed@[r]), gc.data_type) by {
                assert(i == idx);
            }
        }
    }
    let mut out = batch;
    out.columns.set(idx, Column { name: gc.name.clone(), data_type: Some(gc.data_type), values: merged });
    proof {
        let expected = replace_resolved(cols, name, computed@, gc.data_type);
        assert forall|j: int| 0 <= j < cols.len() implies #[trigger] out@[j] == expected[j] by {
            if j != idx {
                assert(cols[j].name != name);
            }
        }
        assert(out@ =~= expected);
    }
    Ok(out)
}

/// Resolves every generated column in declaration order, `evaluations[k]`
/// being the engine's result for `generated_cols[k]`; the first failure fails
/// the whole batch and no partly resolved batch is returned.
pub fn add_generated_columns(batch: Batch, generated_cols: &[GeneratedColumn], evaluations: Vec<Evaluation>) -> (r: Result<Batch, GenerationError>)
    requires
        batch.wf(),
        evaluations@.len() == generated_cols@.len(),
    ensures
        match r {
            Ok(b) => resolve_all(batch@, batch.num_rows as nat, generated_cols@, evaluations@)
                == Ok::<Seq<ColumnView>, GenerationError>(b@) && b.wf() && b.num_rows == batch.num_rows,
            Err(e) => resolve_all(batch@, batch.num_rows as nat, generated_cols@, evaluations@)
                == Err::<Seq<ColumnView>, GenerationError>(e),
        },
{
    let ghost gcs = generated_cols@;
    let ghost evals = evaluations@;
    let ghost n = batch.num_rows as nat;
    let mut rest = evaluations;
    let mut out = batch;
    let mut k: usize = 0;
    proof {
        assert(gcs.take(0).len() == 0);
    }
    while k < generated_cols.len()
        invariant
            k <= gcs.len(),
            gcs == generated_cols@,
            evals.len() == gcs.len(),
            evals == evaluations@,
            n == batch.num_rows as nat,
            rest@ == evals.skip(k as int),
            out.wf(),
            out.num_rows == n,
            resolve_all(batch@, n, gcs.take(k as int), evals.take(k as int)) == Ok::<Seq<ColumnView>, GenerationError>(out@),
        decreases gcs.len() - k,
    {
        let ev = rest.remove(0);
        proof {
            assert(gcs.take(k + 1).drop_last() =~= gcs.take(k as int));
            assert(evals.take(k + 1).drop_last() =~= evals.take(k as int));
            assert(gcs.take(k + 1).last() == gcs[k as int]);
            assert(evals.take(k + 1).last() == evals[k as int]);
            assert(rest@ =~= evals.skip(k + 1));
            assert(ev == evals[k as int]);
        }
        match add_generated_column(out, &generated_cols[k], ev) {
            Ok(b) => {
                out = b;
            },
            Err(e) => {
                proof {
                    lemma_resolve_all_stops(batch@, n, gcs, evals, (k + 1) as int);
                }
                return Err(e);
            },
        }
        k += 1;
    }
    proof {
        assert(gcs.take(gcs.len() as int) =~= gcs);
        assert(evals.take(evals.len() as int) =~= evals);
    }
    Ok(out)
}

/// Once resolution fails on a prefix of the columns, it fails the same way on all of them.
pub proof fn lemma_resolve_all_stops(cols: Seq<ColumnView>, num_rows: nat, gcs: Seq<GeneratedColumn>, evals: Seq<Evaluation>, k: int)
    requires
        0 <= k <= gcs.len(),
        evals.len() == gcs.len(),
        resolve_all(cols, num_rows, gcs.take(k), evals.take(k)) is Err,
    ensures
        resolve_all(cols, num_rows, gcs, evals) == resolve_all(cols, num_rows, gcs.take(k), evals.take(k)),
    decreases gcs.len() - k,
{
    if k == gcs.len() {
        assert(gcs.take(k) =~= gcs);
        assert(evals.take(k) =~= evals);
    } else {
        assert(gcs.take(k + 1).drop_last() =~= gcs.take(k));
        assert(evals.take(k + 1).drop_last() =~= evals.take(k));
        lemma_resolve_all_stops(cols, num_rows, gcs, evals, k + 1);
    }
}

/// Resolving a column keeps the number of columns, their names and order, and
/// the number of rows of each; columns of other names are left as they were.
pub proof fn lemma_resolve_keeps_shape(cols: Seq<ColumnView>, num_rows: nat, gc: GeneratedColumn, eval: Evaluation, out: Seq<ColumnView>)
    requires
        columns_wf(cols, num_rows),
        resolve_one(cols, num_rows, gc, eval) == Ok::<Seq<ColumnView>, GenerationError>(out),
    ensures
        out.len() == cols.len(),
        columns_wf(out, num_rows),
        forall|i: int| 0 <= i < cols.len() ==> (#[trigger] out[i]).name == cols[i].name,
        forall|i: int| 0 <= i < cols.len() && cols[i].name != gc.name@ ==> #[trigger] out[i] == cols[i],
{
    assert forall|i: int| 0 <= i < out.len() implies (#[trigger] out[i]).values.len() == num_rows by {
        assert(cols[i].values.len() == num_rows);
    }
}

/// Resolving all generated columns keeps the number of columns, their names
/// and order, and one cell per row in each.
pub proof fn lemma_resolve_all_keeps_shape(cols: Seq<ColumnView>, num_rows: nat, gcs: Seq<GeneratedColumn>, evals: Seq<Evaluation>, out: Seq<ColumnView>)
    requires
        columns_wf(cols, num_rows),
        resolve_all(cols, num_rows, gcs, evals) == Ok::<Seq<ColumnView>, GenerationError>(out),
    ensures
        out.len() == cols.len(),
        columns_wf(out, num_rows),
        forall|i: int| 0 <= i < cols.len() ==> (#[trigger] out[i]).name == cols[i].name,
    decreases gcs.len(),
{
    if gcs.len() != 0 && evals.len() != 0 {
        let before = resolve_all(cols, num_rows, gcs.drop_last(), evals.drop_last())->Ok_0;
        lemma_resolve_all_keeps_shape(cols, num_rows, gcs.drop_last(), evals.drop_last(), before);
        lemma_resolve_keeps_shape(before, num_rows, gcs.last(), evals.last(), out);
    }
}

/// A row whose generated column was supplied keeps that value exactly,
/// whatever the expression computes.
pub proof fn lemma_supplied_value_kept(cols: Seq<ColumnView>, num_rows: nat, gc: GeneratedColumn, eval: Evaluation, out: Seq<ColumnView>, i: int, r: int)
    requires
        columns_wf(cols, num_rows),
        resolve_one(cols, num_rows, gc, eval) == Ok::<Seq<ColumnView>, GenerationError>(out),
        0 <= i < cols.len(),
        cols[i].name == gc.name@,
        0 <= r < num_rows,
        cols[i].values[r] is Some,
    ensures
        out[i].values[r] == cols[i].values[r],
{
    assert(cols[i].values.len() == num_rows);
}

/// A row whose generated column is null, placeholder or not, takes the
/// computed value, which has the declared type.
pub proof fn lemma_null_value_computed(cols: Seq<ColumnView>, num_rows: nat, gc: GeneratedColumn, computed: Vec<Option<Scalar>>, out: Seq<ColumnView>, i: int, r: int)
    requires
        columns_wf(cols, num_rows),
        resolve_one(cols, num_rows, gc, Ok::<Vec<Option<Scalar>>, String>(computed)) == Ok::<Seq<ColumnView>, GenerationError>(out),
        0 <= i < cols.len(),
        cols[i].name == gc.name@,
        0 <= r < num_rows,
        cols[i].values[r] is None,
    ensures
        out[i].values[r] == computed@[r],
        out[i].data_type == Some(gc.data_type),
        fits(out[i].values[r], gc.data_type),
{
    assert(cols[i].values.len() == num_rows);
    if !fits(out[i].values[r], gc.data_type) {
        assert(!fits(coalesce(cols[i].values[r], computed@[r]), gc.data_type));
        assert(has_cast_failure(cols, gc.name@, computed@, gc.data_type));
    }
}

/// Runs the resolver only where the protocol allows generated columns; where
/// it does not, the batch passes through as the writer supplied it.
pub fn generate_columns_for_write(
    protocol: &Protocol,
    batch: Batch,
    generated_cols: &[GeneratedColumn],
    evaluations: Vec<Evaluation>,
) -> (r: Result<Batch, GenerationError>)
    requires
        batch.wf(),
        evaluations@.len() == generated_cols@.len(),
    ensures
        !spec_able_to_gc(protocol.min_writer_version as int, features_of(protocol)) ==> r == Ok::<Batch, GenerationError>(batch),
        spec_able_to_gc(protocol.min_writer_version as int, features_of(protocol)) ==> match r {
            Ok(b) => resolve_all(batch@, batch.num_rows as nat, generated_cols@, evaluations@)
                == Ok::<Seq<ColumnView>, GenerationError>(b@) && b.wf() && b.num_rows == batch.num_rows,
            Err(e) => resolve_all(batch@, batch.num_rows as nat, generated_cols@, evaluations@)
                == Err::<Seq<ColumnView>, GenerationError>(e),
        },
{
    if able_to_gc(protocol) {
        add_generated_columns(batch, generated_cols, evaluations)
    } else {
        Ok(batch)
    }
}

} // verus!
