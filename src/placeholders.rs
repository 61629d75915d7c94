//! Adding null placeholders for generated columns that a batch lacks.
use vstd::prelude::*;
use crate::batch::{columns_view, columns_wf, has_column, Batch, Column, ColumnView};
use crate::generated::GeneratedColumn;

verus! {

/// An untyped column of `num_rows` nulls called `name`.
pub open spec fn placeholder_view(name: Seq<char>, num_rows: nat) -> ColumnView {
    ColumnView { name, data_type: None, values: Seq::new(num_rows, |r: int| None) }
}

/// The columns after placeholders for `names`, in order, were added to `cols`.
pub open spec fn with_placeholders(cols: Seq<ColumnView>, num_rows: nat, names: Seq<Seq<char>>) -> Seq<ColumnView>
    decreases names.len(),
{
    if names.len() == 0 {
        cols
    } else {
        let before = with_placeholders(cols, num_rows, names.drop_last());
        if has_column(before, names.last()) {
            before
        } else {
            before.push(placeholder_view(names.last(), num_rows))
        }
    }
}

/// The names of the generated columns, in declaration order.
pub open spec fn names_of(gcs: Seq<GeneratedColumn>) -> Seq<Seq<char>> {
    gcs.map_values(|g: GeneratedColumn| g.name@)
}

/// Existing columns come first and unchanged, every name is then present,
/// and each column holds one cell per row.
pub proof fn lemma_with_placeholders(cols: Seq<ColumnView>, num_rows: nat, names: Seq<Seq<char>>)
    ensures
        with_placeholders(cols, num_rows, names).len() >= cols.len(),
        forall|i: int| 0 <= i < cols.len() ==> #[trigger] with_placeholders(cols, num_rows, names)[i] == cols[i],
        forall|k: int| 0 <= k < names.len() ==> has_column(with_placeholders(cols, num_rows, names), #[trigger] names[k]),
        columns_wf(cols, num_rows) ==> columns_wf(with_placeholders(cols, num_rows, names), num_rows),
    decreases names.len(),
{
    if names.len() > 0 {
        let prefix = names.drop_last();
        lemma_with_placeholders(cols, num_rows, prefix);
        let before = with_placeholders(cols, num_rows, prefix);
        let after = with_placeholders(cols, num_rows, names);
        assert forall|k: int| 0 <= k < names.len() implies has_column(after, #[trigger] names[k]) by {
            if k < names.len() - 1 {
                assert(prefix[k] == names[k]);
                let i = choose|i: int| 0 <= i < before.len() && before[i].name == prefix[k];
                assert(after[i] == before[i]);
            } else if !has_column(before, names.last()) {
                assert(after[before.len() as int].name == names[k]);
            }
        }
    }
}

/// Adding placeholders changes nothing when every name is already present.
pub proof fn lemma_with_placeholders_all_present(cols: Seq<ColumnView>, num_rows: nat, names: Seq<Seq<char>>)
    requires
        forall|k: int| 0 <= k < names.len() ==> has_column(cols, #[trigger] names[k]),
    ensures
        with_placeholders(cols, num_rows, names) == cols,
    decreases names.len(),
{
    if names.len() > 0 {
        let prefix = names.drop_last();
        assert forall|k: int| 0 <= k < prefix.len() implies has_column(cols, #[trigger] prefix[k]) by {
            assert(prefix[k] == names[k]);
        }
        lemma_with_placeholders_all_present(cols, num_rows, prefix);
        assert(has_column(cols, names[names.len() - 1]));
    }
}

/// Adding placeholders twice gives the same columns as adding them once.
pub proof fn lemma_placeholders_idempotent(cols: Seq<ColumnView>, num_rows: nat, names: Seq<Seq<char>>)
    ensures
        with_placeholders(with_placeholders(cols, num_rows, names), num_rows, names)
            == with_placeholders(cols, num_rows, names),
{
    lemma_with_placeholders(cols, num_rows, names);
    lemma_with_placeholders_all_present(with_placeholders(cols, num_rows, names), num_rows, names);
}

/// Appends a null placeholder column for each generated column whose name the
/// batch lacks; columns already present are kept as they are, in their order.
pub fn add_missing_generated_columns(batch: Batch, generated_cols: &[GeneratedColumn]) -> (r: Batch)
    requires
        batch.wf(),
    ensures
        r.wf(),
        r.num_rows == batch.num_rows,
        r@ == with_placeholders(batch@, batch.num_rows as nat, names_of(generated_cols@)),
        r@.len() >= batch@.len(),
        forall|i: int| 0 <= i < batch@.len() ==> #[trigger] r@[i] == batch@[i],
{
    let ghost names = names_of(generated_cols@);
    let mut out = batch;
    let mut k: usize = 0;
    proof {
        assert(names.take(0) =~= Seq::<Seq<char>>::empty());
    }
    while k < generated_cols.len()
        invariant
            k <= generated_cols@.len(),
            names == names_of(generated_cols@),
            out.num_rows == batch.num_rows,
            out@ == with_placeholders(batch@, batch.num_rows as nat, names.take(k as int)),
        decreases generated_cols@.len() - k,
    {
        let name = &generated_cols[k].name;
        proof {
            assert(names.take(k + 1).drop_last() =~= names.take(k as int));
            assert(names.take(k + 1).last() == name@);
        }
        if out.find_column(name).is_none() {
            let mut values: Vec<Option<crate::batch::Scalar>> = Vec::new();
            let mut r: usize = 0;
            while r < out.num_rows
                invariant
                    r <= out.num_rows,
                    values@ == Seq::new(r as nat, |j: int| None::<crate::batch::Scalar>),
                decreases out.num_rows - r,
            {
                values.push(None);
                r += 1;
                proof {
                    assert(values@ =~= Seq::new(r as nat, |j: int| None::<crate::batch::Scalar>));
                }
            }
            let col = Column { name: name.clone(), data_type: None, values };
            let ghost before = out@;
            out.columns.push(col);
            proof {
                assert(out@ =~= before.push(placeholder_view(name@, batch.num_rows as nat)));
            }
        }
        k += 1;
    }
    proof {
        assert(names.take(generated_cols@.len() as int) =~= names);
        lemma_with_placeholders(batch@, batch.num_rows as nat, names);
    }
    out
}

} // verus!
