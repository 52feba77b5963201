//! Properties of the maximum that hold across calls, stated over the same
//! models that the accumulator's contracts use.
use vstd::prelude::*;
use crate::accum::AggMaxAccum;
use crate::column::Column;
use crate::order::{
    column_max, lemma_column_max_all_null, lemma_max_opt_laws, max_opt, row_fold, Datum,
};
use crate::scalar::{fits, kind_of, ElementType};

verus! {

/// Every cell of a column is null or a value of the column's kind.
pub proof fn lemma_cells_fit(col: Column)
    ensures
        forall|i: int| 0 <= i < col.cells().len() ==> fits(#[trigger] col.cells()[i], col.data_type()),
{
}

proof fn lemma_column_max_fits(cells: Seq<Option<Datum>>, t: ElementType)
    requires
        forall|i: int| 0 <= i < cells.len() ==> fits(#[trigger] cells[i], t),
    ensures
        fits(column_max(cells), t),
    decreases cells.len(),
{
    if cells.len() > 0 {
        let dl = cells.drop_last();
        assert forall|i: int| 0 <= i < dl.len() implies fits(#[trigger] dl[i], t) by {
            assert(dl[i] == cells[i]);
        }
        lemma_column_max_fits(dl, t);
    }
}

proof fn lemma_row_fold_cells(v: Option<Datum>, cells: Seq<Option<Datum>>, t: ElementType)
    requires
        fits(v, t),
        forall|i: int| 0 <= i < cells.len() ==> fits(#[trigger] cells[i], t),
    ensures
        row_fold(v, cells) == max_opt(v, column_max(cells)),
    decreases cells.len(),
{
    if cells.len() > 0 {
        let dl = cells.drop_last();
        assert forall|i: int| 0 <= i < dl.len() implies fits(#[trigger] dl[i], t) by {
            assert(dl[i] == cells[i]);
        }
        lemma_row_fold_cells(v, dl, t);
        lemma_column_max_fits(dl, t);
        assert(fits(cells.last(), t));
        if kind_of(t) is Some {
            lemma_max_opt_laws(v, column_max(dl), cells.last(), kind_of(t)->0);
        }
    }
}

/// Updating with a column whose cells are all null, whether row by row or
/// with the whole column at once, leaves the state as it was (so an empty
/// accumulator stays empty).
pub proof fn lemma_all_null_column_keeps_state(acc: AggMaxAccum, col: Column)
    requires
        forall|i: int| 0 <= i < col.cells().len() ==> #[trigger] col.cells()[i] is None,
    ensures
        max_opt(acc.partial.value(), column_max(col.cells())) == acc.partial.value(),
        row_fold(acc.partial.value(), col.cells()) == acc.partial.value(),
{
    lemma_column_max_all_null(col.cells());
    acc.partial.lemma_value_fits();
    lemma_row_fold_cells(acc.partial.value(), col.cells(), acc.partial.data_type());
}

/// Updating row by row over every row of a column of the accumulator's type
/// gives the same state as one whole-column update.
pub proof fn lemma_row_wise_equals_whole_column(acc: AggMaxAccum, col: Column)
    requires
        acc.partial.data_type() == col.data_type(),
    ensures
        row_fold(acc.partial.value(), col.cells()) == max_opt(
            acc.partial.value(),
            column_max(col.cells()),
        ),
{
    acc.partial.lemma_value_fits();
    lemma_cells_fit(col);
    lemma_row_fold_cells(acc.partial.value(), col.cells(), col.data_type());
}

/// Merging three accumulators of one type gives the same value whatever the
/// grouping and order: `(a+b)+c == a+(b+c) == (a+c)+b`.
pub proof fn lemma_merge_order_irrelevant(a: AggMaxAccum, b: AggMaxAccum, c: AggMaxAccum)
    requires
        a.partial.data_type() == b.partial.data_type(),
        a.partial.data_type() == c.partial.data_type(),
    ensures
        max_opt(max_opt(a.partial.value(), b.partial.value()), c.partial.value()) == max_opt(
            a.partial.value(),
            max_opt(b.partial.value(), c.partial.value()),
        ),
        max_opt(max_opt(a.partial.value(), b.partial.value()), c.partial.value()) == max_opt(
            max_opt(a.partial.value(), c.partial.value()),
            b.partial.value(),
        ),
{
    let (x, y, z) = (a.partial.value(), b.partial.value(), c.partial.value());
    a.partial.lemma_value_fits();
    b.partial.lemma_value_fits();
    c.partial.lemma_value_fits();
    let t = a.partial.data_type();
    if kind_of(t) is Some {
        let d = kind_of(t)->0;
        lemma_max_opt_laws(x, y, z, d);
        lemma_max_opt_laws(x, z, y, d);
        lemma_max_opt_laws(y, z, x, d);
    }
}

/// Merging an empty accumulator changes nothing, and merging into an empty
/// accumulator takes the other's value.
pub proof fn lemma_merge_identity(a: AggMaxAccum, empty: AggMaxAccum)
    requires
        empty.partial.value() is None,
    ensures
        max_opt(a.partial.value(), empty.partial.value()) == a.partial.value(),
        max_opt(empty.partial.value(), a.partial.value()) == a.partial.value(),
{
}

/// Saving a state to a builder of its type and merging the saved row into a
/// fresh accumulator gives back the saved value.
pub proof fn lemma_save_then_merge_restores(acc: AggMaxAccum, builder: Column, fresh: AggMaxAccum)
    requires
        acc.partial.data_type() == builder.data_type(),
        fresh.partial.value() is None,
    ensures
        max_opt(
            fresh.partial.value(),
            builder.cells().push(acc.partial.value())[builder.cells().len() as int],
        ) == acc.partial.value(),
{
}

} // verus!
