use vstd::prelude::*;

verus! {

/// One non-null value as the maximum sees it: booleans, integers (every
/// integer width, decimals by their unscaled integer, dates by their epoch
/// number) and text by its UTF-8 bytes.
pub enum Datum {
    Bool(bool),
    Int(int),
    Text(Seq<u8>),
}

/// Byte-lexicographic order: a proper prefix comes first.
pub open spec fn bytes_lt(a: Seq<u8>, b: Seq<u8>) -> bool
    decreases a.len(),
{
    if b.len() == 0 {
        false
    } else if a.len() == 0 {
        true
    } else if a[0] != b[0] {
        a[0] < b[0]
    } else {
        bytes_lt(a.drop_first(), b.drop_first())
    }
}

/// The strict order of values of one kind: `false < true`, numeric order,
/// byte-lexicographic order. Values of different kinds are unordered.
pub open spec fn datum_lt(a: Datum, b: Datum) -> bool {
    match (a, b) {
        (Datum::Bool(x), Datum::Bool(y)) => !x && y,
        (Datum::Int(x), Datum::Int(y)) => x < y,
        (Datum::Text(x), Datum::Text(y)) => bytes_lt(x, y),
        _ => false,
    }
}

pub open spec fn same_kind(a: Datum, b: Datum) -> bool {
    match (a, b) {
        (Datum::Bool(_), Datum::Bool(_)) => true,
        (Datum::Int(_), Datum::Int(_)) => true,
        (Datum::Text(_), Datum::Text(_)) => true,
        _ => false,
    }
}

/// The larger of two optional values, a null (`None`) being no value at all:
/// the current value is replaced only by a strictly larger one.
pub open spec fn max_opt(cur: Option<Datum>, new: Option<Datum>) -> Option<Datum> {
    match cur {
        None => new,
        Some(x) => match new {
            None => cur,
            Some(y) => if datum_lt(x, y) {
                new
            } else {
                cur
            },
        },
    }
}

/// The largest valid value of a column, `None` when every cell is null.
pub open spec fn column_max(cells: Seq<Option<Datum>>) -> Option<Datum>
    decreases cells.len(),
{
    if cells.len() == 0 {
        None
    } else {
        max_opt(column_max(cells.drop_last()), cells.last())
    }
}

/// What one row-wise update per row, in row order, makes of the value `v`.
pub open spec fn row_fold(v: Option<Datum>, cells: Seq<Option<Datum>>) -> Option<Datum>
    decreases cells.len(),
{
    if cells.len() == 0 {
        v
    } else {
        max_opt(row_fold(v, cells.drop_last()), cells.last())
    }
}

/// Both values, where present, are of the same kind as `d`.
pub open spec fn opt_kind(o: Option<Datum>, d: Datum) -> bool {
    match o {
        None => true,
        Some(x) => same_kind(x, d),
    }
}

pub proof fn lemma_bytes_lt_asym(a: Seq<u8>, b: Seq<u8>)
    ensures
        !(bytes_lt(a, b) && bytes_lt(b, a)),
    decreases a.len(),
{
    if a.len() > 0 && b.len() > 0 && a[0] == b[0] {
        lemma_bytes_lt_asym(a.drop_first(), b.drop_first());
    }
}

pub proof fn lemma_bytes_lt_total(a: Seq<u8>, b: Seq<u8>)
    ensures
        bytes_lt(a, b) || bytes_lt(b, a) || a == b,
    decreases a.len(),
{
    if a.len() > 0 && b.len() > 0 && a[0] == b[0] {
        lemma_bytes_lt_total(a.drop_first(), b.drop_first());
        if a.drop_first() == b.drop_first() {
            assert(a =~= seq![a[0]] + a.drop_first());
            assert(b =~= seq![b[0]] + b.drop_first());
        }
    } else if a.len() == 0 && b.len() == 0 {
        assert(a =~= b);
    }
}

pub proof fn lemma_bytes_lt_trans(a: Seq<u8>, b: Seq<u8>, c: Seq<u8>)
    requires
        bytes_lt(a, b),
        bytes_lt(b, c),
    ensures
        bytes_lt(a, c),
    decreases a.len(),
{
    if a.len() > 0 && a[0] == b[0] && b[0] == c[0] {
        lemma_bytes_lt_trans(a.drop_first(), b.drop_first(), c.drop_first());
    }
}

/// `datum_lt` is a strict total order on the values of one kind.
pub proof fn lemma_datum_order(x: Datum, y: Datum, z: Datum)
    requires
        same_kind(x, y),
        same_kind(y, z),
    ensures
        !(datum_lt(x, y) && datum_lt(y, x)),
        datum_lt(x, y) || datum_lt(y, x) || x == y,
        datum_lt(x, y) && datum_lt(y, z) ==> datum_lt(x, z),
{
    match (x, y, z) {
        (Datum::Text(a), Datum::Text(b), Datum::Text(c)) => {
            lemma_bytes_lt_asym(a, b);
            lemma_bytes_lt_total(a, b);
            if bytes_lt(a, b) && bytes_lt(b, c) {
                lemma_bytes_lt_trans(a, b, c);
            }
        },
        _ => {},
    }
}

/// `max_opt` is commutative and associative on values of one kind.
pub proof fn lemma_max_opt_laws(a: Option<Datum>, b: Option<Datum>, c: Option<Datum>, d: Datum)
    requires
        opt_kind(a, d),
        opt_kind(b, d),
        opt_kind(c, d),
    ensures
        max_opt(a, b) == max_opt(b, a),
        max_opt(max_opt(a, b), c) == max_opt(a, max_opt(b, c)),
{
    if a is Some && b is Some {
        lemma_datum_order(a->0, b->0, b->0);
    }
    if a is Some && b is Some && c is Some {
        let (x, y, z) = (a->0, b->0, c->0);
        lemma_datum_order(x, y, z);
        lemma_datum_order(y, z, x);
        lemma_datum_order(z, x, y);
        lemma_datum_order(x, z, y);
        lemma_datum_order(y, x, z);
        lemma_datum_order(z, y, x);
    } else if a is Some && c is Some {
        lemma_datum_order(a->0, c->0, c->0);
    } else if b is Some && c is Some {
        lemma_datum_order(b->0, c->0, c->0);
    }
}

/// A column whose cells are all null has no maximum.
pub proof fn lemma_column_max_all_null(cells: Seq<Option<Datum>>)
    requires
        forall|i: int| 0 <= i < cells.len() ==> #[trigger] cells[i] is None,
    ensures
        column_max(cells) is None,
    decreases cells.len(),
{
    if cells.len() > 0 {
        lemma_column_max_all_null(cells.drop_last());
    }
}

/// Byte-lexicographic comparison of two byte strings.
pub fn bytes_lt_exec(a: &[u8], b: &[u8]) -> (r: bool)
    ensures
        r == bytes_lt(a@, b@),
{
    let mut i: usize = 0;
    assert(a@.subrange(0, a@.len() as int) =~= a@);
    assert(b@.subrange(0, b@.len() as int) =~= b@);
    while i < a.len() && i < b.len()
        invariant
            i <= a@.len(),
            i <= b@.len(),
            bytes_lt(a@, b@) == bytes_lt(a@.subrange(i as int, a@.len() as int), b@.subrange(i as int, b@.len() as int)),
        decreases a@.len() - i,
    {
        let ghost sa = a@.subrange(i as int, a@.len() as int);
        let ghost sb = b@.subrange(i as int, b@.len() as int);
        assert(sa[0] == a@[i as int] && sb[0] == b@[i as int]);
        if a[i] != b[i] {
            return a[i] < b[i];
        }
        assert(sa.drop_first() =~= a@.subrange(i + 1, a@.len() as int));
        assert(sb.drop_first() =~= b@.subrange(i + 1, b@.len() as int));
        i = i + 1;
    }
    i == a.len() && i < b.len()
}

} // verus!
