//! What the library guarantees: laws of schema inference, of conversion and
//! of a whole read, each stated over the models that the contracts of
//! [`crate::physical_exec`] use, and proved from them.

use vstd::arithmetic::div_mod::{lemma_fundamental_div_mod, lemma_mod_bound};
use vstd::prelude::*;
use crate::batch::BatchView;
use crate::error::{
    empty_input_message, header_failure_message, missing_header_message, ErrorView,
};
use crate::file_format::OptionsView;
use crate::physical_exec::{
    all_sound, cell_at, column_name, convert_cell, fields_of, inferred, kind_at,
    lemma_first_failure_none, pull, rows_of, scanned_rows, seen, source_column, spec_batch_of,
    spec_classify, spec_infer_column_type, spec_records_to_batch, window, Pulled, Row, StreamView,
    ValueKind,
};
use crate::schema::{output_fields, valid_projection, DataType, FieldView};
use crate::text::{
    first_of, is_digit, spec_is_float_literal, spec_parse_bool, spec_parse_int64, token_false,
    token_true, trimmed, without_sign,
};
use crate::tokenizer::{csv_header, csv_records};

verus! {

// ---------------------------------------------------------------------------
// What inference guarantees
// ---------------------------------------------------------------------------

/// With a header row, inference succeeds exactly when the tokenizer returns a
/// header row with at least one token. The schema then has one field per
/// token, named by the tokens in order, and every field is nullable.
pub proof fn lemma_header_names_fields(bytes: Seq<u8>, options: OptionsView)
    requires
        options.has_header,
    ensures
        match csv_header(bytes, options.delimiter) {
            Ok(names) => if names.len() > 0 {
                &&& inferred(bytes, options) matches Ok(schema)
                &&& schema.len() == names.len()
                &&& forall|i: int|
                    0 <= i < schema.len() ==> (#[trigger] schema[i]).name == names[i]
                        && schema[i].nullable
            } else {
                inferred(bytes, options) == Err::<Seq<FieldView>, ErrorView>(
                    ErrorView::HeaderRead(missing_header_message()),
                )
            },
            Err(detail) => inferred(bytes, options) == Err::<Seq<FieldView>, ErrorView>(
                ErrorView::HeaderRead(header_failure_message(detail)),
            ),
        },
{
}

/// Without a header row, inference succeeds exactly when there is a first
/// record that was tokenized. The schema then has one field per field of that
/// record, named `column_0`, `column_1`, ... in order, and every field is
/// nullable.
pub proof fn lemma_positional_names_fields(bytes: Seq<u8>, options: OptionsView)
    requires
        !options.has_header,
    ensures
        ({
            let rows = csv_records(bytes, options.delimiter, false);
            match inferred(bytes, options) {
                Ok(schema) => {
                    &&& rows.len() > 0
                    &&& rows[0] is Ok
                    &&& schema.len() == fields_of(rows[0]).len()
                    &&& forall|i: int|
                        0 <= i < schema.len() ==> (#[trigger] schema[i]).name == column_name(
                            i as nat,
                        ) && schema[i].nullable
                },
                Err(e) => {
                    &&& rows.len() == 0 || rows[0] is Err
                    &&& e == ErrorView::HeaderRead(empty_input_message())
                },
            }
        }),
{
}

/// Whether the scanned records hold a value of kind `kind` in column `col`.
pub open spec fn has_kind(rows: Seq<Row>, col: int, kind: ValueKind) -> bool {
    seen(rows, col, kind, scanned_rows(rows))
}

/// Whether the scanned records hold, in column `col`, nothing but values of
/// the kinds `a` and `b`.
pub open spec fn only_kinds(rows: Seq<Row>, col: int, a: ValueKind, b: ValueKind) -> bool {
    forall|r: int|
        0 <= r < scanned_rows(rows) ==> {
            let kind = #[trigger] kind_at(rows, r, col);
            kind == a || kind == b
        }
}

/// The priority among the types. Over the scanned records of a column:
/// booleans and nothing else but empty values make it boolean; one value with
/// a decimal point makes it floating-point, whatever else it holds; integers
/// and nothing else but empty values make it integer; a value that is neither
/// a boolean nor a number makes it text, unless a value with a decimal point
/// stands beside it; and without any value at all it is text.
pub proof fn lemma_type_priority(rows: Seq<Row>, col: int)
    ensures
        has_kind(rows, col, ValueKind::Boolean) && only_kinds(
            rows,
            col,
            ValueKind::Boolean,
            ValueKind::Empty,
        ) ==> spec_infer_column_type(rows, col) == DataType::Boolean,
        has_kind(rows, col, ValueKind::Float) ==> spec_infer_column_type(rows, col)
            == DataType::Float64,
        has_kind(rows, col, ValueKind::Integer) && only_kinds(
            rows,
            col,
            ValueKind::Integer,
            ValueKind::Empty,
        ) ==> spec_infer_column_type(rows, col) == DataType::Int64,
        has_kind(rows, col, ValueKind::Other) && !has_kind(rows, col, ValueKind::Float)
            ==> spec_infer_column_type(rows, col) == DataType::Utf8,
        only_kinds(rows, col, ValueKind::Empty, ValueKind::Empty) ==> spec_infer_column_type(
            rows,
            col,
        ) == DataType::Utf8,
{
}

/// The type of a column is one of four cases of what its scanned records
/// hold, tried in this order: a value with a decimal point, a value that is
/// neither boolean nor number, an integer, a boolean.
pub proof fn lemma_type_by_cases(rows: Seq<Row>, col: int)
    ensures
        spec_infer_column_type(rows, col) == if has_kind(rows, col, ValueKind::Float) {
            DataType::Float64
        } else if has_kind(rows, col, ValueKind::Other) {
            DataType::Utf8
        } else if has_kind(rows, col, ValueKind::Integer) {
            DataType::Int64
        } else if has_kind(rows, col, ValueKind::Boolean) {
            DataType::Boolean
        } else {
            DataType::Utf8
        },
{
}

/// Where nothing at or after `from` is `a` or `b`, the search finds nothing.
proof fn lemma_first_of_absent(s: Seq<char>, a: char, b: char, from: int)
    requires
        0 <= from,
        forall|k: int| from <= k < s.len() ==> (#[trigger] s[k]) != a && s[k] != b,
    ensures
        first_of(s, a, b, from) == s.len(),
    decreases s.len() - from,
{
    if from < s.len() {
        lemma_first_of_absent(s, a, b, from + 1);
    }
}

/// A value that reads as a 64-bit integer counts as an integer.
pub proof fn lemma_int64_counts_as_integer(cell: Seq<char>)
    requires
        spec_parse_int64(trimmed(cell)) is Some,
    ensures
        spec_classify(cell) == ValueKind::Integer,
{
    let value = trimmed(cell);
    let digits = without_sign(value);
    // Digits hold neither an exponent mark nor a decimal point, so the value
    // is a mantissa without fraction.
    assert forall|k: int| 0 <= k < digits.len() implies (#[trigger] digits[k]) != 'e' && digits[k]
        != 'E' && digits[k] != '.' by {
        assert(is_digit(digits[k]));
    }
    lemma_first_of_absent(digits, 'e', 'E', 0);
    lemma_first_of_absent(digits, '.', '.', 0);
    assert(digits.take(digits.len() as int) =~= digits);
    // A sign in front is no decimal point either.
    assert forall|k: int| 0 <= k < value.len() implies value[k] != '.' by {
        if digits.len() < value.len() && k > 0 {
            assert(value[k] == digits[k - 1]);
        }
    }
    // And neither a sign nor a digit starts `true` or `false`.
    assert(token_true()[0] == 't' && token_false()[0] == 'f');
}

// ---------------------------------------------------------------------------
// What conversion guarantees
// ---------------------------------------------------------------------------

/// A value becomes null exactly when it does not parse as its column's type;
/// text always passes through.
pub proof fn lemma_null_iff_unparsed(data_type: DataType, text: Seq<char>)
    ensures
        convert_cell(data_type, Some(text)) is Null <==> match data_type {
            DataType::Utf8 => false,
            DataType::Int64 => spec_parse_int64(text) is None,
            DataType::Float64 => !spec_is_float_literal(text),
            DataType::Boolean => spec_parse_bool(text) is None,
        },
{
}

/// Values that do not parse never fail a batch nor change its row count:
/// whatever the records hold, as long as there is one, they become a batch of
/// as many rows, each column holding one cell per record.
pub proof fn lemma_conversion_keeps_rows(
    rows: Seq<Row>,
    schema: Seq<FieldView>,
    projection: Option<Seq<usize>>,
)
    requires
        rows.len() > 0,
    ensures
        spec_records_to_batch(rows, schema, projection) == Ok::<BatchView, ErrorView>(
            spec_batch_of(rows, schema, projection),
        ),
        ({
            let batch = spec_batch_of(rows, schema, projection);
            &&& batch.num_rows == rows.len()
            &&& batch.columns.len() == output_fields(schema, projection).len()
            &&& forall|j: int, r: int|
                0 <= j < batch.columns.len() && 0 <= r < rows.len() ==> {
                    &&& (#[trigger] batch.columns[j]).cells.len() == rows.len()
                    &&& #[trigger] batch.columns[j].cells[r] == convert_cell(
                        output_fields(schema, projection)[j].data_type,
                        cell_at(rows[r], source_column(projection, j)),
                    )
                }
        }),
{
}

/// The projection law. A batch read under a projection has one column per
/// index of the projection, in the projection's order, and each is the column
/// that a batch read without projection has at that index. The row count is
/// the same.
pub proof fn lemma_projection_selects_columns(
    rows: Seq<Row>,
    schema: Seq<FieldView>,
    projection: Seq<usize>,
)
    requires
        valid_projection(schema.len(), projection),
    ensures
        ({
            let projected = spec_batch_of(rows, schema, Some(projection));
            let full = spec_batch_of(rows, schema, None);
            &&& projected.num_rows == full.num_rows
            &&& projected.schema.len() == projection.len()
            &&& projected.columns.len() == projection.len()
            &&& forall|j: int|
                0 <= j < projection.len() ==> {
                    &&& (#[trigger] projected.columns[j]) == full.columns[projection[j] as int]
                    &&& projected.schema[j] == full.schema[projection[j] as int]
                }
        }),
{
}

// ---------------------------------------------------------------------------
// What a whole read yields
// ---------------------------------------------------------------------------

/// The stream that `n` pulls leave.
pub open spec fn after_pulls(s: StreamView, n: nat) -> StreamView
    decreases n,
{
    if n == 0 {
        s
    } else {
        pull(after_pulls(s, (n - 1) as nat)).1
    }
}

/// What pull number `n` yields, counting from 0.
pub open spec fn nth_pull(s: StreamView, n: nat) -> Pulled {
    pull(after_pulls(s, n)).0
}

/// The number of batches that `rows` records make at `batch_size` rows each:
/// the quotient, rounded up.
pub open spec fn batch_count(rows: nat, batch_size: nat) -> nat {
    if rows % batch_size == 0 {
        rows / batch_size
    } else {
        rows / batch_size + 1
    }
}

/// The number of rows of batch `i` of `rows` records: `batch_size`, but for a
/// last batch that holds what is left over.
pub open spec fn batch_rows(rows: nat, batch_size: nat, i: nat) -> nat {
    if i + 1 < batch_count(rows, batch_size) || rows % batch_size == 0 {
        batch_size
    } else {
        rows % batch_size
    }
}

proof fn lemma_full_batches_fit(r: nat, b: nat, i: nat)
    requires
        b > 0,
        i <= r / b,
    ensures
        i * b <= r,
        i < r / b ==> (i + 1) * b <= r,
        r == (r / b) * b + r % b,
        0 <= r % b < b,
{
    lemma_fundamental_div_mod(r as int, b as int);
    lemma_mod_bound(r as int, b as int);
    let q = r / b;
    assert(i * b <= q * b) by (nonlinear_arith)
        requires
            i <= q,
            b > 0,
    ;
    if i < q {
        assert((i + 1) * b <= q * b) by (nonlinear_arith)
            requires
                i + 1 <= q,
                b > 0,
        ;
    }
}

/// Where a stream stands after `n` pulls over records that were all
/// tokenized: past `n` full batches while there are that many, finished after
/// that.
proof fn lemma_after_pulls(s: StreamView, n: nat)
    requires
        !s.finished,
        s.batch_size > 0,
        all_sound(s.pending),
    ensures
        n <= s.pending.len() / s.batch_size ==> after_pulls(s, n) == (StreamView {
            pending: s.pending.skip((n * s.batch_size) as int),
            ..s
        }),
        n > s.pending.len() / s.batch_size ==> after_pulls(s, n).finished,
    decreases n,
{
    let r = s.pending.len();
    let b = s.batch_size;
    let full = r / b;
    if n == 0 {
        assert(n * b == 0) by (nonlinear_arith)
            requires
                n == 0,
        ;
        assert(s.pending.skip(0) =~= s.pending);
    } else {
        let m = (n - 1) as nat;
        lemma_after_pulls(s, m);
        let t = after_pulls(s, m);
        if m <= full {
            // The pull before this one left the stream active, past `m` full batches.
            lemma_full_batches_fit(r, b, m);
            assert(all_sound(window(t)));
            lemma_first_failure_none(window(t), 0);
            if m < full {
                // Another full batch is there: the pull takes it and stays active.
                assert((m + 1) * b == m * b + b) by (nonlinear_arith);
                assert(t.pending.skip(b as int) =~= s.pending.skip((n * b) as int));
                assert(pull(t).1 == (StreamView {
                    pending: t.pending.skip(b as int),
                    finished: false,
                    ..t
                }));
            }
        }
    }
}

/// The batch-size law. Over `R` records that were all tokenized, a stream of
/// batch size `B > 0` yields `ceil(R / B)` batches and then the end, again and
/// again. Batch `i` holds the records from `i * B` on, in order: `B` of them,
/// but for the last batch, which holds `R mod B` when that is not 0.
pub proof fn lemma_batch_size_law(s: StreamView, i: nat)
    requires
        !s.finished,
        s.batch_size > 0,
        all_sound(s.pending),
    ensures
        i >= batch_count(s.pending.len(), s.batch_size) ==> nth_pull(s, i) is End,
        i < batch_count(s.pending.len(), s.batch_size) ==> {
            let size = batch_rows(s.pending.len(), s.batch_size, i);
            let first = i * s.batch_size;
            &&& 0 < size
            &&& first + size <= s.pending.len()
            &&& nth_pull(s, i) matches Pulled::Batch(batch)
            &&& batch.num_rows == size
            &&& batch == spec_batch_of(
                rows_of(s.pending.subrange(first as int, (first + size) as int)),
                s.schema,
                s.projection,
            )
        },
{
    let r = s.pending.len();
    let b = s.batch_size;
    let full = r / b;
    lemma_after_pulls(s, i);
    let t = after_pulls(s, i);
    lemma_fundamental_div_mod(r as int, b as int);
    lemma_mod_bound(r as int, b as int);
    if i <= full {
        // Pull `i` finds the stream active, past `i` full batches.
        lemma_full_batches_fit(r, b, i);
        let seen = window(t);
        assert(all_sound(seen));
        lemma_first_failure_none(seen, 0);
        if i < full {
            assert((i + 1) * b == i * b + b) by (nonlinear_arith);
            assert(seen =~= s.pending.subrange((i * b) as int, (i * b + b) as int));
        } else {
            assert(seen =~= s.pending.subrange((i * b) as int, (i * b + r % b) as int));
        }
    }
}

/// The number of rows in the first `n` batches of `rows` records.
pub open spec fn rows_in_batches(rows: nat, batch_size: nat, n: nat) -> nat
    decreases n,
{
    if n == 0 {
        0
    } else {
        rows_in_batches(rows, batch_size, (n - 1) as nat) + batch_rows(
            rows,
            batch_size,
            (n - 1) as nat,
        )
    }
}

proof fn lemma_rows_in_full_batches(r: nat, b: nat, n: nat)
    requires
        b > 0,
        n <= r / b,
    ensures
        rows_in_batches(r, b, n) == n * b,
    decreases n,
{
    if n > 0 {
        let m = (n - 1) as nat;
        lemma_rows_in_full_batches(r, b, m);
        assert(n * b == m * b + b) by (nonlinear_arith)
            requires
                n == m + 1,
        ;
    } else {
        assert(n * b == 0) by (nonlinear_arith)
            requires
                n == 0,
        ;
    }
}

/// The batches of a read hold every record once: their row counts add up to
/// the number of records, and there is at least one batch where there is a
/// record.
pub proof fn lemma_batches_hold_every_row(rows: nat, batch_size: nat)
    requires
        batch_size > 0,
    ensures
        rows_in_batches(rows, batch_size, batch_count(rows, batch_size)) == rows,
        rows > 0 ==> batch_count(rows, batch_size) > 0,
{
    let full = rows / batch_size;
    lemma_full_batches_fit(rows, batch_size, full);
    lemma_rows_in_full_batches(rows, batch_size, full);
}

/// Under an empty projection a batch has no column and still counts its
/// rows.
pub proof fn lemma_empty_projection_counts_rows(rows: Seq<Row>, schema: Seq<FieldView>)
    ensures
        spec_batch_of(rows, schema, Some(Seq::<usize>::empty())).columns.len() == 0,
        spec_batch_of(rows, schema, Some(Seq::<usize>::empty())).schema.len() == 0,
        spec_batch_of(rows, schema, Some(Seq::<usize>::empty())).num_rows == rows.len(),
{
}

/// A finished stream stays finished: every further pull yields the end and
/// leaves the stream as it is.
pub proof fn lemma_finished_stays_finished(s: StreamView, n: nat)
    requires
        s.finished,
    ensures
        after_pulls(s, n) == s,
        nth_pull(s, n) is End,
    decreases n,
{
    if n > 0 {
        lemma_finished_stays_finished(s, (n - 1) as nat);
    }
}

/// A pull that fails finishes the stream: whatever is pulled after it is the
/// end.
pub proof fn lemma_failure_ends_the_stream(s: StreamView, n: nat)
    requires
        pull(s).0 is Failed,
    ensures
        pull(s).1.finished,
        nth_pull(pull(s).1, n) is End,
{
    lemma_finished_stays_finished(pull(s).1, n);
}

} // verus!
