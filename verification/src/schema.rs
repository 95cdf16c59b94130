//! A table's catalog entry: an ordered collection of column definitions,
//! validated at construction against the catalog integrity invariants, and
//! pure projections over it (columnar schema, field-slot mapping, payload
//! width, approximate memory footprint).

use vstd::prelude::*;
use vstd::seq_lib::group_to_multiset_ensures;

use std::collections::HashMap;

use crate::field::TableFiled;
use crate::text::{dec_str, lemma_lex_total, lex_le, lex_lt, str_eq, str_lex_lt, u64_to_dec_string};
use crate::types::{native_of, ColumnType, NativeType};
use crate::SchemaFieldId;

verus! {

/// Conventional name of the mandatory time column.
pub const TIME_FIELD_NAME: &'static str = "time";

/// A change rejected at schema construction time because it would violate
/// a catalog invariant; the offending schema is never published.
#[derive(Debug, Copy, Clone, PartialEq, Eq, Structural)]
pub enum CatalogIntegrityViolation {
    /// Two columns share one name.
    DuplicateFieldName,
    /// Two field-role columns share one identifier.
    DuplicateFieldId,
    /// More than one column has the time role.
    MultipleTimeColumns,
}

/// Whether a column plays the field role (it is neither a tag nor the time
/// column), so it occupies a slot of the value payload written per row.
pub open spec fn is_field_role(t: ColumnType) -> bool {
    t matches ColumnType::Field(_)
}

/// Column names are strictly ascending, hence unique.
pub open spec fn names_sorted(fs: Seq<TableFiled>) -> bool {
    forall|i: int, j: int| 0 <= i < j < fs.len() ==> lex_lt(#[trigger] fs[i].name@, #[trigger] fs[j].name@)
}

/// Two columns share one name.
pub open spec fn has_dup_name(fs: Seq<TableFiled>) -> bool {
    exists|i: int, j: int|
        0 <= i < j < fs.len() && #[trigger] fs[i].name@ == #[trigger] fs[j].name@
}

/// Two field-role columns share one identifier.
pub open spec fn has_dup_field_id(fs: Seq<TableFiled>) -> bool {
    exists|i: int, j: int|
        0 <= i < j < fs.len() && is_field_role(#[trigger] fs[i].column_type) && is_field_role(
            #[trigger] fs[j].column_type,
        ) && fs[i].id == fs[j].id
}

/// More than one column has the time role.
pub open spec fn has_multiple_time(fs: Seq<TableFiled>) -> bool {
    exists|i: int, j: int|
        0 <= i < j < fs.len() && #[trigger] fs[i].column_type == ColumnType::Time
            && #[trigger] fs[j].column_type == ColumnType::Time
}

/// One table's catalog entry. `schema_id` is the version counter that
/// increments on every structural change; published snapshots are
/// immutable, so every operation here is a pure projection.
#[derive(Debug, Clone)]
pub struct TableSchema {
    pub db: String,
    pub name: String,
    pub schema_id: u32,
    pub fields: Vec<TableFiled>,
}

impl TableSchema {
    /// The column definitions, in ascending name order.
    pub open spec fn spec_fields(self) -> Seq<TableFiled> {
        self.fields@
    }

    /// Catalog integrity: columns in strict name order (hence unique
    /// names), unique identifiers among field-role columns, and at most
    /// one time column.
    pub open spec fn wf(self) -> bool {
        &&& names_sorted(self.spec_fields())
        &&& !has_dup_field_id(self.spec_fields())
        &&& !has_multiple_time(self.spec_fields())
    }
}

/// Sorts columns into ascending name order; the result holds exactly the
/// columns given, and is non-strictly sorted (strictly, once names are
/// known to be unique).
fn sort_fields_by_name(input: Vec<TableFiled>) -> (r: Vec<TableFiled>)
    ensures
        r@.to_multiset() == input@.to_multiset(),
        forall|i: int, j: int| 0 <= i < j < r@.len() ==> lex_le(#[trigger] r@[i].name@, #[trigger] r@[j].name@),
{
    broadcast use group_to_multiset_ensures;

    let mut work = input;
    let mut out: Vec<TableFiled> = Vec::new();
    let ghost all: Seq<TableFiled> = work@;
    proof {
        assert(out@.to_multiset().add(work@.to_multiset()) =~= all.to_multiset());
    }
    while work.len() > 0
        invariant
            out@.to_multiset().add(work@.to_multiset()) == all.to_multiset(),
            forall|i: int, j: int| 0 <= i < j < out@.len() ==> lex_le(#[trigger] out@[i].name@, #[trigger] out@[j].name@),
            forall|i: int, j: int|
                0 <= i < out@.len() && 0 <= j < work@.len() ==> lex_le(
                    #[trigger] out@[i].name@,
                    #[trigger] work@[j].name@,
                ),
        decreases work@.len(),
    {
        let mut mi: usize = 0;
        let mut j: usize = 1;
        while j < work.len()
            invariant
                work@.len() > 0,
                0 <= mi < j <= work@.len(),
                forall|k: int| 0 <= k < j ==> lex_le(work@[mi as int].name@, #[trigger] work@[k].name@),
            decreases work@.len() - j,
        {
            if str_lex_lt(work[j].name.as_str(), work[mi].name.as_str()) {
                proof {
                    assert forall|k: int| 0 <= k < j + 1 implies lex_le(
                        work@[j as int].name@,
                        #[trigger] work@[k].name@,
                    ) by {
                        if k < j {
                            crate::text::lemma_lex_lt_le_trans(
                                work@[j as int].name@,
                                work@[mi as int].name@,
                                work@[k].name@,
                            );
                        }
                    }
                }
                mi = j;
            } else {
                proof {
                    lemma_lex_total(work@[j as int].name@, work@[mi as int].name@);
                }
            }
            j += 1;
        }
        let ghost old_work: Seq<TableFiled> = work@;
        let ghost old_out: Seq<TableFiled> = out@;
        let x = work.remove(mi);
        let ghost gx: TableFiled = x;
        out.push(x);
        proof {
            broadcast use vstd::multiset::group_multiset_axioms;

            old_work.to_multiset_ensures();
            old_out.to_multiset_ensures();
            assert(old_work[mi as int] == gx);
            assert(old_work.contains(gx));
            assert(old_work.to_multiset().count(gx) > 0);
            assert(old_work.remove(mi as int).to_multiset() == old_work.to_multiset().remove(gx));
            assert(work@.to_multiset() == old_work.to_multiset().remove(gx));
            assert(out@ == old_out.push(gx));
            assert(old_out.push(gx).to_multiset() == old_out.to_multiset().insert(gx));
            assert(out@.to_multiset().add(work@.to_multiset()) =~= all.to_multiset());
            assert forall|i: int, j2: int|
                0 <= i < out@.len() && 0 <= j2 < work@.len() implies lex_le(
                #[trigger] out@[i].name@,
                #[trigger] work@[j2].name@,
            ) by {
                let orig: int = if j2 < mi {
                    j2
                } else {
                    j2 + 1
                };
                assert(work@[j2] == old_work[orig]);
                if i < out@.len() - 1 {
                    assert(out@[i] == old_out[i]);
                } else {
                    assert(out@[i] == gx);
                }
            }
        }
    }
    proof {
        broadcast use vstd::multiset::group_multiset_axioms;

        work@.to_multiset_ensures();
        assert(work@.to_multiset().len() == 0);
        assert(out@.to_multiset() =~= all.to_multiset());
    }
    out
}

/// An element occurring at two positions occurs at least twice in the
/// multiset.
proof fn lemma_dup_elem_count(s: Seq<TableFiled>, i: int, j: int)
    requires
        0 <= i < j < s.len(),
        s[i] == s[j],
    ensures
        s.to_multiset().count(s[i]) >= 2,
{
    broadcast use vstd::multiset::group_multiset_axioms;

    s.to_multiset_ensures();
    s.remove_ensures(i);
    assert(s.remove(i)[j - 1] == s[j]);
    assert(s.remove(i).contains(s[j]));
    s.remove(i).to_multiset_ensures();
    assert(s.remove(i).to_multiset().count(s[j]) > 0);
    assert(s.remove(i).to_multiset() =~= s.to_multiset().remove(s[i]));
}

/// An element counted at least twice occurs at two positions.
proof fn lemma_count_two_indices(s: Seq<TableFiled>, x: TableFiled)
    requires
        s.to_multiset().count(x) >= 2,
    ensures
        exists|i: int, j: int| #![auto] 0 <= i < j < s.len() && s[i] == x && s[j] == x,
{
    broadcast use vstd::multiset::group_multiset_axioms;

    s.to_multiset_ensures();
    assert(s.contains(x));
    let i0 = choose|i: int| 0 <= i < s.len() && s[i] == x;
    s.remove_ensures(i0);
    assert(s.remove(i0).to_multiset() =~= s.to_multiset().remove(x)) by {
        assert(s[i0] == x);
    }
    assert(s.remove(i0).to_multiset().count(x) >= 1);
    s.remove(i0).to_multiset_ensures();
    assert(s.remove(i0).contains(x));
    let k = choose|k: int| 0 <= k < s.remove(i0).len() && s.remove(i0)[k] == x;
    let i1: int = if k < i0 {
        k
    } else {
        k + 1
    };
    assert(s[i1] == x);
    if i0 < i1 {
        assert(0 <= i0 < i1 < s.len() && s[i0] == x && s[i1] == x);
    } else {
        assert(0 <= i1 < i0 < s.len() && s[i1] == x && s[i0] == x);
    }
}

/// The integrity violations speak only of which columns occur, not of
/// their order, so a permutation has the same violations.
proof fn lemma_perm_preserves_clashes(a: Seq<TableFiled>, b: Seq<TableFiled>)
    requires
        a.to_multiset() == b.to_multiset(),
    ensures
        has_dup_name(b) ==> has_dup_name(a),
        has_dup_field_id(b) ==> has_dup_field_id(a),
        has_multiple_time(b) ==> has_multiple_time(a),
{
    broadcast use vstd::multiset::group_multiset_axioms;

    a.to_multiset_ensures();
    b.to_multiset_ensures();
    if has_dup_name(b) {
        let (i, j): (int, int) = choose|i: int, j: int|
            0 <= i < j < b.len() && #[trigger] b[i].name@ == #[trigger] b[j].name@;
        lemma_pair_transfer(a, b, i, j);
        let (p, q): (int, int) = choose|p: int, q: int|
            #![auto]
            0 <= p < q < a.len() && ((a[p] == b[i] && a[q] == b[j]) || (a[p] == b[j] && a[q] == b[i]));
        assert(a[p].name@ == a[q].name@);
    }
    if has_dup_field_id(b) {
        let (i, j): (int, int) = choose|i: int, j: int|
            0 <= i < j < b.len() && is_field_role(#[trigger] b[i].column_type) && is_field_role(
                #[trigger] b[j].column_type,
            ) && b[i].id == b[j].id;
        lemma_pair_transfer(a, b, i, j);
        let (p, q): (int, int) = choose|p: int, q: int|
            #![auto]
            0 <= p < q < a.len() && ((a[p] == b[i] && a[q] == b[j]) || (a[p] == b[j] && a[q] == b[i]));
        assert(is_field_role(a[p].column_type) && is_field_role(a[q].column_type) && a[p].id == a[q].id);
    }
    if has_multiple_time(b) {
        let (i, j): (int, int) = choose|i: int, j: int|
            0 <= i < j < b.len() && #[trigger] b[i].column_type == ColumnType::Time
                && #[trigger] b[j].column_type == ColumnType::Time;
        lemma_pair_transfer(a, b, i, j);
        let (p, q): (int, int) = choose|p: int, q: int|
            #![auto]
            0 <= p < q < a.len() && ((a[p] == b[i] && a[q] == b[j]) || (a[p] == b[j] && a[q] == b[i]));
        assert(a[p].column_type == ColumnType::Time && a[q].column_type == ColumnType::Time);
    }
}

/// Two positions of a permuted sequence map back to two positions of the
/// original holding the same pair of elements (possibly swapped).
proof fn lemma_pair_transfer(a: Seq<TableFiled>, b: Seq<TableFiled>, i: int, j: int)
    requires
        a.to_multiset() == b.to_multiset(),
        0 <= i < j < b.len(),
    ensures
        exists|p: int, q: int|
            #![auto]
            0 <= p < q < a.len() && ((a[p] == b[i] && a[q] == b[j]) || (a[p] == b[j] && a[q]
                == b[i])),
{
    broadcast use vstd::multiset::group_multiset_axioms;

    a.to_multiset_ensures();
    b.to_multiset_ensures();
    if b[i] == b[j] {
        lemma_dup_elem_count(b, i, j);
        lemma_count_two_indices(a, b[i]);
        let (p, q): (int, int) = choose|p: int, q: int|
            #![auto]
            0 <= p < q < a.len() && a[p] == b[i] && a[q] == b[i];
        assert(0 <= p < q < a.len() && a[p] == b[i] && a[q] == b[j]);
    } else {
        assert(b.contains(b[i]));
        assert(b.contains(b[j]));
        assert(a.to_multiset().count(b[i]) > 0);
        assert(a.to_multiset().count(b[j]) > 0);
        assert(a.contains(b[i]));
        assert(a.contains(b[j]));
        let p = choose|p: int| 0 <= p < a.len() && a[p] == b[i];
        let q = choose|q: int| 0 <= q < a.len() && a[q] == b[j];
        assert(p != q);
        if p < q {
            assert(0 <= p < q < a.len() && a[p] == b[i] && a[q] == b[j]);
        } else {
            assert(0 <= q < p < a.len() && a[q] == b[j] && a[p] == b[i]);
        }
    }
}

impl TableSchema {
    /// Builds a table's catalog entry at version 0, sorting the columns
    /// into name order; rejects, in this order of precedence, a duplicate
    /// column name, a duplicate identifier among field-role columns, and
    /// more than one time column, so that no published schema ever
    /// violates the catalog invariants.
    pub fn new(db: String, name: String, fields: Vec<TableFiled>) -> (r: Result<
        TableSchema,
        CatalogIntegrityViolation,
    >)
        ensures
            has_dup_name(fields@) ==> r == Err::<TableSchema, CatalogIntegrityViolation>(
                CatalogIntegrityViolation::DuplicateFieldName,
            ),
            !has_dup_name(fields@) && has_dup_field_id(fields@) ==> r == Err::<
                TableSchema,
                CatalogIntegrityViolation,
            >(CatalogIntegrityViolation::DuplicateFieldId),
            !has_dup_name(fields@) && !has_dup_field_id(fields@) && has_multiple_time(fields@)
                ==> r == Err::<TableSchema, CatalogIntegrityViolation>(
                CatalogIntegrityViolation::MultipleTimeColumns,
            ),
            !has_dup_name(fields@) && !has_dup_field_id(fields@) && !has_multiple_time(fields@)
                ==> (r matches Ok(s) && s.db == db && s.name == name && s.schema_id == 0
                && s.wf() && s.spec_fields().to_multiset() == fields@.to_multiset()),
    {
        let n: usize = fields.len();
        let mut i: usize = 0;
        while i < n
            invariant
                n == fields@.len(),
                0 <= i <= n,
                forall|x: int, y: int|
                    0 <= x < y < n && x < i ==> #[trigger] fields@[x].name@ != #[trigger] fields@[y].name@,
            decreases n - i,
        {
            let mut j: usize = i + 1;
            while j < n
                invariant
                    n == fields@.len(),
                    0 <= i < j,
                    i + 1 <= j <= n,
                    forall|x: int, y: int|
                        0 <= x < y < n && x < i ==> #[trigger] fields@[x].name@ != #[trigger] fields@[y].name@,
                    forall|y: int| i < y < j ==> fields@[i as int].name@ != #[trigger] fields@[y].name@,
                decreases n - j,
            {
                if fields[i].name == fields[j].name {
                    return Err(CatalogIntegrityViolation::DuplicateFieldName);
                }
                j += 1;
            }
            i += 1;
        }
        assert(!has_dup_name(fields@));
        let mut i: usize = 0;
        while i < n
            invariant
                n == fields@.len(),
                !has_dup_name(fields@),
                0 <= i <= n,
                forall|x: int, y: int|
                    0 <= x < y < n && x < i ==> !(is_field_role(#[trigger] fields@[x].column_type)
                        && is_field_role(#[trigger] fields@[y].column_type) && fields@[x].id
                        == fields@[y].id),
            decreases n - i,
        {
            let mut j: usize = i + 1;
            while j < n
                invariant
                    n == fields@.len(),
                    !has_dup_name(fields@),
                    0 <= i < j,
                    i + 1 <= j <= n,
                    forall|x: int, y: int|
                        0 <= x < y < n && x < i ==> !(is_field_role(
                            #[trigger] fields@[x].column_type,
                        ) && is_field_role(#[trigger] fields@[y].column_type) && fields@[x].id
                            == fields@[y].id),
                    forall|y: int|
                        i < y < j ==> !(is_field_role(fields@[i as int].column_type)
                            && is_field_role(#[trigger] fields@[y].column_type) && fields@[
                            i as int].id == fields@[y].id),
                decreases n - j,
            {
                let fi_role: bool = matches!(fields[i].column_type, ColumnType::Field(_));
                let fj_role: bool = matches!(fields[j].column_type, ColumnType::Field(_));
                if fi_role && fj_role && fields[i].id == fields[j].id {
                    return Err(CatalogIntegrityViolation::DuplicateFieldId);
                }
                j += 1;
            }
            i += 1;
        }
        assert(!has_dup_field_id(fields@));
        let mut i: usize = 0;
        while i < n
            invariant
                n == fields@.len(),
                !has_dup_name(fields@),
                !has_dup_field_id(fields@),
                0 <= i <= n,
                forall|x: int, y: int|
                    0 <= x < y < n && x < i ==> !(#[trigger] fields@[x].column_type
                        == ColumnType::Time && #[trigger] fields@[y].column_type
                        == ColumnType::Time),
            decreases n - i,
        {
            let mut j: usize = i + 1;
            while j < n
                invariant
                    n == fields@.len(),
                    !has_dup_name(fields@),
                    !has_dup_field_id(fields@),
                    0 <= i < j,
                    i + 1 <= j <= n,
                    forall|x: int, y: int|
                        0 <= x < y < n && x < i ==> !(#[trigger] fields@[x].column_type
                            == ColumnType::Time && #[trigger] fields@[y].column_type
                            == ColumnType::Time),
                    forall|y: int|
                        i < y < j ==> !(fields@[i as int].column_type == ColumnType::Time
                            && #[trigger] fields@[y].column_type == ColumnType::Time),
                decreases n - j,
            {
                let ti: bool = fields[i].column_type == ColumnType::Time;
                let tj: bool = fields[j].column_type == ColumnType::Time;
                if ti && tj {
                    return Err(CatalogIntegrityViolation::MultipleTimeColumns);
                }
                j += 1;
            }
            i += 1;
        }
        assert(!has_multiple_time(fields@));
        let ghost input: Seq<TableFiled> = fields@;
        let sorted = sort_fields_by_name(fields);
        proof {
            lemma_perm_preserves_clashes(input, sorted@);
            assert forall|x: int, y: int| 0 <= x < y < sorted@.len() implies lex_lt(
                #[trigger] sorted@[x].name@,
                #[trigger] sorted@[y].name@,
            ) by {
                assert(lex_le(sorted@[x].name@, sorted@[y].name@));
            }
        }
        Ok(TableSchema { db, name, schema_id: 0, fields: sorted })
    }

    /// The column definitions, keyed by their unique names, in ascending
    /// name order.
    pub fn fields(&self) -> (r: &Vec<TableFiled>)
        ensures
            r@ == self.spec_fields(),
    {
        &self.fields
    }
}

/// Count of field-role columns: the width of the value payload written
/// per row.
pub open spec fn spec_field_num(fs: Seq<TableFiled>) -> nat
    decreases fs.len(),
{
    if fs.len() == 0 {
        0
    } else {
        spec_field_num(fs.drop_last()) + if is_field_role(fs.last().column_type) {
            1nat
        } else {
            0nat
        }
    }
}

/// Slot `k` is assigned to some identifier of the mapping.
pub open spec fn slot_filled(m: Map<SchemaFieldId, usize>, k: int) -> bool {
    exists|id: SchemaFieldId| #[trigger] m.contains_key(id) && m[id] == k
}

/// Some field-role column among the first `n` carries this identifier.
pub open spec fn field_id_in_prefix(fs: Seq<TableFiled>, n: int, id: SchemaFieldId) -> bool {
    exists|x: int|
        0 <= x < n && x < fs.len() && is_field_role(#[trigger] fs[x].column_type) && fs[x].id == id
}

/// Some field-role column carries this identifier.
pub open spec fn contains_field_id(fs: Seq<TableFiled>, id: SchemaFieldId) -> bool {
    field_id_in_prefix(fs, fs.len() as int, id)
}

/// Nominal per-entry overhead of a column definition in the footprint
/// accounting (identifier, role, codec, bookkeeping of the entry).
pub const FIELD_ENTRY_SIZE: usize = 64;

/// Nominal overhead of the schema head in the footprint accounting.
pub const SCHEMA_BASE_SIZE: usize = 8;

/// Approximate in-memory footprint of the column entries: each entry
/// counts its name's characters plus a nominal per-entry overhead.
pub open spec fn spec_entries_size(fs: Seq<TableFiled>) -> nat
    decreases fs.len(),
{
    if fs.len() == 0 {
        0
    } else {
        spec_entries_size(fs.drop_last()) + fs.last().name@.len() + (FIELD_ENTRY_SIZE as nat)
    }
}

proof fn lemma_entries_size_take_le(fs: Seq<TableFiled>, i: int)
    requires
        0 <= i <= fs.len(),
    ensures
        spec_entries_size(fs.take(i)) <= spec_entries_size(fs),
    decreases fs.len() - i,
{
    if i == fs.len() {
        assert(fs.take(i) =~= fs);
    } else {
        assert(fs.take(i + 1).drop_last() =~= fs.take(i));
        assert(fs.take(i + 1).last() == fs[i]);
        lemma_entries_size_take_le(fs, i + 1);
    }
}

impl Default for TableSchema {
    /// An empty table entry of the default database namespace.
    fn default() -> (r: Self)
        ensures
            r.db@ == "public"@,
            r.name@.len() == 0,
            r.schema_id == 0,
            r.spec_fields().len() == 0,
            r.wf(),
    {
        TableSchema {
            db: String::from_str("public"),
            name: String::new(),
            schema_id: 0,
            fields: Vec::new(),
        }
    }
}

impl TableSchema {
    /// Count of field-role columns (excluding tags and the time column);
    /// the write path sizes row payload buffers by it.
    pub fn field_fields_num(&self) -> (r: usize)
        ensures
            r == spec_field_num(self.spec_fields()),
    {
        let ghost fs: Seq<TableFiled> = self.spec_fields();
        let n: usize = self.fields.len();
        let mut count: usize = 0;
        let mut i: usize = 0;
        while i < n
            invariant
                fs == self.spec_fields(),
                n == fs.len(),
                0 <= i <= n,
                count <= i,
                count == spec_field_num(fs.take(i as int)),
            decreases n - i,
        {
            proof {
                assert(fs.take(i + 1).drop_last() =~= fs.take(i as int));
                assert(fs.take(i + 1).last() == fs[i as int]);
            }
            if matches!(self.fields[i].column_type, ColumnType::Field(_)) {
                count += 1;
            }
            i += 1;
        }
        proof {
            assert(fs.take(n as int) =~= fs);
        }
        count
    }

    /// Approximate byte accounting of the schema's in-memory footprint,
    /// used for catalog memory-pressure accounting, not exact.
    pub fn size(&self) -> (r: usize)
        requires
            SCHEMA_BASE_SIZE + spec_entries_size(self.spec_fields()) <= usize::MAX,
        ensures
            r == SCHEMA_BASE_SIZE + spec_entries_size(self.spec_fields()),
    {
        let ghost fs: Seq<TableFiled> = self.spec_fields();
        let n: usize = self.fields.len();
        let mut total: usize = SCHEMA_BASE_SIZE;
        let mut i: usize = 0;
        while i < n
            invariant
                fs == self.spec_fields(),
                n == fs.len(),
                0 <= i <= n,
                SCHEMA_BASE_SIZE + spec_entries_size(fs) <= usize::MAX,
                total == SCHEMA_BASE_SIZE + spec_entries_size(fs.take(i as int)),
            decreases n - i,
        {
            let name_len: usize = self.fields[i].name.as_str().unicode_len();
            proof {
                assert(fs.take(i + 1).drop_last() =~= fs.take(i as int));
                assert(fs.take(i + 1).last() == fs[i as int]);
                lemma_entries_size_take_le(fs, i + 1);
            }
            total = total + name_len + FIELD_ENTRY_SIZE;
            i += 1;
        }
        proof {
            assert(fs.take(n as int) =~= fs);
        }
        total
    }
}

/// Sorts identifiers ascending; the result holds exactly the identifiers
/// given.
fn sort_ids(input: Vec<u64>) -> (r: Vec<u64>)
    ensures
        r@.to_multiset() == input@.to_multiset(),
        forall|i: int, j: int| 0 <= i < j < r@.len() ==> #[trigger] r@[i] <= #[trigger] r@[j],
{
    broadcast use group_to_multiset_ensures;

    let mut work = input;
    let mut out: Vec<u64> = Vec::new();
    let ghost all: Seq<u64> = work@;
    proof {
        broadcast use vstd::multiset::group_multiset_axioms;

        assert(out@.to_multiset().add(work@.to_multiset()) =~= all.to_multiset());
    }
    while work.len() > 0
        invariant
            out@.to_multiset().add(work@.to_multiset()) == all.to_multiset(),
            forall|i: int, j: int| 0 <= i < j < out@.len() ==> #[trigger] out@[i] <= #[trigger] out@[j],
            forall|i: int, j: int|
                0 <= i < out@.len() && 0 <= j < work@.len() ==> #[trigger] out@[i] <= #[trigger] work@[j],
        decreases work@.len(),
    {
        let mut mi: usize = 0;
        let mut j: usize = 1;
        while j < work.len()
            invariant
                work@.len() > 0,
                0 <= mi < j <= work@.len(),
                forall|k: int| 0 <= k < j ==> work@[mi as int] <= #[trigger] work@[k],
            decreases work@.len() - j,
        {
            if work[j] < work[mi] {
                mi = j;
            }
            j += 1;
        }
        let ghost old_work: Seq<u64> = work@;
        let ghost old_out: Seq<u64> = out@;
        let x = work.remove(mi);
        out.push(x);
        proof {
            broadcast use vstd::multiset::group_multiset_axioms;

            old_work.to_multiset_ensures();
            old_out.to_multiset_ensures();
            assert(old_work[mi as int] == x);
            assert(old_work.contains(x));
            assert(old_work.to_multiset().count(x) > 0);
            assert(old_work.remove(mi as int).to_multiset() == old_work.to_multiset().remove(x));
            assert(out@ == old_out.push(x));
            assert(old_out.push(x).to_multiset() == old_out.to_multiset().insert(x));
            assert(out@.to_multiset().add(work@.to_multiset()) =~= all.to_multiset());
            assert forall|i: int, j2: int|
                0 <= i < out@.len() && 0 <= j2 < work@.len() implies #[trigger] out@[i] <= #[trigger] work@[j2] by {
                let orig: int = if j2 < mi {
                    j2
                } else {
                    j2 + 1
                };
                assert(work@[j2] == old_work[orig]);
                if i < out@.len() - 1 {
                    assert(out@[i] == old_out[i]);
                } else {
                    assert(out@[i] == x);
                }
            }
        }
    }
    proof {
        broadcast use vstd::multiset::group_multiset_axioms;

        work@.to_multiset_ensures();
        assert(work@.to_multiset().len() == 0);
        assert(out@.to_multiset() =~= all.to_multiset());
    }
    out
}

impl TableSchema {
    /// The mapping from each field-role identifier to its zero-based slot
    /// in the encoded row payload: identifiers are sorted ascending and
    /// numbered in that order, so the mapping is a bijection between the
    /// field-role identifiers and the slots `0 .. field_fields_num()`,
    /// deterministic in the set of identifiers alone.
    pub fn fields_id(&self) -> (m: HashMap<SchemaFieldId, usize>)
        requires
            self.wf(),
        ensures
            forall|id: SchemaFieldId| #[trigger] m@.contains_key(id) <==> contains_field_id(
                self.spec_fields(),
                id,
            ),
            forall|id: SchemaFieldId| #[trigger] m@.contains_key(id) ==> m@[id]
                < spec_field_num(self.spec_fields()),
            forall|a: SchemaFieldId, b: SchemaFieldId|
                m@.contains_key(a) && m@.contains_key(b) && a < b ==> #[trigger] m@[a]
                    < #[trigger] m@[b],
            forall|a: SchemaFieldId, b: SchemaFieldId|
                m@.contains_key(a) && m@.contains_key(b) && a != b ==> #[trigger] m@[a]
                    != #[trigger] m@[b],
            forall|k: int|
                0 <= k < spec_field_num(self.spec_fields()) ==> #[trigger] slot_filled(m@, k),
    {
        broadcast use vstd::std_specs::hash::group_hash_axioms;

        let ghost fs: Seq<TableFiled> = self.spec_fields();
        let n: usize = self.fields.len();
        let mut ids: Vec<u64> = Vec::new();
        let mut i: usize = 0;
        while i < n
            invariant
                fs == self.spec_fields(),
                self.wf(),
                n == fs.len(),
                0 <= i <= n,
                ids@.len() == spec_field_num(fs.take(i as int)),
                forall|j: int|
                    0 <= j < ids@.len() ==> field_id_in_prefix(fs, i as int, #[trigger] ids@[j]),
                forall|x: int|
                    0 <= x < i && is_field_role(#[trigger] fs[x].column_type) ==> ids@.contains(
                        fs[x].id,
                    ),
                ids@.no_duplicates(),
            decreases n - i,
        {
            proof {
                assert(fs.take(i + 1).drop_last() =~= fs.take(i as int));
                assert(fs.take(i + 1).last() == fs[i as int]);
            }
            if matches!(self.fields[i].column_type, ColumnType::Field(_)) {
                let ghost pre: Seq<u64> = ids@;
                let new_id: u64 = self.fields[i].id;
                ids.push(new_id);
                proof {
                    assert forall|j: int|
                        0 <= j < ids@.len() implies field_id_in_prefix(
                        fs,
                        i + 1,
                        #[trigger] ids@[j],
                    ) by {
                        if j < ids@.len() - 1 {
                            assert(ids@[j] == pre[j]);
                            assert(field_id_in_prefix(fs, i as int, pre[j]));
                            let x = choose|x: int|
                                0 <= x < i && x < fs.len() && is_field_role(
                                    #[trigger] fs[x].column_type,
                                ) && fs[x].id == pre[j];
                            assert(0 <= x < i + 1 && x < fs.len() && is_field_role(
                                fs[x].column_type,
                            ) && fs[x].id == ids@[j]);
                        } else {
                            assert(ids@[j] == new_id);
                            assert(0 <= i < i + 1 && is_field_role(fs[i as int].column_type)
                                && fs[i as int].id == ids@[j]);
                        }
                    }
                    assert forall|x: int|
                        0 <= x < i + 1 && is_field_role(#[trigger] fs[x].column_type)
                            implies ids@.contains(fs[x].id) by {
                        if x < i {
                            let j = choose|j: int| 0 <= j < pre.len() && pre[j] == fs[x].id;
                            assert(ids@[j] == fs[x].id);
                        } else {
                            assert(ids@[ids@.len() - 1] == fs[x].id);
                        }
                    }
                    assert(!pre.contains(new_id)) by {
                        if pre.contains(new_id) {
                            let j = choose|j: int| 0 <= j < pre.len() && pre[j] == new_id;
                            assert(field_id_in_prefix(fs, i as int, pre[j]));
                            let x = choose|x: int|
                                0 <= x < i && x < fs.len() && is_field_role(
                                    #[trigger] fs[x].column_type,
                                ) && fs[x].id == pre[j];
                            assert(0 <= x < i < fs.len() && is_field_role(fs[x].column_type)
                                && is_field_role(fs[i as int].column_type) && fs[x].id == fs[
                            i as int].id);
                            assert(has_dup_field_id(fs));
                        }
                    }
                    assert forall|p: int, q: int|
                        0 <= p < q < ids@.len() implies ids@[p] != ids@[q] by {
                        if q < ids@.len() - 1 {
                            assert(pre[p] != pre[q]);
                        } else {
                            assert(ids@[q] == new_id);
                            assert(ids@[p] == pre[p]);
                            assert(pre.contains(pre[p]));
                        }
                    }
                }
            } else {
                proof {
                    assert forall|j: int|
                        0 <= j < ids@.len() implies field_id_in_prefix(
                        fs,
                        i + 1,
                        #[trigger] ids@[j],
                    ) by {
                        assert(field_id_in_prefix(fs, i as int, ids@[j]));
                        let x = choose|x: int|
                            0 <= x < i && x < fs.len() && is_field_role(
                                #[trigger] fs[x].column_type,
                            ) && fs[x].id == ids@[j];
                        assert(0 <= x < i + 1 && x < fs.len() && is_field_role(fs[x].column_type)
                            && fs[x].id == ids@[j]);
                    }
                }
            }
            i += 1;
        }
        proof {
            assert(fs.take(n as int) =~= fs);
        }
        let sorted = sort_ids(ids);
        proof {
            broadcast use vstd::multiset::group_multiset_axioms;

            ids@.to_multiset_ensures();
            sorted@.to_multiset_ensures();
            ids@.lemma_multiset_has_no_duplicates();
            sorted@.lemma_multiset_has_no_duplicates_conv();
            assert(sorted@.len() == ids@.len());
            assert forall|j: int|
                0 <= j < sorted@.len() implies contains_field_id(fs, #[trigger] sorted@[j]) by {
                assert(sorted@.contains(sorted@[j]));
                assert(sorted@.to_multiset().count(sorted@[j]) > 0);
                assert(ids@.contains(sorted@[j]));
                let jj = choose|jj: int| 0 <= jj < ids@.len() && ids@[jj] == sorted@[j];
                assert(field_id_in_prefix(fs, n as int, ids@[jj]));
            }
            assert forall|x: int|
                0 <= x < fs.len() && is_field_role(#[trigger] fs[x].column_type)
                    implies sorted@.contains(fs[x].id) by {
                assert(ids@.contains(fs[x].id));
                assert(ids@.to_multiset().count(fs[x].id) > 0);
                assert(sorted@.to_multiset().count(fs[x].id) > 0);
            }
        }
        let nf: usize = sorted.len();
        let mut m: HashMap<u64, usize> = HashMap::new();
        let mut k: usize = 0;
        while k < nf
            invariant
                fs == self.spec_fields(),
                nf == sorted@.len(),
                nf == spec_field_num(fs),
                0 <= k <= nf,
                sorted@.no_duplicates(),
                forall|p: int, q: int| 0 <= p < q < nf ==> #[trigger] sorted@[p] <= #[trigger] sorted@[q],
                forall|j: int| 0 <= j < nf ==> contains_field_id(fs, #[trigger] sorted@[j]),
                forall|x: int|
                    0 <= x < fs.len() && is_field_role(#[trigger] fs[x].column_type)
                        ==> sorted@.contains(fs[x].id),
                forall|id: SchemaFieldId| #[trigger] m@.contains_key(id) <==> exists|j: int|
                    0 <= j < k && sorted@[j] == id,
                forall|j: int| 0 <= j < k ==> #[trigger] m@[sorted@[j]] == j,
            decreases nf - k,
        {
            m.insert(sorted[k], k);
            proof {
                assert forall|j: int| 0 <= j < k + 1 implies #[trigger] m@[sorted@[j]] == j by {
                    if j < k {
                        assert(sorted@[j] != sorted@[k as int]);
                    }
                }
            }
            k += 1;
        }
        proof {
            assert forall|id: SchemaFieldId| #[trigger] m@.contains_key(id) <==> contains_field_id(
                fs,
                id,
            ) by {
                if m@.contains_key(id) {
                    let j = choose|j: int| 0 <= j < nf && sorted@[j] == id;
                    assert(contains_field_id(fs, sorted@[j]));
                }
                if contains_field_id(fs, id) {
                    let x = choose|x: int|
                        0 <= x < fs.len() && is_field_role(#[trigger] fs[x].column_type) && fs[
                        x].id == id;
                    assert(sorted@.contains(id));
                    let j = choose|j: int| 0 <= j < sorted@.len() && sorted@[j] == id;
                    assert(m@.contains_key(id));
                }
            }
            assert forall|id: SchemaFieldId| #[trigger] m@.contains_key(id) implies m@[id]
                < spec_field_num(fs) by {
                let j = choose|j: int| 0 <= j < nf && sorted@[j] == id;
                assert(m@[id] == j);
            }
            assert forall|a: SchemaFieldId, b: SchemaFieldId|
                m@.contains_key(a) && m@.contains_key(b) && a < b implies #[trigger] m@[a]
                < #[trigger] m@[b] by {
                let ja = choose|j: int| 0 <= j < nf && sorted@[j] == a;
                let jb = choose|j: int| 0 <= j < nf && sorted@[j] == b;
                assert(m@[a] == ja && m@[b] == jb);
                if jb < ja {
                    assert(sorted@[jb] <= sorted@[ja]);
                }
            }
            assert forall|a: SchemaFieldId, b: SchemaFieldId|
                m@.contains_key(a) && m@.contains_key(b) && a != b implies #[trigger] m@[a]
                != #[trigger] m@[b] by {
                if a < b {
                    assert(m@[a] < m@[b]);
                } else {
                    assert(m@[b] < m@[a]);
                }
            }
            assert forall|kk: int| 0 <= kk < spec_field_num(fs) implies #[trigger] slot_filled(
                m@,
                kk,
            ) by {
                assert(m@.contains_key(sorted@[kk]) && m@[sorted@[kk]] == kk);
            }
        }
        m
    }
}

/// Helper for the stability law: any two order-preserving slot mappings
/// out of the same identifiers agree on every slot below `k`.
proof fn lemma_slots_agree_below(
    m1: Map<SchemaFieldId, usize>,
    m2: Map<SchemaFieldId, usize>,
    n: nat,
    k: int,
)
    requires
        0 <= k <= n,
        forall|id: SchemaFieldId| #[trigger] m1.contains_key(id) <==> #[trigger] m2.contains_key(
            id,
        ),
        forall|id: SchemaFieldId| #[trigger] m1.contains_key(id) ==> m1[id] < n,
        forall|id: SchemaFieldId| #[trigger] m2.contains_key(id) ==> m2[id] < n,
        forall|a: SchemaFieldId, b: SchemaFieldId|
            m1.contains_key(a) && m1.contains_key(b) && a < b ==> #[trigger] m1[a] < #[trigger] m1[b],
        forall|a: SchemaFieldId, b: SchemaFieldId|
            m2.contains_key(a) && m2.contains_key(b) && a < b ==> #[trigger] m2[a] < #[trigger] m2[b],
        forall|j: int| 0 <= j < n ==> #[trigger] slot_filled(m1, j),
        forall|j: int| 0 <= j < n ==> #[trigger] slot_filled(m2, j),
    ensures
        forall|id: SchemaFieldId| m1.contains_key(id) && #[trigger] m1[id] < k ==> m2[id] == m1[id],
    decreases k,
{
    if k > 0 {
        lemma_slots_agree_below(m1, m2, n, k - 1);
        assert(slot_filled(m1, k - 1));
        let id1 = choose|id: SchemaFieldId| #[trigger] m1.contains_key(id) && m1[id] == k - 1;
        assert(slot_filled(m2, k - 1));
        let id2 = choose|id: SchemaFieldId| #[trigger] m2.contains_key(id) && m2[id] == k - 1;
        assert(m2.contains_key(id1));
        assert(m1.contains_key(id2));
        assert(m2[id1] >= k - 1) by {
            if m2[id1] < k - 1 {
                let j: int = m2[id1] as int;
                assert(slot_filled(m1, j));
                let y = choose|id: SchemaFieldId| #[trigger] m1.contains_key(id) && m1[id] == j;
                assert(m2[y] == j);
                assert(y != id1);
                if y < id1 {
                    assert(m2[y] < m2[id1]);
                } else {
                    assert(m2[id1] < m2[y]);
                }
            }
        }
        assert(m1[id2] >= k - 1) by {
            if m1[id2] < k - 1 {
                assert(m2[id2] == m1[id2]);
            }
        }
        assert(id1 == id2) by {
            if id1 < id2 {
                assert(m2[id1] < m2[id2]);
            } else if id2 < id1 {
                assert(m1[id2] < m1[id1]);
            }
        }
        assert forall|id: SchemaFieldId|
            m1.contains_key(id) && #[trigger] m1[id] < k implies m2[id] == m1[id] by {
            if m1[id] == k - 1 {
                assert(id == id1) by {
                    if id < id1 {
                        assert(m1[id] < m1[id1]);
                    } else if id1 < id {
                        assert(m1[id1] < m1[id]);
                    }
                }
            }
        }
    }
}

/// Stability of the slot mapping: it is determined by the set of
/// field-role identifiers alone. Any two mappings that assign slots
/// `0 .. n` to the same identifiers, ascending by identifier — as
/// `fields_id` promises — agree everywhere, whatever order the fields
/// were inserted in.
pub proof fn lemma_slot_mapping_unique(
    m1: Map<SchemaFieldId, usize>,
    m2: Map<SchemaFieldId, usize>,
    n: nat,
)
    requires
        forall|id: SchemaFieldId| #[trigger] m1.contains_key(id) <==> #[trigger] m2.contains_key(
            id,
        ),
        forall|id: SchemaFieldId| #[trigger] m1.contains_key(id) ==> m1[id] < n,
        forall|id: SchemaFieldId| #[trigger] m2.contains_key(id) ==> m2[id] < n,
        forall|a: SchemaFieldId, b: SchemaFieldId|
            m1.contains_key(a) && m1.contains_key(b) && a < b ==> #[trigger] m1[a] < #[trigger] m1[b],
        forall|a: SchemaFieldId, b: SchemaFieldId|
            m2.contains_key(a) && m2.contains_key(b) && a < b ==> #[trigger] m2[a] < #[trigger] m2[b],
        forall|j: int| 0 <= j < n ==> #[trigger] slot_filled(m1, j),
        forall|j: int| 0 <= j < n ==> #[trigger] slot_filled(m2, j),
    ensures
        forall|id: SchemaFieldId| #[trigger] m1.contains_key(id) ==> m1[id] == m2[id],
{
    lemma_slots_agree_below(m1, m2, n, n as int);
}

/// One column of the columnar representation handed to the query engine:
/// its native type, and the catalog metadata the engine relies on to
/// recover catalog semantics — the field's stable identifier rendered in
/// decimal, and whether the column is a tag.
pub struct ColumnarField {
    pub name: String,
    pub data_type: NativeType,
    pub nullable: bool,
    pub field_id: String,
    pub is_tag_flag: String,
}

/// The columnar projection of a table schema, one column per field in
/// ascending name order.
pub struct ColumnarSchema {
    pub columns: Vec<ColumnarField>,
}

/// The columnar column derived from one column definition.
pub open spec fn columnar_field_matches(f: TableFiled, c: ColumnarField) -> bool {
    &&& c.name@ == f.name@
    &&& c.data_type == native_of(f.column_type)
    &&& c.nullable == true
    &&& c.field_id@ == dec_str(f.id as nat)
    &&& c.is_tag_flag@ == (if f.column_type == ColumnType::Tag {
        "true"@
    } else {
        "false"@
    })
}

/// The columnar projection of a column sequence: one column per field, in
/// order, each determined by its definition alone.
pub open spec fn columnar_matches(fs: Seq<TableFiled>, c: ColumnarSchema) -> bool {
    &&& c.columns@.len() == fs.len()
    &&& forall|i: int| 0 <= i < fs.len() ==> columnar_field_matches(fs[i], #[trigger] c.columns@[i])
}

impl TableSchema {
    /// Projects every column, in stored (ascending name) order, into the
    /// columnar representation; each column carries the field's identifier
    /// as decimal text and its tag flag as boolean text.
    pub fn to_columnar_schema(&self) -> (r: ColumnarSchema)
        ensures
            columnar_matches(self.spec_fields(), r),
    {
        let ghost fs: Seq<TableFiled> = self.spec_fields();
        let n: usize = self.fields.len();
        let mut columns: Vec<ColumnarField> = Vec::new();
        let mut i: usize = 0;
        while i < n
            invariant
                fs == self.spec_fields(),
                n == fs.len(),
                0 <= i <= n,
                columns@.len() == i,
                forall|j: int|
                    0 <= j < i ==> columnar_field_matches(fs[j], #[trigger] columns@[j]),
            decreases n - i,
        {
            let f = &self.fields[i];
            let is_tag: bool = matches!(f.column_type, ColumnType::Tag);
            let col = ColumnarField {
                name: f.name.clone(),
                data_type: f.column_type.to_native_representation(),
                nullable: true,
                field_id: u64_to_dec_string(f.id),
                is_tag_flag: if is_tag {
                    String::from_str("true")
                } else {
                    String::from_str("false")
                },
            };
            columns.push(col);
            i += 1;
        }
        ColumnarSchema { columns }
    }
}

/// Whether a columnar column is the mandatory time column, which is
/// recognized by its conventional name alone.
pub fn is_time_column(field: &ColumnarField) -> (r: bool)
    ensures
        r == (field.name@ == TIME_FIELD_NAME@),
{
    str_eq(field.name.as_str(), TIME_FIELD_NAME)
}

/// Deriving the columnar schema is deterministic: two projections of the
/// same unmutated schema agree column by column, so repeating the
/// projection yields identical results.
pub proof fn lemma_to_columnar_schema_idempotent(
    fs: Seq<TableFiled>,
    c1: ColumnarSchema,
    c2: ColumnarSchema,
)
    requires
        columnar_matches(fs, c1),
        columnar_matches(fs, c2),
    ensures
        c1.columns@.len() == c2.columns@.len(),
        forall|i: int|
            0 <= i < c1.columns@.len() ==> #[trigger] c1.columns@[i].name@ == c2.columns@[i].name@
                && c1.columns@[i].data_type == c2.columns@[i].data_type && c1.columns@[i].nullable
                == c2.columns@[i].nullable && c1.columns@[i].field_id@ == c2.columns@[i].field_id@
                && c1.columns@[i].is_tag_flag@ == c2.columns@[i].is_tag_flag@,
{
    assert forall|i: int|
        0 <= i < c1.columns@.len() implies #[trigger] c1.columns@[i].name@ == c2.columns@[i].name@
        && c1.columns@[i].data_type == c2.columns@[i].data_type && c1.columns@[i].nullable
        == c2.columns@[i].nullable && c1.columns@[i].field_id@ == c2.columns@[i].field_id@
        && c1.columns@[i].is_tag_flag@ == c2.columns@[i].is_tag_flag@ by {
        assert(columnar_field_matches(fs[i], c1.columns@[i]));
        assert(columnar_field_matches(fs[i], c2.columns@[i]));
    }
}

} // verus!
