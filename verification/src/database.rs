//! A named database entry: its operational options and the tables it
//! owns, exposed to the query engine through a read-only capability
//! interface (lookup by name, listing, existence check).

use vstd::prelude::*;

use crate::options::DatabaseOptions;
use crate::schema::TableSchema;
use crate::text::str_eq;

verus! {

/// Some owned table carries this name.
pub open spec fn has_table(tables: Seq<TableSchema>, name: Seq<char>) -> bool {
    exists|i: int| 0 <= i < tables.len() && #[trigger] tables[i].name@ == name
}

/// A database's catalog entry: its name, its operational options, and the
/// table snapshots it owns. Readers only ever traverse it; structural
/// changes produce a new snapshot.
#[derive(Debug, Clone)]
pub struct DatabaseSchema {
    pub name: String,
    pub config: DatabaseOptions,
    pub tables: Vec<TableSchema>,
}

impl DatabaseSchema {
    /// Table names are unique within a database.
    pub open spec fn wf(self) -> bool {
        forall|i: int, j: int|
            0 <= i < j < self.tables@.len() ==> #[trigger] self.tables@[i].name@
                != #[trigger] self.tables@[j].name@
    }

    /// A fresh database entry with the default options and no tables.
    pub fn new(name: &str) -> (r: Self)
        ensures
            r.name@ == name@,
            r.config == DatabaseOptions::spec_default(),
            r.tables@.len() == 0,
            r.wf(),
    {
        DatabaseSchema {
            name: String::from_str(name),
            config: DatabaseOptions::default(),
            tables: Vec::new(),
        }
    }

    /// Publishes a table under this database; rejected (returning `false`
    /// and leaving the entry unchanged) when a table of that name already
    /// exists, so the name-uniqueness invariant is never violated.
    pub fn add_table(&mut self, table: TableSchema) -> (r: bool)
        requires
            old(self).wf(),
        ensures
            final(self).wf(),
            final(self).name@ == old(self).name@,
            final(self).config == old(self).config,
            r == !has_table(old(self).tables@, table.name@),
            r ==> final(self).tables@ == old(self).tables@.push(table),
            !r ==> final(self).tables@ == old(self).tables@,
    {
        let n: usize = self.tables.len();
        let mut i: usize = 0;
        while i < n
            invariant
                old(self).wf(),
                self.name@ == old(self).name@,
                self.config == old(self).config,
                self.tables@ == old(self).tables@,
                n == self.tables@.len(),
                0 <= i <= n,
                forall|k: int| 0 <= k < i ==> #[trigger] self.tables@[k].name@ != table.name@,
            decreases n - i,
        {
            if str_eq(self.tables[i].name.as_str(), table.name.as_str()) {
                return false;
            }
            i += 1;
        }
        proof {
            assert(!has_table(self.tables@, table.name@));
        }
        let ghost pre: Seq<TableSchema> = self.tables@;
        self.tables.push(table);
        proof {
            assert forall|a: int, b: int|
                0 <= a < b < self.tables@.len() implies #[trigger] self.tables@[a].name@
                != #[trigger] self.tables@[b].name@ by {
                if b < self.tables@.len() - 1 {
                    assert(self.tables@[a] == pre[a] && self.tables@[b] == pre[b]);
                } else {
                    assert(self.tables@[a] == pre[a]);
                    assert(self.tables@[b] == table);
                }
            }
        }
        true
    }

    /// Looks a table up by name; yields the owned snapshot exactly when a
    /// table of that name exists.
    pub fn table(&self, name: &str) -> (r: Option<&TableSchema>)
        ensures
            (r is Some) == has_table(self.tables@, name@),
            r matches Some(t) ==> t.name@ == name@ && self.tables@.contains(*t),
    {
        let n: usize = self.tables.len();
        let mut i: usize = 0;
        while i < n
            invariant
                n == self.tables@.len(),
                0 <= i <= n,
                forall|k: int| 0 <= k < i ==> #[trigger] self.tables@[k].name@ != name@,
            decreases n - i,
        {
            if str_eq(self.tables[i].name.as_str(), name) {
                return Some(&self.tables[i]);
            }
            i += 1;
        }
        None
    }

    /// Whether a table of this name exists.
    pub fn table_exist(&self, name: &str) -> (r: bool)
        ensures
            r == has_table(self.tables@, name@),
    {
        let n: usize = self.tables.len();
        let mut i: usize = 0;
        while i < n
            invariant
                n == self.tables@.len(),
                0 <= i <= n,
                forall|k: int| 0 <= k < i ==> #[trigger] self.tables@[k].name@ != name@,
            decreases n - i,
        {
            if str_eq(self.tables[i].name.as_str(), name) {
                return true;
            }
            i += 1;
        }
        false
    }

    /// The names of the owned tables, in ownership order.
    pub fn table_names(&self) -> (r: Vec<String>)
        ensures
            r@.len() == self.tables@.len(),
            forall|i: int| 0 <= i < r@.len() ==> #[trigger] r@[i]@ == self.tables@[i].name@,
    {
        let n: usize = self.tables.len();
        let mut names: Vec<String> = Vec::new();
        let mut i: usize = 0;
        while i < n
            invariant
                n == self.tables@.len(),
                0 <= i <= n,
                names@.len() == i,
                forall|k: int| 0 <= k < i ==> #[trigger] names@[k]@ == self.tables@[k].name@,
            decreases n - i,
        {
            names.push(self.tables[i].name.clone());
            i += 1;
        }
        names
    }
}

} // verus!
