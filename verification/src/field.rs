//! A single column definition: stable identifier, name, role, and the
//! value-encoding codec used by the storage layer.

use vstd::prelude::*;

use crate::types::ColumnType;
use crate::SchemaFieldId;

verus! {

/// One column of a table: `id` is the stable identifier the storage engine
/// uses to reference this column in encoded blocks; `codec` selects the
/// value-encoding scheme and is opaque to the catalog (persisted and passed
/// through only). Identifier `0` is the "unassigned" sentinel; real
/// identifiers are allocated starting at 1.
#[derive(Debug, Clone, Eq, Hash)]
pub struct TableFiled {
    pub id: SchemaFieldId,
    pub name: String,
    pub column_type: ColumnType,
    pub codec: u8,
}

impl PartialEq for TableFiled {
    fn eq(&self, other: &TableFiled) -> (r: bool) {
        self.id == other.id && self.name == other.name && self.column_type == other.column_type
            && self.codec == other.codec
    }
}

impl vstd::std_specs::cmp::PartialEqSpecImpl for TableFiled {
    open spec fn obeys_eq_spec() -> bool {
        true
    }

    open spec fn eq_spec(&self, other: &TableFiled) -> bool {
        self.id == other.id && self.name@ == other.name@ && self.column_type
            == other.column_type && self.codec == other.codec
    }
}

impl TableFiled {
    /// Direct construction, used when loading persisted metadata whose
    /// identifier is already assigned.
    pub fn new(id: SchemaFieldId, name: String, column_type: ColumnType, codec: u8) -> (r: Self)
        ensures
            r.id == id,
            r.name == name,
            r.column_type == column_type,
            r.codec == codec,
    {
        Self { id, name, column_type, codec }
    }

    /// Construction with the "unassigned" sentinel identifier `0`; the
    /// owning catalog-mutation path allocates the stable identifier before
    /// persisting.
    pub fn new_with_default(name: String, column_type: ColumnType) -> (r: Self)
        ensures
            r.id == 0,
            r.name == name,
            r.column_type == column_type,
            r.codec == 0,
    {
        Self { id: 0, name, column_type, codec: 0 }
    }

    /// Convenience constructor for the mandatory time column.
    pub fn time_field(codec: u8) -> (r: TableFiled)
        ensures
            r.id == 0,
            r.name@ == crate::schema::TIME_FIELD_NAME@,
            r.column_type == ColumnType::Time,
            r.codec == codec,
    {
        TableFiled {
            id: 0,
            name: String::from_str(crate::schema::TIME_FIELD_NAME),
            column_type: ColumnType::Time,
            codec,
        }
    }
}

} // verus!
