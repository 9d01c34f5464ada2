//! The size metrics of the database.

use crate::text;
use vstd::prelude::*;

verus! {

/// The size of a table, in bytes.
#[derive(Debug, PartialEq, Eq)]
pub struct TableSize {
    pub name: String,
    pub size: i64,
}

/// A metric: a name and a number.
#[derive(Debug, PartialEq, Eq)]
pub struct SizeAttribute {
    pub name: String,
    pub size: i64,
}

/// The label of the transaction in which the sizes are determined.
pub fn analysis_label() -> (label: &'static str)
    ensures
        label@ == "db analysis"@,
{
    "db analysis"
}

/// The query for the sizes of the tables.
pub fn table_sizes_query() -> (sql: &'static str)
    ensures
        sql@ == "SELECT name, sum(payload) AS size FROM dbstat GROUP BY name"@,
{
    "SELECT name, sum(payload) AS size FROM dbstat GROUP BY name"
}

/// The query for the size of the entire database.
pub fn total_size_query() -> (sql: &'static str)
    ensures
        sql@
            == "SELECT page_count * page_size as size FROM pragma_page_count(), pragma_page_size()"@,
{
    "SELECT page_count * page_size as size FROM pragma_page_count(), pragma_page_size()"
}

/// The name of the metric for the size of a table.
pub open spec fn table_attribute_name(table: Seq<char>) -> Seq<char> {
    "database.table."@ + table + ".size"@
}

/// The metrics for the sizes of the tables, one for each table, in order.
pub fn table_size_attributes(tables: &Vec<TableSize>) -> (attributes: Vec<SizeAttribute>)
    ensures
        attributes@.len() == tables@.len(),
        forall|k: int|
            0 <= k < tables@.len() ==> (#[trigger] attributes@[k]).name@ == table_attribute_name(
                tables@[k].name@,
            ) && attributes@[k].size == tables@[k].size && attributes@[k].name@
                == "database.table."@ + tables@[k].name@ + ".size"@,
{
    let mut attributes: Vec<SizeAttribute> = Vec::new();
    for k in 0..tables.len()
        invariant
            attributes@.len() == k,
            forall|j: int|
                0 <= j < k ==> (#[trigger] attributes@[j]).name@ == table_attribute_name(
                    tables@[j].name@,
                ) && attributes@[j].size == tables@[j].size,
    {
        let name = text::join("database.table.", tables[k].name.as_str(), ".size");
        attributes.push(SizeAttribute { name, size: tables[k].size });
    }
    attributes
}

/// The metric for the size of the entire database.
pub fn total_size_attribute(size: i64) -> (attribute: SizeAttribute)
    ensures
        attribute.name@ == "database.total.size"@,
        attribute.size == size,
{
    SizeAttribute { name: "database.total.size".to_string(), size }
}

/// Tables with different names have metrics with different names.
pub proof fn law_table_attributes_differ(a: Seq<char>, b: Seq<char>)
    requires
        a != b,
    ensures
        table_attribute_name(a) != table_attribute_name(b),
{
    if table_attribute_name(a) == table_attribute_name(b) {
        let n = "database.table."@.len() as int;
        assert(table_attribute_name(a).len() == n + a.len() + ".size"@.len());
        assert(table_attribute_name(b).len() == n + b.len() + ".size"@.len());
        assert(table_attribute_name(a).subrange(n, n + a.len()) =~= a);
        assert(table_attribute_name(b).subrange(n, n + b.len()) =~= b);
    }
}

} // verus!
