//! The SQL statements the service runs: one per operation, parameters
//! bound by name at the server edge.

use vstd::prelude::*;

verus! {

/// Drops the table; the first half of initialization.
pub fn sql_drop_table() -> (r: &'static str)
    ensures
        r@ == "DROP TABLE IF EXISTS architectures;"@,
{
    "DROP TABLE IF EXISTS architectures;"
}

/// Recreates the table; the second half of initialization.
pub fn sql_create_table() -> (r: &'static str)
    ensures
        r@
            == "CREATE TABLE architectures (arch_id INT, name VARCHAR(80), status INT, version VARCHAR(10), putch VARCHAR(10));"@,
{
    "CREATE TABLE architectures (arch_id INT, name VARCHAR(80), status INT, version VARCHAR(10), putch VARCHAR(10));"
}

/// Inserts one record; no uniqueness check is made.
pub fn sql_insert() -> (r: &'static str)
    ensures
        r@
            == "INSERT INTO architectures (arch_id, name, status, version, putch) VALUES (:arch_id, :name, :status, :version, :putch)"@,
{
    "INSERT INTO architectures (arch_id, name, status, version, putch) VALUES (:arch_id, :name, :status, :version, :putch)"
}

/// Updates every row matching the payload's id.
pub fn sql_update() -> (r: &'static str)
    ensures
        r@
            == "UPDATE architectures SET arch_id=:arch_id, name=:name, status=:status, version=:version, putch=:putch WHERE arch_id=:arch_id"@,
{
    "UPDATE architectures SET arch_id=:arch_id, name=:name, status=:status, version=:version, putch=:putch WHERE arch_id=:arch_id"
}

/// Lists every row.
pub fn sql_select_all() -> (r: &'static str)
    ensures
        r@ == "SELECT * FROM architectures"@,
{
    "SELECT * FROM architectures"
}

/// Deletes every row matching the given id.
pub fn sql_delete() -> (r: &'static str)
    ensures
        r@ == "DELETE FROM architectures WHERE arch_id=:arch_id"@,
{
    "DELETE FROM architectures WHERE arch_id=:arch_id"
}

} // verus!
