use arch_service::config::{choose_database_url, validate_database_url, POOL_MAX, POOL_MIN};
use arch_service::record::Architecture;
use arch_service::sql;
use arch_service::table::Table;

fn rec(arch_id: i32, name: &str, status: bool, version: &str, putch: &str) -> Architecture {
    Architecture::new(
        arch_id,
        name.to_string(),
        status,
        version.to_string(),
        putch.to_string(),
    )
}

fn same(a: &Architecture, b: &Architecture) -> bool {
    a.arch_id == b.arch_id && a.name == b.name && a.status == b.status && a.version == b.version
        && a.putch == b.putch
}

#[test]
fn update_twice_with_same_payload_changes_nothing_more() {
    let mut t = Table::new();
    t.insert(rec(1, "x86", true, "1.0", "a"));
    t.insert(rec(2, "arm", false, "2.0", "b"));
    t.insert(rec(1, "dup", true, "3.0", "c"));
    let payload = rec(1, "x86-64", false, "1.1", "z");
    t.update(&payload);
    let once = t.list();
    t.update(&payload);
    let twice = t.list();
    assert_eq!(once.len(), twice.len());
    for (a, b) in once.iter().zip(twice.iter()) {
        assert!(same(a, b));
    }
    assert!(same(&once[0], &payload));
    assert!(same(&once[1], &rec(2, "arm", false, "2.0", "b")));
    assert!(same(&once[2], &payload));
}

#[test]
fn delete_removes_every_match_and_nothing_else() {
    let mut t = Table::new();
    t.insert(rec(1, "x86", true, "1.0", "a"));
    t.insert(rec(2, "arm", false, "2.0", "b"));
    t.insert(rec(1, "dup", true, "3.0", "c"));
    t.delete(1);
    let rows = t.list();
    assert_eq!(rows.len(), 1);
    assert!(rows.iter().all(|r| r.arch_id != 1));
    assert!(same(&rows[0], &rec(2, "arm", false, "2.0", "b")));
}

#[test]
fn delete_of_absent_id_changes_nothing() {
    let mut t = Table::new();
    t.insert(rec(1, "x86", true, "1.0", "a"));
    t.insert(rec(2, "arm", false, "2.0", "b"));
    t.delete(5);
    let rows = t.list();
    assert_eq!(rows.len(), 2);
    assert!(same(&rows[0], &rec(1, "x86", true, "1.0", "a")));
    assert!(same(&rows[1], &rec(2, "arm", false, "2.0", "b")));
}

#[test]
fn init_empties_the_table() {
    let mut t = Table::new();
    t.insert(rec(1, "x86", true, "1.0", "a"));
    t.insert(rec(2, "arm", false, "2.0", "b"));
    t.init();
    assert_eq!(t.list().len(), 0);
}

#[test]
fn insert_permits_duplicate_ids() {
    let mut t = Table::new();
    t.insert(rec(1, "x86", true, "1.0", "a"));
    t.insert(rec(1, "x86", true, "1.0", "a"));
    assert_eq!(t.list().len(), 2);
}

#[test]
fn pool_bounds_are_fixed() {
    assert_eq!(POOL_MIN, 10);
    assert_eq!(POOL_MAX, 15);
}

#[test]
fn default_database_url_is_used_when_unconfigured() {
    assert_eq!(choose_database_url(None), "mysql://localhost:3306/arch_db");
    assert_eq!(
        choose_database_url(Some("mysql://db:3306/other".to_string())),
        "mysql://db:3306/other"
    );
}

#[test]
fn database_url_validation() {
    assert!(validate_database_url("mysql://localhost:3306/arch_db").is_ok());
    assert!(validate_database_url("not a url").is_err());
    assert!(validate_database_url("mysql://localhost:3306").is_err());
    assert!(validate_database_url("mysql://localhost:3306/").is_err());
}

#[test]
fn sql_statements_are_the_fixed_texts() {
    assert_eq!(sql::sql_drop_table(), "DROP TABLE IF EXISTS architectures;");
    assert_eq!(
        sql::sql_create_table(),
        "CREATE TABLE architectures (arch_id INT, name VARCHAR(80), status INT, version VARCHAR(10), putch VARCHAR(10));"
    );
    assert_eq!(
        sql::sql_insert(),
        "INSERT INTO architectures (arch_id, name, status, version, putch) VALUES (:arch_id, :name, :status, :version, :putch)"
    );
    assert_eq!(
        sql::sql_update(),
        "UPDATE architectures SET arch_id=:arch_id, name=:name, status=:status, version=:version, putch=:putch WHERE arch_id=:arch_id"
    );
    assert_eq!(sql::sql_select_all(), "SELECT * FROM architectures");
    assert_eq!(sql::sql_delete(), "DELETE FROM architectures WHERE arch_id=:arch_id");
}
