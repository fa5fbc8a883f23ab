use arch_service::http::HttpResponse;
use arch_service::json::records_to_json;
use arch_service::record::Architecture;
use arch_service::service::{plan_request, respond_db, DbCommand, DbOutcome, Plan};
use arch_service::table::Table;

fn rec(arch_id: i32, name: &str, status: bool, version: &str, putch: &str) -> Architecture {
    Architecture::new(
        arch_id,
        name.to_string(),
        status,
        version.to_string(),
        putch.to_string(),
    )
}

fn same(a: &Architecture, b: &Architecture) -> bool {
    a.arch_id == b.arch_id && a.name == b.name && a.status == b.status && a.version == b.version
        && a.putch == b.putch
}

fn reply_of(p: Plan) -> HttpResponse {
    match p {
        Plan::Reply(r) => r,
        Plan::Db(_) => panic!("expected an immediate reply"),
    }
}

fn command_of(p: Plan) -> DbCommand {
    match p {
        Plan::Db(c) => c,
        Plan::Reply(_) => panic!("expected a database command"),
    }
}

const CREATE_BODY: &str =
    "{\"arch_id\":1,\"name\":\"x86\",\"status\":true,\"version\":\"1.0\",\"putch\":\"a\"}";

#[test]
fn root_serves_usage_text() {
    let r = reply_of(plan_request("GET", "/", "", None));
    assert_eq!(r.status, 200);
    assert_eq!(r.body, "Service endpoints: /init /create /update /delete /architectures");
}

#[test]
fn unknown_route_is_404_with_empty_body() {
    let r = reply_of(plan_request("GET", "/bogus", "", None));
    assert_eq!(r.status, 404);
    assert_eq!(r.body, "");
}

#[test]
fn wrong_method_is_404() {
    let r = reply_of(plan_request("POST", "/architectures", "", None));
    assert_eq!(r.status, 404);
    let r = reply_of(plan_request("PUT", "/create", "", Some(CREATE_BODY)));
    assert_eq!(r.status, 404);
}

#[test]
fn preflight_has_cors_headers_and_empty_body() {
    let r = reply_of(plan_request("OPTIONS", "/create", "", None));
    assert_eq!(r.status, 200);
    assert_eq!(r.body, "");
    let find = |name: &str| {
        r.headers
            .iter()
            .find(|(k, _)| k == name)
            .map(|(_, v)| v.clone())
    };
    assert_eq!(find("Access-Control-Allow-Origin").as_deref(), Some("*"));
    assert_eq!(find("Access-Control-Allow-Methods").as_deref(), Some("GET, POST, OPTIONS"));
    assert_eq!(
        find("Access-Control-Allow-Headers").as_deref(),
        Some("api,Keep-Alive,User-Agent,Content-Type")
    );
}

#[test]
fn preflight_covers_all_endpoints() {
    for path in ["/init", "/create", "/update", "/delete", "/architectures"] {
        let r = reply_of(plan_request("OPTIONS", path, "", None));
        assert_eq!(r.status, 200);
        assert_eq!(r.body, "");
    }
}

#[test]
fn create_plans_an_insert() {
    let cmd = command_of(plan_request("POST", "/create", "", Some(CREATE_BODY)));
    match cmd {
        DbCommand::Insert(a) => assert!(same(&a, &rec(1, "x86", true, "1.0", "a"))),
        _ => panic!("expected an insert"),
    }
}

#[test]
fn update_plans_an_update() {
    let cmd = command_of(plan_request("POST", "/update", "", Some(CREATE_BODY)));
    match cmd {
        DbCommand::Update(a) => assert!(same(&a, &rec(1, "x86", true, "1.0", "a"))),
        _ => panic!("expected an update"),
    }
}

#[test]
fn init_and_list_plan_their_commands() {
    assert!(matches!(command_of(plan_request("GET", "/init", "", None)), DbCommand::Init));
    assert!(matches!(
        command_of(plan_request("GET", "/architectures", "", None)),
        DbCommand::List
    ));
}

#[test]
fn malformed_create_is_a_400() {
    let r = reply_of(plan_request("POST", "/create", "", Some("not json")));
    assert_eq!(r.status, 400);
    assert_eq!(r.body, "{\"error\":\"deserialization\",\"message\":\"malformed record body\"}");
    let r = reply_of(plan_request("POST", "/create", "", Some("{\"arch_id\":1}")));
    assert_eq!(r.status, 400);
    let r = reply_of(plan_request("POST", "/create", "", None));
    assert_eq!(r.status, 400);
}

#[test]
fn delete_reads_id_from_query() {
    let cmd = command_of(plan_request("GET", "/delete", "id=7", None));
    assert!(matches!(cmd, DbCommand::Delete(7)));
}

#[test]
fn delete_takes_first_id_and_decodes_percent_escapes() {
    let cmd = command_of(plan_request("GET", "/delete", "a=1&id=9&id=10", None));
    assert!(matches!(cmd, DbCommand::Delete(9)));
    let cmd = command_of(plan_request("GET", "/delete", "i%64=5", None));
    assert!(matches!(cmd, DbCommand::Delete(5)));
}

#[test]
fn delete_without_usable_id_is_a_400() {
    let r = reply_of(plan_request("GET", "/delete", "", None));
    assert_eq!(r.status, 400);
    assert_eq!(r.body, "{\"error\":\"bad_query\",\"message\":\"missing or non-numeric id\"}");
    let r = reply_of(plan_request("GET", "/delete", "id=abc", None));
    assert_eq!(r.status, 400);
    let r = reply_of(plan_request("GET", "/delete", "name=x", None));
    assert_eq!(r.status, 400);
}

#[test]
fn respond_done_is_status_true() {
    let r = respond_db(&DbOutcome::Done);
    assert_eq!(r.status, 200);
    assert_eq!(r.body, "{\"status\":true}");
}

#[test]
fn respond_rows_is_the_json_array() {
    let rows = vec![rec(1, "x86", true, "1.0", "a")];
    let expected = records_to_json(&rows);
    let r = respond_db(&DbOutcome::Rows(rows));
    assert_eq!(r.status, 200);
    assert_eq!(
        r.body,
        "[{\"arch_id\":1,\"name\":\"x86\",\"status\":true,\"version\":\"1.0\",\"putch\":\"a\"}]"
    );
    assert_eq!(r.body, expected);
}

#[test]
fn respond_failed_is_a_500() {
    let r = respond_db(&DbOutcome::Failed);
    assert_eq!(r.status, 500);
    assert_eq!(r.body, "{\"error\":\"storage\",\"message\":\"statement failed\"}");
}

#[test]
fn round_trip_create_then_list() {
    let mut t = Table::new();
    let cmd = command_of(plan_request("POST", "/create", "", Some(CREATE_BODY)));
    t.apply(&cmd);
    let rows = t.list();
    assert_eq!(rows.len(), 1);
    assert!(same(&rows[0], &rec(1, "x86", true, "1.0", "a")));
}
