//! The decisions of the service: which operation a request selects, what
//! is read from its body and query string, and what is answered once the
//! storage engine has spoken.  The server edge only carries these
//! decisions out.

use vstd::prelude::*;
use crate::http::{
    bad_body_chars, bad_body_response, bad_query_chars, bad_query_response, not_found,
    preflight_response, resp_is, response_build, storage_error_chars, storage_error_response,
    usage_chars, usage_response, HttpResponse,
};
use crate::json::{array_chars, records_to_json, status_true_body, status_true_chars};
use crate::parse::{i32_of_chars, parse_i32, parse_record_chars};
use crate::record::Architecture;
use crate::text::str_eq;

verus! {

/// The one SQL statement a request asks for.
pub enum DbCommand {
    Init,
    Insert(Architecture),
    Update(Architecture),
    Delete(i32),
    List,
}

/// What a request comes to: an immediate reply, or a statement to run.
pub enum Plan {
    Reply(HttpResponse),
    Db(DbCommand),
}

/// How the storage engine answered: a statement ran, rows came back, or
/// the connection or statement failed.
pub enum DbOutcome {
    Done,
    Rows(Vec<Architecture>),
    Failed,
}

/// The decoded (name, value) pairs of a query string, as
/// `url::form_urlencoded` decodes it.
pub uninterp spec fn form_pairs_of(q: Seq<char>) -> Seq<(Seq<char>, Seq<char>)>;

/// Pairs of strings as pairs of character sequences.
pub open spec fn pairs_view(p: Seq<(String, String)>) -> Seq<(Seq<char>, Seq<char>)> {
    Seq::new(p.len(), |i: int| (p[i].0@, p[i].1@))
}

/// Relies on `url::form_urlencoded::parse`: splits on `&` and `=`,
/// percent-decodes names and values, and skips empty sequences; the pairs
/// depend on the query characters alone.
#[verifier::external_body]
fn query_pairs(q: &str) -> (r: Vec<(String, String)>)
    ensures
        pairs_view(r@) == form_pairs_of(q@),
{
    url::form_urlencoded::parse(q.as_bytes()).into_owned().collect()
}

/// The value of the first `id` parameter, if any.
pub open spec fn find_id(pairs: Seq<(Seq<char>, Seq<char>)>) -> Option<Seq<char>>
    decreases pairs.len(),
{
    if pairs.len() == 0 {
        None
    } else if pairs[0].0 == "id"@ {
        Some(pairs[0].1)
    } else {
        find_id(pairs.drop_first())
    }
}

/// The id a delete request names: the first `id` parameter, read as a
/// 32-bit integer with nothing left over.
pub open spec fn delete_id(pairs: Seq<(Seq<char>, Seq<char>)>) -> Option<int> {
    match find_id(pairs) {
        Some(v) => i32_of_chars(v),
        None => None,
    }
}

fn find_id_exec(pairs: &Vec<(String, String)>) -> (r: Option<String>)
    ensures
        match (r, find_id(pairs_view(pairs@))) {
            (Some(a), Some(b)) => a@ == b,
            (None, None) => true,
            _ => false,
        },
{
    let n = pairs.len();
    let mut i: usize = 0;
    proof {
        assert(pairs_view(pairs@).skip(0) =~= pairs_view(pairs@));
    }
    loop
        invariant
            n == pairs@.len(),
            i <= n,
            find_id(pairs_view(pairs@)) == find_id(pairs_view(pairs@).skip(i as int)),
        decreases n - i,
    {
        if i < n {
            if str_eq(pairs[i].0.as_str(), "id") {
                proof {
                    assert(pairs_view(pairs@).skip(i as int)[0] == (
                        pairs@[i as int].0@,
                        pairs@[i as int].1@,
                    ));
                }
                return Some(pairs[i].1.clone());
            }
            proof {
                assert(pairs_view(pairs@).skip(i as int)[0] == (
                    pairs@[i as int].0@,
                    pairs@[i as int].1@,
                ));
                assert(pairs_view(pairs@).skip(i as int).drop_first() =~= pairs_view(
                    pairs@,
                ).skip(i + 1 as int));
            }
            i = i + 1;
        } else {
            proof {
                assert(pairs_view(pairs@).skip(i as int).len() == 0);
            }
            return None;
        }
    }
}

/// The paths the service answers, besides the root.
pub open spec fn known_path(p: Seq<char>) -> bool {
    p == "/init"@ || p == "/create"@ || p == "/update"@ || p == "/delete"@ || p
        == "/architectures"@
}

/// The view of an optional request body.
pub open spec fn body_view(b: Option<&str>) -> Option<Seq<char>> {
    match b {
        Some(s) => Some(s@),
        None => None,
    }
}

/// The dispatch table: what [`plan_request`] returns for every method,
/// path, query string and body.
pub open spec fn plan_ok(
    r: Plan,
    m: Seq<char>,
    p: Seq<char>,
    pairs: Seq<(Seq<char>, Seq<char>)>,
    body: Option<Seq<char>>,
) -> bool {
    if m == "GET"@ && p == "/"@ {
        r matches Plan::Reply(resp) && resp_is(resp, 200, usage_chars())
    } else if m == "OPTIONS"@ && known_path(p) {
        r matches Plan::Reply(resp) && resp_is(resp, 200, Seq::<char>::empty())
    } else if m == "GET"@ && p == "/init"@ {
        r matches Plan::Db(DbCommand::Init)
    } else if m == "POST"@ && p == "/create"@ {
        match body {
            Some(b) => match parse_record_chars(b) {
                Some(v) => r matches Plan::Db(DbCommand::Insert(a)) && a@ == v,
                None => r matches Plan::Reply(resp) && resp_is(resp, 400, bad_body_chars()),
            },
            None => r matches Plan::Reply(resp) && resp_is(resp, 400, bad_body_chars()),
        }
    } else if m == "POST"@ && p == "/update"@ {
        match body {
            Some(b) => match parse_record_chars(b) {
                Some(v) => r matches Plan::Db(DbCommand::Update(a)) && a@ == v,
                None => r matches Plan::Reply(resp) && resp_is(resp, 400, bad_body_chars()),
            },
            None => r matches Plan::Reply(resp) && resp_is(resp, 400, bad_body_chars()),
        }
    } else if m == "GET"@ && p == "/architectures"@ {
        r matches Plan::Db(DbCommand::List)
    } else if m == "GET"@ && p == "/delete"@ {
        match delete_id(pairs) {
            Some(v) => r matches Plan::Db(DbCommand::Delete(x)) && x as int == v,
            None => r matches Plan::Reply(resp) && resp_is(resp, 400, bad_query_chars()),
        }
    } else {
        r matches Plan::Reply(resp) && resp_is(resp, 404, Seq::<char>::empty())
    }
}

/// Maps one request to its plan: an immediate reply for the root path,
/// preflights, malformed input and unknown routes, or the one SQL command
/// the matched operation runs.  A body that could not be read as text
/// arrives as `None` and is treated as malformed.
pub fn plan_request(method: &str, path: &str, query: &str, body: Option<&str>) -> (r: Plan)
    ensures
        plan_ok(r, method@, path@, form_pairs_of(query@), body_view(body)),
{
    let get = str_eq(method, "GET");
    let post = str_eq(method, "POST");
    let options = str_eq(method, "OPTIONS");
    if get && str_eq(path, "/") {
        Plan::Reply(usage_response())
    } else if options && (str_eq(path, "/init") || str_eq(path, "/create") || str_eq(
        path,
        "/update",
    ) || str_eq(path, "/delete") || str_eq(path, "/architectures")) {
        Plan::Reply(preflight_response())
    } else if get && str_eq(path, "/init") {
        Plan::Db(DbCommand::Init)
    } else if post && str_eq(path, "/create") {
        match body {
            Some(b) => match Architecture::from_json(b) {
                Some(a) => Plan::Db(DbCommand::Insert(a)),
                None => Plan::Reply(bad_body_response()),
            },
            None => Plan::Reply(bad_body_response()),
        }
    } else if post && str_eq(path, "/update") {
        match body {
            Some(b) => match Architecture::from_json(b) {
                Some(a) => Plan::Db(DbCommand::Update(a)),
                None => Plan::Reply(bad_body_response()),
            },
            None => Plan::Reply(bad_body_response()),
        }
    } else if get && str_eq(path, "/architectures") {
        Plan::Db(DbCommand::List)
    } else if get && str_eq(path, "/delete") {
        let pairs = query_pairs(query);
        match find_id_exec(&pairs) {
            Some(v) => match parse_i32(v.as_str()) {
                Some(x) => Plan::Db(DbCommand::Delete(x)),
                None => Plan::Reply(bad_query_response()),
            },
            None => Plan::Reply(bad_query_response()),
        }
    } else {
        Plan::Reply(not_found())
    }
}

/// What each command leaves in the stored table.
pub open spec fn spec_apply(t: Seq<crate::record::ArchView>, cmd: DbCommand) -> Seq<
    crate::record::ArchView,
> {
    match cmd {
        DbCommand::Init => Seq::empty(),
        DbCommand::Insert(a) => crate::table::spec_insert(t, a@),
        DbCommand::Update(a) => crate::table::spec_update(t, a@),
        DbCommand::Delete(id) => crate::table::spec_delete(t, id as int),
        DbCommand::List => t,
    }
}

impl crate::table::Table {
    /// Runs one command against the in-memory image of the table: the
    /// effect each SQL statement has on the stored rows.
    pub fn apply(&mut self, cmd: &DbCommand)
        ensures
            final(self)@ == spec_apply(old(self)@, *cmd),
    {
        match cmd {
            DbCommand::Init => self.init(),
            DbCommand::Insert(a) => self.insert(a.clone_record()),
            DbCommand::Update(a) => self.update(a),
            DbCommand::Delete(id) => self.delete(*id),
            DbCommand::List => (),
        }
    }
}

/// What [`respond_db`] returns for every storage outcome.
pub open spec fn outcome_ok(r: HttpResponse, o: DbOutcome) -> bool {
    match o {
        DbOutcome::Done => resp_is(r, 200, status_true_chars()),
        DbOutcome::Rows(rows) => resp_is(
            r,
            200,
            array_chars(Seq::new(rows@.len(), |i: int| rows@[i]@)),
        ),
        DbOutcome::Failed => resp_is(r, 500, storage_error_chars()),
    }
}

/// Builds the response once the chosen statement has run: `{"status":true}`
/// after a mutating statement, the JSON array of rows after a listing, and
/// a 500 when the statement or the connection failed.
pub fn respond_db(outcome: &DbOutcome) -> (r: HttpResponse)
    ensures
        outcome_ok(r, *outcome),
{
    match outcome {
        DbOutcome::Done => response_build(status_true_body()),
        DbOutcome::Rows(rows) => response_build(records_to_json(rows)),
        DbOutcome::Failed => storage_error_response(),
    }
}

} // verus!
