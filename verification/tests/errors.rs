use rp1::access_control::{CheckPermissions, PermissionFilter};
use rp1::error::{CrudError, DbError, ParseError, TimeError, ValidationErrors};
use rp1::helper::{db_error_to_response, double_option, ok_to_response, Either};
use rp1::macros::error::Error;
use rp1::{CrudInsertable, CrudStruct, CrudUpdatable};

fn db(not_found: bool, message: &str) -> DbError {
    DbError { not_found, message: message.to_string() }
}

#[test]
fn each_error_has_its_status() {
    assert_eq!(CrudError::NotFound.status().code, 404);
    assert_eq!(CrudError::Forbidden.status().code, 403);
    assert_eq!(CrudError::DbError(db(true, "NotFound")).status().code, 404);
    assert_eq!(CrudError::DbError(db(false, "connection lost")).status().code, 500);
    assert_eq!(
        CrudError::ValidationErrors(ValidationErrors {
            message: String::new(),
            field_errors: String::new()
        })
        .status()
        .code,
        400
    );
    assert_eq!(CrudError::UnchangeableField(String::from("id")).status().code, 400);
}

#[test]
fn each_error_has_its_message() {
    assert_eq!(CrudError::NotFound.message(), "Not Found");
    assert_eq!(CrudError::Forbidden.message(), "Forbidden");
    assert_eq!(
        CrudError::from(db(false, "connection lost")).message(),
        "Error from the database layer: connection lost"
    );
    assert_eq!(
        CrudError::from(ValidationErrors {
            message: String::from("username: not an address"),
            field_errors: String::new()
        })
        .message(),
        "There are validation errors: username: not an address"
    );
    assert_eq!(
        CrudError::UnchangeableField(String::from("created_at")).message(),
        "Field created_at is not allowed to be changed"
    );
}

#[test]
fn an_error_answers_with_its_code_and_message_as_json() {
    let (status, body) = CrudError::NotFound.respond_to();
    assert_eq!(status.code, 404);
    let value: serde_json::Value = serde_json::from_str(&body).unwrap();
    assert_eq!(value["error"], 404);
    assert_eq!(value["message"], "Not Found");
    assert_eq!(value.as_object().unwrap().len(), 2);

    let (status, body) = CrudError::UnchangeableField(String::from("a \"b\"")).respond_to();
    assert_eq!(status.code, 400);
    let value: serde_json::Value = serde_json::from_str(&body).unwrap();
    assert_eq!(value["error"], 400);
    assert_eq!(value["message"], "Field a \"b\" is not allowed to be changed");
}

#[test]
fn parse_errors_describe_themselves() {
    assert_eq!(ParseError::Infallible.message(), "An infallible conversion somehow failed");
    assert_eq!(
        ParseError::UnknownOperator(String::from("like")).message(),
        "Unknown operator 'like'"
    );
    let e = ParseError::from("x".parse::<i32>().unwrap_err());
    assert_eq!(e.message(), "Could not parse integer: invalid digit found in string");
    assert_eq!(e.message_with("no digits"), "Could not parse integer: no digits");
    let e = ParseError::from("x".parse::<bool>().unwrap_err());
    assert_eq!(
        e.message(),
        "Could not parse boolean: provided string was not `true` or `false`"
    );
    let e = ParseError::from(TimeError { message: String::from("the 'hour' component could not be parsed") });
    assert_eq!(
        e.message(),
        "Could not parse date/time value: the 'hour' component could not be parsed"
    );
}

#[test]
fn database_failures_answer_with_404_or_500() {
    let (status, body) = db_error_to_response::<u8>(db(true, "NotFound"));
    assert_eq!(status.code, 404);
    assert!(matches!(body, Either::Right(b) if b.error == 404 && b.validation_error.is_none()));
    let (status, body) = db_error_to_response::<u8>(db(false, "broken pipe"));
    assert_eq!(status.code, 500);
    assert!(matches!(body, Either::Right(b) if b.error == 500 && b.validation_error.is_none()));
    let (status, body) = ok_to_response(17u8);
    assert_eq!(status.code, 200);
    assert!(matches!(body, Either::Left(17)));
}

#[test]
fn an_explicit_null_is_told_from_an_absent_value() {
    let read: Result<Option<i32>, String> = Ok(None);
    assert_eq!(double_option(read), Ok(Some(None)));
    let read: Result<Option<i32>, String> = Ok(Some(3));
    assert_eq!(double_option(read), Ok(Some(Some(3))));
    let read: Result<Option<i32>, String> = Err(String::from("not a number"));
    assert_eq!(double_option(read), Err(String::from("not a number")));
}

#[test]
fn a_permission_filter_narrows_a_query() {
    let add = |mut query: Vec<String>, condition: String| {
        query.push(condition);
        query
    };
    let query = vec![String::from("select")];
    assert_eq!(
        PermissionFilter::<String>::KeepAll.apply(query.clone(), add),
        Some(vec![String::from("select")])
    );
    assert_eq!(PermissionFilter::<String>::KeepNone.apply(query.clone(), add), None);
    assert_eq!(
        PermissionFilter::Filter(String::from("user_id = 3")).apply(query, add),
        Some(vec![String::from("select"), String::from("user_id = 3")])
    );
}

struct Post;

impl CrudStruct for Post {
    type TableType = ();
}

impl CrudInsertable for Post {
    type InsertType = ();
}

impl CrudUpdatable for Post {
    type PatchType = ();
    type PutType = ();
}

impl CheckPermissions for Post {
    type AuthUser = u32;
    type Condition = String;
}

struct Draft;

impl CrudStruct for Draft {
    type TableType = ();
}

impl CrudInsertable for Draft {
    type InsertType = ();
}

impl CrudUpdatable for Draft {
    type PatchType = ();
    type PutType = ();
}

impl CheckPermissions for Draft {
    type AuthUser = Option<u32>;
    type Condition = String;

    fn allow_read(&self, user: &Option<u32>) -> bool {
        user.is_some()
    }

    fn filter_list(user: &Option<u32>) -> PermissionFilter<String> {
        match user {
            None => PermissionFilter::KeepNone,
            Some(id) => PermissionFilter::Filter(format!("user_id = {}", id)),
        }
    }
}

#[test]
fn by_default_everything_is_allowed() {
    assert!(Post.allow_read(&1));
    assert!(Post.allow_delete(&1));
    assert!(Post.allow_update(&(), &1));
    assert!(Post::allow_create(&(), &1));
    assert!(matches!(Post::filter_list(&1), PermissionFilter::KeepAll));
    assert!(!Draft.allow_read(&None));
    assert!(Draft.allow_delete(&None));
    assert!(matches!(Draft::filter_list(&None), PermissionFilter::KeepNone));
    assert!(matches!(Draft::filter_list(&Some(4)), PermissionFilter::Filter(c) if c == "user_id = 4"));
}

#[test]
fn a_diagnostic_is_handed_back_as_it_came() {
    let e = Error::SynError(String::from("compile_error! { \"expected struct\" }"));
    assert_eq!(e.into_compile_error(), "compile_error! { \"expected struct\" }");
    let e = Error::Darling(String::from("compile_error! { \"Unknown field: `tabel`\" }"));
    assert_eq!(e.into_compile_error(), "compile_error! { \"Unknown field: `tabel`\" }");
}
