//! The endpoints that create a record, and the type that carries the new
//! record's values.

use crate::macros::derive::common::{
    auth_param_code, derive_auth_param, for_serde, no_bindings, or_empty, push_binding,
    push_route, route_list, serde_attrs, text_or_empty,
};
use crate::macros::model::{attrs_code, attrs_to_code};
use crate::macros::props::{
    field_code_list, field_codes, fields_of, CrudProps, CrudPropsView, FieldClass,
};
use crate::macros::template::{fill, filled, nothing, BindingView, Bindings};
use crate::text::{join, joined, texts};
use vstd::prelude::*;

verus! {

/// New values are validated before anything is written.
pub const VALIDATE: &'static str = r#"
            use ::validator::Validate;
            value.validate()?;
"#;

pub const DERIVE_VALIDATE: &'static str = "#[derive(::validator::Validate)]";

/// The user is handed on to the helper.
pub const AUTH_PASS: &'static str = "auth_user,";

/// With authorisation a record that the user may not create is refused.
pub const CREATE_AUTH_CHECK: &'static str = r#"
            if !<#ident as ::rp1::CheckPermissions>::allow_create(&value, &auth_user) {
                return Err(::rp1::CrudError::Forbidden);
            }
"#;

pub const CREATE: &'static str = r#"
        #new_type_tokens

        async fn create_fn_help(
            db: #database_struct,
            value: #new_ident,
            #auth_param
        ) -> ::rp1::CrudJsonResult<#ident>
        {
            #auth_check

            #validate

            Ok(::rocket::serde::json::Json(db.run(move |conn| {
                diesel::insert_into(#schema_path::#table_name::table)
                    .values(&value)
                    .get_result(conn)
            }).await?))
        }

        #[::rocket::post("/", format = "json", data = "<value>")]
        async fn create_fn_json(
            db: #database_struct,
            value: ::rocket::serde::json::Json<#new_ident>,
            #auth_param
        ) -> ::rp1::CrudJsonResult<#ident>
        {
            let value = value.into_inner();
            create_fn_help(db, value, #auth_pass).await
        }

        #[::rocket::post("/", format = "form", data = "<value>")]
        async fn create_fn_form(
            db: #database_struct,
            value: ::rocket::form::Form<#new_ident>,
            #auth_param
        ) -> ::rp1::CrudJsonResult<#ident>
        {
            let value = value.into_inner();
            create_fn_help(db, value, #auth_pass).await
        }
"#;

/// The type that carries a new record: the fields that the caller supplies.
pub const NEW_TYPE: &'static str = r##"
        #[derive(::diesel::Insertable)]
        #[derive(::diesel::Queryable)]
        #[derive(::rocket::form::FromForm)]
        #[derive(::serde::Deserialize)]
        #derive_validate
        #attrs
        #[table_name = "#table_name"]
        pub struct #new_ident {
            #fields
        }

        impl ::rp1::CrudInsertable for #ident {
            type InsertType = #new_ident;
        }
"##;

/// Where nothing can be created there is nothing to insert.
pub const WITHOUT_CREATE: &'static str = r#"
        impl ::rp1::CrudInsertable for #ident {
            type InsertType = ();
        }
"#;

/// The derive that makes a generated type validate, where validation is on.
pub open spec fn derive_validate_part(p: CrudPropsView) -> Seq<char> {
    if p.validation {
        DERIVE_VALIDATE@
    } else {
        Seq::empty()
    }
}

/// The validation step of a handler, where validation is on.
pub open spec fn validate_part(p: CrudPropsView) -> Seq<char> {
    if p.validation {
        VALIDATE@
    } else {
        Seq::empty()
    }
}

/// The user as handed on to a helper, where authorisation is on.
pub open spec fn auth_pass_part(p: CrudPropsView) -> Seq<char> {
    if p.auth {
        AUTH_PASS@
    } else {
        Seq::empty()
    }
}

pub open spec fn new_type_env(p: CrudPropsView) -> Seq<BindingView> {
    nothing()
        .with("derive_validate"@, derive_validate_part(p))
        .with("attrs"@, attrs_code(p.item.attrs.filter(for_serde())))
        .with("table_name"@, p.table_name)
        .with("new_ident"@, p.new_ident)
        .with("fields"@, joined(field_codes(fields_of(p.fields, FieldClass::UserSupplied)), ", "@))
        .with("ident"@, p.ident)
}

/// The source text of the type that carries a new record.
pub open spec fn new_type_code(p: CrudPropsView) -> Seq<char> {
    filled(NEW_TYPE@, new_type_env(p))
}

/// The type that carries a new record. Of the record's own attributes only
/// those for serde are handed on.
pub fn derive_new_type(props: &CrudProps) -> (r: String)
    ensures
        r@ == new_type_code(props@),
{
    let fields = join(&field_code_list(&props.user_supplied_fields()), ", ");
    let attrs = attrs_to_code(&serde_attrs(&props.item.attrs));
    let derive_validate = if props.validation {
        String::from_str(DERIVE_VALIDATE)
    } else {
        String::new()
    };
    let mut env = no_bindings();
    push_binding(&mut env, "derive_validate", derive_validate.as_str());
    push_binding(&mut env, "attrs", attrs.as_str());
    push_binding(&mut env, "table_name", props.table_name.as_str());
    push_binding(&mut env, "new_ident", props.new_ident.as_str());
    push_binding(&mut env, "fields", fields.as_str());
    push_binding(&mut env, "ident", props.ident.as_str());
    assert(derive_validate@ == derive_validate_part(props@));
    assert(env.deep_view() == new_type_env(props@));
    fill(NEW_TYPE, &env)
}

/// The check that a create makes before it acts.
pub open spec fn create_auth_check(p: CrudPropsView) -> Seq<char> {
    if p.auth {
        filled(CREATE_AUTH_CHECK@, nothing()
            .with("ident"@, p.ident))
    } else {
        Seq::empty()
    }
}

pub open spec fn create_env(p: CrudPropsView) -> Seq<BindingView> {
    nothing()
        .with("new_type_tokens"@, new_type_code(p))
        .with("database_struct"@, p.database_struct)
        .with("new_ident"@, p.new_ident)
        .with("auth_param"@, or_empty(auth_param_code(p)))
        .with("ident"@, p.ident)
        .with("auth_check"@, create_auth_check(p))
        .with("validate"@, validate_part(p))
        .with("schema_path"@, p.schema_path)
        .with("table_name"@, p.table_name)
        .with("auth_pass"@, auth_pass_part(p))
}

/// The source text of the create endpoints.
pub open spec fn create_code(p: CrudPropsView) -> Seq<char> {
    filled(CREATE@, create_env(p))
}

/// The names of the create handlers.
pub open spec fn create_routes() -> Seq<Seq<char>> {
    Seq::<Seq<char>>::empty().push("create_fn_form"@).push("create_fn_json"@)
}

/// The create endpoints of a record type, one for JSON and one for form
/// data, and the names of their handlers.
pub fn derive_crud_create(props: &CrudProps) -> (r: (String, Vec<String>))
    ensures
        r.0@ == create_code(props@),
        texts(r.1@) == create_routes(),
{
    let validate = if props.validation {
        String::from_str(VALIDATE)
    } else {
        String::new()
    };
    let auth_param = text_or_empty(&derive_auth_param(props));
    let auth_pass = if props.auth {
        String::from_str(AUTH_PASS)
    } else {
        String::new()
    };
    let auth_check = if props.auth {
        let mut of_ident = no_bindings();
        push_binding(&mut of_ident, "ident", props.ident.as_str());
        fill(CREATE_AUTH_CHECK, &of_ident)
    } else {
        String::new()
    };
    let new_type_tokens = derive_new_type(props);
    let mut env = no_bindings();
    push_binding(&mut env, "new_type_tokens", new_type_tokens.as_str());
    push_binding(&mut env, "database_struct", props.database_struct.as_str());
    push_binding(&mut env, "new_ident", props.new_ident.as_str());
    push_binding(&mut env, "auth_param", auth_param.as_str());
    push_binding(&mut env, "ident", props.ident.as_str());
    push_binding(&mut env, "auth_check", auth_check.as_str());
    push_binding(&mut env, "validate", validate.as_str());
    push_binding(&mut env, "schema_path", props.schema_path.as_str());
    push_binding(&mut env, "table_name", props.table_name.as_str());
    push_binding(&mut env, "auth_pass", auth_pass.as_str());
    assert(auth_check@ == create_auth_check(props@));
    assert(validate@ == validate_part(props@));
    assert(auth_pass@ == auth_pass_part(props@));
    assert(env.deep_view() == create_env(props@));
    let mut routes = route_list("create_fn_form");
    push_route(&mut routes, "create_fn_json");
    (fill(CREATE, &env), routes)
}

/// The source text that stands in for the create endpoints where creating
/// is off.
pub open spec fn without_create_code(p: CrudPropsView) -> Seq<char> {
    filled(WITHOUT_CREATE@, nothing()
        .with("ident"@, p.ident))
}

/// What stands in for the create endpoints where creating is off: the
/// record type can be inserted as nothing.
pub fn derive_crud_without_create(props: &CrudProps) -> (r: String)
    ensures
        r@ == without_create_code(props@),
{
    let mut env = no_bindings();
    push_binding(&mut env, "ident", props.ident.as_str());
    fill(WITHOUT_CREATE, &env)
}

} // verus!
