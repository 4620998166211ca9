//! The endpoint that reads one record.

use crate::macros::derive::common::{
    auth_param_code, derive_auth_param, no_bindings, or_empty, push_binding, route_list,
    text_or_empty,
};
use crate::macros::props::{CrudProps, CrudPropsView};
use crate::macros::template::{fill, filled, nothing, BindingView, Bindings};
use crate::text::texts;
use vstd::prelude::*;

verus! {

/// With authorisation a row that the user may not read is reported as not
/// there.
pub const READ_AUTH_CHECK: &'static str = r#"
            if <#ident as ::rp1::CheckPermissions>::allow_read(&row, &auth_user) {
                row
            } else {
                return Err(::rp1::CrudError::NotFound);
            }
"#;

pub const READ_NO_CHECK: &'static str = "row";

pub const READ: &'static str = r#"
        #[::rocket::get("/<id>")]
        async fn read_fn(
            db: #database_struct,
            id: #primary_type,
            #auth_param
        ) -> ::rp1::CrudJsonResult<#ident>
        {
            let row = db.run(move |conn| {
                #schema_path::#table_name::table
                    .find(id)
                    .first::<#ident>(conn)
            })
            .await?;
            let row = #auth_check;
            Ok(::rocket::serde::json::Json(row))
        }
"#;

/// What a read hands on once the row is there.
pub open spec fn read_auth_check(p: CrudPropsView) -> Seq<char> {
    if p.auth {
        filled(READ_AUTH_CHECK@, nothing()
            .with("ident"@, p.ident))
    } else {
        READ_NO_CHECK@
    }
}

pub open spec fn read_env(p: CrudPropsView) -> Seq<BindingView> {
    nothing()
        .with("database_struct"@, p.database_struct)
        .with("primary_type"@, p.primary_type.code())
        .with("auth_param"@, or_empty(auth_param_code(p)))
        .with("ident"@, p.ident)
        .with("schema_path"@, p.schema_path)
        .with("table_name"@, p.table_name)
        .with("auth_check"@, read_auth_check(p))
}

/// The source text of the read endpoint.
pub open spec fn read_code(p: CrudPropsView) -> Seq<char> {
    filled(READ@, read_env(p))
}

/// The read endpoint of a record type, and the name of its handler.
pub fn derive_crud_read(props: &CrudProps) -> (r: (String, Vec<String>))
    ensures
        r.0@ == read_code(props@),
        texts(r.1@) == Seq::<Seq<char>>::empty().push("read_fn"@),
{
    let auth_param = text_or_empty(&derive_auth_param(props));
    let auth_check = if props.auth {
        let mut of_ident = no_bindings();
        push_binding(&mut of_ident, "ident", props.ident.as_str());
        fill(READ_AUTH_CHECK, &of_ident)
    } else {
        String::from_str(READ_NO_CHECK)
    };
    let primary_type = props.primary_type.to_code();
    let mut env = no_bindings();
    push_binding(&mut env, "database_struct", props.database_struct.as_str());
    push_binding(&mut env, "primary_type", primary_type.as_str());
    push_binding(&mut env, "auth_param", auth_param.as_str());
    push_binding(&mut env, "ident", props.ident.as_str());
    push_binding(&mut env, "schema_path", props.schema_path.as_str());
    push_binding(&mut env, "table_name", props.table_name.as_str());
    push_binding(&mut env, "auth_check", auth_check.as_str());
    assert(auth_check@ == read_auth_check(props@));
    assert(env.deep_view() == read_env(props@));
    (fill(READ, &env), route_list("read_fn"))
}

} // verus!
