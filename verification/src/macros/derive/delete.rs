//! The endpoint that deletes one record.

use crate::macros::derive::common::{
    auth_param_code, derive_auth_param, no_bindings, or_empty, push_binding, route_list,
    text_or_empty,
};
use crate::macros::props::{CrudProps, CrudPropsView};
use crate::macros::template::{fill, filled, nothing, BindingView, Bindings};
use crate::text::texts;
use vstd::prelude::*;

verus! {

/// With authorisation the row is read first, and a row that the user may
/// not delete is reported as not there.
pub const DELETE_AUTH_CHECK: &'static str = r#"
            let row = db.run(move |conn| {
                #schema_path::#table_name::table
                    .find(id)
                    .first::<#ident>(conn)
            })
            .await?;
            if !<#ident as ::rp1::CheckPermissions>::allow_delete(&row, &auth_user) {
                return Err(::rp1::CrudError::NotFound);
            }
"#;

pub const DELETE: &'static str = r#"
        #[::rocket::delete("/<id>")]
        async fn delete_fn(
            db: #database_struct,
            id: #primary_type,
            #auth_param
        ) -> ::rp1::CrudResult<::rocket::serde::json::Value>
        {
            #auth_check

            let deleted = db.run(move |conn| {
                diesel::delete(#schema_path::#table_name::table.find(id)).execute(conn)
            })
            .await?;
            Ok(::rocket::serde::json::json!({
                "deleted": deleted,
            }))
        }
"#;

/// The record type and the place of its table.
pub open spec fn row_env(p: CrudPropsView) -> Seq<BindingView> {
    nothing()
        .with("schema_path"@, p.schema_path)
        .with("table_name"@, p.table_name)
        .with("ident"@, p.ident)
}

/// The check that a delete makes before it acts.
pub open spec fn delete_auth_check(p: CrudPropsView) -> Seq<char> {
    if p.auth {
        filled(DELETE_AUTH_CHECK@, row_env(p))
    } else {
        Seq::empty()
    }
}

pub open spec fn delete_env(p: CrudPropsView) -> Seq<BindingView> {
    nothing()
        .with("database_struct"@, p.database_struct)
        .with("primary_type"@, p.primary_type.code())
        .with("auth_param"@, or_empty(auth_param_code(p)))
        .with("auth_check"@, delete_auth_check(p))
        .with("schema_path"@, p.schema_path)
        .with("table_name"@, p.table_name)
}

/// The source text of the delete endpoint.
pub open spec fn delete_code(p: CrudPropsView) -> Seq<char> {
    filled(DELETE@, delete_env(p))
}

/// The delete endpoint of a record type, and the name of its handler.
pub fn derive_crud_delete(props: &CrudProps) -> (r: (String, Vec<String>))
    ensures
        r.0@ == delete_code(props@),
        texts(r.1@) == Seq::<Seq<char>>::empty().push("delete_fn"@),
{
    let auth_param = text_or_empty(&derive_auth_param(props));
    let auth_check = if props.auth {
        let mut row = no_bindings();
        push_binding(&mut row, "schema_path", props.schema_path.as_str());
        push_binding(&mut row, "table_name", props.table_name.as_str());
        push_binding(&mut row, "ident", props.ident.as_str());
        fill(DELETE_AUTH_CHECK, &row)
    } else {
        String::new()
    };
    let primary_type = props.primary_type.to_code();
    let mut env = no_bindings();
    push_binding(&mut env, "database_struct", props.database_struct.as_str());
    push_binding(&mut env, "primary_type", primary_type.as_str());
    push_binding(&mut env, "auth_param", auth_param.as_str());
    push_binding(&mut env, "auth_check", auth_check.as_str());
    push_binding(&mut env, "schema_path", props.schema_path.as_str());
    push_binding(&mut env, "table_name", props.table_name.as_str());
    assert(auth_check@ == delete_auth_check(props@));
    assert(env.deep_view() == delete_env(props@));
    (fill(DELETE, &env), route_list("delete_fn"))
}

} // verus!
