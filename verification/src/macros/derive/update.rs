//! The endpoints that change a record, partly or as a whole, and the types
//! that carry the change.

use crate::macros::derive::common::{
    auth_param_code, derive_auth_param, each_field, for_serde, no_bindings, or_empty, per_field,
    push_binding, push_route, route_list, serde_attrs, text_or_empty,
};
use crate::macros::derive::create::{
    auth_pass_part, derive_validate_part, validate_part, AUTH_PASS, DERIVE_VALIDATE, VALIDATE,
};
use crate::macros::model::{attrs_code, attrs_to_code};
use crate::macros::props::{
    field_code_list, field_codes, field_idents, fields_of, idents, update_fields, CrudProps,
    CrudPropsView, FieldClass,
};
use crate::macros::template::{fill, filled, nothing, BindingView, Bindings};
use crate::text::{concat, concat_all, join, joined, texts};
use vstd::prelude::*;

verus! {

/// With authorisation a replacement that the user may not make is reported
/// as a record that is not there.
pub const AUTH_PUT_CHECK: &'static str = r#"
            if !<#ident as ::rp1::CheckPermissions>::allow_update(&row, &value, &auth_user) {
                return Err(::rp1::CrudError::NotFound);
            }
"#;

/// A partial change is judged as the replacement that it amounts to.
pub const AUTH_PATCH_CHECK: &'static str = r#"
            let row = db.run(move |conn| {
                #schema_path::#table_name::table
                    .find(id)
                    .first::<#ident>(conn)
            })
            .await?;
            let put_value = #put_ident::create(&row, &value);
            if !<#ident as ::rp1::CheckPermissions>::allow_update(&row, &put_value, &auth_user) {
                return Err(::rp1::CrudError::NotFound);
            }
"#;

pub const UPDATE: &'static str = r#"
        #update_types

        async fn update_put_fn_help(
            db: #database_struct,
            id: #primary_type,
            value: #put_ident,
            #auth_param
        ) -> ::rp1::CrudJsonResult<#ident>
        {
            let row = db.run(move |conn| {
                #schema_path::#table_name::table
                    .find(id)
                    .first::<#ident>(conn)
            })
            .await?;

            #auth_put_check

            value.validate_update(&row)?;

            #validate

            Ok(::rocket::serde::json::Json(db.run(move |conn| {
                diesel::update(#schema_path::#table_name::table.find(id))
                    .set(&value)
                    .get_result(conn)
            })
            .await?))
        }

        async fn update_patch_fn_help(
            db: #database_struct,
            id: #primary_type,
            value: #patch_ident,
            #auth_param
        ) -> ::rp1::CrudJsonResult<#ident>
        {
            #auth_patch_check

            #validate

            Ok(::rocket::serde::json::Json(db.run(move |conn| {
                diesel::update(#schema_path::#table_name::table.find(id))
                    .set(&value)
                    .get_result(conn)
            })
            .await?))
        }

        #[::rocket::patch("/<id>", format = "json", data = "<value>")]
        async fn update_patch_fn_json(
            db: #database_struct,
            id: #primary_type,
            value: ::rocket::serde::json::Json<#patch_ident>,
            #auth_param
        ) -> ::rp1::CrudJsonResult<#ident>
        {
            let value = value.into_inner();
            update_patch_fn_help(db, id, value, #auth_pass).await
        }

        #[::rocket::patch("/<id>", format = "form", data = "<value>")]
        async fn update_patch_fn_form(
            db: #database_struct,
            id: #primary_type,
            value: ::rocket::form::Form<#patch_ident>,
            #auth_param
        ) -> ::rp1::CrudJsonResult<#ident>
        {
            let value = value.into_inner();
            update_patch_fn_help(db, id, value, #auth_pass).await
        }

        #[::rocket::put("/<id>", format = "json", data = "<value>")]
        async fn update_put_fn_json(
            db: #database_struct,
            id: #primary_type,
            value: ::rocket::serde::json::Json<#put_ident>,
            #auth_param
        ) -> ::rp1::CrudJsonResult<#ident>
        {
            let value = value.into_inner();
            update_put_fn_help(db, id, value, #auth_pass).await
        }

        #[::rocket::put("/<id>", format = "form", data = "<value>")]
        async fn update_put_fn_form(
            db: #database_struct,
            id: #primary_type,
            value: ::rocket::serde::json::Json<#put_ident>,
            #auth_param
        ) -> ::rp1::CrudJsonResult<#ident>
        {
            let value = value.into_inner();
            update_put_fn_help(db, id, value, #auth_pass).await
        }
"#;

/// The type of a partial change, the type of a replacement, and the steps
/// between them and the record.
pub const UPDATE_TYPES: &'static str = r##"
        #[derive(::diesel::Queryable)]
        #[derive(::diesel::AsChangeset)]
        #[derive(::rocket::form::FromForm)]
        #[derive(::serde::Deserialize)]
        #derive_validate
        #attrs
        #[table_name = "#table_name"]
        pub struct #patch_ident {
            #patch_fields
        }

        #[derive(::diesel::Queryable)]
        #[derive(::diesel::AsChangeset)]
        #[derive(::rocket::form::FromForm)]
        #[derive(::serde::Deserialize)]
        #derive_validate
        #attrs
        #[table_name = "#table_name"]
        pub struct #put_ident {
            #put_fields
        }

        impl #put_ident {
            pub fn create(base: &#ident, patch: &#patch_ident) -> #put_ident {
                #patch_lets

                #put_ident {
                    #patch_field_names,
                    #base_copies,
                }
            }

            pub fn validate_update(&self, base: &#ident) -> ::rp1::CrudResult<()> {
                #unchangeable_checks

                Ok(())
            }

            pub fn into_patch(self, base: &#ident) -> #patch_ident {
                #patch_ident {
                    #into_patch_fields
                }
            }
        }

        impl ::rp1::CrudUpdatable for #ident {
            type PatchType = #patch_ident;
            type PutType = #put_ident;
        }
"##;

/// A field of the replacement: the change's value where it has one, the
/// record's where it has none.
pub const PATCH_LET: &'static str = r#"
                let #ident = if let Some(ref v) = patch.#ident {
                    v.clone()
                } else {
                    base.#ident.clone()
                };
"#;

pub const BASE_COPY: &'static str = "#ident: base.#ident.clone()";

/// A field that the caller cannot set must come back as it was.
pub const UNCHANGEABLE_CHECK: &'static str = r#"
                if self.#ident != base.#ident {
                    return Err(::rp1::CrudError::UnchangeableField(stringify!(#ident).to_owned()));
                }
"#;

/// A field of the change that a replacement amounts to: absent where the
/// replacement agrees with the record.
pub const INTO_PATCH_FIELD: &'static str = r#"
                    #ident:
                        if self.#ident == base.#ident {
                            None
                        } else {
                            Some(self.#ident)
                        }"#;

/// Where nothing can be changed there is nothing to change it with.
pub const WITHOUT_UPDATE: &'static str = r#"
        impl ::rp1::CrudUpdatable for #ident {
            type PatchType = ();
            type PutType = ();
        }
"#;

pub open spec fn update_types_env(p: CrudPropsView) -> Seq<BindingView> {
    let patch = update_fields(fields_of(p.fields, FieldClass::UserSupplied));
    let fixed = fields_of(p.fields, FieldClass::NotUserSupplied);
    nothing()
        .with("derive_validate"@, derive_validate_part(p))
        .with("attrs"@, attrs_code(p.item.attrs.filter(for_serde())))
        .with("table_name"@, p.table_name)
        .with("patch_ident"@, p.patch_ident)
        .with("patch_fields"@, joined(field_codes(patch), ", "@))
        .with("put_ident"@, p.put_ident)
        .with("put_fields"@, joined(field_codes(p.fields), ", "@))
        .with("ident"@, p.ident)
        .with("patch_lets"@, concat(each_field(patch, PATCH_LET@, PATCH_LET@, Seq::empty())))
        .with("patch_field_names"@, joined(idents(patch), ", "@))
        .with("base_copies"@, joined(each_field(fixed, BASE_COPY@, BASE_COPY@, Seq::empty()), ", "@))
        .with("unchangeable_checks"@, concat(each_field(fixed, UNCHANGEABLE_CHECK@, UNCHANGEABLE_CHECK@, Seq::empty())))
        .with("into_patch_fields"@, joined(each_field(patch, INTO_PATCH_FIELD@, INTO_PATCH_FIELD@, Seq::empty()), ", "@))
}

/// The source text of the types that carry a change.
pub open spec fn update_types_code(p: CrudPropsView) -> Seq<char> {
    filled(UPDATE_TYPES@, update_types_env(p))
}

/// The types that carry a change. A partial change holds the fields that
/// the caller supplies, each optional; a replacement holds every field, and
/// is turned down where it differs from the record in a field that the
/// caller cannot set.
pub fn derive_update_types(props: &CrudProps) -> (r: String)
    ensures
        r@ == update_types_code(props@),
{
    let none = no_bindings();
    let patch_fields = props.patch_fields();
    let put_fields = props.put_fields();
    let fixed = props.non_user_supplied_fields();
    let patch_field_names = join(&field_idents(&patch_fields), ", ");
    let attrs = attrs_to_code(&serde_attrs(&props.item.attrs));
    let derive_validate = if props.validation {
        String::from_str(DERIVE_VALIDATE)
    } else {
        String::new()
    };
    let patch_code = join(&field_code_list(&patch_fields), ", ");
    let put_code = join(&field_code_list(&put_fields), ", ");
    let patch_lets = concat_all(&per_field(&patch_fields, PATCH_LET, PATCH_LET, &none));
    let base_copies = join(&per_field(&fixed, BASE_COPY, BASE_COPY, &none), ", ");
    let checks = concat_all(&per_field(&fixed, UNCHANGEABLE_CHECK, UNCHANGEABLE_CHECK, &none));
    let into_patch = join(&per_field(&patch_fields, INTO_PATCH_FIELD, INTO_PATCH_FIELD, &none), ", ");
    let mut env = no_bindings();
    push_binding(&mut env, "derive_validate", derive_validate.as_str());
    push_binding(&mut env, "attrs", attrs.as_str());
    push_binding(&mut env, "table_name", props.table_name.as_str());
    push_binding(&mut env, "patch_ident", props.patch_ident.as_str());
    push_binding(&mut env, "patch_fields", patch_code.as_str());
    push_binding(&mut env, "put_ident", props.put_ident.as_str());
    push_binding(&mut env, "put_fields", put_code.as_str());
    push_binding(&mut env, "ident", props.ident.as_str());
    push_binding(&mut env, "patch_lets", patch_lets.as_str());
    push_binding(&mut env, "patch_field_names", patch_field_names.as_str());
    push_binding(&mut env, "base_copies", base_copies.as_str());
    push_binding(&mut env, "unchangeable_checks", checks.as_str());
    push_binding(&mut env, "into_patch_fields", into_patch.as_str());
    assert(derive_validate@ == derive_validate_part(props@));
    assert(env.deep_view() == update_types_env(props@));
    fill(UPDATE_TYPES, &env)
}

/// The check that a replacement makes once the row is there.
pub open spec fn auth_put_check(p: CrudPropsView) -> Seq<char> {
    if p.auth {
        filled(AUTH_PUT_CHECK@, nothing()
            .with("ident"@, p.ident))
    } else {
        Seq::empty()
    }
}

pub open spec fn patch_check_env(p: CrudPropsView) -> Seq<BindingView> {
    nothing()
        .with("schema_path"@, p.schema_path)
        .with("table_name"@, p.table_name)
        .with("ident"@, p.ident)
        .with("put_ident"@, p.put_ident)
}

/// The check that a partial change makes before it acts.
pub open spec fn auth_patch_check(p: CrudPropsView) -> Seq<char> {
    if p.auth {
        filled(AUTH_PATCH_CHECK@, patch_check_env(p))
    } else {
        Seq::empty()
    }
}

pub open spec fn update_env(p: CrudPropsView) -> Seq<BindingView> {
    nothing()
        .with("update_types"@, update_types_code(p))
        .with("database_struct"@, p.database_struct)
        .with("primary_type"@, p.primary_type.code())
        .with("put_ident"@, p.put_ident)
        .with("patch_ident"@, p.patch_ident)
        .with("auth_param"@, or_empty(auth_param_code(p)))
        .with("ident"@, p.ident)
        .with("schema_path"@, p.schema_path)
        .with("table_name"@, p.table_name)
        .with("auth_put_check"@, auth_put_check(p))
        .with("auth_patch_check"@, auth_patch_check(p))
        .with("validate"@, validate_part(p))
        .with("auth_pass"@, auth_pass_part(p))
}

/// The source text of the update endpoints.
pub open spec fn update_code(p: CrudPropsView) -> Seq<char> {
    filled(UPDATE@, update_env(p))
}

/// The names of the update handlers.
pub open spec fn update_routes() -> Seq<Seq<char>> {
    Seq::<Seq<char>>::empty().push("update_patch_fn_json"@).push("update_patch_fn_form"@).push(
        "update_put_fn_json"@,
    ).push("update_put_fn_form"@)
}

/// The update endpoints of a record type, for a partial change and for a
/// replacement, each for JSON and for form data, and the names of their
/// handlers.
pub fn derive_crud_update(props: &CrudProps) -> (r: (String, Vec<String>))
    ensures
        r.0@ == update_code(props@),
        texts(r.1@) == update_routes(),
{
    let update_types = derive_update_types(props);
    let auth_param = text_or_empty(&derive_auth_param(props));
    let auth_pass = if props.auth {
        String::from_str(AUTH_PASS)
    } else {
        String::new()
    };
    let put_check = if props.auth {
        let mut of_ident = no_bindings();
        push_binding(&mut of_ident, "ident", props.ident.as_str());
        fill(AUTH_PUT_CHECK, &of_ident)
    } else {
        String::new()
    };
    let patch_check = if props.auth {
        let mut row = no_bindings();
        push_binding(&mut row, "schema_path", props.schema_path.as_str());
        push_binding(&mut row, "table_name", props.table_name.as_str());
        push_binding(&mut row, "ident", props.ident.as_str());
        push_binding(&mut row, "put_ident", props.put_ident.as_str());
        fill(AUTH_PATCH_CHECK, &row)
    } else {
        String::new()
    };
    let validate = if props.validation {
        String::from_str(VALIDATE)
    } else {
        String::new()
    };
    let primary_type = props.primary_type.to_code();
    let mut env = no_bindings();
    push_binding(&mut env, "update_types", update_types.as_str());
    push_binding(&mut env, "database_struct", props.database_struct.as_str());
    push_binding(&mut env, "primary_type", primary_type.as_str());
    push_binding(&mut env, "put_ident", props.put_ident.as_str());
    push_binding(&mut env, "patch_ident", props.patch_ident.as_str());
    push_binding(&mut env, "auth_param", auth_param.as_str());
    push_binding(&mut env, "ident", props.ident.as_str());
    push_binding(&mut env, "schema_path", props.schema_path.as_str());
    push_binding(&mut env, "table_name", props.table_name.as_str());
    push_binding(&mut env, "auth_put_check", put_check.as_str());
    push_binding(&mut env, "auth_patch_check", patch_check.as_str());
    push_binding(&mut env, "validate", validate.as_str());
    push_binding(&mut env, "auth_pass", auth_pass.as_str());
    assert(put_check@ == auth_put_check(props@));
    assert(patch_check@ == auth_patch_check(props@));
    assert(validate@ == validate_part(props@));
    assert(auth_pass@ == auth_pass_part(props@));
    assert(env.deep_view() == update_env(props@));
    let mut routes = route_list("update_patch_fn_json");
    push_route(&mut routes, "update_patch_fn_form");
    push_route(&mut routes, "update_put_fn_json");
    push_route(&mut routes, "update_put_fn_form");
    (fill(UPDATE, &env), routes)
}

/// The source text that stands in for the update endpoints where changing
/// is off.
pub open spec fn without_update_code(p: CrudPropsView) -> Seq<char> {
    filled(WITHOUT_UPDATE@, nothing()
        .with("ident"@, p.ident))
}

/// What stands in for the update endpoints where changing is off: the
/// record type can be changed with nothing.
pub fn derive_crud_without_update(props: &CrudProps) -> (r: String)
    ensures
        r@ == without_update_code(props@),
{
    let mut env = no_bindings();
    push_binding(&mut env, "ident", props.ident.as_str());
    fill(WITHOUT_UPDATE, &env)
}

} // verus!
