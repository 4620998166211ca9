//! The types that carry a new record and a change in their plain form: one
//! update type instead of a change and a replacement, and a marker on the
//! record type instead of an associated type.

use crate::macros::derive::common::{no_bindings, push_binding};
use crate::macros::derive::create::{derive_validate_part, DERIVE_VALIDATE};
use crate::macros::model::Attribute;
use crate::macros::props::{
    field_code_list, field_codes, fields_of, update_fields, CrudField, CrudFieldView, CrudProps,
    CrudPropsView, FieldClass,
};
use crate::macros::template::{fill, filled, nothing, BindingView, Bindings};
use crate::text::{join, joined};
use vstd::prelude::*;

verus! {

/// The type that carries a new record, and the mark that there is one.
pub const INSERTABLE: &'static str = r##"
        #[derive(::diesel::Insertable)]
        #[derive(::diesel::Queryable)]
        #[derive(::rocket::form::FromForm)]
        #[derive(::serde::Deserialize)]
        #[derive(::validator::Validate)]
        #[table_name = "#table_name"]
        struct #new_ident {
            #fields
        }

        impl ::rp1::CrudInsertableMarker for #ident {}
"##;

/// The type that carries a change, and the mark that there is one.
pub const UPDATABLE: &'static str = r##"
        #[derive(::diesel::Queryable)]
        #[derive(::diesel::AsChangeset)]
        #[derive(::rocket::form::FromForm)]
        #[derive(::serde::Deserialize)]
        #derive_validate
        #[derive(Default)]
        #[table_name = "#table_name"]
        struct #update_ident {
            #fields
        }

        impl ::rp1::CrudUpdatableMarker for #ident {}
"##;

/// Whether an attribute marks a field as one that the caller of an endpoint
/// does not supply.
pub fn is_generated_or_primary_key(a: &Attribute) -> (r: bool)
    ensures
        r == (a@.is_ident("generated"@) || a@.is_ident("primary_key"@)),
{
    a.is_ident("generated") || a.is_ident("primary_key")
}

pub open spec fn insertable_env(fields: Seq<CrudFieldView>, p: CrudPropsView) -> Seq<BindingView> {
    nothing()
        .with("table_name"@, p.table_name)
        .with("new_ident"@, p.new_ident)
        .with("fields"@, joined(field_codes(fields), ", "@))
        .with("ident"@, p.ident)
}

/// The source text of the type that carries a new record made of `fields`.
pub open spec fn insertable_code(fields: Seq<CrudFieldView>, p: CrudPropsView) -> Seq<char> {
    filled(INSERTABLE@, insertable_env(fields, p))
}

/// The type that carries a new record: the given fields as they are.
pub fn derive_crud_insertable(non_generated_fields: &Vec<CrudField>, props: &CrudProps) -> (r:
    String)
    ensures
        r@ == insertable_code(non_generated_fields.deep_view(), props@),
{
    let fields = join(&field_code_list(non_generated_fields), ", ");
    let mut env = no_bindings();
    push_binding(&mut env, "table_name", props.table_name.as_str());
    push_binding(&mut env, "new_ident", props.new_ident.as_str());
    push_binding(&mut env, "fields", fields.as_str());
    push_binding(&mut env, "ident", props.ident.as_str());
    fill(INSERTABLE, &env)
}

pub open spec fn updatable_env(
    fields: Seq<CrudFieldView>,
    validate: Seq<char>,
    p: CrudPropsView,
) -> Seq<BindingView> {
    nothing()
        .with("derive_validate"@, validate)
        .with("table_name"@, p.table_name)
        .with("update_ident"@, p.update_ident)
        .with("fields"@, joined(field_codes(fields), ", "@))
        .with("ident"@, p.ident)
}

/// The source text of the type that carries a change made of `fields`.
pub open spec fn updatable_code(
    fields: Seq<CrudFieldView>,
    validate: Seq<char>,
    p: CrudPropsView,
) -> Seq<char> {
    filled(UPDATABLE@, updatable_env(fields, validate, p))
}

/// The type that carries a change, made of fields that are ready for it.
fn update_type_of(fields: &Vec<CrudField>, validate: &str, props: &CrudProps) -> (r: String)
    ensures
        r@ == updatable_code(fields.deep_view(), validate@, props@),
{
    let code = join(&field_code_list(fields), ", ");
    let mut env = no_bindings();
    push_binding(&mut env, "derive_validate", validate);
    push_binding(&mut env, "table_name", props.table_name.as_str());
    push_binding(&mut env, "update_ident", props.update_ident.as_str());
    push_binding(&mut env, "fields", code.as_str());
    push_binding(&mut env, "ident", props.ident.as_str());
    fill(UPDATABLE, &env)
}

/// The type that carries a change: each of the given fields made optional,
/// and able to tell an absent value from a null where it was optional
/// already. The type always validates.
pub fn derive_crud_updatable(non_generated_fields: Vec<CrudField>, props: &CrudProps) -> (r: String)
    ensures
        r@ == updatable_code(
            update_fields(non_generated_fields.deep_view()),
            DERIVE_VALIDATE@,
            props@,
        ),
{
    let mut fields: Vec<CrudField> = Vec::new();
    let mut i: usize = 0;
    while i < non_generated_fields.len()
        invariant
            i <= non_generated_fields.len(),
            fields@.len() == i,
            forall|j: int|
                0 <= j < i ==> (#[trigger] fields@[j])@
                    == non_generated_fields@[j]@.as_update_field(),
        decreases non_generated_fields.len() - i,
    {
        fields.push(non_generated_fields[i].as_update_field());
        i += 1;
    }
    proof {
        assert(fields.deep_view() =~= update_fields(non_generated_fields.deep_view()));
    }
    update_type_of(&fields, DERIVE_VALIDATE, props)
}

/// The type that carries a change: the fields that the caller supplies,
/// each made optional. It validates where validation is on.
pub fn derive_update_type(props: &CrudProps) -> (r: String)
    ensures
        r@ == updatable_code(
            update_fields(fields_of(props@.fields, FieldClass::UserSupplied)),
            derive_validate_part(props@),
            props@,
        ),
{
    let fields = props.updatable_fields();
    if props.validation {
        update_type_of(&fields, DERIVE_VALIDATE, props)
    } else {
        proof {
            reveal_strlit("");
            assert(""@ =~= Seq::<char>::empty());
        }
        update_type_of(&fields, "", props)
    }
}

} // verus!
