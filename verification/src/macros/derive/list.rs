//! The endpoint that lists records: ordered, narrowed, paged and, where
//! asked for, cut down to chosen fields.

use crate::macros::derive::common::{
    auth_param_code, derive_auth_param, each_field, no_bindings, or_empty, per_field,
    push_binding, text_or_empty,
};
use crate::macros::model::{attrs_code, attrs_to_code};
use crate::macros::props::{
    field_code_list, field_codes, field_idents, fields_of, idents, CrudField, CrudFieldView,
    CrudProps, CrudPropsView, FieldClass,
};
use crate::macros::template::{fill, filled, nothing, BindingView, Bindings};
use crate::text::{concat, concat_all, decimal, decimal_text, join, joined, texts};
use vstd::prelude::*;

verus! {

/// With authorisation: the record type says which rows this user may see.
pub const AUTH_FILTER: &'static str = r#"
                let filter = <#ident as ::rp1::CheckPermissions>::filter_list(&auth_user);
                let query = filter.apply(query);
"#;

/// Without authorisation every row may be seen.
pub const NO_AUTH_FILTER: &'static str = r#"
                let query = Some(query);
"#;

pub const ROUTE_WITH_PARTIALS: &'static str =
    r#"#[::rocket::get("/?<sort>&<offset>&<limit>&<filter>&<include>&<exclude>")]"#;

pub const ROUTE: &'static str = r#"#[::rocket::get("/?<sort>&<offset>&<limit>&<filter>")]"#;

pub const PARTIAL_PARAMS: &'static str = r#"
            include: Vec<Fields>,
            exclude: Vec<Fields>,
"#;

pub const ALL_COLUMNS: &'static str = "#schema_path::#table_name::all_columns";

pub const SELECTED_FIELDS: &'static str =
    "let selected = Fields::selected(include, exclude); let selected_out = selected.clone();";

pub const PARTIAL_RESULT_TYPE: &'static str = "Vec<#partial_ident>";

pub const FULL_RESULT_TYPE: &'static str = "Vec<#output_ident>";

pub const PARTIAL_RESULT_MAP: &'static str = r#"
            let results = results.into_iter().map(|e| #partial_output_ident::from_partial(e, &selected_out)).collect::<Result<Vec<#output_ident>, ::rp1::CrudError>>()?;
"#;

/// The field of the filter specification that collects the conditions on
/// one field of the record.
pub const FILTER_FIELD: &'static str = "#ident: Vec<::rp1::FilterOperator<#ty>>";

pub const FILTER_DEFAULT: &'static str = "#ident: vec![]";

/// Reading one condition on a field that always has a value.
pub const FILTER_PARSE: &'static str = r#"
                    stringify!(#ident) => {
                        match ::rp1::FilterOperator::try_parse(field_operator, value) {
                            Ok(v) => self.spec.#ident.push(v),
                            Err(e) => self.errors.push(::rocket::form::Error::custom(e)),
                        }
                    },
"#;

/// Reading one condition on a field that may be null: an empty value asks
/// for null.
pub const FILTER_PARSE_OPTION: &'static str = r#"
                    stringify!(#ident) => {
                        if value == "" {
                            match ::rp1::FilterOperator::from_none(field_operator) {
                                Ok(v) => self.spec.#ident.push(v),
                                Err(e) => self.errors.push(::rocket::form::Error::custom(e)),
                            }
                        } else {
                            match ::rp1::FilterOperator::try_parse_option(field_operator, value) {
                                Ok(v) => self.spec.#ident.push(v),
                                Err(e) => self.errors.push(::rocket::form::Error::custom(e)),
                            }
                        }
                    },
"#;

/// Adding the conditions on one field to the query.
pub const FILTER_APPLY: &'static str = r#"
                for op in filter.#ident.iter() {
                    use ::rp1::FilterOperator;
                    use #schema_path::#table_name::columns;
                    query = match op {
                        FilterOperator::Eq(val) => query.filter(columns::#ident.eq(val)),
                        FilterOperator::Ne(val) => query.filter(columns::#ident.ne(val)),
                        FilterOperator::Gt(val) => query.filter(columns::#ident.gt(val)),
                        FilterOperator::Ge(val) => query.filter(columns::#ident.ge(val)),
                        FilterOperator::Lt(val) => query.filter(columns::#ident.lt(val)),
                        FilterOperator::Le(val) => query.filter(columns::#ident.le(val)),
                        FilterOperator::EqAny(val) => query.filter(columns::#ident.eq_any(val)),
                    };
                }
"#;

/// Ordering the query by one field, in the direction asked for.
pub const SORT_ARM: &'static str = r#"
                        SortableFields::#ident => {
                            query = if sort_spec.direction == SortDirection::Asc {
                                query.then_order_by(#schema_path::#table_name::columns::#ident.asc())
                            } else {
                                query.then_order_by(#schema_path::#table_name::columns::#ident.desc())
                            };
                        }"#;

/// The list endpoint with everything it needs.
pub const LIST: &'static str = r#"
        #partial_struct

        #[doc(hidden)]
        #[allow(non_camel_case_types)]
        #[derive(::rocket::FromFormField, Debug)]
        pub enum SortableFields {
            #sortable_field_names
        }

        use ::rocket::request::{self, Request, FromRequest};

        #[derive(Debug)]
        pub struct #filter_ident {
            #filter_fields
        }

        impl ::rp1::CrudFilterSpec for #ident {
            type FilterSpecType = #filter_ident;
        }

        impl Default for #filter_ident {
            fn default() -> #filter_ident {
                #filter_ident {
                    #filter_defaults
                }
            }
        }

        #[doc(hidden)]
        pub struct FilterSpecContext<'r> {
            spec: #filter_ident,
            errors: ::rocket::form::Errors<'r>,
        }

        impl<'r> FilterSpecContext<'r> {
            fn push(&mut self, mut field_name: rocket::form::name::NameView<'r>, value: &'r str) {
                use std::convert::{TryFrom, TryInto};

                let field_filtered = match field_name.key() {
                    Some(k) => k,
                    None => {
                        self.errors.push(::rocket::form::Error::custom(::rp1::ParseError::UnknownField(field_name.to_string())));
                        return;
                    },
                };
                field_name.shift();
                let field_operator = field_name.key().map(|k| k.as_str()).unwrap_or("eq");

                match field_filtered.as_str() {
                    #filter_parse_stmts
                    _ => {
                        self.errors.push(::rocket::form::Error::custom(::rp1::ParseError::UnknownField(field_filtered.as_str().to_owned())));
                    },
                };
            }
        }

        #[rocket::async_trait]
        impl<'r> ::rocket::form::FromForm<'r> for #filter_ident {
            type Context = FilterSpecContext<'r>;

            fn init(opts: ::rocket::form::Options) -> Self::Context {
                FilterSpecContext {
                    spec: Default::default(),
                    errors: ::rocket::form::Errors::new(),
                }
            }

            fn push_value(ctxt: &mut Self::Context, field: ::rocket::form::ValueField<'r>) {
                ctxt.push(field.name, field.value);
            }

            async fn push_data(ctxt: &mut Self::Context, field: ::rocket::form::DataField<'r, '_>) {
                use rocket::data::ToByteUnit;

                let limit = 256.kibibytes();
                let bytes = match field.data.open(limit).into_bytes().await {
                    Ok(b) => b,
                    Err(e) => {
                        ctxt.errors.push(e.into());
                        return;
                    },
                };
                if !bytes.is_complete() {
                    ctxt.errors.push(rocket::form::error::ErrorKind::from((None, Some(limit))).into());
                    return;
                }
                let bytes = bytes.into_inner();
                let bytes = rocket::request::local_cache!(field.request, bytes);
                let data = match std::str::from_utf8(bytes) {
                    Ok(d) => d.into(),
                    Err(e) => {
                        ctxt.errors.push(e.into());
                        return;
                    },
                };
                ctxt.push(field.name, data);
            }

            fn finalize(ctxt: Self::Context) -> ::rocket::form::Result<'r, Self> {
                if ctxt.errors.is_empty() {
                    Ok(ctxt.spec)
                } else {
                    Err(ctxt.errors)
                }
            }
        }

        #rocket_attr
        async fn list_fn(
            db: #database_struct,
            sort: Result<Vec<::rp1::SortSpec<SortableFields>>, ::rocket::form::Errors<'_>>,
            filter: Result<#filter_ident, ::rocket::form::Errors<'_>>,
            offset: Option<i64>,
            limit: Option<i64>,
            #partial_params
            #auth_param
        ) -> ::rp1::CrudJsonResult<Vec<#output_ident>>
        {
            let sort = sort.map_err(|e| ::rp1::CrudError::InvalidSortSpec(e.to_string()))?;
            let filter = filter.map_err(|e| ::rp1::CrudError::InvalidFilterSpec(e.to_string()))?;
            #selected_fields_stmt
            let offset = ::rp1::helper::page_offset(offset);
            let limit = ::rp1::helper::page_limit(limit, #max_limit);
            let results: #partial_result_type = db.run(move |conn| {
                use ::rp1::SortDirection;
                use ::diesel::expression::Expression;
                let mut query = #schema_path::#table_name::table
                    .select(#select_statements)
                    .offset(offset)
                    .limit(limit)
                    .into_boxed();
                for sort_spec in sort {
                    match sort_spec.field {
                        #sort_arms
                    }
                }
                #filter_apply_stmts

                #auth_filter

                query.map(|q| q.load(conn))
            })
            .await
            .ok_or_else(|| ::rp1::CrudError::Forbidden)??;

            #partial_result_map
            Ok(::rocket::serde::json::Json(results))
        }
"#;

/// The two record types behind a list cut down to chosen fields: the row as
/// it is read, every field optional, and the row as it is sent.
pub const PARTIAL_RESULT: &'static str = r#"
        #attrs
        #[derive(::diesel::Queryable, ::serde::Serialize, ::validator::Validate)]
        pub struct #partial_ident #generics {
            #partial_fields
        }

        #attrs
        #[derive(::serde::Serialize, ::validator::Validate)]
        pub struct #partial_output_ident #generics {
            #partial_output_fields
        }

        impl #partial_output_ident {
            pub fn from_partial(partial: #partial_ident, fields: &Vec<Fields>) -> ::rp1::CrudResult<#partial_output_ident> {
                Ok(#partial_output_ident {
                    #field_maps
                })
            }
        }
"#;

/// A chosen field that always has a value must have come back from the
/// database with one.
pub const FIELD_MAP: &'static str = r#"
                    #ident: if fields.contains(&Fields::#ident) {
                        Some(partial.#ident.ok_or(::rp1::CrudError::DbValueError)?)
                    } else {
                        None
                    }"#;

pub const FIELD_MAP_OPTION: &'static str = r#"
                    #ident: if fields.contains(&Fields::#ident) {
                        Some(partial.#ident)
                    } else {
                        None
                    }"#;

/// A column is read where its field is chosen; null stands in where it is not.
pub const SELECT_FIELD: &'static str = r#"
                if selected.contains(&Fields::#ident) {
                    diesel::dsl::sql(stringify!(#ident))
                } else {
                    diesel::dsl::sql("null")
                },"#;

pub const SELECT_STATEMENT: &'static str = "(#fields)";

/// Each field with its type made optional, unless it is so already.
pub open spec fn partial_fields(fields: Seq<CrudFieldView>) -> Seq<CrudFieldView> {
    Seq::new(fields.len(), |i: int| fields[i].ensure_option())
}

/// Each field with its type wrapped in one more `Option`.
pub open spec fn partial_output_fields(fields: Seq<CrudFieldView>) -> Seq<CrudFieldView> {
    Seq::new(fields.len(), |i: int| fields[i].with_wrapped_option())
}

pub open spec fn partial_result_env(p: CrudPropsView) -> Seq<BindingView> {
    nothing()
        .with("attrs"@, attrs_code(p.item.attrs))
        .with("generics"@, p.item.generics)
        .with("partial_ident"@, p.partial_ident)
        .with("partial_output_ident"@, p.partial_output_ident)
        .with("partial_fields"@, joined(field_codes(partial_fields(p.fields)), ", "@))
        .with("partial_output_fields"@, joined(field_codes(partial_output_fields(p.fields)), ", "@))
        .with("field_maps"@, joined(each_field(p.fields, FIELD_MAP@, FIELD_MAP_OPTION@, Seq::empty()), ", "@))
}

/// The record types behind a list cut down to chosen fields.
pub open spec fn partial_result_struct_code(p: CrudPropsView) -> Seq<char> {
    filled(PARTIAL_RESULT@, partial_result_env(p))
}

/// The record types behind a list cut down to chosen fields.
pub fn derive_partial_result_struct(props: &CrudProps) -> (r: String)
    ensures
        r@ == partial_result_struct_code(props@),
{
    let mut partial: Vec<CrudField> = Vec::new();
    let mut output: Vec<CrudField> = Vec::new();
    let mut i: usize = 0;
    while i < props.fields.len()
        invariant
            i <= props.fields.len(),
            partial@.len() == i,
            output@.len() == i,
            forall|j: int| 0 <= j < i ==> (#[trigger] partial@[j])@ == props.fields@[j]@.ensure_option(),
            forall|j: int|
                0 <= j < i ==> (#[trigger] output@[j])@ == props.fields@[j]@.with_wrapped_option(),
        decreases props.fields.len() - i,
    {
        partial.push(props.fields[i].ensure_option());
        output.push(props.fields[i].with_wrapped_option());
        i += 1;
    }
    proof {
        assert(partial.deep_view() =~= partial_fields(props@.fields));
        assert(output.deep_view() =~= partial_output_fields(props@.fields));
    }
    let none = no_bindings();
    let attrs = attrs_to_code(&props.item.attrs);
    let partial_code = join(&field_code_list(&partial), ", ");
    let output_code = join(&field_code_list(&output), ", ");
    let maps = join(&per_field(&props.fields, FIELD_MAP, FIELD_MAP_OPTION, &none), ", ");
    let mut env = no_bindings();
    push_binding(&mut env, "attrs", attrs.as_str());
    push_binding(&mut env, "generics", props.item.generics.as_str());
    push_binding(&mut env, "partial_ident", props.partial_ident.as_str());
    push_binding(&mut env, "partial_output_ident", props.partial_output_ident.as_str());
    push_binding(&mut env, "partial_fields", partial_code.as_str());
    push_binding(&mut env, "partial_output_fields", output_code.as_str());
    push_binding(&mut env, "field_maps", maps.as_str());
    assert(env.deep_view() == partial_result_env(props@));
    fill(PARTIAL_RESULT, &env)
}

/// The columns that a list cut down to chosen fields reads.
pub open spec fn select_statement_code(p: CrudPropsView) -> Seq<char> {
    filled(
        SELECT_STATEMENT@,
        nothing()
            .with("fields"@, concat(each_field(p.fields, SELECT_FIELD@, SELECT_FIELD@, Seq::empty()))),
    )
}

/// The columns that a list cut down to chosen fields reads.
pub fn derive_select_statement(props: &CrudProps) -> (r: String)
    ensures
        r@ == select_statement_code(props@),
{
    let none = no_bindings();
    let fields = concat_all(&per_field(&props.fields, SELECT_FIELD, SELECT_FIELD, &none));
    let mut env = no_bindings();
    push_binding(&mut env, "fields", fields.as_str());
    fill(SELECT_STATEMENT, &env)
}

/// The place of the table: what the per-field pieces of a list are filled from.
pub open spec fn table_env(p: CrudPropsView) -> Seq<BindingView> {
    nothing()
        .with("schema_path"@, p.schema_path)
        .with("table_name"@, p.table_name)
}

/// The name of the record type that a list hands out.
pub open spec fn output_ident(p: CrudPropsView) -> Seq<char> {
    if p.partials {
        p.partial_output_ident
    } else {
        p.ident
    }
}

/// The record types for partial results, where they are on.
pub open spec fn partial_struct_part(p: CrudPropsView) -> Seq<char> {
    if p.partials {
        partial_result_struct_code(p)
    } else {
        Seq::empty()
    }
}

/// The route of the list endpoint.
pub open spec fn route_attr(p: CrudPropsView) -> Seq<char> {
    if p.partials {
        ROUTE_WITH_PARTIALS@
    } else {
        ROUTE@
    }
}

pub open spec fn partial_params_part(p: CrudPropsView) -> Seq<char> {
    if p.partials {
        PARTIAL_PARAMS@
    } else {
        Seq::empty()
    }
}

pub open spec fn selected_fields_part(p: CrudPropsView) -> Seq<char> {
    if p.partials {
        SELECTED_FIELDS@
    } else {
        Seq::empty()
    }
}

/// The type of the rows as they are read.
pub open spec fn result_type_code(p: CrudPropsView) -> Seq<char> {
    if p.partials {
        filled(PARTIAL_RESULT_TYPE@, nothing()
            .with("partial_ident"@, p.partial_ident))
    } else {
        filled(FULL_RESULT_TYPE@, nothing()
            .with("output_ident"@, output_ident(p)))
    }
}

/// The columns that the list reads.
pub open spec fn select_code(p: CrudPropsView) -> Seq<char> {
    if p.partials {
        select_statement_code(p)
    } else {
        filled(ALL_COLUMNS@, table_env(p))
    }
}

/// One way of ordering for each sortable field.
pub open spec fn sort_arms_code(p: CrudPropsView) -> Seq<char> {
    joined(
        each_field(fields_of(p.fields, FieldClass::Sortable), SORT_ARM@, SORT_ARM@, table_env(p)),
        ","@,
    )
}

/// The conditions of each filterable field, added to the query.
pub open spec fn filter_apply_code(p: CrudPropsView) -> Seq<char> {
    concat(
        each_field(
            fields_of(p.fields, FieldClass::Filterable),
            FILTER_APPLY@,
            FILTER_APPLY@,
            table_env(p),
        ),
    )
}

/// The rows that the user may see.
pub open spec fn auth_filter_code(p: CrudPropsView) -> Seq<char> {
    if p.auth {
        filled(AUTH_FILTER@, nothing()
            .with("ident"@, p.ident))
    } else {
        NO_AUTH_FILTER@
    }
}

/// The step from the rows as read to the rows as sent.
pub open spec fn result_map_code(p: CrudPropsView) -> Seq<char> {
    if p.partials {
        filled(
            PARTIAL_RESULT_MAP@,
            nothing()
                .with("partial_output_ident"@, p.partial_output_ident)
                .with("output_ident"@, output_ident(p)),
        )
    } else {
        Seq::empty()
    }
}

/// The largest page, as a literal.
pub open spec fn max_limit_code(p: CrudPropsView) -> Seq<char> {
    decimal_text(p.max_limit as int) + "i64"@
}

pub open spec fn list_env(p: CrudPropsView) -> Seq<BindingView> {
    let sortable = fields_of(p.fields, FieldClass::Sortable);
    let filterable = fields_of(p.fields, FieldClass::Filterable);
    nothing()
        .with("partial_struct"@, partial_struct_part(p))
        .with("sortable_field_names"@, joined(idents(sortable), ", "@))
        .with("filter_ident"@, p.filter_ident)
        .with("filter_fields"@, joined(each_field(filterable, FILTER_FIELD@, FILTER_FIELD@, Seq::empty()), ", "@))
        .with("ident"@, p.ident)
        .with("filter_defaults"@, joined(each_field(filterable, FILTER_DEFAULT@, FILTER_DEFAULT@, Seq::empty()), ", "@))
        .with("filter_parse_stmts"@, concat(each_field(filterable, FILTER_PARSE@, FILTER_PARSE_OPTION@, Seq::empty())))
        .with("rocket_attr"@, route_attr(p))
        .with("database_struct"@, p.database_struct)
        .with("partial_params"@, partial_params_part(p))
        .with("auth_param"@, or_empty(auth_param_code(p)))
        .with("output_ident"@, output_ident(p))
        .with("selected_fields_stmt"@, selected_fields_part(p))
        .with("max_limit"@, max_limit_code(p))
        .with("partial_result_type"@, result_type_code(p))
        .with("schema_path"@, p.schema_path)
        .with("table_name"@, p.table_name)
        .with("select_statements"@, select_code(p))
        .with("sort_arms"@, sort_arms_code(p))
        .with("filter_apply_stmts"@, filter_apply_code(p))
        .with("auth_filter"@, auth_filter_code(p))
        .with("partial_result_map"@, result_map_code(p))
}

/// The source text of the list endpoint.
pub open spec fn list_code(p: CrudPropsView) -> Seq<char> {
    filled(LIST@, list_env(p))
}

/// The list endpoint of a record type, and the name of its handler.
///
/// The list can be ordered by each sortable field and narrowed by each
/// filterable one. A page holds at most as many records as the properties
/// allow, and at least one. With partial results on, the caller may choose
/// the fields that come back.
pub fn derive_crud_list(props: &CrudProps) -> (r: (String, Vec<String>))
    ensures
        r.0@ == list_code(props@),
        texts(r.1@) == seq!["list_fn"@],
{
    let none = no_bindings();
    let mut table = no_bindings();
    push_binding(&mut table, "schema_path", props.schema_path.as_str());
    push_binding(&mut table, "table_name", props.table_name.as_str());
    assert(table.deep_view() == table_env(props@));
    let mut of_ident = no_bindings();
    push_binding(&mut of_ident, "ident", props.ident.as_str());

    let partials = props.partials;
    let auth_param = text_or_empty(&derive_auth_param(props));
    let auth_filter = if props.auth {
        fill(AUTH_FILTER, &of_ident)
    } else {
        String::from_str(NO_AUTH_FILTER)
    };
    let output_name = if partials {
        props.partial_output_ident.clone()
    } else {
        props.ident.clone()
    };
    let partial_struct = if partials {
        derive_partial_result_struct(props)
    } else {
        String::new()
    };
    let rocket_attr = if partials {
        String::from_str(ROUTE_WITH_PARTIALS)
    } else {
        String::from_str(ROUTE)
    };
    let partial_params = if partials {
        String::from_str(PARTIAL_PARAMS)
    } else {
        String::new()
    };
    let select_statements = if partials {
        derive_select_statement(props)
    } else {
        fill(ALL_COLUMNS, &table)
    };
    let selected_fields_stmt = if partials {
        String::from_str(SELECTED_FIELDS)
    } else {
        String::new()
    };
    let partial_result_type = if partials {
        let mut env = no_bindings();
        push_binding(&mut env, "partial_ident", props.partial_ident.as_str());
        fill(PARTIAL_RESULT_TYPE, &env)
    } else {
        let mut env = no_bindings();
        push_binding(&mut env, "output_ident", output_name.as_str());
        fill(FULL_RESULT_TYPE, &env)
    };
    let partial_result_map = if partials {
        let mut env = no_bindings();
        push_binding(&mut env, "partial_output_ident", props.partial_output_ident.as_str());
        push_binding(&mut env, "output_ident", output_name.as_str());
        fill(PARTIAL_RESULT_MAP, &env)
    } else {
        String::new()
    };

    let sortable = props.sortable_fields();
    let sortable_field_names = join(&field_idents(&sortable), ", ");
    let filterable = props.filterable_fields();
    let filter_fields = join(&per_field(&filterable, FILTER_FIELD, FILTER_FIELD, &none), ", ");
    let filter_defaults = join(
        &per_field(&filterable, FILTER_DEFAULT, FILTER_DEFAULT, &none),
        ", ",
    );
    let filter_parse_stmts = concat_all(
        &per_field(&filterable, FILTER_PARSE, FILTER_PARSE_OPTION, &none),
    );
    let filter_apply_stmts = concat_all(
        &per_field(&filterable, FILTER_APPLY, FILTER_APPLY, &table),
    );
    let sort_arms = join(&per_field(&sortable, SORT_ARM, SORT_ARM, &table), ",");
    let mut max_limit = decimal(props.max_limit);
    max_limit.append("i64");

    let mut env = no_bindings();
    push_binding(&mut env, "partial_struct", partial_struct.as_str());
    push_binding(&mut env, "sortable_field_names", sortable_field_names.as_str());
    push_binding(&mut env, "filter_ident", props.filter_ident.as_str());
    push_binding(&mut env, "filter_fields", filter_fields.as_str());
    push_binding(&mut env, "ident", props.ident.as_str());
    push_binding(&mut env, "filter_defaults", filter_defaults.as_str());
    push_binding(&mut env, "filter_parse_stmts", filter_parse_stmts.as_str());
    push_binding(&mut env, "rocket_attr", rocket_attr.as_str());
    push_binding(&mut env, "database_struct", props.database_struct.as_str());
    push_binding(&mut env, "partial_params", partial_params.as_str());
    push_binding(&mut env, "auth_param", auth_param.as_str());
    push_binding(&mut env, "output_ident", output_name.as_str());
    push_binding(&mut env, "selected_fields_stmt", selected_fields_stmt.as_str());
    push_binding(&mut env, "max_limit", max_limit.as_str());
    push_binding(&mut env, "partial_result_type", partial_result_type.as_str());
    push_binding(&mut env, "schema_path", props.schema_path.as_str());
    push_binding(&mut env, "table_name", props.table_name.as_str());
    push_binding(&mut env, "select_statements", select_statements.as_str());
    push_binding(&mut env, "sort_arms", sort_arms.as_str());
    push_binding(&mut env, "filter_apply_stmts", filter_apply_stmts.as_str());
    push_binding(&mut env, "auth_filter", auth_filter.as_str());
    push_binding(&mut env, "partial_result_map", partial_result_map.as_str());
    proof {
        let p = props@;
        assert(partial_struct@ == partial_struct_part(p));
        assert(rocket_attr@ == route_attr(p));
        assert(partial_params@ == partial_params_part(p));
        assert(output_name@ == output_ident(p));
        assert(selected_fields_stmt@ == selected_fields_part(p));
        assert(max_limit@ == max_limit_code(p));
        assert(partial_result_type@ == result_type_code(p));
        assert(select_statements@ == select_code(p));
        assert(sort_arms@ == sort_arms_code(p));
        assert(filter_apply_stmts@ == filter_apply_code(p));
        assert(auth_filter@ == auth_filter_code(p));
        assert(partial_result_map@ == result_map_code(p));
    }
    assert(env.deep_view() == list_env(props@));
    let code = fill(LIST, &env);
    let mut routes: Vec<String> = Vec::new();
    routes.push(String::from_str("list_fn"));
    proof {
        assert(texts(routes@) =~= seq!["list_fn"@]);
    }
    (code, routes)
}

} // verus!
