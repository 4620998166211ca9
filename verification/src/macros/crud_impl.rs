//! The whole of what the attribute gives back for one record type.

use crate::macros::derive::common::{
    append_routes, derive_field_list, field_list_code, no_bindings, push_binding,
};
use crate::macros::derive::create::{
    create_code, create_routes, derive_crud_create, derive_crud_without_create,
    without_create_code,
};
use crate::macros::derive::delete::{delete_code, derive_crud_delete};
use crate::macros::derive::list::{derive_crud_list, list_code};
use crate::macros::derive::read::{derive_crud_read, read_code};
use crate::macros::derive::update::{
    derive_crud_update, derive_crud_without_update, update_code, update_routes,
    without_update_code,
};
use crate::macros::error::Error;
use crate::macros::model::{attrs_code, attrs_to_code, ItemStruct, ItemStructView};
use crate::macros::props::{
    built, field_code_list, field_codes, CrudProps, CrudPropsBuilder, CrudPropsBuilderView,
    CrudPropsView,
};
use crate::macros::template::{fill, filled, nothing, BindingView, Bindings};
use crate::text::{join, joined, texts};
use vstd::prelude::*;

verus! {

/// The module that holds the record type, its endpoints and the list of
/// their routes, and the import that puts the record type where it was
/// written.
pub const MODULE: &'static str = r#"
        mod #module_name {
            use super::*;
            use diesel::prelude::*;
            use #schema_path::#table_name;

            #attrs
            #[derive(serde::Serialize, diesel::Queryable, validator::Validate)]
            pub struct #ident #generics {
                #fields
            }

            #tokens

            impl #ident {
                pub fn get_routes() -> Vec<::rocket::Route> {
                    rocket::routes![#routes]
                }
            }

            impl ::rp1::CrudStruct for #ident {
                type TableType = #schema_path::#table_name::table;
            }
        }

        #original_visibility use self::#module_name::#ident;
"#;

/// The names of the handlers that are generated, in the order in which
/// they are routed: those of each operation that is on.
pub open spec fn routes_of(p: CrudPropsView) -> Seq<Seq<char>> {
    (if p.create {
        create_routes()
    } else {
        Seq::empty()
    }) + (if p.read {
        Seq::<Seq<char>>::empty().push("read_fn"@)
    } else {
        Seq::empty()
    }) + (if p.update {
        update_routes()
    } else {
        Seq::empty()
    }) + (if p.delete {
        Seq::<Seq<char>>::empty().push("delete_fn"@)
    } else {
        Seq::empty()
    }) + (if p.list {
        Seq::<Seq<char>>::empty().push("list_fn"@)
    } else {
        Seq::empty()
    })
}

/// The generated items, in order: the field list, then what each operation
/// gives. Creating and changing leave a stand-in where they are off;
/// reading, deleting and listing leave nothing.
pub open spec fn items_of(p: CrudPropsView) -> Seq<char> {
    field_list_code(p) + (if p.create {
        create_code(p)
    } else {
        without_create_code(p)
    }) + (if p.read {
        read_code(p)
    } else {
        Seq::empty()
    }) + (if p.update {
        update_code(p)
    } else {
        without_update_code(p)
    }) + (if p.delete {
        delete_code(p)
    } else {
        Seq::empty()
    }) + (if p.list {
        list_code(p)
    } else {
        Seq::empty()
    })
}

/// As many handlers are routed as the operations that are on bring: two
/// for creating, four for changing, one each for reading, deleting and
/// listing.
pub proof fn lemma_route_count(p: CrudPropsView)
    ensures
        routes_of(p).len() == (if p.create {
            2int
        } else {
            0int
        }) + (if p.read {
            1int
        } else {
            0int
        }) + (if p.update {
            4int
        } else {
            0int
        }) + (if p.delete {
            1int
        } else {
            0int
        }) + (if p.list {
            1int
        } else {
            0int
        }),
        !p.create && !p.read && !p.update && !p.delete && !p.list ==> routes_of(p)
            == Seq::<Seq<char>>::empty(),
{
    if !p.create && !p.read && !p.update && !p.delete && !p.list {
        assert(routes_of(p) =~= Seq::<Seq<char>>::empty());
    }
}

pub open spec fn module_env(p: CrudPropsView) -> Seq<BindingView> {
    nothing()
        .with("module_name"@, p.module_name)
        .with("schema_path"@, p.schema_path)
        .with("table_name"@, p.table_name)
        .with("attrs"@, attrs_code(p.item.attrs))
        .with("ident"@, p.ident)
        .with("generics"@, p.item.generics)
        .with("fields"@, joined(field_codes(p.fields), ", "@))
        .with("tokens"@, items_of(p))
        .with("routes"@, joined(routes_of(p), ", "@))
        .with("original_visibility"@, p.original_visibility)
}

/// The source text that the attribute gives back for properties `p`.
pub open spec fn module_code(p: CrudPropsView) -> Seq<char> {
    filled(MODULE@, module_env(p))
}

/// The source text for a record type whose properties are known.
pub fn generate(props: &CrudProps) -> (r: String)
    ensures
        r@ == module_code(props@),
{
    let mut tokens = derive_field_list(props);
    let mut routes: Vec<String> = Vec::new();
    proof {
        assert(texts(routes@) =~= Seq::<Seq<char>>::empty());
    }
    if props.create {
        let (toks, func) = derive_crud_create(props);
        tokens.append(toks.as_str());
        append_routes(&mut routes, func);
    } else {
        let toks = derive_crud_without_create(props);
        tokens.append(toks.as_str());
        proof {
            assert(texts(routes@) + Seq::<Seq<char>>::empty() =~= texts(routes@));
        }
    }
    let ghost routes1 = texts(routes@);
    if props.read {
        let (toks, func) = derive_crud_read(props);
        tokens.append(toks.as_str());
        append_routes(&mut routes, func);
    } else {
        proof {
            assert(tokens@ + Seq::<char>::empty() =~= tokens@);
            assert(texts(routes@) + Seq::<Seq<char>>::empty() =~= texts(routes@));
        }
    }
    if props.update {
        let (toks, func) = derive_crud_update(props);
        tokens.append(toks.as_str());
        append_routes(&mut routes, func);
    } else {
        let toks = derive_crud_without_update(props);
        tokens.append(toks.as_str());
        proof {
            assert(texts(routes@) + Seq::<Seq<char>>::empty() =~= texts(routes@));
        }
    }
    if props.delete {
        let (toks, func) = derive_crud_delete(props);
        tokens.append(toks.as_str());
        append_routes(&mut routes, func);
    } else {
        proof {
            assert(tokens@ + Seq::<char>::empty() =~= tokens@);
            assert(texts(routes@) + Seq::<Seq<char>>::empty() =~= texts(routes@));
        }
    }
    if props.list {
        let (toks, func) = derive_crud_list(props);
        tokens.append(toks.as_str());
        append_routes(&mut routes, func);
    } else {
        proof {
            assert(tokens@ + Seq::<char>::empty() =~= tokens@);
            assert(texts(routes@) + Seq::<Seq<char>>::empty() =~= texts(routes@));
        }
    }
    assert(tokens@ == items_of(props@));
    assert(texts(routes@) == routes_of(props@));
    let attrs = attrs_to_code(&props.item.attrs);
    let fields = join(&field_code_list(&props.fields), ", ");
    let route_names = join(&routes, ", ");
    let mut env = no_bindings();
    push_binding(&mut env, "module_name", props.module_name.as_str());
    push_binding(&mut env, "schema_path", props.schema_path.as_str());
    push_binding(&mut env, "table_name", props.table_name.as_str());
    push_binding(&mut env, "attrs", attrs.as_str());
    push_binding(&mut env, "ident", props.ident.as_str());
    push_binding(&mut env, "generics", props.item.generics.as_str());
    push_binding(&mut env, "fields", fields.as_str());
    push_binding(&mut env, "tokens", tokens.as_str());
    push_binding(&mut env, "routes", route_names.as_str());
    push_binding(&mut env, "original_visibility", props.original_visibility.as_str());
    assert(env.deep_view() == module_env(props@));
    fill(MODULE, &env)
}

/// The source text that the attribute gives back for arguments `args` on
/// the struct definition `item`, or the reason why there is none.
pub open spec fn crud_code(args: CrudPropsBuilderView, item: ItemStructView) -> Result<
    Seq<char>,
    Error,
> {
    match built(args, item) {
        Ok(p) => Ok(module_code(p)),
        Err(e) => Err(e),
    }
}

/// Generates the endpoints of a record type: reads the struct definition,
/// then lays out the record type, what each operation that is on needs, and
/// the list of routes, in a module of their own.
pub fn crud_impl(args: CrudPropsBuilder, item: ItemStruct) -> (r: Result<String, Error>)
    ensures
        match r {
            Ok(code) => crud_code(args@, item@) == Ok::<Seq<char>, Error>(code@),
            Err(e) => crud_code(args@, item@) == Err::<Seq<char>, Error>(e),
        },
{
    match args.build(item) {
        Ok(props) => Ok(generate(&props)),
        Err(e) => Err(e),
    }
}

/// Generates the endpoints of a record type that has names for all its
/// fields and a single primary key.
pub fn crud(args: CrudPropsBuilder, item: ItemStruct) -> (r: String)
    requires
        built(args@, item@) is Ok,
    ensures
        crud_code(args@, item@) == Ok::<Seq<char>, Error>(r@),
{
    match crud_impl(args, item) {
        Ok(code) => code,
        Err(_) => String::new(),
    }
}

} // verus!
