//! Pieces that several endpoints share.

use crate::macros::model::{Attribute, AttributeView};
use crate::macros::props::{
    field_idents, idents, CrudField, CrudFieldView, CrudProps, CrudPropsView,
};
use crate::macros::template::{
    bind, bound, fill, filled, nothing, Binding, BindingView, Bindings,
};
use crate::text::{join, joined, lemma_filter_empty, lemma_filter_step, texts};
use vstd::prelude::*;

verus! {

/// The parameter through which a handler receives the user on whose behalf
/// it runs.
pub const AUTH_PARAM: &'static str =
    "auth_user: <#ident as ::rp1::access_control::CheckPermissions>::AuthUser,";

/// The enumeration of all fields of a record, with the selection that an
/// include list and an exclude list make from it.
pub const FIELD_LIST: &'static str = r#"
#[allow(non_camel_case_types)]
#[derive(::rocket::FromFormField, Debug, PartialEq, Eq)]
pub enum Fields {
    #fields
}

impl Fields {
    pub fn all() -> Vec<Fields> {
        vec![
            #all
        ]
    }

    pub fn selected(include: Vec<Fields>, exclude: Vec<Fields>) -> Vec<Fields> {
        let include = if include.is_empty() {
            Fields::all()
        } else {
            include
        };
        include.into_iter().filter(|f| !exclude.contains(f)).collect()
    }
}

impl ::std::fmt::Display for Fields {
    fn fmt(&self, f: &mut ::std::fmt::Formatter) -> ::std::fmt::Result {
        write!(f, "{}", match self {
            #names
        })
    }
}
"#;

pub const FIELD_VARIANT: &'static str = "Fields::#ident";

pub const FIELD_NAME_ARM: &'static str = "Fields::#ident => stringify!(#ident)";

/// No bindings.
pub fn no_bindings() -> (r: Vec<Binding>)
    ensures
        r.deep_view() == nothing(),
{
    let r: Vec<Binding> = Vec::new();
    proof {
        assert(r.deep_view() =~= nothing());
    }
    r
}

/// Adds the binding of `name` to `value` after those that are there.
pub fn push_binding(env: &mut Vec<Binding>, name: &str, value: &str)
    ensures
        final(env).deep_view() == old(env).deep_view().with(name@, value@),
{
    env.push(bind(name, value));
    proof {
        assert(env.deep_view() =~= old(env).deep_view().push(bound(name@, value@)));
    }
}

/// The text of an optional piece; nothing where the piece is left out.
pub open spec fn or_empty(piece: Option<Seq<char>>) -> Seq<char> {
    match piece {
        Some(text) => text,
        None => Seq::empty(),
    }
}

/// The contents of an optional string.
pub open spec fn opt_code(piece: Option<String>) -> Option<Seq<char>> {
    match piece {
        Some(text) => Some(text@),
        None => None,
    }
}

/// The text of an optional piece; nothing where the piece is left out.
pub fn text_or_empty(piece: &Option<String>) -> (r: String)
    ensures
        r@ == or_empty(opt_code(*piece)),
{
    match piece {
        Some(text) => text.clone(),
        None => String::new(),
    }
}

/// What a field binds: its name and its type.
pub open spec fn field_env(f: CrudFieldView) -> Seq<BindingView> {
    nothing()
        .with("ident"@, f.ident)
        .with("ty"@, f.ty.code())
}

/// For each field, a template filled from the field and from `base`:
/// `optional` for a field whose type is an `Option`, `plain` for any other.
pub open spec fn each_field(
    fields: Seq<CrudFieldView>,
    plain: Seq<char>,
    optional: Seq<char>,
    base: Seq<BindingView>,
) -> Seq<Seq<char>> {
    Seq::new(
        fields.len(),
        |i: int|
            filled(
                if fields[i].is_option {
                    optional
                } else {
                    plain
                },
                field_env(fields[i]) + base,
            ),
    )
}

/// For each field, a template filled from the field and from `base`.
pub fn per_field(fields: &Vec<CrudField>, plain: &str, optional: &str, base: &Vec<Binding>) -> (r:
    Vec<String>)
    ensures
        texts(r@) == each_field(fields.deep_view(), plain@, optional@, base.deep_view()),
{
    let mut out: Vec<String> = Vec::new();
    let mut i: usize = 0;
    while i < fields.len()
        invariant
            i <= fields.len(),
            out@.len() == i,
            forall|j: int|
                0 <= j < i ==> (#[trigger] out@[j])@ == filled(
                    if fields@[j].is_option {
                        optional@
                    } else {
                        plain@
                    },
                    field_env(fields@[j]@) + base.deep_view(),
                ),
        decreases fields.len() - i,
    {
        let field = &fields[i];
        let mut env = no_bindings();
        push_binding(&mut env, "ident", field.ident.as_str());
        let ty = field.ty.to_code();
        push_binding(&mut env, "ty", ty.as_str());
        let mut k: usize = 0;
        while k < base.len()
            invariant
                k <= base.len(),
                env.deep_view() == field_env(field@) + base.deep_view().take(k as int),
            decreases base.len() - k,
        {
            let ghost before = env.deep_view();
            push_binding(&mut env, base[k].name.as_str(), base[k].value.as_str());
            proof {
                assert(env.deep_view() =~= field_env(field@) + base.deep_view().take(k + 1));
            }
            k += 1;
        }
        proof {
            assert(base.deep_view().take(base.len() as int) =~= base.deep_view());
        }
        let code = if field.is_option {
            fill(optional, &env)
        } else {
            fill(plain, &env)
        };
        out.push(code);
        i += 1;
    }
    proof {
        assert(texts(out@) =~= each_field(
            fields.deep_view(),
            plain@,
            optional@,
            base.deep_view(),
        ));
    }
    out
}

/// The authorisation parameter of a handler; none where authorisation is off.
pub open spec fn auth_param_code(p: CrudPropsView) -> Option<Seq<char>> {
    if p.auth {
        Some(filled(AUTH_PARAM@, nothing()
            .with("ident"@, p.ident)))
    } else {
        None
    }
}

/// The authorisation parameter of a handler; none where authorisation is off.
pub fn derive_auth_param(props: &CrudProps) -> (r: Option<String>)
    ensures
        opt_code(r) == auth_param_code(props@),
{
    if props.auth {
        let mut env = no_bindings();
        push_binding(&mut env, "ident", props.ident.as_str());
        Some(fill(AUTH_PARAM, &env))
    } else {
        None
    }
}

/// What the enumeration of the record's fields is filled from.
pub open spec fn field_list_env(p: CrudPropsView) -> Seq<BindingView> {
    nothing()
        .with("fields"@, joined(idents(p.fields), ", "@))
        .with("all"@, joined(each_field(p.fields, FIELD_VARIANT@, FIELD_VARIANT@, Seq::empty()), ", "@))
        .with("names"@, joined(each_field(p.fields, FIELD_NAME_ARM@, FIELD_NAME_ARM@, Seq::empty()), ", "@))
}

/// The enumeration of the record's fields.
pub open spec fn field_list_code(p: CrudPropsView) -> Seq<char> {
    filled(FIELD_LIST@, field_list_env(p))
}

/// The enumeration of the record's fields, with the selection that an
/// include list and an exclude list make from it.
pub fn derive_field_list(props: &CrudProps) -> (r: String)
    ensures
        r@ == field_list_code(props@),
{
    let none = no_bindings();
    let names = field_idents(&props.fields);
    let fields = join(&names, ", ");
    let all = join(&per_field(&props.fields, FIELD_VARIANT, FIELD_VARIANT, &none), ", ");
    let arms = join(&per_field(&props.fields, FIELD_NAME_ARM, FIELD_NAME_ARM, &none), ", ");
    let mut env = no_bindings();
    push_binding(&mut env, "fields", fields.as_str());
    push_binding(&mut env, "all", all.as_str());
    push_binding(&mut env, "names", arms.as_str());
    assert(env.deep_view() == field_list_env(props@));
    fill(FIELD_LIST, &env)
}

/// The test that keeps the attributes meant for serde.
pub open spec fn for_serde() -> spec_fn(AttributeView) -> bool {
    |a: AttributeView| a.is_ident("serde"@)
}

/// Copies of the attributes meant for serde, in order.
pub fn serde_attrs(attrs: &Vec<Attribute>) -> (r: Vec<Attribute>)
    ensures
        r.deep_view() == attrs.deep_view().filter(for_serde()),
{
    let mut out: Vec<Attribute> = Vec::new();
    let ghost all = attrs.deep_view();
    let mut i: usize = 0;
    proof {
        lemma_filter_empty(all, for_serde());
        assert(out.deep_view() =~= Seq::<AttributeView>::empty());
    }
    while i < attrs.len()
        invariant
            i <= attrs.len(),
            all == attrs.deep_view(),
            out.deep_view() == all.take(i as int).filter(for_serde()),
        decreases attrs.len() - i,
    {
        proof {
            lemma_filter_step(all, for_serde(), i as int);
            assert(all[i as int] == attrs[i as int]@);
        }
        if attrs[i].is_ident("serde") {
            let ghost before = out.deep_view();
            out.push(attrs[i].copy());
            proof {
                assert(out.deep_view() =~= before.push(attrs[i as int]@));
            }
        }
        i += 1;
    }
    proof {
        lemma_filter_empty(all, for_serde());
    }
    out
}

/// The names of the handlers in `more`, after those in `routes`.
pub fn append_routes(routes: &mut Vec<String>, more: Vec<String>)
    ensures
        texts(final(routes)@) == texts(old(routes)@) + texts(more@),
{
    let mut more = more;
    let ghost added = more@;
    routes.append(&mut more);
    proof {
        assert(texts(routes@) =~= texts(old(routes)@) + texts(added));
    }
}

/// A list of handler names.
pub fn route_list(first: &str) -> (r: Vec<String>)
    ensures
        texts(r@) == Seq::<Seq<char>>::empty().push(first@),
{
    let mut routes: Vec<String> = Vec::new();
    routes.push(String::from_str(first));
    proof {
        assert(texts(routes@) =~= Seq::<Seq<char>>::empty().push(first@));
    }
    routes
}

/// Adds a handler name after those that are there.
pub fn push_route(routes: &mut Vec<String>, name: &str)
    ensures
        texts(final(routes)@) == texts(old(routes)@).push(name@),
{
    routes.push(String::from_str(name));
    proof {
        assert(texts(routes@) =~= texts(old(routes)@).push(name@));
    }
}

} // verus!
