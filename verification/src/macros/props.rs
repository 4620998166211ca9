//! What the generator knows about one record type: its fields, each with the
//! markers it carried, and the names of everything that will be generated.

use crate::macros::error::Error;
use crate::macros::model::{
    attrs_code, attrs_to_code, copy_attrs, Attribute, AttributeView, Field, FieldView,
    GenericArgument, ItemStruct, ItemStructView, PathArguments, Type, TypeView,
};
use crate::text::{lemma_filter_empty, lemma_filter_step, same_text};
use vstd::prelude::*;

verus! {

/// The default of a switch that is on unless it is turned off.
pub fn enabled() -> (r: bool)
    ensures
        r,
{
    true
}

/// The last argument between the angle brackets of a type whose last
/// segment is `Option`, if that argument is a type.
pub fn option_ty_arg(ty: &Type) -> (r: Option<&GenericArgument>)
    ensures
        match r {
            Some(arg) => ty@.option_arg() == Some(arg@),
            None => ty@.option_arg() is None,
        },
{
    match ty {
        Type::Path { qualifier, ident, arguments } => match arguments {
            PathArguments::AngleBracketed(args) => {
                if same_text(ident.as_str(), "Option") && args.len() > 0 {
                    let last = &args[args.len() - 1];
                    proof {
                        assert(args.deep_view().last() == last@);
                    }
                    if last.is_type {
                        Some(last)
                    } else {
                        None
                    }
                } else {
                    None
                }
            },
            _ => None,
        },
        Type::Other(_) => None,
    }
}

/// Whether a type is an `Option` of something.
pub fn is_option_ty(ty: &Type) -> (r: bool)
    ensures
        r == ty@.is_option(),
{
    option_ty_arg(ty).is_some()
}

/// Whether an attribute is one of the generator's own field markers.
pub open spec fn is_marker(a: AttributeView) -> bool {
    a.is_ident("generated"@) || a.is_ident("primary_key"@) || a.is_ident("not_sortable"@)
        || a.is_ident("not_filterable"@)
}

/// The test that keeps the attributes that are not markers.
pub open spec fn unmarked() -> spec_fn(AttributeView) -> bool {
    |a: AttributeView| !is_marker(a)
}

/// Whether some attribute of `attrs` is the single identifier `name`.
pub open spec fn has_attr(attrs: Seq<AttributeView>, name: Seq<char>) -> bool {
    exists|i: int| 0 <= i < attrs.len() && (#[trigger] attrs[i]).is_ident(name)
}

/// The attribute that lets an absent value be told from an explicit null.
pub open spec fn double_option_attr() -> AttributeView {
    AttributeView {
        path: "serde"@,
        tokens: "(default, deserialize_with = \"::rp1::helper::double_option\")"@,
    }
}

/// A field of the record, with what its markers said of it.
#[derive(Debug)]
pub struct CrudField {
    pub ident: String,
    pub vis: String,
    pub ty: Type,
    pub attrs: Vec<Attribute>,
    pub is_generated: bool,
    pub is_primary_key: bool,
    pub is_sortable: bool,
    pub is_filterable: bool,
    pub is_option: bool,
}

pub struct CrudFieldView {
    pub ident: Seq<char>,
    pub vis: Seq<char>,
    pub ty: TypeView,
    pub attrs: Seq<AttributeView>,
    pub is_generated: bool,
    pub is_primary_key: bool,
    pub is_sortable: bool,
    pub is_filterable: bool,
    pub is_option: bool,
}

impl DeepView for CrudField {
    type V = CrudFieldView;

    open spec fn deep_view(&self) -> CrudFieldView {
        CrudFieldView {
            ident: self.ident@,
            vis: self.vis@,
            ty: self.ty@,
            attrs: self.attrs.deep_view(),
            is_generated: self.is_generated,
            is_primary_key: self.is_primary_key,
            is_sortable: self.is_sortable,
            is_filterable: self.is_filterable,
            is_option: self.is_option,
        }
    }
}

impl View for CrudField {
    type V = CrudFieldView;

    open spec fn view(&self) -> CrudFieldView {
        self.deep_view()
    }
}

/// What a named field becomes; nothing for a field without a name.
pub open spec fn crud_field_of(f: FieldView) -> Option<CrudFieldView> {
    match f.ident {
        None => None,
        Some(ident) => Some(
            CrudFieldView {
                ident,
                vis: f.vis,
                ty: f.ty,
                attrs: f.attrs.filter(unmarked()),
                is_generated: has_attr(f.attrs, "generated"@),
                is_primary_key: has_attr(f.attrs, "primary_key"@),
                is_sortable: !has_attr(f.attrs, "not_sortable"@),
                is_filterable: !has_attr(f.attrs, "not_filterable"@),
                is_option: f.ty.is_option(),
            },
        ),
    }
}

impl CrudFieldView {
    /// The field as it stands in a struct body.
    pub open spec fn code(self) -> Seq<char> {
        attrs_code(self.attrs) + self.vis + " "@ + self.ident + ": "@ + self.ty.code()
    }

    /// The field as it stands in the type that carries a partial update:
    /// optional, and, where it was optional already, able to tell an absent
    /// value from a null.
    pub open spec fn as_update_field(self) -> CrudFieldView {
        CrudFieldView {
            ty: self.ty.in_option(),
            attrs: if self.is_option {
                self.attrs.push(double_option_attr())
            } else {
                self.attrs
            },
            ..self
        }
    }

    /// The field with its type made optional, unless it is so already.
    pub open spec fn ensure_option(self) -> CrudFieldView {
        if self.is_option {
            self
        } else {
            CrudFieldView { ty: self.ty.in_option(), ..self }
        }
    }

    /// The field with its type wrapped in one more `Option`.
    pub open spec fn with_wrapped_option(self) -> CrudFieldView {
        CrudFieldView { ty: self.ty.in_option(), ..self }
    }

    /// Whether the caller of an endpoint supplies this field.
    pub open spec fn user_supplied(self) -> bool {
        !self.is_generated && !self.is_primary_key
    }
}

impl CrudField {
    /// Reads a field of the struct definition: notes its markers and takes
    /// them off. A field without a name is turned down.
    pub fn try_from(value: &Field) -> (r: Result<CrudField, Error>)
        ensures
            match r {
                Ok(field) => crud_field_of(value@) == Some(field@),
                Err(e) => crud_field_of(value@) is None && e is UnnamedFieldsNotSupported,
            },
    {
        let ident = match &value.ident {
            Some(name) => name.clone(),
            None => {
                return Err(Error::UnnamedFieldsNotSupported);
            },
        };
        let mut is_generated = false;
        let mut is_primary_key = false;
        let mut is_sortable = true;
        let mut is_filterable = true;
        let mut attrs: Vec<Attribute> = Vec::new();
        let ghost all = value.attrs.deep_view();
        let mut i: usize = 0;
        proof {
            lemma_filter_empty(all, unmarked());
        }
        while i < value.attrs.len()
            invariant
                i <= value.attrs.len(),
                all == value.attrs.deep_view(),
                is_generated == has_attr(all.take(i as int), "generated"@),
                is_primary_key == has_attr(all.take(i as int), "primary_key"@),
                is_sortable == !has_attr(all.take(i as int), "not_sortable"@),
                is_filterable == !has_attr(all.take(i as int), "not_filterable"@),
                attrs.deep_view() == all.take(i as int).filter(unmarked()),
            decreases value.attrs.len() - i,
        {
            let attr = &value.attrs[i];
            let generated = attr.is_ident("generated");
            let primary_key = attr.is_ident("primary_key");
            let not_sortable = attr.is_ident("not_sortable");
            let not_filterable = attr.is_ident("not_filterable");
            proof {
                lemma_has_attr_step(all, "generated"@, i as int);
                lemma_has_attr_step(all, "primary_key"@, i as int);
                lemma_has_attr_step(all, "not_sortable"@, i as int);
                lemma_has_attr_step(all, "not_filterable"@, i as int);
                lemma_filter_step(all, unmarked(), i as int);
                assert(all[i as int] == attr@);
            }
            if generated {
                is_generated = true;
            }
            if primary_key {
                is_primary_key = true;
            }
            if not_sortable {
                is_sortable = false;
            }
            if not_filterable {
                is_filterable = false;
            }
            if !generated && !primary_key && !not_sortable && !not_filterable {
                let ghost before = attrs.deep_view();
                attrs.push(attr.copy());
                proof {
                    assert(attrs.deep_view() =~= before.push(attr@));
                }
            }
            i += 1;
        }
        proof {
            lemma_filter_empty(all, unmarked());
        }
        let is_option = is_option_ty(&value.ty);
        Ok(
            CrudField {
                ident,
                vis: value.vis.clone(),
                ty: value.ty.copy(),
                attrs,
                is_generated,
                is_primary_key,
                is_sortable,
                is_filterable,
                is_option,
            },
        )
    }

    pub fn copy(&self) -> (r: CrudField)
        ensures
            r@ == self@,
    {
        CrudField {
            ident: self.ident.clone(),
            vis: self.vis.clone(),
            ty: self.ty.copy(),
            attrs: copy_attrs(&self.attrs),
            is_generated: self.is_generated,
            is_primary_key: self.is_primary_key,
            is_sortable: self.is_sortable,
            is_filterable: self.is_filterable,
            is_option: self.is_option,
        }
    }

    /// The field as it stands in the type that carries a partial update.
    pub fn as_update_field(&self) -> (r: CrudField)
        ensures
            r@ == self@.as_update_field(),
    {
        let mut cloned = self.copy();
        if self.is_option {
            let attr = Attribute {
                path: String::from_str("serde"),
                tokens: String::from_str(
                    "(default, deserialize_with = \"::rp1::helper::double_option\")",
                ),
            };
            let ghost before = cloned.attrs.deep_view();
            cloned.attrs.push(attr);
            proof {
                assert(cloned.attrs.deep_view() =~= before.push(double_option_attr()));
            }
        }
        cloned.ty = self.ty.in_option();
        cloned
    }

    /// The field with its type made optional, unless it is so already.
    pub fn ensure_option(&self) -> (r: CrudField)
        ensures
            r@ == self@.ensure_option(),
    {
        let mut cloned = self.copy();
        if !self.is_option {
            cloned.ty = self.ty.in_option();
        }
        cloned
    }

    /// The field with its type wrapped in one more `Option`.
    pub fn with_wrapped_option(&self) -> (r: CrudField)
        ensures
            r@ == self@.with_wrapped_option(),
    {
        let mut cloned = self.copy();
        cloned.ty = self.ty.in_option();
        cloned
    }

    /// The field as it stands in a struct body.
    pub fn to_code(&self) -> (r: String)
        ensures
            r@ == self@.code(),
    {
        let mut out = attrs_to_code(&self.attrs);
        out.append(self.vis.as_str());
        out.append(" ");
        out.append(self.ident.as_str());
        out.append(": ");
        let ty = self.ty.to_code();
        out.append(ty.as_str());
        out
    }
}

/// The ways in which the generator picks fields out of a record.
#[derive(Debug, Clone, Copy)]
pub enum FieldClass {
    Sortable,
    Filterable,
    UserSupplied,
    NotUserSupplied,
    PrimaryKey,
}

impl FieldClass {
    /// Whether a field belongs to the class.
    pub open spec fn admits(self, f: CrudFieldView) -> bool {
        match self {
            FieldClass::Sortable => f.is_sortable,
            FieldClass::Filterable => f.is_filterable,
            FieldClass::UserSupplied => f.user_supplied(),
            FieldClass::NotUserSupplied => !f.user_supplied(),
            FieldClass::PrimaryKey => f.is_primary_key,
        }
    }

    /// The class as a test on fields.
    pub open spec fn test(self) -> spec_fn(CrudFieldView) -> bool {
        |f: CrudFieldView| self.admits(f)
    }

    /// Whether a field belongs to the class.
    pub fn holds(self, f: &CrudField) -> (r: bool)
        ensures
            r == self.admits(f@),
    {
        match self {
            FieldClass::Sortable => f.is_sortable,
            FieldClass::Filterable => f.is_filterable,
            FieldClass::UserSupplied => !f.is_generated && !f.is_primary_key,
            FieldClass::NotUserSupplied => f.is_generated || f.is_primary_key,
            FieldClass::PrimaryKey => f.is_primary_key,
        }
    }
}

/// The fields of a class, in the order of the record.
pub open spec fn fields_of(fields: Seq<CrudFieldView>, class: FieldClass) -> Seq<CrudFieldView> {
    fields.filter(class.test())
}

/// Each field as it stands in the type that carries a partial update.
pub open spec fn update_fields(fields: Seq<CrudFieldView>) -> Seq<CrudFieldView> {
    Seq::new(fields.len(), |i: int| fields[i].as_update_field())
}

/// The name of each field.
pub open spec fn idents(fields: Seq<CrudFieldView>) -> Seq<Seq<char>> {
    Seq::new(fields.len(), |i: int| fields[i].ident)
}

/// Each field as it stands in a struct body.
pub open spec fn field_codes(fields: Seq<CrudFieldView>) -> Seq<Seq<char>> {
    Seq::new(fields.len(), |i: int| fields[i].code())
}

/// Copies of the fields of a class, in the order of the record.
pub fn select(fields: &Vec<CrudField>, class: FieldClass) -> (r: Vec<CrudField>)
    ensures
        r.deep_view() == fields_of(fields.deep_view(), class),
{
    let mut out: Vec<CrudField> = Vec::new();
    let ghost all = fields.deep_view();
    let mut i: usize = 0;
    proof {
        lemma_filter_empty(all, class.test());
        assert(out.deep_view() =~= Seq::<CrudFieldView>::empty());
    }
    while i < fields.len()
        invariant
            i <= fields.len(),
            all == fields.deep_view(),
            out.deep_view() == all.take(i as int).filter(class.test()),
        decreases fields.len() - i,
    {
        proof {
            lemma_filter_step(all, class.test(), i as int);
            assert(all[i as int] == fields[i as int]@);
        }
        if class.holds(&fields[i]) {
            let ghost before = out.deep_view();
            out.push(fields[i].copy());
            proof {
                assert(out.deep_view() =~= before.push(fields[i as int]@));
            }
        }
        i += 1;
    }
    proof {
        lemma_filter_empty(all, class.test());
    }
    out
}

/// The name of each field, in order.
pub fn field_idents(fields: &Vec<CrudField>) -> (r: Vec<String>)
    ensures
        crate::text::texts(r@) == idents(fields.deep_view()),
{
    let mut out: Vec<String> = Vec::new();
    let mut i: usize = 0;
    while i < fields.len()
        invariant
            i <= fields.len(),
            out@.len() == i,
            forall|j: int| 0 <= j < i ==> (#[trigger] out@[j])@ == fields@[j].ident@,
        decreases fields.len() - i,
    {
        out.push(fields[i].ident.clone());
        i += 1;
    }
    proof {
        assert(crate::text::texts(out@) =~= idents(fields.deep_view()));
    }
    out
}

/// Each field as it stands in a struct body, in order.
pub fn field_code_list(fields: &Vec<CrudField>) -> (r: Vec<String>)
    ensures
        crate::text::texts(r@) == field_codes(fields.deep_view()),
{
    let mut out: Vec<String> = Vec::new();
    let mut i: usize = 0;
    while i < fields.len()
        invariant
            i <= fields.len(),
            out@.len() == i,
            forall|j: int| 0 <= j < i ==> (#[trigger] out@[j])@ == fields@[j]@.code(),
        decreases fields.len() - i,
    {
        out.push(fields[i].to_code());
        i += 1;
    }
    proof {
        assert(crate::text::texts(out@) =~= field_codes(fields.deep_view()));
    }
    out
}

/// The snake-case form that the Inflector crate gives a name.
pub uninterp spec fn snake_case(name: Seq<char>) -> Seq<char>;

/// Calls `inflector::cases::snakecase::to_snake_case`. Nothing is claimed of
/// the result but that it is that function's value on these characters.
#[verifier::external_body]
fn to_snake_case(name: &str) -> (r: String)
    ensures
        r@ == snake_case(name@),
{
    inflector::cases::snakecase::to_snake_case(name)
}

/// `first` followed by `second`.
fn glue(first: &str, second: &str) -> (r: String)
    ensures
        r@ == first@ + second@,
{
    let mut out = String::from_str(first);
    out.append(second);
    out
}

/// The arguments of the attribute, as its user wrote them.
#[derive(Debug)]
pub struct CrudPropsBuilder {
    pub database_struct: String,
    pub schema_path: Option<String>,
    pub create: bool,
    pub read: bool,
    pub update: bool,
    pub delete: bool,
    pub list: bool,
    pub module_name: Option<String>,
    pub table_name: Option<String>,
    pub max_limit: Option<i64>,
    pub auth: bool,
    pub partials: bool,
    pub validation: bool,
}

pub struct CrudPropsBuilderView {
    pub database_struct: Seq<char>,
    pub schema_path: Option<Seq<char>>,
    pub create: bool,
    pub read: bool,
    pub update: bool,
    pub delete: bool,
    pub list: bool,
    pub module_name: Option<Seq<char>>,
    pub table_name: Option<Seq<char>>,
    pub max_limit: Option<i64>,
    pub auth: bool,
    pub partials: bool,
    pub validation: bool,
}

/// The contents of an optional string.
pub open spec fn opt_text(s: Option<String>) -> Option<Seq<char>> {
    match s {
        Some(text) => Some(text@),
        None => None,
    }
}

impl DeepView for CrudPropsBuilder {
    type V = CrudPropsBuilderView;

    open spec fn deep_view(&self) -> CrudPropsBuilderView {
        CrudPropsBuilderView {
            database_struct: self.database_struct@,
            schema_path: opt_text(self.schema_path),
            create: self.create,
            read: self.read,
            update: self.update,
            delete: self.delete,
            list: self.list,
            module_name: opt_text(self.module_name),
            table_name: opt_text(self.table_name),
            max_limit: self.max_limit,
            auth: self.auth,
            partials: self.partials,
            validation: self.validation,
        }
    }
}

impl View for CrudPropsBuilder {
    type V = CrudPropsBuilderView;

    open spec fn view(&self) -> CrudPropsBuilderView {
        self.deep_view()
    }
}

/// Everything the templates need to know about one record type.
#[derive(Debug)]
pub struct CrudProps {
    pub item: ItemStruct,
    pub database_struct: String,
    pub schema_path: String,
    pub create: bool,
    pub read: bool,
    pub update: bool,
    pub delete: bool,
    pub list: bool,
    pub module_name: String,
    pub ident: String,
    pub new_ident: String,
    pub update_ident: String,
    pub patch_ident: String,
    pub put_ident: String,
    pub filter_ident: String,
    pub partial_ident: String,
    pub partial_output_ident: String,
    pub table_name: String,
    pub primary_type: Type,
    pub max_limit: i64,
    pub original_visibility: String,
    pub fields: Vec<CrudField>,
    pub auth: bool,
    pub partials: bool,
    pub validation: bool,
}

pub struct CrudPropsView {
    pub item: ItemStructView,
    pub database_struct: Seq<char>,
    pub schema_path: Seq<char>,
    pub create: bool,
    pub read: bool,
    pub update: bool,
    pub delete: bool,
    pub list: bool,
    pub module_name: Seq<char>,
    pub ident: Seq<char>,
    pub new_ident: Seq<char>,
    pub update_ident: Seq<char>,
    pub patch_ident: Seq<char>,
    pub put_ident: Seq<char>,
    pub filter_ident: Seq<char>,
    pub partial_ident: Seq<char>,
    pub partial_output_ident: Seq<char>,
    pub table_name: Seq<char>,
    pub primary_type: TypeView,
    pub max_limit: i64,
    pub original_visibility: Seq<char>,
    pub fields: Seq<CrudFieldView>,
    pub auth: bool,
    pub partials: bool,
    pub validation: bool,
}

impl DeepView for CrudProps {
    type V = CrudPropsView;

    open spec fn deep_view(&self) -> CrudPropsView {
        CrudPropsView {
            item: self.item@,
            database_struct: self.database_struct@,
            schema_path: self.schema_path@,
            create: self.create,
            read: self.read,
            update: self.update,
            delete: self.delete,
            list: self.list,
            module_name: self.module_name@,
            ident: self.ident@,
            new_ident: self.new_ident@,
            update_ident: self.update_ident@,
            patch_ident: self.patch_ident@,
            put_ident: self.put_ident@,
            filter_ident: self.filter_ident@,
            partial_ident: self.partial_ident@,
            partial_output_ident: self.partial_output_ident@,
            table_name: self.table_name@,
            primary_type: self.primary_type@,
            max_limit: self.max_limit,
            original_visibility: self.original_visibility@,
            fields: self.fields.deep_view(),
            auth: self.auth,
            partials: self.partials,
            validation: self.validation,
        }
    }
}

impl View for CrudProps {
    type V = CrudPropsView;

    open spec fn view(&self) -> CrudPropsView {
        self.deep_view()
    }
}

/// What the fields of a struct definition become, if each has a name.
pub open spec fn crud_fields_of(fields: Seq<FieldView>) -> Option<Seq<CrudFieldView>> {
    if forall|i: int| 0 <= i < fields.len() ==> (#[trigger] fields[i]).ident is Some {
        Some(Seq::new(fields.len(), |i: int| crud_field_of(fields[i])->Some_0))
    } else {
        None
    }
}

/// The limit on the size of a page where the attribute names none.
pub const DEFAULT_MAX_LIMIT: i64 = 100;

/// The properties that the arguments `b` and the struct definition `item`
/// give, or the reason why they give none.
pub open spec fn built(b: CrudPropsBuilderView, item: ItemStructView) -> Result<
    CrudPropsView,
    Error,
> {
    match crud_fields_of(item.fields) {
        None => Err(Error::UnnamedFieldsNotSupported),
        Some(fields) => {
            let keys = fields_of(fields, FieldClass::PrimaryKey);
            if keys.len() == 0 {
                Err(Error::MissingPrimaryKey)
            } else if keys.len() > 1 {
                Err(Error::AggregatePrimaryKeyNotSupported)
            } else {
                Ok(
                    CrudPropsView {
                        item: ItemStructView { vis: "pub"@, ..item },
                        database_struct: b.database_struct,
                        schema_path: match b.schema_path {
                            Some(path) => path,
                            None => "crate::schema"@,
                        },
                        create: b.create,
                        read: b.read,
                        update: b.update,
                        delete: b.delete,
                        list: b.list,
                        module_name: match b.module_name {
                            Some(name) => name,
                            None => snake_case(item.ident),
                        },
                        ident: item.ident,
                        new_ident: "New"@ + item.ident,
                        update_ident: "Update"@ + item.ident,
                        patch_ident: "Patch"@ + item.ident,
                        put_ident: "Put"@ + item.ident,
                        filter_ident: item.ident + "FilterSpec"@,
                        partial_ident: "Partial"@ + item.ident,
                        partial_output_ident: "Partial"@ + item.ident + "Output"@,
                        table_name: match b.table_name {
                            Some(name) => name,
                            None => snake_case(item.ident),
                        },
                        primary_type: keys[0].ty,
                        max_limit: match b.max_limit {
                            Some(limit) => limit,
                            None => DEFAULT_MAX_LIMIT,
                        },
                        original_visibility: item.vis,
                        fields,
                        auth: b.auth,
                        partials: b.partials,
                        validation: b.validation,
                    },
                )
            }
        },
    }
}

impl CrudPropsBuilder {
    /// Reads the struct definition and fills in every name that the
    /// arguments left open. Turns down a struct with a field that has no
    /// name, then one with no primary key, then one with several.
    pub fn build(self, item: ItemStruct) -> (r: Result<CrudProps, Error>)
        ensures
            match r {
                Ok(props) => built(self@, item@) == Ok::<CrudPropsView, Error>(props@),
                Err(e) => built(self@, item@) == Err::<CrudPropsView, Error>(e),
            },
    {
        let ghost given = item@;
        let mut kept = item;
        let mut fields: Vec<CrudField> = Vec::new();
        let mut i: usize = 0;
        while i < kept.fields.len()
            invariant
                i <= kept.fields.len(),
                kept@ == given,
                item@ == given,
                fields@.len() == i,
                forall|j: int| 0 <= j < i ==> crud_field_of(given.fields[j]) == Some((#[trigger] fields@[j])@),
            decreases kept.fields.len() - i,
        {
            proof {
                assert(given.fields[i as int] == kept.fields[i as int]@);
            }
            match CrudField::try_from(&kept.fields[i]) {
                Ok(field) => {
                    fields.push(field);
                },
                Err(e) => {
                    proof {
                        assert(given.fields[i as int].ident is None);
                    }
                    return Err(Error::UnnamedFieldsNotSupported);
                },
            }
            i += 1;
        }
        proof {
            assert forall|j: int| 0 <= j < given.fields.len() implies (#[trigger] given.fields[j]).ident is Some by {
                assert(crud_field_of(given.fields[j]) == Some(fields@[j]@));
            }
            assert(fields.deep_view() =~= crud_fields_of(given.fields)->Some_0);
        }
        let keys = select(&fields, FieldClass::PrimaryKey);
        if keys.len() == 0 {
            return Err(Error::MissingPrimaryKey);
        } else if keys.len() > 1 {
            return Err(Error::AggregatePrimaryKeyNotSupported);
        }
        let primary_type = keys[0].ty.copy();
        proof {
            assert(keys.deep_view()[0] == keys[0]@);
        }
        let original_visibility = kept.vis.clone();
        kept.vis = String::from_str("pub");
        let schema_path = match self.schema_path {
            Some(path) => path,
            None => String::from_str("crate::schema"),
        };
        let module_name = match self.module_name {
            Some(name) => name,
            None => to_snake_case(kept.ident.as_str()),
        };
        let table_name = match self.table_name {
            Some(name) => name,
            None => to_snake_case(kept.ident.as_str()),
        };
        let max_limit = match self.max_limit {
            Some(limit) => limit,
            None => DEFAULT_MAX_LIMIT,
        };
        let mut partial_output_ident = glue("Partial", kept.ident.as_str());
        partial_output_ident.append("Output");
        Ok(
            CrudProps {
                database_struct: self.database_struct,
                schema_path,
                ident: kept.ident.clone(),
                new_ident: glue("New", kept.ident.as_str()),
                update_ident: glue("Update", kept.ident.as_str()),
                patch_ident: glue("Patch", kept.ident.as_str()),
                put_ident: glue("Put", kept.ident.as_str()),
                filter_ident: glue(kept.ident.as_str(), "FilterSpec"),
                partial_ident: glue("Partial", kept.ident.as_str()),
                partial_output_ident,
                module_name,
                create: self.create,
                read: self.read,
                list: self.list,
                update: self.update,
                delete: self.delete,
                table_name,
                max_limit,
                primary_type,
                original_visibility,
                fields,
                item: kept,
                auth: self.auth,
                partials: self.partials,
                validation: self.validation,
            },
        )
    }
}

impl CrudPropsView {
    /// Whether these properties are such as `build` gives: a single primary
    /// key, whose type is the key type.
    pub open spec fn well_formed(self) -> bool {
        let keys = fields_of(self.fields, FieldClass::PrimaryKey);
        keys.len() == 1 && keys[0].ty == self.primary_type
    }
}

impl CrudProps {
    /// The fields by which a list may be ordered.
    pub fn sortable_fields(&self) -> (r: Vec<CrudField>)
        ensures
            r.deep_view() == fields_of(self@.fields, FieldClass::Sortable),
    {
        select(&self.fields, FieldClass::Sortable)
    }

    /// The fields by which a list may be narrowed.
    pub fn filterable_fields(&self) -> (r: Vec<CrudField>)
        ensures
            r.deep_view() == fields_of(self@.fields, FieldClass::Filterable),
    {
        select(&self.fields, FieldClass::Filterable)
    }

    /// The fields that the caller of an endpoint supplies: those neither
    /// generated nor the primary key.
    pub fn user_supplied_fields(&self) -> (r: Vec<CrudField>)
        ensures
            r.deep_view() == fields_of(self@.fields, FieldClass::UserSupplied),
    {
        select(&self.fields, FieldClass::UserSupplied)
    }

    /// The fields that the caller of an endpoint cannot set.
    pub fn non_user_supplied_fields(&self) -> (r: Vec<CrudField>)
        ensures
            r.deep_view() == fields_of(self@.fields, FieldClass::NotUserSupplied),
    {
        select(&self.fields, FieldClass::NotUserSupplied)
    }

    /// The user-supplied fields as they stand in the type that carries a
    /// partial update.
    pub fn updatable_fields(&self) -> (r: Vec<CrudField>)
        ensures
            r.deep_view() == update_fields(fields_of(self@.fields, FieldClass::UserSupplied)),
    {
        let user = self.user_supplied_fields();
        let mut out: Vec<CrudField> = Vec::new();
        let mut i: usize = 0;
        while i < user.len()
            invariant
                i <= user.len(),
                out@.len() == i,
                forall|j: int| 0 <= j < i ==> (#[trigger] out@[j])@ == user@[j]@.as_update_field(),
            decreases user.len() - i,
        {
            out.push(user[i].as_update_field());
            i += 1;
        }
        proof {
            assert(out.deep_view() =~= update_fields(user.deep_view()));
        }
        out
    }

    /// The fields of the type that carries a partial update.
    pub fn patch_fields(&self) -> (r: Vec<CrudField>)
        ensures
            r.deep_view() == update_fields(fields_of(self@.fields, FieldClass::UserSupplied)),
    {
        self.updatable_fields()
    }

    /// The fields of the type that carries a full replacement: all of them.
    pub fn put_fields(&self) -> (r: Vec<CrudField>)
        ensures
            r.deep_view() == self@.fields,
    {
        let mut out: Vec<CrudField> = Vec::new();
        let mut i: usize = 0;
        while i < self.fields.len()
            invariant
                i <= self.fields.len(),
                out@.len() == i,
                forall|j: int| 0 <= j < i ==> (#[trigger] out@[j])@ == self.fields@[j]@,
            decreases self.fields.len() - i,
        {
            out.push(self.fields[i].copy());
            i += 1;
        }
        proof {
            assert(out.deep_view() =~= self.fields.deep_view());
        }
        out
    }
}

/// Properties that `build` gives have exactly one primary key, and its type
/// is the key type.
pub proof fn lemma_built_well_formed(b: CrudPropsBuilderView, item: ItemStructView)
    requires
        built(b, item) is Ok,
    ensures
        built(b, item)->Ok_0.well_formed(),
{
}

/// A field that the caller supplies is neither generated nor the key, and the
/// two classes part the record between them.
pub proof fn lemma_classes_part(fields: Seq<CrudFieldView>)
    ensures
        fields_of(fields, FieldClass::UserSupplied).len() + fields_of(
            fields,
            FieldClass::NotUserSupplied,
        ).len() == fields.len(),
        forall|i: int|
            0 <= i < fields_of(fields, FieldClass::UserSupplied).len() ==> {
                let f = #[trigger] fields_of(fields, FieldClass::UserSupplied)[i];
                !f.is_generated && !f.is_primary_key
            },
    decreases fields.len(),
{
    reveal(Seq::filter);
    let user = FieldClass::UserSupplied.test();
    let other = FieldClass::NotUserSupplied.test();
    if fields.len() > 0 {
        lemma_classes_part(fields.drop_last());
    }
    assert forall|i: int| 0 <= i < fields.filter(user).len() implies {
        let f = #[trigger] fields.filter(user)[i];
        !f.is_generated && !f.is_primary_key
    } by {
        fields.lemma_filter_pred(user, i);
    }
}

/// A field of the type that carries a partial update is optional, whatever
/// it was; so is a field with one more `Option` around it, and a field that
/// was made optional where it was not.
pub proof fn lemma_update_field_is_optional(f: CrudFieldView)
    ensures
        f.as_update_field().ty.is_option(),
        f.with_wrapped_option().ty.is_option(),
        f.is_option == f.ty.is_option() ==> f.ensure_option().ty.is_option(),
{
    let args = seq![
        crate::macros::model::GenericArgumentView { is_type: true, text: f.ty.code() },
    ];
    assert(args.last().is_type);
}

/// Looking one attribute further: the name is there if it was there before
/// or the new attribute bears it.
pub proof fn lemma_has_attr_step(attrs: Seq<AttributeView>, name: Seq<char>, i: int)
    requires
        0 <= i < attrs.len(),
    ensures
        has_attr(attrs.take(i + 1), name) == (has_attr(attrs.take(i), name) || attrs[i].is_ident(
            name,
        )),
        !has_attr(attrs.take(0), name),
        attrs.take(attrs.len() as int) == attrs,
{
    let shorter = attrs.take(i);
    let longer = attrs.take(i + 1);
    if has_attr(shorter, name) {
        let k = choose|k: int| 0 <= k < shorter.len() && (#[trigger] shorter[k]).is_ident(name);
        assert(longer[k].is_ident(name));
    }
    if attrs[i].is_ident(name) {
        assert(longer[i].is_ident(name));
    }
    if has_attr(longer, name) {
        let k = choose|k: int| 0 <= k < longer.len() && (#[trigger] longer[k]).is_ident(name);
        if k < i {
            assert(shorter[k].is_ident(name));
        }
    }
    assert(attrs.take(attrs.len() as int) =~= attrs);
}

} // verus!
