//! A plain-data picture of the parts of a struct definition that the
//! generator reads: attributes, field types down to the last path segment,
//! and the struct's own header.

use crate::text::{join, joined};
use vstd::prelude::*;

verus! {

/// An outer attribute: the path after `#[`, and everything that follows the path.
#[derive(Debug)]
pub struct Attribute {
    pub path: String,
    pub tokens: String,
}

pub struct AttributeView {
    pub path: Seq<char>,
    pub tokens: Seq<char>,
}

impl DeepView for Attribute {
    type V = AttributeView;

    open spec fn deep_view(&self) -> AttributeView {
        AttributeView { path: self.path@, tokens: self.tokens@ }
    }
}

impl View for Attribute {
    type V = AttributeView;

    open spec fn view(&self) -> AttributeView {
        self.deep_view()
    }
}

impl AttributeView {
    /// Whether the attribute's path is the single identifier `name`.
    pub open spec fn is_ident(self, name: Seq<char>) -> bool {
        self.path == name
    }

    /// The attribute as source text.
    pub open spec fn code(self) -> Seq<char> {
        "#["@ + self.path + " "@ + self.tokens + "]"@
    }
}

impl Attribute {
    /// Whether the attribute's path is the single identifier `name`.
    pub fn is_ident(&self, name: &str) -> (r: bool)
        ensures
            r == self@.is_ident(name@),
    {
        crate::text::same_text(self.path.as_str(), name)
    }

    /// The attribute as source text.
    pub fn to_code(&self) -> (r: String)
        ensures
            r@ == self@.code(),
    {
        let mut out = String::from_str("#[");
        out.append(self.path.as_str());
        out.append(" ");
        out.append(self.tokens.as_str());
        out.append("]");
        out
    }

    pub fn copy(&self) -> (r: Attribute)
        ensures
            r@ == self@,
    {
        Attribute { path: self.path.clone(), tokens: self.tokens.clone() }
    }
}

/// The source text of each attribute of `attrs`, laid end to end.
pub open spec fn attrs_code(attrs: Seq<AttributeView>) -> Seq<char>
    decreases attrs.len(),
{
    if attrs.len() == 0 {
        Seq::empty()
    } else {
        attrs_code(attrs.drop_last()) + attrs.last().code()
    }
}

pub fn attrs_to_code(attrs: &Vec<Attribute>) -> (r: String)
    ensures
        r@ == attrs_code(attrs.deep_view()),
{
    let mut out = String::new();
    let mut i: usize = 0;
    while i < attrs.len()
        invariant
            i <= attrs.len(),
            out@ == attrs_code(attrs.deep_view().take(i as int)),
        decreases attrs.len() - i,
    {
        proof {
            assert(attrs.deep_view().take(i + 1).drop_last() =~= attrs.deep_view().take(i as int));
        }
        let code = attrs[i].to_code();
        out.append(code.as_str());
        i += 1;
    }
    proof {
        assert(attrs.deep_view().take(attrs.len() as int) =~= attrs.deep_view());
    }
    out
}

pub fn copy_attrs(attrs: &Vec<Attribute>) -> (r: Vec<Attribute>)
    ensures
        r.deep_view() == attrs.deep_view(),
{
    let mut out: Vec<Attribute> = Vec::new();
    let mut i: usize = 0;
    while i < attrs.len()
        invariant
            i <= attrs.len(),
            out@.len() == i,
            forall|j: int| 0 <= j < i ==> (#[trigger] out@[j])@ == attrs@[j]@,
        decreases attrs.len() - i,
    {
        out.push(attrs[i].copy());
        i += 1;
    }
    proof {
        assert(out.deep_view() =~= attrs.deep_view());
    }
    out
}

/// One argument between `<` and `>`: its text, and whether it is a type.
#[derive(Debug)]
pub struct GenericArgument {
    pub is_type: bool,
    pub text: String,
}

pub struct GenericArgumentView {
    pub is_type: bool,
    pub text: Seq<char>,
}

impl DeepView for GenericArgument {
    type V = GenericArgumentView;

    open spec fn deep_view(&self) -> GenericArgumentView {
        GenericArgumentView { is_type: self.is_type, text: self.text@ }
    }
}

impl View for GenericArgument {
    type V = GenericArgumentView;

    open spec fn view(&self) -> GenericArgumentView {
        self.deep_view()
    }
}

/// What follows the identifier of a path segment.
#[derive(Debug)]
pub enum PathArguments {
    Empty,
    AngleBracketed(Vec<GenericArgument>),
    Parenthesized(String),
}

pub enum PathArgumentsView {
    Empty,
    AngleBracketed(Seq<GenericArgumentView>),
    Parenthesized(Seq<char>),
}

impl DeepView for PathArguments {
    type V = PathArgumentsView;

    open spec fn deep_view(&self) -> PathArgumentsView {
        match self {
            PathArguments::Empty => PathArgumentsView::Empty,
            PathArguments::AngleBracketed(args) => PathArgumentsView::AngleBracketed(
                args.deep_view(),
            ),
            PathArguments::Parenthesized(text) => PathArgumentsView::Parenthesized(text@),
        }
    }
}

impl View for PathArguments {
    type V = PathArgumentsView;

    open spec fn view(&self) -> PathArgumentsView {
        self.deep_view()
    }
}

/// The text of each argument of `args`.
pub open spec fn arg_texts(args: Seq<GenericArgumentView>) -> Seq<Seq<char>> {
    Seq::new(args.len(), |i: int| args[i].text)
}

impl PathArgumentsView {
    pub open spec fn code(self) -> Seq<char> {
        match self {
            PathArgumentsView::Empty => Seq::empty(),
            PathArgumentsView::AngleBracketed(args) => "<"@ + joined(arg_texts(args), ", "@) + ">"@,
            PathArgumentsView::Parenthesized(text) => text,
        }
    }
}

/// A type: a path, known down to its last segment, or anything else as text.
#[derive(Debug)]
pub enum Type {
    Path { qualifier: String, ident: String, arguments: PathArguments },
    Other(String),
}

pub enum TypeView {
    Path { qualifier: Seq<char>, ident: Seq<char>, arguments: PathArgumentsView },
    Other(Seq<char>),
}

impl DeepView for Type {
    type V = TypeView;

    open spec fn deep_view(&self) -> TypeView {
        match self {
            Type::Path { qualifier, ident, arguments } => TypeView::Path {
                qualifier: qualifier@,
                ident: ident@,
                arguments: arguments.deep_view(),
            },
            Type::Other(text) => TypeView::Other(text@),
        }
    }
}

impl View for Type {
    type V = TypeView;

    open spec fn view(&self) -> TypeView {
        self.deep_view()
    }
}

impl TypeView {
    /// The type as source text.
    pub open spec fn code(self) -> Seq<char> {
        match self {
            TypeView::Path { qualifier, ident, arguments } => qualifier + ident + arguments.code(),
            TypeView::Other(text) => text,
        }
    }

    /// `Option<..>` around this type.
    pub open spec fn in_option(self) -> TypeView {
        TypeView::Path {
            qualifier: Seq::empty(),
            ident: "Option"@,
            arguments: PathArgumentsView::AngleBracketed(
                seq![GenericArgumentView { is_type: true, text: self.code() }],
            ),
        }
    }

    /// The argument that makes this type an `Option` of something: the last
    /// one between the angle brackets of a last segment named `Option`, if
    /// that argument is a type.
    pub open spec fn option_arg(self) -> Option<GenericArgumentView> {
        match self {
            TypeView::Path { qualifier, ident, arguments } => match arguments {
                PathArgumentsView::AngleBracketed(args) => if ident == "Option"@ && args.len() > 0
                    && args.last().is_type {
                    Some(args.last())
                } else {
                    None
                },
                _ => None,
            },
            TypeView::Other(_) => None,
        }
    }

    pub open spec fn is_option(self) -> bool {
        self.option_arg() is Some
    }
}

impl GenericArgument {
    pub fn copy(&self) -> (r: GenericArgument)
        ensures
            r@ == self@,
    {
        GenericArgument { is_type: self.is_type, text: self.text.clone() }
    }
}

impl PathArguments {
    pub fn to_code(&self) -> (r: String)
        ensures
            r@ == self@.code(),
    {
        match self {
            PathArguments::Empty => String::new(),
            PathArguments::AngleBracketed(args) => {
                let mut parts: Vec<String> = Vec::new();
                let mut i: usize = 0;
                while i < args.len()
                    invariant
                        i <= args.len(),
                        parts@.len() == i,
                        forall|j: int| 0 <= j < i ==> (#[trigger] parts@[j])@ == args@[j].text@,
                    decreases args.len() - i,
                {
                    parts.push(args[i].text.clone());
                    i += 1;
                }
                proof {
                    assert(crate::text::texts(parts@) =~= arg_texts(args.deep_view()));
                }
                let inner = join(&parts, ", ");
                let mut out = String::from_str("<");
                out.append(inner.as_str());
                out.append(">");
                proof {
                    assert(out@ =~= self@.code());
                }
                out
            },
            PathArguments::Parenthesized(text) => text.clone(),
        }
    }

    pub fn copy(&self) -> (r: PathArguments)
        ensures
            r@ == self@,
    {
        match self {
            PathArguments::Empty => PathArguments::Empty,
            PathArguments::AngleBracketed(args) => {
                let mut out: Vec<GenericArgument> = Vec::new();
                let mut i: usize = 0;
                while i < args.len()
                    invariant
                        i <= args.len(),
                        out@.len() == i,
                        forall|j: int| 0 <= j < i ==> (#[trigger] out@[j])@ == args@[j]@,
                    decreases args.len() - i,
                {
                    out.push(args[i].copy());
                    i += 1;
                }
                proof {
                    assert(out.deep_view() =~= args.deep_view());
                }
                PathArguments::AngleBracketed(out)
            },
            PathArguments::Parenthesized(text) => PathArguments::Parenthesized(text.clone()),
        }
    }
}

impl Type {
    /// The type as source text.
    pub fn to_code(&self) -> (r: String)
        ensures
            r@ == self@.code(),
    {
        match self {
            Type::Path { qualifier, ident, arguments } => {
                let mut out = qualifier.clone();
                out.append(ident.as_str());
                let args = arguments.to_code();
                out.append(args.as_str());
                out
            },
            Type::Other(text) => text.clone(),
        }
    }

    /// `Option<..>` around this type.
    pub fn in_option(&self) -> (r: Type)
        ensures
            r@ == self@.in_option(),
    {
        let mut args: Vec<GenericArgument> = Vec::new();
        args.push(GenericArgument { is_type: true, text: self.to_code() });
        let r = Type::Path {
            qualifier: String::new(),
            ident: String::from_str("Option"),
            arguments: PathArguments::AngleBracketed(args),
        };
        proof {
            assert(args.deep_view() =~= seq![
                GenericArgumentView { is_type: true, text: self@.code() },
            ]);
        }
        r
    }

    pub fn copy(&self) -> (r: Type)
        ensures
            r@ == self@,
    {
        match self {
            Type::Path { qualifier, ident, arguments } => Type::Path {
                qualifier: qualifier.clone(),
                ident: ident.clone(),
                arguments: arguments.copy(),
            },
            Type::Other(text) => Type::Other(text.clone()),
        }
    }
}

/// A field of a struct definition.
#[derive(Debug)]
pub struct Field {
    pub attrs: Vec<Attribute>,
    pub vis: String,
    pub ident: Option<String>,
    pub ty: Type,
}

pub struct FieldView {
    pub attrs: Seq<AttributeView>,
    pub vis: Seq<char>,
    pub ident: Option<Seq<char>>,
    pub ty: TypeView,
}

impl DeepView for Field {
    type V = FieldView;

    open spec fn deep_view(&self) -> FieldView {
        FieldView {
            attrs: self.attrs.deep_view(),
            vis: self.vis@,
            ident: match self.ident {
                Some(name) => Some(name@),
                None => None,
            },
            ty: self.ty@,
        }
    }
}

impl View for Field {
    type V = FieldView;

    open spec fn view(&self) -> FieldView {
        self.deep_view()
    }
}

/// A struct definition.
#[derive(Debug)]
pub struct ItemStruct {
    pub attrs: Vec<Attribute>,
    pub vis: String,
    pub ident: String,
    pub generics: String,
    pub fields: Vec<Field>,
}

pub struct ItemStructView {
    pub attrs: Seq<AttributeView>,
    pub vis: Seq<char>,
    pub ident: Seq<char>,
    pub generics: Seq<char>,
    pub fields: Seq<FieldView>,
}

impl DeepView for ItemStruct {
    type V = ItemStructView;

    open spec fn deep_view(&self) -> ItemStructView {
        ItemStructView {
            attrs: self.attrs.deep_view(),
            vis: self.vis@,
            ident: self.ident@,
            generics: self.generics@,
            fields: self.fields.deep_view(),
        }
    }
}

impl View for ItemStruct {
    type V = ItemStructView;

    open spec fn view(&self) -> ItemStructView {
        self.deep_view()
    }
}

} // verus!
