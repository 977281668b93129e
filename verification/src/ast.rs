//! The shape of an input sum-type declaration.
//!
//! The derivation reads only this shape: the type's name, its generic
//! parameters, its optional where-clause, and its variants with their fields.
//! Bounds, types and where-clause predicates are carried verbatim as text and
//! never analysed; field lists are either named or positional, decided once
//! per variant.

use vstd::prelude::*;

verus! {

/// One generic parameter of the input type: the data needed to re-emit it
/// either as a full declaration (with its bounds) or as a bare reference.
#[derive(Debug, PartialEq, Eq)]
pub enum GenericParam {
    /// A type parameter, e.g. `T: Clone` (ident `T`, bounds `Clone`).
    Type { ident: String, bounds: Option<String> },
    /// A lifetime parameter, e.g. `'a: 'b` (lifetime `'a`, bounds `'b`).
    Lifetime { lifetime: String, bounds: Option<String> },
    /// A const parameter, e.g. `const N: usize` (ident `N`, ty `usize`).
    Const { ident: String, ty: String },
}

/// The mathematical shape of a generic parameter.
#[verifier::ext_equal]
pub enum GenericParamShape {
    Type { ident: Seq<char>, bounds: Option<Seq<char>> },
    Lifetime { lifetime: Seq<char>, bounds: Option<Seq<char>> },
    Const { ident: Seq<char>, ty: Seq<char> },
}

impl DeepView for GenericParam {
    type V = GenericParamShape;

    open spec fn deep_view(&self) -> GenericParamShape {
        match self {
            GenericParam::Type { ident, bounds } => GenericParamShape::Type {
                ident: ident.deep_view(),
                bounds: bounds.deep_view(),
            },
            GenericParam::Lifetime { lifetime, bounds } => GenericParamShape::Lifetime {
                lifetime: lifetime.deep_view(),
                bounds: bounds.deep_view(),
            },
            GenericParam::Const { ident, ty } => GenericParamShape::Const {
                ident: ident.deep_view(),
                ty: ty.deep_view(),
            },
        }
    }
}

/// One named field: its declared name and its type, the latter carried
/// verbatim as text.
#[derive(Debug, PartialEq, Eq)]
pub struct NamedField {
    pub name: String,
    pub ty: String,
}

/// The mathematical shape of a named field.
#[verifier::ext_equal]
pub struct NamedFieldShape {
    pub name: Seq<char>,
    pub ty: Seq<char>,
}

impl DeepView for NamedField {
    type V = NamedFieldShape;

    open spec fn deep_view(&self) -> NamedFieldShape {
        NamedFieldShape { name: self.name.deep_view(), ty: self.ty.deep_view() }
    }
}

/// The field list of one variant: either uniformly named or uniformly
/// positional (a positional field is just its type).
#[derive(Debug, PartialEq, Eq)]
pub enum VariantFields {
    Named(Vec<NamedField>),
    Positional(Vec<String>),
}

/// The mathematical shape of a variant's field list.
#[verifier::ext_equal]
pub enum VariantFieldsShape {
    Named(Seq<NamedFieldShape>),
    Positional(Seq<Seq<char>>),
}

impl DeepView for VariantFields {
    type V = VariantFieldsShape;

    open spec fn deep_view(&self) -> VariantFieldsShape {
        match self {
            VariantFields::Named(fields) => VariantFieldsShape::Named(fields.deep_view()),
            VariantFields::Positional(tys) => VariantFieldsShape::Positional(tys.deep_view()),
        }
    }
}

/// One labeled alternative of the sum type.
#[derive(Debug, PartialEq, Eq)]
pub struct Variant {
    pub name: String,
    pub fields: VariantFields,
}

/// The mathematical shape of a variant.
#[verifier::ext_equal]
pub struct VariantShape {
    pub name: Seq<char>,
    pub fields: VariantFieldsShape,
}

impl DeepView for Variant {
    type V = VariantShape;

    open spec fn deep_view(&self) -> VariantShape {
        VariantShape { name: self.name.deep_view(), fields: self.fields.deep_view() }
    }
}

/// The input to the derivation: the declared shape of a sum type.
#[derive(Debug, PartialEq, Eq)]
pub struct TypeDecl {
    pub name: String,
    pub generics: Vec<GenericParam>,
    pub where_clause: Option<String>,
    pub variants: Vec<Variant>,
}

/// The mathematical shape of a sum-type declaration.
#[verifier::ext_equal]
pub struct TypeDeclShape {
    pub name: Seq<char>,
    pub generics: Seq<GenericParamShape>,
    pub where_clause: Option<Seq<char>>,
    pub variants: Seq<VariantShape>,
}

impl DeepView for TypeDecl {
    type V = TypeDeclShape;

    open spec fn deep_view(&self) -> TypeDeclShape {
        TypeDeclShape {
            name: self.name.deep_view(),
            generics: self.generics.deep_view(),
            where_clause: self.where_clause.deep_view(),
            variants: self.variants.deep_view(),
        }
    }
}

/// The number of fields a variant carries; its kind (constant-like against
/// function-like) is derived from this, never stored.
pub open spec fn field_count(fields: VariantFieldsShape) -> nat {
    match fields {
        VariantFieldsShape::Named(fields) => fields.len(),
        VariantFieldsShape::Positional(tys) => tys.len(),
    }
}

} // verus!
