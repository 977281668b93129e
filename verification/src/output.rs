//! The shape of the derived declarations.
//!
//! The derivation produces two structured declarations: a trait named after
//! the input type, and an implementation of that trait for the type. Each
//! holds one member per variant: an associated constant for a field-less
//! variant, a constructor function for a variant with fields. The emitting
//! program serializes these structures into host syntax.

use vstd::prelude::*;
use crate::ast::GenericParam;
use crate::ast::GenericParamShape;

verus! {

/// One parameter of a constructor function: a binding name and the field's
/// type, the latter carried verbatim as text.
#[derive(Debug, PartialEq, Eq)]
pub struct Param {
    pub name: String,
    pub ty: String,
}

/// The mathematical shape of a constructor parameter.
#[verifier::ext_equal]
pub struct ParamShape {
    pub name: Seq<char>,
    pub ty: Seq<char>,
}

impl DeepView for Param {
    type V = ParamShape;

    open spec fn deep_view(&self) -> ParamShape {
        ParamShape { name: self.name.deep_view(), ty: self.ty.deep_view() }
    }
}

/// One member of the derived trait declaration.
#[derive(Debug, PartialEq, Eq)]
pub enum TraitMember {
    /// `const <name>: Self;` — for a variant with no fields.
    Constant { name: String },
    /// `fn <name>(<params>) -> Self;` — for a variant with fields.
    Function { name: String, params: Vec<Param> },
}

/// The mathematical shape of a trait member.
#[verifier::ext_equal]
pub enum TraitMemberShape {
    Constant { name: Seq<char> },
    Function { name: Seq<char>, params: Seq<ParamShape> },
}

impl DeepView for TraitMember {
    type V = TraitMemberShape;

    open spec fn deep_view(&self) -> TraitMemberShape {
        match self {
            TraitMember::Constant { name } => TraitMemberShape::Constant {
                name: name.deep_view(),
            },
            TraitMember::Function { name, params } => TraitMemberShape::Function {
                name: name.deep_view(),
                params: params.deep_view(),
            },
        }
    }
}

/// The body of a derived constructor function: an expression that builds
/// `<ty_name>::<variant>` by forwarding the named arguments in order,
/// with named-field syntax (`arg: arg`) when `named` holds, positional
/// syntax otherwise.
#[derive(Debug, PartialEq, Eq)]
pub struct ConstructExpr {
    pub ty_name: String,
    pub variant: String,
    pub named: bool,
    pub args: Vec<String>,
}

/// The mathematical shape of a construction expression.
#[verifier::ext_equal]
pub struct ConstructExprShape {
    pub ty_name: Seq<char>,
    pub variant: Seq<char>,
    pub named: bool,
    pub args: Seq<Seq<char>>,
}

impl DeepView for ConstructExpr {
    type V = ConstructExprShape;

    open spec fn deep_view(&self) -> ConstructExprShape {
        ConstructExprShape {
            ty_name: self.ty_name.deep_view(),
            variant: self.variant.deep_view(),
            named: self.named,
            args: self.args.deep_view(),
        }
    }
}

/// One member of the derived implementation.
#[derive(Debug, PartialEq, Eq)]
pub enum ImplMember {
    /// `const <name>: Self = Self::<name>;`
    Constant { name: String },
    /// `fn <name>(<params>) -> Self { <body> }`
    Function { name: String, params: Vec<Param>, body: ConstructExpr },
}

/// The mathematical shape of an implementation member.
#[verifier::ext_equal]
pub enum ImplMemberShape {
    Constant { name: Seq<char> },
    Function { name: Seq<char>, params: Seq<ParamShape>, body: ConstructExprShape },
}

impl DeepView for ImplMember {
    type V = ImplMemberShape;

    open spec fn deep_view(&self) -> ImplMemberShape {
        match self {
            ImplMember::Constant { name } => ImplMemberShape::Constant {
                name: name.deep_view(),
            },
            ImplMember::Function { name, params, body } => ImplMemberShape::Function {
                name: name.deep_view(),
                params: params.deep_view(),
                body: body.deep_view(),
            },
        }
    }
}

/// The derived trait declaration: named after the input type, parameterized
/// and constrained exactly as the input type is, with one member per variant.
#[derive(Debug, PartialEq, Eq)]
pub struct GeneratedTrait {
    pub name: String,
    pub generics: Vec<GenericParam>,
    pub where_clause: Option<String>,
    pub members: Vec<TraitMember>,
}

/// The mathematical shape of the derived trait.
#[verifier::ext_equal]
pub struct GeneratedTraitShape {
    pub name: Seq<char>,
    pub generics: Seq<GenericParamShape>,
    pub where_clause: Option<Seq<char>>,
    pub members: Seq<TraitMemberShape>,
}

impl DeepView for GeneratedTrait {
    type V = GeneratedTraitShape;

    open spec fn deep_view(&self) -> GeneratedTraitShape {
        GeneratedTraitShape {
            name: self.name.deep_view(),
            generics: self.generics.deep_view(),
            where_clause: self.where_clause.deep_view(),
            members: self.members.deep_view(),
        }
    }
}

/// The derived implementation of the trait for the input type. `generics`
/// carries the parameter declarations (with bounds) for the `impl` header;
/// `generic_args` carries the same parameters re-emitted as bare references,
/// for the trait and type references in that header.
#[derive(Debug, PartialEq, Eq)]
pub struct GeneratedImpl {
    pub trait_name: String,
    pub ty_name: String,
    pub generics: Vec<GenericParam>,
    pub generic_args: Vec<String>,
    pub where_clause: Option<String>,
    pub members: Vec<ImplMember>,
}

/// The mathematical shape of the derived implementation.
#[verifier::ext_equal]
pub struct GeneratedImplShape {
    pub trait_name: Seq<char>,
    pub ty_name: Seq<char>,
    pub generics: Seq<GenericParamShape>,
    pub generic_args: Seq<Seq<char>>,
    pub where_clause: Option<Seq<char>>,
    pub members: Seq<ImplMemberShape>,
}

impl DeepView for GeneratedImpl {
    type V = GeneratedImplShape;

    open spec fn deep_view(&self) -> GeneratedImplShape {
        GeneratedImplShape {
            trait_name: self.trait_name.deep_view(),
            ty_name: self.ty_name.deep_view(),
            generics: self.generics.deep_view(),
            generic_args: self.generic_args.deep_view(),
            where_clause: self.where_clause.deep_view(),
            members: self.members.deep_view(),
        }
    }
}

} // verus!
