//! The derivation itself: from the shape of a sum-type declaration to the
//! derived trait and its implementation.
//!
//! The whole transformation is specified by `generated_trait_of` and
//! `generated_impl_of`, and `constructor_derive` is proved to return exactly
//! those shapes. Trait member and implementation member are produced by one
//! shared per-variant pass, so the two cannot drift apart.

use vstd::prelude::*;
use vstd::string::StringExecFns;
use crate::ast::GenericParam;
use crate::ast::GenericParamShape;
use crate::ast::TypeDecl;
use crate::ast::TypeDeclShape;
use crate::ast::Variant;
use crate::ast::VariantFields;
use crate::ast::VariantFieldsShape;
use crate::ast::VariantShape;
use crate::ast::field_count;
use crate::ident::placeholder;
use crate::ident::placeholder_name;
use crate::output::ConstructExpr;
use crate::output::ConstructExprShape;
use crate::output::GeneratedImpl;
use crate::output::GeneratedImplShape;
use crate::output::GeneratedTrait;
use crate::output::GeneratedTraitShape;
use crate::output::ImplMember;
use crate::output::ImplMemberShape;
use crate::output::Param;
use crate::output::ParamShape;
use crate::output::TraitMember;
use crate::output::TraitMemberShape;

verus! {

/// The name of the derived trait: the type's name with `Constructor`
/// appended.
pub open spec fn trait_name_of(ty_name: Seq<char>) -> Seq<char> {
    ty_name + "Constructor"@
}

/// A generic parameter re-expressed as a bare reference: a type or const
/// parameter by its identifier, a lifetime parameter by its lifetime.
pub open spec fn bare_ref_of(g: GenericParamShape) -> Seq<char> {
    match g {
        GenericParamShape::Type { ident, .. } => ident,
        GenericParamShape::Lifetime { lifetime, .. } => lifetime,
        GenericParamShape::Const { ident, .. } => ident,
    }
}

/// Whether a variant's fields are named (driving named-field construction
/// syntax) rather than positional.
pub open spec fn is_named(fields: VariantFieldsShape) -> bool {
    fields is Named
}

/// The constructor parameter for the field at position `j`: a named field
/// keeps its declared name, an unnamed field gets the synthesized placeholder
/// for its position; the field's type is carried verbatim.
pub open spec fn param_at(fields: VariantFieldsShape, j: int) -> ParamShape {
    match fields {
        VariantFieldsShape::Named(fields) => ParamShape {
            name: fields[j].name,
            ty: fields[j].ty,
        },
        VariantFieldsShape::Positional(tys) => ParamShape {
            name: placeholder(j as nat),
            ty: tys[j],
        },
    }
}

/// The constructor parameters of a variant, one per field, in field order.
pub open spec fn params_of(fields: VariantFieldsShape) -> Seq<ParamShape> {
    Seq::new(field_count(fields), |j: int| param_at(fields, j))
}

/// The trait member derived for one variant: an associated constant when the
/// variant has no fields, a constructor function otherwise.
pub open spec fn trait_member_of(v: VariantShape) -> TraitMemberShape {
    if field_count(v.fields) == 0 {
        TraitMemberShape::Constant { name: v.name }
    } else {
        TraitMemberShape::Function { name: v.name, params: params_of(v.fields) }
    }
}

/// The body of the derived constructor function for one variant: it builds
/// that variant of the type by forwarding every parameter, in order.
pub open spec fn construct_expr_of(ty_name: Seq<char>, v: VariantShape) -> ConstructExprShape {
    ConstructExprShape {
        ty_name: ty_name,
        variant: v.name,
        named: is_named(v.fields),
        args: Seq::new(field_count(v.fields), |j: int| param_at(v.fields, j).name),
    }
}

/// The implementation member derived for one variant; it mirrors the trait
/// member, with the constant bound to its variant and the function given its
/// forwarding body.
pub open spec fn impl_member_of(ty_name: Seq<char>, v: VariantShape) -> ImplMemberShape {
    if field_count(v.fields) == 0 {
        ImplMemberShape::Constant { name: v.name }
    } else {
        ImplMemberShape::Function {
            name: v.name,
            params: params_of(v.fields),
            body: construct_expr_of(ty_name, v),
        }
    }
}

/// The derived trait: named after the type, parameterized and constrained
/// exactly as the type is, one member per variant in declaration order.
pub open spec fn generated_trait_of(d: TypeDeclShape) -> GeneratedTraitShape {
    GeneratedTraitShape {
        name: trait_name_of(d.name),
        generics: d.generics,
        where_clause: d.where_clause,
        members: Seq::new(d.variants.len(), |i: int| trait_member_of(d.variants[i])),
    }
}

/// The derived implementation: the trait implemented for the type, with the
/// generic parameters declared as on the type and referenced bare, one member
/// per variant in declaration order.
pub open spec fn generated_impl_of(d: TypeDeclShape) -> GeneratedImplShape {
    GeneratedImplShape {
        trait_name: trait_name_of(d.name),
        ty_name: d.name,
        generics: d.generics,
        generic_args: Seq::new(d.generics.len(), |i: int| bare_ref_of(d.generics[i])),
        where_clause: d.where_clause,
        members: Seq::new(d.variants.len(), |i: int| impl_member_of(d.name, d.variants[i])),
    }
}

/// The name of the derived trait for a type named `ty_name`.
pub fn derive_trait_name(ty_name: &String) -> (r: String)
    ensures
        r@ == trait_name_of(ty_name@),
{
    let mut r: String = ty_name.clone();
    r.append("Constructor");
    r
}

/// One generic parameter re-emitted as a bare reference.
pub fn bare_ref(g: &GenericParam) -> (r: String)
    ensures
        r@ == bare_ref_of(g.deep_view()),
{
    match g {
        GenericParam::Type { ident, .. } => ident.clone(),
        GenericParam::Lifetime { lifetime, .. } => lifetime.clone(),
        GenericParam::Const { ident, .. } => ident.clone(),
    }
}

fn bare_refs(gs: &Vec<GenericParam>) -> (r: Vec<String>)
    ensures
        r.deep_view() == Seq::new(gs.deep_view().len(), |i: int| bare_ref_of(gs.deep_view()[i])),
{
    let mut r: Vec<String> = Vec::new();
    let mut i: usize = 0;
    while i < gs.len()
        invariant
            i <= gs.len(),
            r@.len() == i,
            forall|k: int| 0 <= k < i ==> r@[k]@ == bare_ref_of(gs.deep_view()[k]),
        decreases gs.len() - i,
    {
        r.push(bare_ref(&gs[i]));
        i += 1;
    }
    proof {
        assert(r.deep_view() =~= Seq::new(gs.deep_view().len(), |i: int| bare_ref_of(gs.deep_view()[i])));
    }
    r
}

fn clone_opt_string(s: &Option<String>) -> (r: Option<String>)
    ensures
        r.deep_view() == s.deep_view(),
{
    match s {
        Some(x) => Some(x.clone()),
        None => None,
    }
}

fn clone_generics(gs: &Vec<GenericParam>) -> (r: Vec<GenericParam>)
    ensures
        r.deep_view() == gs.deep_view(),
{
    let mut r: Vec<GenericParam> = Vec::new();
    let mut i: usize = 0;
    while i < gs.len()
        invariant
            i <= gs.len(),
            r@.len() == i,
            forall|k: int| 0 <= k < i ==> r@[k].deep_view() == gs.deep_view()[k],
        decreases gs.len() - i,
    {
        let g = match &gs[i] {
            GenericParam::Type { ident, bounds } => GenericParam::Type {
                ident: ident.clone(),
                bounds: clone_opt_string(bounds),
            },
            GenericParam::Lifetime { lifetime, bounds } => GenericParam::Lifetime {
                lifetime: lifetime.clone(),
                bounds: clone_opt_string(bounds),
            },
            GenericParam::Const { ident, ty } => GenericParam::Const {
                ident: ident.clone(),
                ty: ty.clone(),
            },
        };
        r.push(g);
        i += 1;
    }
    proof {
        assert(r.deep_view() =~= gs.deep_view());
    }
    r
}

fn num_fields(fields: &VariantFields) -> (n: usize)
    ensures
        n == field_count(fields.deep_view()),
{
    match fields {
        VariantFields::Named(fields) => fields.len(),
        VariantFields::Positional(tys) => tys.len(),
    }
}

fn params_for(fields: &VariantFields) -> (ps: Vec<Param>)
    ensures
        ps.deep_view() == params_of(fields.deep_view()),
{
    let mut ps: Vec<Param> = Vec::new();
    match fields {
        VariantFields::Named(fields) => {
            let mut j: usize = 0;
            while j < fields.len()
                invariant
                    j <= fields.len(),
                    ps@.len() == j,
                    forall|k: int| 0 <= k < j ==> ps@[k].deep_view() == (ParamShape {
                        name: fields.deep_view()[k].name,
                        ty: fields.deep_view()[k].ty,
                    }),
                decreases fields.len() - j,
            {
                ps.push(Param { name: fields[j].name.clone(), ty: fields[j].ty.clone() });
                j += 1;
            }
        },
        VariantFields::Positional(tys) => {
            let mut j: usize = 0;
            while j < tys.len()
                invariant
                    j <= tys.len(),
                    ps@.len() == j,
                    forall|k: int| 0 <= k < j ==> ps@[k].deep_view() == (ParamShape {
                        name: placeholder(k as nat),
                        ty: tys.deep_view()[k],
                    }),
                decreases tys.len() - j,
            {
                ps.push(Param { name: placeholder_name(j), ty: tys[j].clone() });
                j += 1;
            }
        },
    }
    proof {
        assert(ps.deep_view() =~= params_of(fields.deep_view()));
    }
    ps
}

fn clone_params(ps: &Vec<Param>) -> (r: Vec<Param>)
    ensures
        r.deep_view() == ps.deep_view(),
{
    let mut r: Vec<Param> = Vec::new();
    let mut i: usize = 0;
    while i < ps.len()
        invariant
            i <= ps.len(),
            r@.len() == i,
            forall|k: int| 0 <= k < i ==> r@[k].deep_view() == ps.deep_view()[k],
        decreases ps.len() - i,
    {
        r.push(Param { name: ps[i].name.clone(), ty: ps[i].ty.clone() });
        i += 1;
    }
    proof {
        assert(r.deep_view() =~= ps.deep_view());
    }
    r
}

fn args_for(ps: &Vec<Param>) -> (r: Vec<String>)
    ensures
        r.deep_view() == Seq::new(ps.deep_view().len(), |j: int| ps.deep_view()[j].name),
{
    let mut r: Vec<String> = Vec::new();
    let mut i: usize = 0;
    while i < ps.len()
        invariant
            i <= ps.len(),
            r@.len() == i,
            forall|k: int| 0 <= k < i ==> r@[k]@ == ps.deep_view()[k].name,
        decreases ps.len() - i,
    {
        r.push(ps[i].name.clone());
        i += 1;
    }
    proof {
        assert(r.deep_view() =~= Seq::new(ps.deep_view().len(), |j: int| ps.deep_view()[j].name));
    }
    r
}

/// Derives both members for one variant in a single pass: the trait member
/// and the implementation member that defines it.
fn members_for(ty_name: &String, v: &Variant) -> (ms: (TraitMember, ImplMember))
    ensures
        ms.0.deep_view() == trait_member_of(v.deep_view()),
        ms.1.deep_view() == impl_member_of(ty_name.deep_view(), v.deep_view()),
{
    let n = num_fields(&v.fields);
    if n == 0 {
        let tm = TraitMember::Constant { name: v.name.clone() };
        let im = ImplMember::Constant { name: v.name.clone() };
        (tm, im)
    } else {
        let params = params_for(&v.fields);
        let params_again = clone_params(&params);
        let args = args_for(&params);
        let named: bool = match &v.fields {
            VariantFields::Named(_) => true,
            VariantFields::Positional(_) => false,
        };
        let body = ConstructExpr {
            ty_name: ty_name.clone(),
            variant: v.name.clone(),
            named: named,
            args: args,
        };
        let tm = TraitMember::Function { name: v.name.clone(), params: params };
        let im = ImplMember::Function {
            name: v.name.clone(),
            params: params_again,
            body: body,
        };
        proof {
            assert(im.deep_view() =~~= impl_member_of(ty_name.deep_view(), v.deep_view()));
        }
        (tm, im)
    }
}

/// Derives the constructor trait and its implementation for `decl`.
///
/// The trait is named after the type with `Constructor` appended, carries the
/// type's generic parameters and where-clause verbatim, and holds one member
/// per variant in declaration order: an associated constant for a field-less
/// variant, otherwise a constructor function with one parameter per field in
/// field order. The implementation mirrors the trait member for member: each
/// constant is bound to its variant, and each function builds its variant by
/// forwarding every parameter, in order, with named-field construction
/// exactly when the variant's fields are named.
pub fn constructor_derive(decl: &TypeDecl) -> (out: (GeneratedTrait, GeneratedImpl))
    ensures
        out.0.deep_view() == generated_trait_of(decl.deep_view()),
        out.1.deep_view() == generated_impl_of(decl.deep_view()),
{
    let trait_name = derive_trait_name(&decl.name);
    let mut trait_members: Vec<TraitMember> = Vec::new();
    let mut impl_members: Vec<ImplMember> = Vec::new();
    let mut i: usize = 0;
    while i < decl.variants.len()
        invariant
            i <= decl.variants.len(),
            trait_members@.len() == i,
            impl_members@.len() == i,
            forall|k: int| 0 <= k < i ==> trait_members@[k].deep_view() == trait_member_of(
                decl.variants@[k].deep_view(),
            ),
            forall|k: int| 0 <= k < i ==> impl_members@[k].deep_view() == impl_member_of(
                decl.name.deep_view(),
                decl.variants@[k].deep_view(),
            ),
        decreases decl.variants.len() - i,
    {
        let (tm, im) = members_for(&decl.name, &decl.variants[i]);
        trait_members.push(tm);
        impl_members.push(im);
        i += 1;
    }
    let generic_args = bare_refs(&decl.generics);
    let gt = GeneratedTrait {
        name: trait_name.clone(),
        generics: clone_generics(&decl.generics),
        where_clause: clone_opt_string(&decl.where_clause),
        members: trait_members,
    };
    let gi = GeneratedImpl {
        trait_name: trait_name,
        ty_name: decl.name.clone(),
        generics: clone_generics(&decl.generics),
        generic_args: generic_args,
        where_clause: clone_opt_string(&decl.where_clause),
        members: impl_members,
    };
    proof {
        assert(gt.deep_view() =~~= generated_trait_of(decl.deep_view()));
        assert(gi.deep_view() =~~= generated_impl_of(decl.deep_view()));
    }
    (gt, gi)
}

} // verus!
