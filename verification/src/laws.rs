//! Laws of the derivation, each proved of the derivation's specification.

use vstd::prelude::*;
use crate::ast::TypeDeclShape;
use crate::ast::VariantFieldsShape;
use crate::ast::VariantShape;
use crate::ast::field_count;
use crate::deriver::bare_ref_of;
use crate::deriver::construct_expr_of;
use crate::deriver::generated_impl_of;
use crate::deriver::generated_trait_of;
use crate::deriver::impl_member_of;
use crate::deriver::is_named;
use crate::deriver::param_at;
use crate::ident::lemma_placeholder_injective;
use crate::output::ImplMemberShape;
use crate::output::TraitMemberShape;

verus! {

/// The name of a trait member.
pub open spec fn trait_member_name(m: TraitMemberShape) -> Seq<char> {
    match m {
        TraitMemberShape::Constant { name } => name,
        TraitMemberShape::Function { name, .. } => name,
    }
}

/// The name of an implementation member.
pub open spec fn impl_member_name(m: ImplMemberShape) -> Seq<char> {
    match m {
        ImplMemberShape::Constant { name } => name,
        ImplMemberShape::Function { name, .. } => name,
    }
}

/// Shape preservation: the derived trait and the derived implementation carry
/// the input's generic parameters and where-clause verbatim, and the
/// implementation's bare generic references are exactly the input's
/// parameters re-expressed as bare references, in order.
pub proof fn lemma_shape_preservation(d: TypeDeclShape)
    ensures
        generated_trait_of(d).generics == d.generics,
        generated_trait_of(d).where_clause == d.where_clause,
        generated_impl_of(d).generics == d.generics,
        generated_impl_of(d).where_clause == d.where_clause,
        generated_impl_of(d).generic_args.len() == d.generics.len(),
        forall|i: int|
            0 <= i < d.generics.len() ==> generated_impl_of(d).generic_args[i] == bare_ref_of(
                d.generics[i],
            ),
{
}

/// Member count: the trait holds one member per variant, the implementation
/// holds one member per trait member, and each corresponding pair shares its
/// name.
pub proof fn lemma_member_count(d: TypeDeclShape)
    ensures
        generated_trait_of(d).members.len() == d.variants.len(),
        generated_impl_of(d).members.len() == generated_trait_of(d).members.len(),
        forall|i: int|
            0 <= i < d.variants.len() ==> trait_member_name(generated_trait_of(d).members[i])
                == impl_member_name(generated_impl_of(d).members[i]),
{
}

/// Kind rule: a variant with zero fields yields an associated constant, never
/// a function, in both outputs; a variant with fields yields a function whose
/// parameter count equals the field count, in both outputs.
pub proof fn lemma_kind_rule(d: TypeDeclShape)
    ensures
        forall|i: int|
            0 <= i < d.variants.len() && field_count(d.variants[i].fields) == 0 ==> (
            generated_trait_of(d).members[i] is Constant && generated_impl_of(
                d,
            ).members[i] is Constant),
        forall|i: int|
            0 <= i < d.variants.len() && field_count(d.variants[i].fields) > 0 ==> ((
            generated_trait_of(d).members[i] matches TraitMemberShape::Function { params, .. }
                && params.len() == field_count(d.variants[i].fields)) && (generated_impl_of(
                d,
            ).members[i] matches ImplMemberShape::Function { params, .. } && params.len()
                == field_count(d.variants[i].fields))),
{
}

/// Order preservation: member order equals variant declaration order — member
/// `i` bears the name of variant `i` — and parameter order within a function
/// member equals field declaration order — parameter `j` is derived from
/// field `j`.
pub proof fn lemma_order_preservation(d: TypeDeclShape)
    ensures
        forall|i: int|
            0 <= i < d.variants.len() ==> trait_member_name(generated_trait_of(d).members[i])
                == d.variants[i].name && impl_member_name(generated_impl_of(d).members[i])
                == d.variants[i].name,
        forall|i: int, j: int|
            0 <= i < d.variants.len() && 0 <= j < field_count(d.variants[i].fields) ==> (
            generated_trait_of(d).members[i] matches TraitMemberShape::Function { params, .. }
                && params[j] == #[trigger] param_at(d.variants[i].fields, j)),
{
}

/// The argument list of a construction body, evaluated under an environment
/// that binds parameter names to values.
pub open spec fn eval_args<V>(args: Seq<Seq<char>>, env: Map<Seq<char>, V>) -> Seq<V> {
    args.map(|j: int, a: Seq<char>| env[a])
}

/// Round-trip construction: the constructor function derived for a variant
/// forwards its parameters unchanged. Under any environment that binds each
/// parameter name to a value, the body's argument list evaluates to exactly
/// those values in order, and the body builds exactly that variant of the
/// type, with named-field construction exactly when the fields are named —
/// so invoking the derived constructor builds the same value as constructing
/// the variant directly.
pub proof fn lemma_round_trip<V>(
    ty_name: Seq<char>,
    v: VariantShape,
    env: Map<Seq<char>, V>,
    vals: Seq<V>,
)
    requires
        field_count(v.fields) > 0,
        vals.len() == field_count(v.fields),
        forall|j: int|
            0 <= j < vals.len() ==> env.contains_key(param_at(v.fields, j).name) && env[param_at(
                v.fields,
                j,
            ).name] == vals[j],
    ensures
        impl_member_of(ty_name, v) matches ImplMemberShape::Function { params, body, .. }
            && body.ty_name == ty_name && body.variant == v.name && body.named == is_named(v.fields)
            && body.args.len() == params.len() && eval_args(body.args, env) == vals,
{
    let body = construct_expr_of(ty_name, v);
    assert(eval_args(body.args, env) =~= vals);
}

/// A sum type with exactly one variant and zero fields derives a trait with
/// exactly one associated constant, and an implementation binding that
/// constant to the sole variant.
pub proof fn lemma_single_fieldless_variant(d: TypeDeclShape)
    requires
        d.variants.len() == 1,
        field_count(d.variants[0].fields) == 0,
    ensures
        generated_trait_of(d).members =~= seq![
            (TraitMemberShape::Constant { name: d.variants[0].name }),
        ],
        generated_impl_of(d).members =~= seq![
            (ImplMemberShape::Constant { name: d.variants[0].name }),
        ],
{
}

/// Synthesized placeholder names are a pure function of field position: the
/// parameter name at position `j` is the same in any two variants with
/// positional fields, whatever their types — so re-deriving a declaration
/// yields identical names.
pub proof fn lemma_placeholder_pure(fs1: VariantFieldsShape, fs2: VariantFieldsShape, j: int)
    requires
        !is_named(fs1),
        !is_named(fs2),
    ensures
        param_at(fs1, j).name == param_at(fs2, j).name,
{
}

/// For a variant with positional fields the synthesized parameter names are
/// pairwise distinct, so an environment as in `lemma_round_trip` exists for
/// any list of argument values.
pub proof fn lemma_positional_params_distinct(fields: VariantFieldsShape)
    requires
        !is_named(fields),
    ensures
        forall|j: int, k: int|
            0 <= j < field_count(fields) && 0 <= k < field_count(fields) && j != k ==> param_at(
                fields,
                j,
            ).name != param_at(fields, k).name,
{
    assert forall|j: int, k: int|
        0 <= j < field_count(fields) && 0 <= k < field_count(fields) && j != k implies param_at(
        fields,
        j,
    ).name != param_at(fields, k).name by {
        if param_at(fields, j).name == param_at(fields, k).name {
            lemma_placeholder_injective(j as nat, k as nat);
        }
    }
}

} // verus!
