//! Laws of the term model, stated over the models that the executable
//! functions' contracts use and proved once and for all.

use vstd::prelude::*;

verus! {

use crate::LiteralKindView;
use crate::TermView;
use crate::iri;
use crate::iri::IriView;
use crate::iri::Normalization;
use crate::kind_eq;
use crate::normal_form;
use crate::same_variant;
use crate::term_eq;
use crate::term_wf;

/// Structural term equality is reflexive.
pub proof fn lemma_term_eq_reflexive(a: TermView)
    ensures
        term_eq(a, a),
{
    match a {
        TermView::Literal(_, k) => {
            match k {
                LiteralKindView::Lang(_) => {},
                LiteralKindView::Datatype(_) => {},
            }
        },
        _ => {},
    }
}

/// Structural term equality is symmetric.
pub proof fn lemma_term_eq_symmetric(a: TermView, b: TermView)
    ensures
        term_eq(a, b) == term_eq(b, a),
{
}

/// Structural term equality is transitive.
pub proof fn lemma_term_eq_transitive(a: TermView, b: TermView, c: TermView)
    requires
        term_eq(a, b),
        term_eq(b, c),
    ensures
        term_eq(a, c),
{
}

/// Two terms with the same model are interchangeable: ownership
/// transformation (`map_into`, `clone_into`), which preserves the model,
/// therefore never changes a term's variant, its equality against the
/// original, or its validity.
pub proof fn lemma_same_model_same_behavior(a: TermView, b: TermView)
    requires
        a == b,
    ensures
        same_variant(a, b),
        term_eq(a, b),
        term_wf(a) <==> term_wf(b),
{
    lemma_term_eq_reflexive(a);
}

/// Normalization is idempotent: applying `normalized` twice with the same
/// policy returns a byte-for-byte identical representation.
pub proof fn lemma_normalized_idempotent(v: TermView, p: Normalization)
    ensures
        normal_form(normal_form(v, p), p) == normal_form(v, p),
{
    match v {
        TermView::Iri(i) => {
            iri::lemma_normal_iri_idempotent(i, p);
        },
        TermView::Literal(_, LiteralKindView::Datatype(d)) => {
            iri::lemma_normal_iri_idempotent(d, p);
        },
        _ => {},
    }
}

/// Normalization never changes an equality outcome: two terms are equal after
/// normalization (under any two policies) iff they were equal before.
pub proof fn lemma_normalized_preserves_equality(
    a: TermView,
    b: TermView,
    p: Normalization,
    q: Normalization,
)
    ensures
        term_eq(normal_form(a, p), normal_form(b, q)) == term_eq(a, b),
{
    match a {
        TermView::Iri(i) => {
            iri::lemma_normal_iri_full(i, p);
        },
        TermView::Literal(_, LiteralKindView::Datatype(d)) => {
            iri::lemma_normal_iri_full(d, p);
        },
        _ => {},
    }
    match b {
        TermView::Iri(i) => {
            iri::lemma_normal_iri_full(i, q);
        },
        TermView::Literal(_, LiteralKindView::Datatype(d)) => {
            iri::lemma_normal_iri_full(d, q);
        },
        _ => {},
    }
}

/// Normalization also never changes a term's validity.
pub proof fn lemma_normalized_preserves_validity(v: TermView, p: Normalization)
    ensures
        term_wf(normal_form(v, p)) == term_wf(v),
{
    match v {
        TermView::Iri(i) => {
            iri::lemma_normal_iri_full(i, p);
        },
        TermView::Literal(_, LiteralKindView::Datatype(d)) => {
            iri::lemma_normal_iri_full(d, p);
        },
        _ => {},
    }
}

/// A language-tagged literal is never equal to a typed literal, whatever the
/// value and the datatype.
pub proof fn lemma_lang_literal_differs_from_typed(
    txt1: Seq<char>,
    lang: Seq<char>,
    txt2: Seq<char>,
    dt: IriView,
)
    ensures
        !term_eq(
            TermView::Literal(txt1, LiteralKindView::Lang(lang)),
            TermView::Literal(txt2, LiteralKindView::Datatype(dt)),
        ),
{
}

/// An identifier built from a namespace and a suffix is equal to the
/// identifier built from their concatenation in one span.
pub proof fn lemma_suffixed_equals_concatenated(ns: Seq<char>, suffix: Seq<char>)
    ensures
        term_eq(
            TermView::Iri(IriView { ns: ns, suffix: Some(suffix) }),
            TermView::Iri(IriView { ns: ns + suffix, suffix: None }),
        ),
{
}

} // verus!
