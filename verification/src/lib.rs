//! Term model and streaming ingestion layer of an RDF-style graph toolkit.
//!
//! A [`Term`] is one of the four node kinds of a labeled graph: a resource
//! identifier (IRI), a blank node, a literal, or a pattern variable. Terms are
//! generic over how their textual payload is owned (see [`TermData`]); all
//! checked constructors validate their input against the corresponding
//! grammar, and equality compares resolved text content, never the ownership
//! strategy or the internal namespace/suffix split of an identifier.

use std::rc::Rc;
use std::sync::Arc;
use vstd::prelude::*;
use vstd::string::StringExecFns;

pub mod error;
pub mod iri;
pub mod laws;
pub mod stream;
pub mod text;

verus! {

use crate::error::TermError;
use crate::iri::Iri;
use crate::iri::IriView;
use crate::iri::Normalization;

/// Trait alias for types holding the textual data of terms.
///
/// A concrete implementation is one ownership strategy: a borrowed slice,
/// an exclusively owned buffer, a shared buffer (single-thread or
/// cross-thread), or a borrow-or-own hybrid.
pub trait TermData: Sized {
    /// The text held by this payload.
    spec fn text(&self) -> Seq<char>;

    /// View the payload as a string slice.
    fn as_str(&self) -> (r: &str)
        ensures
            r@ == self.text(),
    ;

    /// Produce an independent payload with the same text.
    fn dup(&self) -> (r: Self)
        ensures
            r.text() == self.text(),
    ;
}

/// Ownership strategies that can take their text from any string slice.
///
/// The borrowed strategy cannot (the produced payload would have to outlive
/// the slice), so this is a separate capability.
pub trait FromText: TermData {
    /// Build a payload owning a copy of `s`.
    fn of_text(s: &str) -> (r: Self)
        ensures
            r.text() == s@,
    ;
}

/// Exclusively owned buffer.
impl TermData for String {
    open spec fn text(&self) -> Seq<char> {
        self@
    }

    fn as_str(&self) -> (r: &str) {
        let r: &str = self.as_str();
        r
    }

    fn dup(&self) -> (r: Self) {
        self.clone()
    }
}

impl FromText for String {
    fn of_text(s: &str) -> (r: Self) {
        String::from_str(s)
    }
}

/// Borrowed slice: the cheapest strategy, confined to the text's lifetime.
impl<'a> TermData for &'a str {
    open spec fn text(&self) -> Seq<char> {
        (*self)@
    }

    fn as_str(&self) -> (r: &str) {
        *self
    }

    fn dup(&self) -> (r: Self) {
        *self
    }
}

/// Borrowing view over any other strategy.
impl<'a, T: TermData> TermData for &'a T {
    open spec fn text(&self) -> Seq<char> {
        (**self).text()
    }

    fn as_str(&self) -> (r: &str) {
        (**self).as_str()
    }

    fn dup(&self) -> (r: Self) {
        *self
    }
}

/// Relies on `Rc`'s `Deref`: a shared pointer hands out the very string it
/// wraps.
#[verifier::external_body]
fn rc_string_as_str(r: &Rc<String>) -> (s: &str)
    ensures
        s@ == (**r)@,
{
    (**r).as_str()
}

/// Relies on `Rc::clone`: the clone shares the same allocation, so it is the
/// same value.
#[verifier::external_body]
fn rc_string_clone(r: &Rc<String>) -> (c: Rc<String>)
    ensures
        c == *r,
{
    Rc::clone(r)
}

/// Relies on `Arc`'s `Deref`: a shared pointer hands out the very string it
/// wraps.
#[verifier::external_body]
fn arc_string_as_str(r: &Arc<String>) -> (s: &str)
    ensures
        s@ == (**r)@,
{
    (**r).as_str()
}

/// Relies on `Arc::clone`: the clone shares the same allocation, so it is the
/// same value.
#[verifier::external_body]
fn arc_string_clone(r: &Arc<String>) -> (c: Arc<String>)
    ensures
        c == *r,
{
    Arc::clone(r)
}

/// Shared, reference-counted buffer for one thread: cloning a term never
/// copies the text.
impl TermData for Rc<String> {
    open spec fn text(&self) -> Seq<char> {
        (**self)@
    }

    fn as_str(&self) -> (r: &str) {
        rc_string_as_str(self)
    }

    fn dup(&self) -> (r: Self) {
        rc_string_clone(self)
    }
}

impl FromText for Rc<String> {
    fn of_text(s: &str) -> (r: Self) {
        Rc::new(String::from_str(s))
    }
}

/// Shared, atomically reference-counted buffer: terms built on it may cross
/// thread boundaries.
impl TermData for Arc<String> {
    open spec fn text(&self) -> Seq<char> {
        (**self)@
    }

    fn as_str(&self) -> (r: &str) {
        arc_string_as_str(self)
    }

    fn dup(&self) -> (r: Self) {
        arc_string_clone(self)
    }
}

impl FromText for Arc<String> {
    fn of_text(s: &str) -> (r: Self) {
        Arc::new(String::from_str(s))
    }
}

/// Borrow-or-own hybrid: some payloads borrow their text, others own it.
#[derive(Clone, Debug)]
pub enum MaybeOwned<'a> {
    /// A payload borrowing its text.
    Borrowed(&'a str),
    /// A payload owning its text.
    Owned(String),
}

impl<'a> TermData for MaybeOwned<'a> {
    open spec fn text(&self) -> Seq<char> {
        match self {
            MaybeOwned::Borrowed(s) => (*s)@,
            MaybeOwned::Owned(s) => s@,
        }
    }

    fn as_str(&self) -> (r: &str) {
        match self {
            MaybeOwned::Borrowed(s) => *s,
            MaybeOwned::Owned(s) => s.as_str(),
        }
    }

    fn dup(&self) -> (r: Self) {
        match self {
            MaybeOwned::Borrowed(s) => MaybeOwned::Borrowed(*s),
            MaybeOwned::Owned(s) => MaybeOwned::Owned(s.clone()),
        }
    }
}

impl<'a> FromText for MaybeOwned<'a> {
    fn of_text(s: &str) -> (r: Self) {
        MaybeOwned::Owned(String::from_str(s))
    }
}

} // verus!

verus! {

/// What a literal carries besides its value: a language tag or a datatype
/// identifier. A plainly-typed literal carries the string datatype.
#[derive(Clone, Debug)]
pub enum LiteralKind<TD> {
    /// A language tag; the datatype is implicitly the language-string type.
    Lang(TD),
    /// A datatype identifier.
    Datatype(Iri<TD>),
}

/// Generic type for RDF terms: the four node kinds of a labeled graph.
///
/// A term is immutable once constructed; transformations produce new terms.
#[derive(Clone, Debug)]
pub enum Term<TD> {
    /// An IRI referencing a resource.
    Iri(Iri<TD>),
    /// A blank node: an opaque, locally scoped identifier.
    BNode(TD),
    /// A literal: a value and its language tag or datatype.
    Literal(TD, LiteralKind<TD>),
    /// A named placeholder, meaningful only in generalized graphs.
    Variable(TD),
}

/// Model of a [`LiteralKind`].
pub enum LiteralKindView {
    /// Model of a language tag.
    Lang(Seq<char>),
    /// Model of a datatype identifier.
    Datatype(IriView),
}

/// The mathematical model of a term: its kind and the text of each span.
pub enum TermView {
    /// Model of an identifier term.
    Iri(IriView),
    /// Model of a blank node term.
    BNode(Seq<char>),
    /// Model of a literal term.
    Literal(Seq<char>, LiteralKindView),
    /// Model of a variable term.
    Variable(Seq<char>),
}

impl<TD: TermData> View for LiteralKind<TD> {
    type V = LiteralKindView;

    open spec fn view(&self) -> LiteralKindView {
        match self {
            LiteralKind::Lang(l) => LiteralKindView::Lang(l.text()),
            LiteralKind::Datatype(d) => LiteralKindView::Datatype(d@),
        }
    }
}

impl<TD: TermData> View for Term<TD> {
    type V = TermView;

    open spec fn view(&self) -> TermView {
        match self {
            Term::Iri(i) => TermView::Iri(i@),
            Term::BNode(id) => TermView::BNode(id.text()),
            Term::Literal(txt, kind) => TermView::Literal(txt.text(), kind@),
            Term::Variable(n) => TermView::Variable(n.text()),
        }
    }
}

/// Structural equality of two literal kinds: language tags compare as text,
/// datatype identifiers compare resolved.
pub open spec fn kind_eq(a: LiteralKindView, b: LiteralKindView) -> bool {
    match (a, b) {
        (LiteralKindView::Lang(x), LiteralKindView::Lang(y)) => x == y,
        (LiteralKindView::Datatype(x), LiteralKindView::Datatype(y)) => x.full() == y.full(),
        _ => false,
    }
}

/// Structural equality of two terms: same kind and equal payload content,
/// with identifiers compared by their resolved text, never by their split or
/// by the ownership strategy.
pub open spec fn term_eq(a: TermView, b: TermView) -> bool {
    match (a, b) {
        (TermView::Iri(x), TermView::Iri(y)) => x.full() == y.full(),
        (TermView::BNode(x), TermView::BNode(y)) => x == y,
        (TermView::Literal(x, k1), TermView::Literal(y, k2)) => x == y && kind_eq(k1, k2),
        (TermView::Variable(x), TermView::Variable(y)) => x == y,
        _ => false,
    }
}

/// A term every checked constructor could have produced: each span meets its
/// grammar.
pub open spec fn term_wf(v: TermView) -> bool {
    match v {
        TermView::Iri(i) => i.wf(),
        TermView::BNode(id) => text::valid_bnode_id(id),
        TermView::Literal(_, LiteralKindView::Lang(l)) => text::valid_lang_tag(l),
        TermView::Literal(_, LiteralKindView::Datatype(d)) => d.wf(),
        TermView::Variable(n) => text::valid_variable_name(n),
    }
}

/// The value text of a term: the resolved identifier, the blank node id, the
/// literal's value (not its datatype or tag), or the variable name.
pub open spec fn term_value(v: TermView) -> Seq<char> {
    match v {
        TermView::Iri(i) => i.full(),
        TermView::BNode(id) => id,
        TermView::Literal(txt, _) => txt,
        TermView::Variable(n) => n,
    }
}

/// Whether a term is absolute: an identifier iff its resolved text is an
/// absolute identifier, a typed literal iff its datatype is, anything else
/// always.
pub open spec fn term_absolute(v: TermView) -> bool {
    match v {
        TermView::Iri(i) => text::is_absolute_iri(i.full()),
        TermView::Literal(_, LiteralKindView::Datatype(d)) => text::is_absolute_iri(d.full()),
        _ => true,
    }
}

/// Whether two term models have the same active variant.
pub open spec fn same_variant(a: TermView, b: TermView) -> bool {
    match (a, b) {
        (TermView::Iri(_), TermView::Iri(_)) => true,
        (TermView::BNode(_), TermView::BNode(_)) => true,
        (TermView::Literal(_, k1), TermView::Literal(_, k2)) => match (k1, k2) {
            (LiteralKindView::Lang(_), LiteralKindView::Lang(_)) => true,
            (LiteralKindView::Datatype(_), LiteralKindView::Datatype(_)) => true,
            _ => false,
        },
        (TermView::Variable(_), TermView::Variable(_)) => true,
        _ => false,
    }
}

/// Span-wise relation between two identifiers: the namespace/suffix split is
/// preserved and each span of `b` is related to the corresponding span of
/// `a`.
pub open spec fn iri_map_rel<T, U>(a: Iri<T>, b: Iri<U>, rel: spec_fn(T, U) -> bool) -> bool {
    rel(a.ns, b.ns) && match (a.suffix, b.suffix) {
        (Some(x), Some(y)) => rel(x, y),
        (None, None) => true,
        _ => false,
    }
}

/// Span-wise relation between two terms: same variant, internal splits and
/// literal kind preserved, and each payload of `b` related to the
/// corresponding payload of `a`.
pub open spec fn term_map_rel<T, U>(a: Term<T>, b: Term<U>, rel: spec_fn(T, U) -> bool) -> bool {
    match (a, b) {
        (Term::Iri(i1), Term::Iri(i2)) => iri_map_rel(i1, i2, rel),
        (Term::BNode(x), Term::BNode(y)) => rel(x, y),
        (Term::Literal(x, k1), Term::Literal(y, k2)) => rel(x, y) && match (k1, k2) {
            (LiteralKind::Lang(l1), LiteralKind::Lang(l2)) => rel(l1, l2),
            (LiteralKind::Datatype(d1), LiteralKind::Datatype(d2)) => iri_map_rel(d1, d2, rel),
            _ => false,
        },
        (Term::Variable(x), Term::Variable(y)) => rel(x, y),
        _ => false,
    }
}

/// Every payload span of `a` satisfies `pre`.
pub open spec fn term_spans_satisfy<T>(a: Term<T>, pre: spec_fn(T) -> bool) -> bool {
    match a {
        Term::Iri(i) => pre(i.ns) && (i.suffix matches Some(s) ==> pre(s)),
        Term::BNode(x) => pre(x),
        Term::Literal(x, k) => pre(x) && match k {
            LiteralKind::Lang(l) => pre(l),
            LiteralKind::Datatype(d) => pre(d.ns) && (d.suffix matches Some(s) ==> pre(s)),
        },
        Term::Variable(x) => pre(x),
    }
}

/// Whether `s` is the text of one of the model's spans.
pub open spec fn view_has_span(v: TermView, s: Seq<char>) -> bool {
    match v {
        TermView::Iri(i) => s == i.ns || (i.suffix matches Some(x) && s == x),
        TermView::BNode(x) => s == x,
        TermView::Literal(x, k) => s == x || match k {
            LiteralKindView::Lang(l) => s == l,
            LiteralKindView::Datatype(d) => s == d.ns || (d.suffix matches Some(y) && s == y),
        },
        TermView::Variable(x) => s == x,
    }
}

/// Span-wise relation between a term model and a term: same variant and
/// structure, and each span of `b` related to the text of the corresponding
/// span of `v`.
pub open spec fn view_map_rel<U>(v: TermView, b: Term<U>, rel: spec_fn(Seq<char>, U) -> bool) -> bool {
    match (v, b) {
        (TermView::Iri(i1), Term::Iri(i2)) => rel(i1.ns, i2.ns) && match (i1.suffix, i2.suffix) {
            (Some(x), Some(y)) => rel(x, y),
            (None, None) => true,
            _ => false,
        },
        (TermView::BNode(x), Term::BNode(y)) => rel(x, y),
        (TermView::Literal(x, k1), Term::Literal(y, k2)) => rel(x, y) && match (k1, k2) {
            (LiteralKindView::Lang(l1), LiteralKind::Lang(l2)) => rel(l1, l2),
            (LiteralKindView::Datatype(d1), LiteralKind::Datatype(d2)) => rel(d1.ns, d2.ns)
                && match (d1.suffix, d2.suffix) {
                (Some(x), Some(y)) => rel(x, y),
                (None, None) => true,
                _ => false,
            },
            _ => false,
        },
        (TermView::Variable(x), Term::Variable(y)) => rel(x, y),
        _ => false,
    }
}

/// How an identifier's model is canonicalized by [`Term::normalized`]: the
/// identifier spans change representation, everything else is untouched.
pub open spec fn normal_form(v: TermView, p: Normalization) -> TermView {
    match v {
        TermView::Iri(i) => TermView::Iri(iri::normal_iri(i, p)),
        TermView::Literal(txt, LiteralKindView::Datatype(d)) => TermView::Literal(
            txt,
            LiteralKindView::Datatype(iri::normal_iri(d, p)),
        ),
        _ => v,
    }
}

} // verus!

verus! {

impl<T: TermData> Term<T> {
    /// Return a new IRI term from the given text.
    ///
    /// Fails with [`TermError::MalformedIri`] iff `iri` is not a
    /// syntactically valid (absolute or relative) resource identifier.
    pub fn new_iri(iri: T) -> (r: Result<Term<T>, TermError>)
        ensures
            r is Ok <==> text::valid_iri_ref(iri.text()),
            r matches Ok(t) ==> t@ == TermView::Iri(IriView { ns: iri.text(), suffix: None })
                && term_wf(t@),
            r matches Err(e) ==> e matches TermError::MalformedIri(m) && m@ == iri.text(),
    {
        match text::check_iri_ref(iri.as_str()) {
            Some(_) => Ok(Term::Iri(Iri { ns: iri, suffix: None })),
            None => Err(TermError::MalformedIri(String::from_str(iri.as_str()))),
        }
    }

    /// Return a new IRI term from the two given parts (namespace and suffix).
    ///
    /// Fails with [`TermError::MalformedIri`] iff the concatenation of `ns`
    /// and `suffix` is not a valid identifier; the parts are never validated
    /// independently.
    pub fn new_iri_suffixed(ns: T, suffix: T) -> (r: Result<Term<T>, TermError>)
        ensures
            r is Ok <==> text::valid_iri_ref(ns.text() + suffix.text()),
            r matches Ok(t) ==> t@ == TermView::Iri(
                IriView { ns: ns.text(), suffix: Some(suffix.text()) },
            ) && term_wf(t@),
            r matches Err(e) ==> e matches TermError::MalformedIri(m) && m@ == ns.text()
                + suffix.text(),
    {
        let full = String::from_str(ns.as_str()).concat(suffix.as_str());
        match text::check_iri_ref(full.as_str()) {
            Some(_) => Ok(Term::Iri(Iri { ns, suffix: Some(suffix) })),
            None => Err(TermError::MalformedIri(full)),
        }
    }

    /// Return a new blank node term with the given node identifier.
    ///
    /// Currently this never fails: every identifier text is accepted. It
    /// returns a result for homogeneity with the other constructors, and
    /// because future grammars may be stricter.
    pub fn new_bnode(id: T) -> (r: Result<Term<T>, TermError>)
        ensures
            r matches Ok(t) && t@ == TermView::BNode(id.text()) && term_wf(t@),
    {
        Ok(Term::BNode(id))
    }

    /// Return a new literal term with the given value and language tag.
    ///
    /// Fails with [`TermError::MalformedLangTag`] iff `lang` is not a valid
    /// language tag.
    pub fn new_literal_lang(txt: T, lang: T) -> (r: Result<Term<T>, TermError>)
        ensures
            r is Ok <==> text::valid_lang_tag(lang.text()),
            r matches Ok(t) ==> t@ == TermView::Literal(
                txt.text(),
                LiteralKindView::Lang(lang.text()),
            ) && term_wf(t@),
            r matches Err(e) ==> e matches TermError::MalformedLangTag(m) && m@ == lang.text(),
    {
        if text::check_lang_tag(lang.as_str()) {
            Ok(Term::Literal(txt, LiteralKind::Lang(lang)))
        } else {
            Err(TermError::MalformedLangTag(String::from_str(lang.as_str())))
        }
    }

    /// Return a new literal term with the given value and datatype.
    ///
    /// Fails with [`TermError::MalformedIri`] iff `dt` is not a valid
    /// identifier.
    pub fn new_literal_dt(txt: T, dt: T) -> (r: Result<Term<T>, TermError>)
        ensures
            r is Ok <==> text::valid_iri_ref(dt.text()),
            r matches Ok(t) ==> t@ == TermView::Literal(
                txt.text(),
                LiteralKindView::Datatype(IriView { ns: dt.text(), suffix: None }),
            ) && term_wf(t@),
            r matches Err(e) ==> e matches TermError::MalformedIri(m) && m@ == dt.text(),
    {
        match text::check_iri_ref(dt.as_str()) {
            Some(_) => Ok(Term::Literal(txt, LiteralKind::Datatype(Iri { ns: dt, suffix: None }))),
            None => Err(TermError::MalformedIri(String::from_str(dt.as_str()))),
        }
    }

    /// Return a new variable term with the given name.
    ///
    /// Fails with [`TermError::MalformedVariableName`] iff `name` violates
    /// the variable-name grammar.
    pub fn new_variable(name: T) -> (r: Result<Term<T>, TermError>)
        ensures
            r is Ok <==> text::valid_variable_name(name.text()),
            r matches Ok(t) ==> t@ == TermView::Variable(name.text()) && term_wf(t@),
            r matches Err(e) ==> e matches TermError::MalformedVariableName(m) && m@
                == name.text(),
    {
        if text::check_variable_name(name.as_str()) {
            Ok(Term::Variable(name))
        } else {
            Err(TermError::MalformedVariableName(String::from_str(name.as_str())))
        }
    }

    /// Return a new IRI term without checking validity.
    ///
    /// The caller guarantees that `iri` is a valid identifier; a term built
    /// from invalid text will misbehave under equality and serialization,
    /// though never under this library's own contracts.
    pub fn new_iri_unchecked(iri: T) -> (r: Term<T>)
        ensures
            r@ == TermView::Iri(IriView { ns: iri.text(), suffix: None }),
    {
        Term::Iri(Iri { ns: iri, suffix: None })
    }

    /// Return a new IRI term from a namespace and a suffix, without checking
    /// that their concatenation is a valid identifier.
    pub fn new_iri_suffixed_unchecked(ns: T, suffix: T) -> (r: Term<T>)
        ensures
            r@ == TermView::Iri(IriView { ns: ns.text(), suffix: Some(suffix.text()) }),
    {
        Term::Iri(Iri { ns, suffix: Some(suffix) })
    }

    /// Return a new blank node term without checking the identifier.
    pub fn new_bnode_unchecked(id: T) -> (r: Term<T>)
        ensures
            r@ == TermView::BNode(id.text()),
    {
        Term::BNode(id)
    }

    /// Return a new language-tagged literal term without checking the tag.
    pub fn new_literal_lang_unchecked(txt: T, lang: T) -> (r: Term<T>)
        ensures
            r@ == TermView::Literal(txt.text(), LiteralKindView::Lang(lang.text())),
    {
        Term::Literal(txt, LiteralKind::Lang(lang))
    }

    /// Return a new typed literal term without checking the datatype.
    pub fn new_literal_dt_unchecked(txt: T, dt: T) -> (r: Term<T>)
        ensures
            r@ == TermView::Literal(
                txt.text(),
                LiteralKindView::Datatype(IriView { ns: dt.text(), suffix: None }),
            ),
    {
        Term::Literal(txt, LiteralKind::Datatype(Iri { ns: dt, suffix: None }))
    }

    /// Return a new variable term without checking the name.
    pub fn new_variable_unchecked(name: T) -> (r: Term<T>)
        ensures
            r@ == TermView::Variable(name.text()),
    {
        Term::Variable(name)
    }
}

} // verus!

verus! {

impl<T: TermData> Term<T> {
    /// Borrow the inner contents of the term.
    pub fn as_ref(&self) -> (r: Term<&T>)
        ensures
            r@ == self@,
    {
        match self {
            Term::Iri(i) => Term::Iri(
                Iri { ns: &i.ns, suffix: match &i.suffix {
                    Some(s) => Some(s),
                    None => None,
                } },
            ),
            Term::BNode(id) => Term::BNode(id),
            Term::Literal(txt, kind) => Term::Literal(
                txt,
                match kind {
                    LiteralKind::Lang(l) => LiteralKind::Lang(l),
                    LiteralKind::Datatype(d) => LiteralKind::Datatype(
                        Iri { ns: &d.ns, suffix: match &d.suffix {
                            Some(s) => Some(s),
                            None => None,
                        } },
                    ),
                },
            ),
            Term::Variable(n) => Term::Variable(n),
        }
    }

    /// Borrow the inner contents of the term as string slices.
    pub fn as_ref_str(&self) -> (r: Term<&str>)
        ensures
            r@ == self@,
    {
        match self {
            Term::Iri(i) => Term::Iri(
                Iri { ns: i.ns.as_str(), suffix: match &i.suffix {
                    Some(s) => Some(s.as_str()),
                    None => None,
                } },
            ),
            Term::BNode(id) => Term::BNode(id.as_str()),
            Term::Literal(txt, kind) => Term::Literal(
                txt.as_str(),
                match kind {
                    LiteralKind::Lang(l) => LiteralKind::Lang(l.as_str()),
                    LiteralKind::Datatype(d) => LiteralKind::Datatype(
                        Iri { ns: d.ns.as_str(), suffix: match &d.suffix {
                            Some(s) => Some(s.as_str()),
                            None => None,
                        } },
                    ),
                },
            ),
            Term::Variable(n) => Term::Variable(n.as_str()),
        }
    }

    /// Create a new term by applying `f` to every payload of `self`.
    ///
    /// The operation preserves the variant, the namespace/suffix splits and
    /// the literal kind, and replaces every payload by an output of `f` on
    /// it; when `f` preserves text content (every ownership conversion does),
    /// it preserves the whole model of the term.
    pub fn map<TD2: TermData, F: Fn(T) -> TD2>(self, f: F) -> (r: Term<TD2>)
        requires
            term_spans_satisfy(self, |x: T| call_requires(f, (x,))),
        ensures
            term_map_rel(self, r, |x: T, y: TD2| call_ensures(f, (x,), y)),
            same_variant(r@, self@),
            (forall|x: T, y: TD2| #[trigger] call_ensures(f, (x,), y) ==> y.text() == x.text())
                ==> r@ == self@,
    {
        match self {
            Term::Iri(i) => Term::Iri(
                Iri { ns: f(i.ns), suffix: match i.suffix {
                    Some(s) => Some(f(s)),
                    None => None,
                } },
            ),
            Term::BNode(id) => Term::BNode(f(id)),
            Term::Literal(txt, kind) => Term::Literal(
                f(txt),
                match kind {
                    LiteralKind::Lang(l) => LiteralKind::Lang(f(l)),
                    LiteralKind::Datatype(d) => LiteralKind::Datatype(
                        Iri { ns: f(d.ns), suffix: match d.suffix {
                            Some(s) => Some(f(s)),
                            None => None,
                        } },
                    ),
                },
            ),
            Term::Variable(n) => Term::Variable(f(n)),
        }
    }

    /// Convert every payload into another owning strategy: the model of the
    /// term is fully preserved.
    pub fn map_into<TD2: FromText>(self) -> (r: Term<TD2>)
        ensures
            r@ == self@,
    {
        let f = |x: T| -> (y: TD2)
            ensures
                y.text() == x.text(),
            { TD2::of_text(x.as_str()) };
        proof {
            assert(forall|x: T| #[trigger] call_requires(f, (x,)));
        }
        self.map(f)
    }

    /// Clone `self` while converting the payloads with the given factory, in
    /// one pass and without an intermediate term.
    ///
    /// The result has the same variant, splits and literal kind as `self`,
    /// and each of its payloads is an output of `factory` on the text of the
    /// corresponding span; a text-preserving factory preserves the whole
    /// model.
    pub fn clone_map<'a, U: TermData, F: Fn(&'a str) -> U>(&'a self, factory: F) -> (r: Term<U>)
        requires
            forall|x: &'a str| view_has_span(self@, x@) ==> #[trigger] call_requires(
                factory,
                (x,),
            ),
        ensures
            view_map_rel(
                self@,
                r,
                |s: Seq<char>, y: U|
                    exists|x: &'a str| x@ == s && #[trigger] call_ensures(factory, (x,), y),
            ),
            same_variant(r@, self@),
            (forall|x: &'a str, y: U| #[trigger] call_ensures(factory, (x,), y) ==> y.text() == x@)
                ==> r@ == self@,
    {
        match self {
            Term::Iri(i) => Term::Iri(
                Iri { ns: factory(i.ns.as_str()), suffix: match &i.suffix {
                    Some(s) => Some(factory(s.as_str())),
                    None => None,
                } },
            ),
            Term::BNode(id) => Term::BNode(factory(id.as_str())),
            Term::Literal(txt, kind) => Term::Literal(
                factory(txt.as_str()),
                match kind {
                    LiteralKind::Lang(l) => LiteralKind::Lang(factory(l.as_str())),
                    LiteralKind::Datatype(d) => LiteralKind::Datatype(
                        Iri { ns: factory(d.ns.as_str()), suffix: match &d.suffix {
                            Some(s) => Some(factory(s.as_str())),
                            None => None,
                        } },
                    ),
                },
            ),
            Term::Variable(n) => Term::Variable(factory(n.as_str())),
        }
    }

    /// Clone `self` into another owning strategy: the model of the term is
    /// fully preserved.
    pub fn clone_into<U: FromText>(&self) -> (r: Term<U>)
        ensures
            r@ == self@,
    {
        self.as_ref_str().map_into()
    }

    /// Return a term equivalent to this one whose identifier representation
    /// (and a typed literal's datatype representation) is canonicalized by
    /// `policy`; other payloads are borrowed unchanged.
    ///
    /// Normalization never changes equality: see
    /// [`laws::lemma_normalized_preserves_equality`](crate::laws).
    pub fn normalized(&self, policy: Normalization) -> (r: MownTerm)
        ensures
            r@ == normal_form(self@, policy),
    {
        match self {
            Term::Iri(i) => Term::Iri(iri::normalize_iri(i, policy)),
            Term::BNode(id) => Term::BNode(MaybeOwned::Borrowed(id.as_str())),
            Term::Literal(txt, kind) => Term::Literal(
                MaybeOwned::Borrowed(txt.as_str()),
                match kind {
                    LiteralKind::Lang(l) => LiteralKind::Lang(MaybeOwned::Borrowed(l.as_str())),
                    LiteralKind::Datatype(d) => LiteralKind::Datatype(
                        iri::normalize_iri(d, policy),
                    ),
                },
            ),
            Term::Variable(n) => Term::Variable(MaybeOwned::Borrowed(n.as_str())),
        }
    }

    /// Return this term's value as text: the resolved identifier, the blank
    /// node identifier, the literal's value (not its datatype or language
    /// tag), or the variable's name. Borrows whenever the representation
    /// holds the value in one span.
    pub fn value(&self) -> (r: MaybeOwned)
        ensures
            r.text() == term_value(self@),
    {
        match self {
            Term::Iri(i) => match &i.suffix {
                None => MaybeOwned::Borrowed(i.ns.as_str()),
                Some(_) => MaybeOwned::Owned(i.full_string()),
            },
            Term::BNode(id) => MaybeOwned::Borrowed(id.as_str()),
            Term::Literal(txt, _) => MaybeOwned::Borrowed(txt.as_str()),
            Term::Variable(n) => MaybeOwned::Borrowed(n.as_str()),
        }
    }

    /// Return whether this term is absolute: an IRI iff it is an absolute
    /// identifier, a typed literal iff its datatype is, any other term
    /// always.
    pub fn is_absolute(&self) -> (r: bool)
        ensures
            r == term_absolute(self@),
    {
        match self {
            Term::Iri(i) => i.is_absolute(),
            Term::Literal(_, LiteralKind::Datatype(d)) => d.is_absolute(),
            _ => true,
        }
    }

    /// Structural equality with a term of any ownership strategy: same
    /// variant and equal payload content, identifiers resolved.
    pub fn eq_term<U: TermData>(&self, other: &Term<U>) -> (r: bool)
        ensures
            r == term_eq(self@, other@),
    {
        match (self, other) {
            (Term::Iri(a), Term::Iri(b)) => a.eq_resolved(b),
            (Term::BNode(x), Term::BNode(y)) => text::str_eq(x.as_str(), y.as_str()),
            (Term::Literal(x, k1), Term::Literal(y, k2)) => text::str_eq(x.as_str(), y.as_str())
                && match (k1, k2) {
                (LiteralKind::Lang(l1), LiteralKind::Lang(l2)) => text::str_eq(
                    l1.as_str(),
                    l2.as_str(),
                ),
                (LiteralKind::Datatype(d1), LiteralKind::Datatype(d2)) => d1.eq_resolved(d2),
                _ => false,
            },
            (Term::Variable(x), Term::Variable(y)) => text::str_eq(x.as_str(), y.as_str()),
            _ => false,
        }
    }
}

/// Equality of two graph names, where `None` names the default graph.
pub open spec fn graph_name_eq(a: Option<TermView>, b: Option<TermView>) -> bool {
    match (a, b) {
        (Some(x), Some(y)) => term_eq(x, y),
        (None, None) => true,
        _ => false,
    }
}

/// The model of an optional term.
pub open spec fn opt_term_view<T: TermData>(g: Option<&Term<T>>) -> Option<TermView> {
    match g {
        Some(t) => Some(t@),
        None => None,
    }
}

/// Check the equality of two graph names (`Option<&Term>`) using possibly
/// different ownership strategies.
pub fn same_graph_name<T: TermData, U: TermData>(
    g1: Option<&Term<T>>,
    g2: Option<&Term<U>>,
) -> (r: bool)
    ensures
        r == graph_name_eq(opt_term_view(g1), opt_term_view(g2)),
{
    match (g1, g2) {
        (Some(n1), Some(n2)) => n1.eq_term(n2),
        (None, None) => true,
        _ => false,
    }
}

/// Term whose payloads are borrowed slices: for very short-lived terms.
pub type RefTerm<'a> = Term<&'a str>;

/// Borrowed term over static text: lives as long as the program runs.
pub type StaticTerm = Term<&'static str>;

/// Term owning its text exclusively: may outlive the text it was built from.
pub type StringTerm = Term<String>;

/// Term sharing its text within one thread: cheap to clone.
pub type RcTerm = Term<Rc<String>>;

/// Term sharing its text across threads.
pub type ArcTerm = Term<Arc<String>>;

/// Term that borrows some payloads and owns others.
pub type MownTerm<'a> = Term<MaybeOwned<'a>>;

} // verus!

verus! {

impl<T: TermData, U: TermData> PartialEq<Term<U>> for Term<T> {
    fn eq(&self, other: &Term<U>) -> (r: bool) {
        self.eq_term(other)
    }
}

impl<T: TermData, U: TermData> vstd::std_specs::cmp::PartialEqSpecImpl<Term<U>> for Term<T> {
    open spec fn obeys_eq_spec() -> bool {
        true
    }

    open spec fn eq_spec(&self, other: &Term<U>) -> bool {
        term_eq(self@, other@)
    }
}

} // verus!

verus! {

impl<T: TermData, U: TermData> PartialEq<Iri<U>> for Term<T> {
    fn eq(&self, other: &Iri<U>) -> (r: bool) {
        match self {
            Term::Iri(i) => i.eq_resolved(other),
            _ => false,
        }
    }
}

impl<T: TermData, U: TermData> vstd::std_specs::cmp::PartialEqSpecImpl<Iri<U>> for Term<T> {
    open spec fn obeys_eq_spec() -> bool {
        true
    }

    open spec fn eq_spec(&self, other: &Iri<U>) -> bool {
        self@ matches TermView::Iri(i) && i.full() == other@.full()
    }
}

} // verus!
