//! Ingestion pipeline: an adapter that turns an external parser's event
//! stream into validated [`Term`] triples and feeds them to a sink.
//!
//! The external parser itself lives outside this library; what reaches the
//! adapter is its output as plain values: an [`EventStream`] of foreign node
//! events, optionally ended by the parser's native failure, or an
//! initialization failure captured before any event was produced.

use vstd::prelude::*;

verus! {

use crate::RefTerm;
use crate::Term;
use crate::TermView;
use crate::error::TermError;
use crate::text;

/// One foreign node value, as an external parser reports it.
#[derive(Clone, Debug)]
pub enum NodeEvent {
    /// A named node carrying an identifier.
    NamedNode {
        /// The identifier text.
        iri: String,
    },
    /// A blank node carrying a local identifier.
    BlankNode {
        /// The local identifier text.
        id: String,
    },
    /// A literal with neither language tag nor datatype: it gets the string
    /// datatype.
    LiteralSimple {
        /// The literal value.
        value: String,
    },
    /// A language-tagged literal.
    LiteralLang {
        /// The literal value.
        value: String,
        /// The language tag.
        language: String,
    },
    /// A literal with an explicit datatype.
    LiteralTyped {
        /// The literal value.
        value: String,
        /// The datatype identifier text.
        datatype: String,
    },
}

/// One foreign triple event: three node positions.
#[derive(Clone, Debug)]
pub struct TripleEvent {
    /// The subject position.
    pub subject: NodeEvent,
    /// The predicate position.
    pub predicate: NodeEvent,
    /// The object position.
    pub object: NodeEvent,
}

/// The string datatype assigned to plain literals.
pub open spec fn xsd_string() -> Seq<char> {
    "http://www.w3.org/2001/XMLSchema#string"@
}

/// The string datatype is a valid identifier.
pub proof fn lemma_xsd_string_valid()
    ensures
        text::valid_iri_ref(xsd_string()),
        text::is_absolute_iri(xsd_string()),
{
    reveal_strlit("http://www.w3.org/2001/XMLSchema#string");
    let s = xsd_string();
    assert(text::iri_chars_ok_from(s, 0)) by {
        reveal_with_fuel(text::iri_chars_ok_from, 41);
    }
    assert(text::first_seg_delim_from(s, 0) == 4) by {
        reveal_with_fuel(text::first_seg_delim_from, 6);
    }
    assert(text::scheme_chars_ok_from(s.take(4), 1)) by {
        reveal_with_fuel(text::scheme_chars_ok_from, 5);
    }
}

/// Whether the validating conversion accepts a foreign node.
pub open spec fn event_ok(e: NodeEvent) -> bool {
    match e {
        NodeEvent::NamedNode { iri } => text::valid_iri_ref(iri@),
        NodeEvent::BlankNode { id } => text::valid_bnode_id(id@),
        NodeEvent::LiteralSimple { value } => true,
        NodeEvent::LiteralLang { value, language } => text::valid_lang_tag(language@),
        NodeEvent::LiteralTyped { value, datatype } => text::valid_iri_ref(datatype@),
    }
}

/// The model of the term that the validating conversion produces.
pub open spec fn event_term(e: NodeEvent) -> TermView {
    match e {
        NodeEvent::NamedNode { iri } => TermView::Iri(
            crate::iri::IriView { ns: iri@, suffix: None },
        ),
        NodeEvent::BlankNode { id } => TermView::BNode(id@),
        NodeEvent::LiteralSimple { value } => TermView::Literal(
            value@,
            crate::LiteralKindView::Datatype(
                crate::iri::IriView { ns: xsd_string(), suffix: None },
            ),
        ),
        NodeEvent::LiteralLang { value, language } => TermView::Literal(
            value@,
            crate::LiteralKindView::Lang(language@),
        ),
        NodeEvent::LiteralTyped { value, datatype } => TermView::Literal(
            value@,
            crate::LiteralKindView::Datatype(
                crate::iri::IriView { ns: datatype@, suffix: None },
            ),
        ),
    }
}

/// Whether `te` is the error the validating conversion reports for `e`.
pub open spec fn node_error_for(e: NodeEvent, te: TermError) -> bool {
    match e {
        NodeEvent::NamedNode { iri } => te matches TermError::MalformedIri(m) && m@ == iri@,
        NodeEvent::BlankNode { id } => false,
        NodeEvent::LiteralSimple { value } => false,
        NodeEvent::LiteralLang { value, language } => te matches TermError::MalformedLangTag(m)
            && m@ == language@,
        NodeEvent::LiteralTyped { value, datatype } => te matches TermError::MalformedIri(m)
            && m@ == datatype@,
    }
}

/// Convert one foreign node event into a term borrowing the event's text.
///
/// Succeeds iff the node passes validation; the error names the offending
/// text exactly as the checked constructors do.
pub fn rio2refterm(e: &NodeEvent) -> (r: Result<RefTerm<'_>, TermError>)
    ensures
        r is Ok <==> event_ok(*e),
        r matches Ok(t) ==> t@ == event_term(*e),
        r matches Err(te) ==> node_error_for(*e, te),
{
    match e {
        NodeEvent::NamedNode { iri } => RefTerm::new_iri(iri.as_str()),
        NodeEvent::BlankNode { id } => RefTerm::new_bnode(id.as_str()),
        NodeEvent::LiteralSimple { value } => {
            proof {
                lemma_xsd_string_valid();
            }
            RefTerm::new_literal_dt(value.as_str(), "http://www.w3.org/2001/XMLSchema#string")
        },
        NodeEvent::LiteralLang { value, language } => RefTerm::new_literal_lang(
            value.as_str(),
            language.as_str(),
        ),
        NodeEvent::LiteralTyped { value, datatype } => RefTerm::new_literal_dt(
            value.as_str(),
            datatype.as_str(),
        ),
    }
}

/// Convert one foreign node event into a term owning its text.
pub fn rio2boxterm(e: &NodeEvent) -> (r: Result<Term<String>, TermError>)
    ensures
        r is Ok <==> event_ok(*e),
        r matches Ok(t) ==> t@ == event_term(*e),
        r matches Err(te) ==> node_error_for(*e, te),
{
    match rio2refterm(e) {
        Ok(t) => Ok(t.clone_into()),
        Err(te) => Err(te),
    }
}

} // verus!

verus! {

/// A consumer of term triples: accepts one triple at a time, fallibly, and
/// finally yields an outcome, fallibly.
///
/// A sink is driven by exactly one pipeline run; items arrive in the order
/// the external parser produced them.
pub trait TripleSink {
    /// What a successful run yields.
    type Outcome;

    /// The sink's own failure type, kept apart from the pipeline's.
    type Error;

    /// Accept one triple; rejecting it aborts the run.
    fn feed(&mut self, t: &[RefTerm<'_>; 3]) -> Result<(), Self::Error>;

    /// Finalize and yield the outcome of the run.
    fn finish(&mut self) -> Result<Self::Outcome, Self::Error>;
}

/// What an external parser produced, as plain values: the triples it
/// delivered, and its native failure if it aborted after them.
#[derive(Clone, Debug)]
pub struct EventStream<PE> {
    /// The delivered triple events, in production order.
    pub triples: Vec<TripleEvent>,
    /// The parser's native failure, if it aborted after `triples`.
    pub terminal: Option<PE>,
}

/// Triple source adapting an external parser.
///
/// Either a live, not yet consumed event stream, or the captured failure of a
/// parser that could not even be initialized; the captured failure can be
/// taken exactly once.
#[derive(Clone, Debug)]
pub enum RioSource<PE, IE> {
    /// A successfully initialized parser's output, not yet consumed.
    Parser(EventStream<PE>),
    /// An exhausted source: at most one captured initialization failure.
    Error(Option<IE>),
}

/// The pipeline's native error: every failure a run can surface besides the
/// sink's own.
#[derive(Clone, Debug)]
pub enum SourceError<PE, IE> {
    /// The external parser aborted with its native failure.
    Parser(PE),
    /// A foreign node failed the validating conversion.
    Term(TermError),
    /// The captured initialization failure, surfaced once.
    Init(IE),
    /// The source was driven again after it had already failed or finished.
    AlreadyExhausted,
}

/// A failure of a pipeline run, tagged with the side that produced it, so
/// that neither error type needs to contain the other.
#[derive(Clone, Debug)]
pub enum StreamError<E1, E2> {
    /// The pipeline's own side failed: parsing, conversion, or reuse.
    SourceSide(E1),
    /// The sink rejected an item or failed to finalize.
    SinkSide(E2),
}

/// The result of a pipeline run: the sink's outcome, or exactly one failure.
pub type CoercedResult<O, E1, E2> = Result<O, StreamError<E1, E2>>;

/// Every triple of the stream passes the validating conversion.
pub open spec fn all_triples_ok(ts: Seq<TripleEvent>) -> bool {
    forall|i: int| 0 <= i < ts.len() ==> triple_ok(#[trigger] ts[i])
}

/// All three node positions pass the validating conversion.
pub open spec fn triple_ok(t: TripleEvent) -> bool {
    event_ok(t.subject) && event_ok(t.predicate) && event_ok(t.object)
}

/// Whether `te` is the error reported for the first failing node of `t`.
pub open spec fn triple_error_for(t: TripleEvent, te: TermError) -> bool {
    if !event_ok(t.subject) {
        node_error_for(t.subject, te)
    } else if !event_ok(t.predicate) {
        node_error_for(t.predicate, te)
    } else {
        node_error_for(t.object, te)
    }
}

impl<PE, IE> RioSource<PE, IE> {
    /// Wrap an external parser's initialization result: a parser that failed
    /// to initialize starts exhausted, holding that failure.
    pub fn from_init(res: Result<EventStream<PE>, IE>) -> (r: Self)
        ensures
            res matches Ok(stream) ==> r == RioSource::<PE, IE>::Parser(stream),
            res matches Err(e) ==> r == RioSource::<PE, IE>::Error(Some(e)),
    {
        match res {
            Ok(parser) => RioSource::Parser(parser),
            Err(error) => RioSource::Error(Some(error)),
        }
    }

    /// Drive the whole stream into `sink`: convert every node of every triple
    /// (aborting on the first conversion failure), feed each converted triple
    /// to the sink (aborting on the first rejection), surface the parser's
    /// terminal failure if it aborted, and otherwise yield the sink's
    /// outcome.
    ///
    /// Whatever happens, the source is left exhausted: a second run returns
    /// the `AlreadyExhausted` error, and a captured initialization failure is
    /// surfaced at most once.
    pub fn in_sink<TS: TripleSink>(&mut self, sink: &mut TS) -> (r: CoercedResult<
        TS::Outcome,
        SourceError<PE, IE>,
        TS::Error,
    >)
        ensures
            *final(self) matches RioSource::Error(None),
            *old(self) matches RioSource::Error(None) ==> r matches Err(
                StreamError::SourceSide(SourceError::AlreadyExhausted),
            ),
            *old(self) matches RioSource::Error(Some(e)) ==> r matches Err(
                StreamError::SourceSide(SourceError::Init(e2)),
            ) && e2 == e,
            *old(self) matches RioSource::Error(_) ==> *final(sink) == *old(sink),
            *old(self) matches RioSource::Parser(stream) ==> {
                &&& r is Ok ==> all_triples_ok(stream.triples@) && stream.terminal is None
                &&& r matches Err(StreamError::SourceSide(SourceError::Parser(pe))) ==> stream.terminal
                    matches Some(pe0) && pe == pe0 && all_triples_ok(stream.triples@)
                &&& r matches Err(StreamError::SourceSide(SourceError::Term(te))) ==> exists|
                    i: int,
                |
                    0 <= i < stream.triples@.len() && !triple_ok(#[trigger] stream.triples@[i])
                        && triple_error_for(stream.triples@[i], te) && (forall|j: int|
                        0 <= j < i ==> triple_ok(#[trigger] stream.triples@[j]))
                &&& stream.triples@.len() > 0 && !triple_ok(stream.triples@[0]) ==> (r matches Err(
                    StreamError::SourceSide(SourceError::Term(te0)),
                ) && triple_error_for(stream.triples@[0], te0))
                &&& !(r matches Err(StreamError::SourceSide(SourceError::Init(_))))
                &&& !(r matches Err(StreamError::SourceSide(SourceError::AlreadyExhausted)))
            },
    {
        let mut taken: RioSource<PE, IE> = RioSource::Error(None);
        core::mem::swap(self, &mut taken);
        match taken {
            RioSource::Error(opt) => match opt {
                Some(e) => Err(StreamError::SourceSide(SourceError::Init(e))),
                None => Err(StreamError::SourceSide(SourceError::AlreadyExhausted)),
            },
            RioSource::Parser(stream) => {
                let n = stream.triples.len();
                let mut i: usize = 0;
                while i < n
                    invariant
                        0 <= i <= n,
                        n == stream.triples@.len(),
                        *self matches RioSource::Error(None),
                        *old(self) == RioSource::<PE, IE>::Parser(stream),
                        forall|j: int| 0 <= j < i ==> triple_ok(#[trigger] stream.triples@[j]),
                    decreases n - i,
                {
                    let t = &stream.triples[i];
                    let s = match rio2refterm(&t.subject) {
                        Ok(x) => x,
                        Err(te) => {
                            return Err(StreamError::SourceSide(SourceError::Term(te)));
                        },
                    };
                    let p = match rio2refterm(&t.predicate) {
                        Ok(x) => x,
                        Err(te) => {
                            return Err(StreamError::SourceSide(SourceError::Term(te)));
                        },
                    };
                    let o = match rio2refterm(&t.object) {
                        Ok(x) => x,
                        Err(te) => {
                            return Err(StreamError::SourceSide(SourceError::Term(te)));
                        },
                    };
                    match sink.feed(&[s, p, o]) {
                        Ok(_) => {},
                        Err(se) => {
                            return Err(StreamError::SinkSide(se));
                        },
                    }
                    i = i + 1;
                }
                match stream.terminal {
                    Some(pe) => Err(StreamError::SourceSide(SourceError::Parser(pe))),
                    None => match sink.finish() {
                        Ok(outcome) => Ok(outcome),
                        Err(se) => Err(StreamError::SinkSide(se)),
                    },
                }
            },
        }
    }
}

} // verus!

verus! {

/// One foreign quad event: three node positions and an optional graph name.
#[derive(Clone, Debug)]
pub struct QuadEvent {
    /// The subject position.
    pub subject: NodeEvent,
    /// The predicate position.
    pub predicate: NodeEvent,
    /// The object position.
    pub object: NodeEvent,
    /// The graph name, absent for the default graph.
    pub graph_name: Option<NodeEvent>,
}

/// All node positions of a quad pass the validating conversion.
pub open spec fn quad_ok(q: QuadEvent) -> bool {
    event_ok(q.subject) && event_ok(q.predicate) && event_ok(q.object) && match q.graph_name {
        Some(g) => event_ok(g),
        None => true,
    }
}

/// Every quad of the stream passes the validating conversion.
pub open spec fn all_quads_ok(qs: Seq<QuadEvent>) -> bool {
    forall|i: int| 0 <= i < qs.len() ==> quad_ok(#[trigger] qs[i])
}

/// Whether `te` is the error reported for the first failing node of `q`.
pub open spec fn quad_error_for(q: QuadEvent, te: TermError) -> bool {
    if !event_ok(q.subject) {
        node_error_for(q.subject, te)
    } else if !event_ok(q.predicate) {
        node_error_for(q.predicate, te)
    } else if !event_ok(q.object) {
        node_error_for(q.object, te)
    } else {
        match q.graph_name {
            Some(g) => node_error_for(g, te),
            None => false,
        }
    }
}

/// A consumer of term quads, driven exactly as a [`TripleSink`] is.
pub trait QuadSink {
    /// What a successful run yields.
    type Outcome;

    /// The sink's own failure type, kept apart from the pipeline's.
    type Error;

    /// Accept one quad; rejecting it aborts the run.
    fn feed(&mut self, q: &([RefTerm<'_>; 3], Option<RefTerm<'_>>)) -> Result<(), Self::Error>;

    /// Finalize and yield the outcome of the run.
    fn finish(&mut self) -> Result<Self::Outcome, Self::Error>;
}

/// What an external quad parser produced, as plain values.
#[derive(Clone, Debug)]
pub struct QuadEventStream<PE> {
    /// The delivered quad events, in production order.
    pub quads: Vec<QuadEvent>,
    /// The parser's native failure, if it aborted after `quads`.
    pub terminal: Option<PE>,
}

/// Quad source adapting an external parser; the counterpart of [`RioSource`]
/// for quad events.
#[derive(Clone, Debug)]
pub enum RioQuadSource<PE, IE> {
    /// A successfully initialized parser's output, not yet consumed.
    Parser(QuadEventStream<PE>),
    /// An exhausted source: at most one captured initialization failure.
    Error(Option<IE>),
}

impl<PE, IE> RioQuadSource<PE, IE> {
    /// Wrap an external parser's initialization result.
    pub fn from_init(res: Result<QuadEventStream<PE>, IE>) -> (r: Self)
        ensures
            res matches Ok(stream) ==> r == RioQuadSource::<PE, IE>::Parser(stream),
            res matches Err(e) ==> r == RioQuadSource::<PE, IE>::Error(Some(e)),
    {
        match res {
            Ok(parser) => RioQuadSource::Parser(parser),
            Err(error) => RioQuadSource::Error(Some(error)),
        }
    }

    /// Drive the whole stream into `sink`, exactly as
    /// [`RioSource::in_sink`] does for triples, converting the graph name as
    /// a fourth position when it is present.
    pub fn in_sink<QS: QuadSink>(&mut self, sink: &mut QS) -> (r: CoercedResult<
        QS::Outcome,
        SourceError<PE, IE>,
        QS::Error,
    >)
        ensures
            *final(self) matches RioQuadSource::Error(None),
            *old(self) matches RioQuadSource::Error(None) ==> r matches Err(
                StreamError::SourceSide(SourceError::AlreadyExhausted),
            ),
            *old(self) matches RioQuadSource::Error(Some(e)) ==> r matches Err(
                StreamError::SourceSide(SourceError::Init(e2)),
            ) && e2 == e,
            *old(self) matches RioQuadSource::Error(_) ==> *final(sink) == *old(sink),
            *old(self) matches RioQuadSource::Parser(stream) ==> {
                &&& r is Ok ==> all_quads_ok(stream.quads@) && stream.terminal is None
                &&& r matches Err(StreamError::SourceSide(SourceError::Parser(pe))) ==> stream.terminal
                    matches Some(pe0) && pe == pe0 && all_quads_ok(stream.quads@)
                &&& r matches Err(StreamError::SourceSide(SourceError::Term(te))) ==> exists|
                    i: int,
                |
                    0 <= i < stream.quads@.len() && !quad_ok(#[trigger] stream.quads@[i])
                        && quad_error_for(stream.quads@[i], te) && (forall|j: int|
                        0 <= j < i ==> quad_ok(#[trigger] stream.quads@[j]))
                &&& stream.quads@.len() > 0 && !quad_ok(stream.quads@[0]) ==> (r matches Err(
                    StreamError::SourceSide(SourceError::Term(te0)),
                ) && quad_error_for(stream.quads@[0], te0))
                &&& !(r matches Err(StreamError::SourceSide(SourceError::Init(_))))
                &&& !(r matches Err(StreamError::SourceSide(SourceError::AlreadyExhausted)))
            },
    {
        let mut taken: RioQuadSource<PE, IE> = RioQuadSource::Error(None);
        core::mem::swap(self, &mut taken);
        match taken {
            RioQuadSource::Error(opt) => match opt {
                Some(e) => Err(StreamError::SourceSide(SourceError::Init(e))),
                None => Err(StreamError::SourceSide(SourceError::AlreadyExhausted)),
            },
            RioQuadSource::Parser(stream) => {
                let n = stream.quads.len();
                let mut i: usize = 0;
                while i < n
                    invariant
                        0 <= i <= n,
                        n == stream.quads@.len(),
                        *self matches RioQuadSource::Error(None),
                        *old(self) == RioQuadSource::<PE, IE>::Parser(stream),
                        forall|j: int| 0 <= j < i ==> quad_ok(#[trigger] stream.quads@[j]),
                    decreases n - i,
                {
                    let q = &stream.quads[i];
                    let s = match rio2refterm(&q.subject) {
                        Ok(x) => x,
                        Err(te) => {
                            return Err(StreamError::SourceSide(SourceError::Term(te)));
                        },
                    };
                    let p = match rio2refterm(&q.predicate) {
                        Ok(x) => x,
                        Err(te) => {
                            return Err(StreamError::SourceSide(SourceError::Term(te)));
                        },
                    };
                    let o = match rio2refterm(&q.object) {
                        Ok(x) => x,
                        Err(te) => {
                            return Err(StreamError::SourceSide(SourceError::Term(te)));
                        },
                    };
                    let g = match &q.graph_name {
                        Some(gn) => match rio2refterm(gn) {
                            Ok(x) => Some(x),
                            Err(te) => {
                                return Err(StreamError::SourceSide(SourceError::Term(te)));
                            },
                        },
                        None => None,
                    };
                    match sink.feed(&([s, p, o], g)) {
                        Ok(_) => {},
                        Err(se) => {
                            return Err(StreamError::SinkSide(se));
                        },
                    }
                    i = i + 1;
                }
                match stream.terminal {
                    Some(pe) => Err(StreamError::SourceSide(SourceError::Parser(pe))),
                    None => match sink.finish() {
                        Ok(outcome) => Ok(outcome),
                        Err(se) => Err(StreamError::SinkSide(se)),
                    },
                }
            },
        }
    }
}

} // verus!

verus! {

impl<PE, IE> From<Result<EventStream<PE>, IE>> for RioSource<PE, IE> {
    fn from(res: Result<EventStream<PE>, IE>) -> (r: Self) {
        RioSource::from_init(res)
    }
}

impl<PE, IE> vstd::std_specs::convert::FromSpecImpl<Result<EventStream<PE>, IE>> for RioSource<PE, IE> {
    open spec fn obeys_from_spec() -> bool {
        true
    }

    open spec fn from_spec(res: Result<EventStream<PE>, IE>) -> Self {
        match res {
            Ok(stream) => RioSource::Parser(stream),
            Err(e) => RioSource::Error(Some(e)),
        }
    }
}

impl<PE, IE> From<Result<QuadEventStream<PE>, IE>> for RioQuadSource<PE, IE> {
    fn from(res: Result<QuadEventStream<PE>, IE>) -> (r: Self) {
        RioQuadSource::from_init(res)
    }
}

impl<PE, IE> vstd::std_specs::convert::FromSpecImpl<Result<QuadEventStream<PE>, IE>> for RioQuadSource<PE, IE> {
    open spec fn obeys_from_spec() -> bool {
        true
    }

    open spec fn from_spec(res: Result<QuadEventStream<PE>, IE>) -> Self {
        match res {
            Ok(stream) => RioQuadSource::Parser(stream),
            Err(e) => RioQuadSource::Error(Some(e)),
        }
    }
}

} // verus!
