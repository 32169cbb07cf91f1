use std::rc::Rc;
use std::sync::Arc;

use rdf_term::MaybeOwned;
use rdf_term::Term;
use rdf_term::TermData;
use rdf_term::error::TermError;
use rdf_term::iri::Normalization;

type StrTerm = Term<String>;
type RefT<'a> = Term<&'a str>;

fn s(x: &str) -> String {
    String::from(x)
}

#[test]
fn new_iri_accepts_valid_absolute() {
    let t = StrTerm::new_iri(s("http://example.org/foo")).unwrap();
    assert!(t.is_absolute());
}

#[test]
fn new_iri_accepts_valid_relative() {
    let t = StrTerm::new_iri(s("../ns/foo#bar")).unwrap();
    assert!(!t.is_absolute());
}

#[test]
fn new_iri_rejects_space() {
    let e = StrTerm::new_iri(s("http://example.org/a b")).unwrap_err();
    match e {
        TermError::MalformedIri(m) => assert_eq!(m, "http://example.org/a b"),
        _ => panic!("wrong error kind"),
    }
}

#[test]
fn new_iri_rejects_bad_percent_encoding() {
    assert!(StrTerm::new_iri(s("http://example.org/a%2")).is_err());
    assert!(StrTerm::new_iri(s("http://example.org/a%2G")).is_err());
    assert!(StrTerm::new_iri(s("http://example.org/a%2f")).is_ok());
}

#[test]
fn new_iri_rejects_bad_scheme() {
    // The first segment ends with a colon, so it must be a valid scheme.
    assert!(StrTerm::new_iri(s("1http://example.org")).is_err());
    // A colon later in the path is fine for a relative reference.
    assert!(StrTerm::new_iri(s("./a:b")).is_ok());
}

#[test]
fn new_iri_suffixed_validates_concatenation() {
    assert!(StrTerm::new_iri_suffixed(s("http://ex.org/"), s("item/1")).is_ok());
    // Each part alone is not a valid identifier, but the concatenation is.
    assert!(StrTerm::new_iri_suffixed(s("http://ex.org/a"), s(" b")).is_err());
}

#[test]
fn new_bnode_always_succeeds() {
    assert!(StrTerm::new_bnode(s("b0")).is_ok());
    assert!(StrTerm::new_bnode(s("")).is_ok());
}

#[test]
fn new_literal_lang_validates_tag() {
    assert!(StrTerm::new_literal_lang(s("hello"), s("en")).is_ok());
    assert!(StrTerm::new_literal_lang(s("hello"), s("en-US")).is_ok());
    assert!(StrTerm::new_literal_lang(s("hello"), s("en-us-x-twain")).is_ok());
    let e = StrTerm::new_literal_lang(s("hello"), s("")).unwrap_err();
    match e {
        TermError::MalformedLangTag(m) => assert_eq!(m, ""),
        _ => panic!("wrong error kind"),
    }
    assert!(StrTerm::new_literal_lang(s("hello"), s("en-")).is_err());
    assert!(StrTerm::new_literal_lang(s("hello"), s("-en")).is_err());
    assert!(StrTerm::new_literal_lang(s("hello"), s("12")).is_err());
    assert!(StrTerm::new_literal_lang(s("hello"), s("waytoolong1")).is_err());
}

#[test]
fn new_literal_dt_validates_datatype() {
    assert!(StrTerm::new_literal_dt(s("1"), s("http://www.w3.org/2001/XMLSchema#integer")).is_ok());
    let e = StrTerm::new_literal_dt(s("1"), s("not a iri")).unwrap_err();
    match e {
        TermError::MalformedIri(m) => assert_eq!(m, "not a iri"),
        _ => panic!("wrong error kind"),
    }
}

#[test]
fn new_variable_validates_name() {
    assert!(StrTerm::new_variable(s("x")).is_ok());
    assert!(StrTerm::new_variable(s("x_1")).is_ok());
    let e = StrTerm::new_variable(s("a b")).unwrap_err();
    match e {
        TermError::MalformedVariableName(m) => assert_eq!(m, "a b"),
        _ => panic!("wrong error kind"),
    }
    assert!(StrTerm::new_variable(s("")).is_err());
}

#[test]
fn suffixed_iri_equals_concatenated_iri() {
    let a = StrTerm::new_iri_suffixed(s("http://ex.org/"), s("item/1")).unwrap();
    let b = StrTerm::new_iri(s("http://ex.org/item/1")).unwrap();
    assert!(a.eq_term(&b));
    assert!(a == b);
    let c = StrTerm::new_iri(s("http://ex.org/item/2")).unwrap();
    assert!(a != c);
}

#[test]
fn equality_ignores_ownership_strategy() {
    let a = StrTerm::new_literal_lang(s("chat"), s("en")).unwrap();
    let b = RefT::new_literal_lang("chat", "en").unwrap();
    let c = Term::<Rc<String>>::new_literal_lang(Rc::new(s("chat")), Rc::new(s("en"))).unwrap();
    let d = Term::<Arc<String>>::new_literal_lang(Arc::new(s("chat")), Arc::new(s("en"))).unwrap();
    assert!(a == b);
    assert!(a == c);
    assert!(a == d);
    assert!(b == c);
}

#[test]
fn lang_literal_differs_from_typed_literal() {
    let lang = StrTerm::new_literal_lang(s("chat"), s("en")).unwrap();
    let typed =
        StrTerm::new_literal_dt(s("chat"), s("http://www.w3.org/2001/XMLSchema#string")).unwrap();
    assert!(lang != typed);
    assert!(!lang.eq_term(&typed));
}

#[test]
fn equality_requires_same_variant() {
    let iri = StrTerm::new_iri(s("x")).unwrap();
    let bnode = StrTerm::new_bnode(s("x")).unwrap();
    let var = StrTerm::new_variable(s("x")).unwrap();
    assert!(iri != bnode);
    assert!(bnode != var);
    assert!(var != iri);
}

#[test]
fn clone_into_preserves_variant_equality_and_validity() {
    let a = StrTerm::new_iri_suffixed(s("http://ex.org/"), s("x")).unwrap();
    let b: Term<Rc<String>> = a.clone_into();
    assert!(matches!(b, Term::Iri(_)));
    assert!(a == b);
    assert!(b.is_absolute());

    let c = StrTerm::new_variable(s("v")).unwrap();
    let d: Term<Arc<String>> = c.clone_into();
    assert!(matches!(d, Term::Variable(_)));
    assert!(c == d);
}

#[test]
fn map_into_round_trips_unchecked_terms() {
    // Invalid text: checked construction fails, unchecked succeeds ...
    let bad = "no such iri";
    assert!(RefT::new_iri(bad).is_err());
    let t = RefT::new_iri_unchecked(bad);
    // ... and the term still round-trips through ownership transformation.
    let owned: StrTerm = t.clone().map_into();
    assert!(owned == t);
    match owned {
        Term::Iri(i) => {
            assert_eq!(i.ns, "no such iri");
            assert!(i.suffix.is_none());
        },
        _ => panic!("variant changed"),
    }
}

#[test]
fn map_applies_conversion_to_every_span() {
    let t = RefT::new_iri_suffixed_unchecked("http://ex.org/", "x");
    let owned: StrTerm = t.map(|p: &str| String::from(p));
    match owned {
        Term::Iri(i) => {
            assert_eq!(i.ns, "http://ex.org/");
            assert_eq!(i.suffix.as_deref(), Some("x"));
        },
        _ => panic!("variant changed"),
    }
}

#[test]
fn as_ref_and_as_ref_str_borrow_the_same_data() {
    let t = StrTerm::new_literal_lang(s("v"), s("en")).unwrap();
    let r1 = t.as_ref();
    let r2 = t.as_ref_str();
    assert!(r1 == t);
    assert!(r2 == t);
}

#[test]
fn clone_map_converts_in_one_pass() {
    let t = StrTerm::new_bnode(s("b1")).unwrap();
    let r: Term<Rc<String>> = t.clone_map(|x: &str| Rc::new(String::from(x)));
    assert!(r == t);
}

#[test]
fn value_returns_payload_text() {
    let iri = StrTerm::new_iri_suffixed(s("http://ex.org/"), s("x")).unwrap();
    assert_eq!(iri.value().as_str(), "http://ex.org/x");
    let lit = StrTerm::new_literal_lang(s("chat"), s("en")).unwrap();
    assert_eq!(lit.value().as_str(), "chat");
    let bn = StrTerm::new_bnode(s("b0")).unwrap();
    assert_eq!(bn.value().as_str(), "b0");
    let var = StrTerm::new_variable(s("v")).unwrap();
    assert_eq!(var.value().as_str(), "v");
}

#[test]
fn is_absolute_follows_datatype_for_typed_literals() {
    let abs = StrTerm::new_literal_dt(s("1"), s("http://www.w3.org/2001/XMLSchema#integer"))
        .unwrap();
    assert!(abs.is_absolute());
    let rel = StrTerm::new_literal_dt(s("1"), s("relative#integer")).unwrap();
    assert!(!rel.is_absolute());
    let lang = StrTerm::new_literal_lang(s("1"), s("en")).unwrap();
    assert!(lang.is_absolute());
}

#[test]
fn normalized_no_suffix_collapses_the_split() {
    let t = StrTerm::new_iri_suffixed(s("http://ex.org/"), s("item/1")).unwrap();
    let n = t.normalized(Normalization::NoSuffix);
    match &n {
        Term::Iri(i) => {
            assert_eq!(i.ns.as_str(), "http://ex.org/item/1");
            assert!(i.suffix.is_none());
        },
        _ => panic!("variant changed"),
    }
    assert!(n == t);
}

#[test]
fn normalized_last_gen_delim_resplits() {
    let t = StrTerm::new_iri(s("http://ex.org/item/1")).unwrap();
    let n = t.normalized(Normalization::LastGenDelim);
    match &n {
        Term::Iri(i) => {
            assert_eq!(i.ns.as_str(), "http://ex.org/item/");
            assert_eq!(i.suffix.as_ref().map(|x| x.as_str()), Some("1"));
        },
        _ => panic!("variant changed"),
    }
    assert!(n == t);
}

#[test]
fn normalized_is_idempotent_byte_for_byte() {
    for policy in [Normalization::NoSuffix, Normalization::LastGenDelim] {
        let t = StrTerm::new_iri_suffixed(s("http://ex.org/item"), s("/a#frag")).unwrap();
        let once = t.normalized(policy);
        let twice = once.normalized(policy);
        let (ns1, sfx1) = match &once {
            Term::Iri(i) => (i.ns.as_str(), i.suffix.as_ref().map(|x| x.as_str())),
            _ => panic!("variant changed"),
        };
        let (ns2, sfx2) = match &twice {
            Term::Iri(i) => (i.ns.as_str(), i.suffix.as_ref().map(|x| x.as_str())),
            _ => panic!("variant changed"),
        };
        assert_eq!(ns1, ns2);
        assert_eq!(sfx1, sfx2);
    }
}

#[test]
fn normalized_handles_delimiter_free_and_trailing_delimiter_iris() {
    let t = StrTerm::new_iri_unchecked(s("nodelims"));
    let n = t.normalized(Normalization::LastGenDelim);
    match &n {
        Term::Iri(i) => {
            assert_eq!(i.ns.as_str(), "nodelims");
            assert!(i.suffix.is_none());
        },
        _ => panic!("variant changed"),
    }
    let t2 = StrTerm::new_iri(s("http://ex.org/")).unwrap();
    let n2 = t2.normalized(Normalization::LastGenDelim);
    match &n2 {
        Term::Iri(i) => {
            assert_eq!(i.ns.as_str(), "http://ex.org/");
            assert!(i.suffix.is_none());
        },
        _ => panic!("variant changed"),
    }
}

#[test]
fn normalized_rewrites_literal_datatypes() {
    let t = StrTerm::new_literal_dt(s("1"), s("http://www.w3.org/2001/XMLSchema#integer"))
        .unwrap();
    let n = t.normalized(Normalization::LastGenDelim);
    match &n {
        Term::Literal(v, rdf_term::LiteralKind::Datatype(d)) => {
            assert_eq!(v.as_str(), "1");
            assert_eq!(d.ns.as_str(), "http://www.w3.org/2001/XMLSchema#");
            assert_eq!(d.suffix.as_ref().map(|x| x.as_str()), Some("integer"));
        },
        _ => panic!("variant changed"),
    }
    assert!(n == t);
}

#[test]
fn same_graph_name_compares_optional_terms() {
    let a = StrTerm::new_iri(s("http://ex.org/g")).unwrap();
    let b = RefT::new_iri("http://ex.org/g").unwrap();
    let c = StrTerm::new_iri(s("http://ex.org/h")).unwrap();
    assert!(rdf_term::same_graph_name(Some(&a), Some(&b)));
    assert!(!rdf_term::same_graph_name(Some(&a), Some(&c)));
    assert!(rdf_term::same_graph_name(None::<&StrTerm>, None::<&RefT>));
    assert!(!rdf_term::same_graph_name(Some(&a), None::<&RefT>));
}

#[test]
fn unchecked_constructors_build_every_variant() {
    let iri = StrTerm::new_iri_unchecked(s("x"));
    assert!(matches!(iri, Term::Iri(_)));
    let sfx = StrTerm::new_iri_suffixed_unchecked(s("a"), s("b"));
    assert!(sfx == StrTerm::new_iri_unchecked(s("ab")));
    let bn = StrTerm::new_bnode_unchecked(s("b"));
    assert!(matches!(bn, Term::BNode(_)));
    let ll = StrTerm::new_literal_lang_unchecked(s("v"), s("EN"));
    assert!(ll == StrTerm::new_literal_lang(s("v"), s("EN")).unwrap());
    let ld = StrTerm::new_literal_dt_unchecked(s("v"), s("http://d"));
    assert!(ld == StrTerm::new_literal_dt(s("v"), s("http://d")).unwrap());
    let v = StrTerm::new_variable_unchecked(s("n"));
    assert!(v == StrTerm::new_variable(s("n")).unwrap());
}

#[test]
fn maybe_owned_variants_compare_by_text() {
    let borrowed = Term::<MaybeOwned>::new_iri(MaybeOwned::Borrowed("http://ex.org/x")).unwrap();
    let owned = Term::<MaybeOwned>::new_iri(MaybeOwned::Owned(s("http://ex.org/x"))).unwrap();
    assert!(borrowed == owned);
}

#[test]
fn term_data_dup_preserves_text() {
    let x = MaybeOwned::Owned(s("abc"));
    assert_eq!(x.dup().as_str(), "abc");
    let y: Rc<String> = Rc::new(s("abc"));
    assert_eq!(TermData::dup(&y).as_str(), "abc");
    let z: Arc<String> = Arc::new(s("abc"));
    assert_eq!(TermData::dup(&z).as_str(), "abc");
}

#[test]
fn empty_relative_iri_is_accepted() {
    assert!(StrTerm::new_iri(s("")).is_ok());
}

#[test]
fn term_compares_against_bare_identifier() {
    let t = StrTerm::new_iri(s("http://ex.org/x")).unwrap();
    let i = match StrTerm::new_iri_suffixed(s("http://ex.org/"), s("x")).unwrap() {
        Term::Iri(i) => i,
        _ => panic!("variant changed"),
    };
    assert!(t == i);
    let bn = StrTerm::new_bnode(s("http://ex.org/x")).unwrap();
    assert!(bn != i);
}

#[test]
fn errors_carry_the_offending_text() {
    let e = StrTerm::new_iri(s("a b")).unwrap_err();
    assert_eq!(e.offending_text(), "a b");
    let e2 = StrTerm::new_literal_lang(s("v"), s("e!")).unwrap_err();
    assert_eq!(e2.offending_text(), "e!");
    let e3 = StrTerm::new_variable(s("?")).unwrap_err();
    assert_eq!(e3.offending_text(), "?");
}

#[test]
fn map_preserves_split_for_text_changing_conversions() {
    let t = RefT::new_iri_suffixed_unchecked("http://ex.org/", "x");
    let r: StrTerm = t.map(|p: &str| format!("{}!", p));
    match r {
        Term::Iri(i) => {
            assert_eq!(i.ns, "http://ex.org/!");
            assert_eq!(i.suffix.as_deref(), Some("x!"));
        },
        _ => panic!("variant changed"),
    }
}

#[test]
fn clone_map_preserves_split_for_text_changing_conversions() {
    let t = StrTerm::new_literal_dt_unchecked(s("v"), s("http://dt"));
    let r: StrTerm = t.clone_map(|p: &str| format!("{}?", p));
    match r {
        Term::Literal(v, rdf_term::LiteralKind::Datatype(d)) => {
            assert_eq!(v, "v?");
            assert_eq!(d.ns, "http://dt?");
            assert!(d.suffix.is_none());
        },
        _ => panic!("variant changed"),
    }
}
