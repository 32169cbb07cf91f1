//! Resource identifiers, optionally split into a namespace and a suffix,
//! and the normalization of that split.

use vstd::prelude::*;
use vstd::string::StrSliceExecFns;
use vstd::string::StringExecFns;

verus! {

use crate::MaybeOwned;
use crate::TermData;
use crate::text;

/// A resource identifier, either a single span (`suffix` is `None`) or split
/// into a namespace and a suffix whose concatenation is the identifier.
///
/// The split is a representation choice only: equality and absoluteness are
/// defined over the concatenation.
#[derive(Clone, Debug)]
pub struct Iri<TD> {
    /// The whole identifier, or its namespace part when a suffix is present.
    pub ns: TD,
    /// The optional suffix, concatenated after `ns`.
    pub suffix: Option<TD>,
}

/// The mathematical model of an identifier: its two spans as character
/// sequences.
pub struct IriView {
    /// Model of the namespace span.
    pub ns: Seq<char>,
    /// Model of the suffix span.
    pub suffix: Option<Seq<char>>,
}

impl IriView {
    /// The resolved identifier: the concatenation of the spans.
    pub open spec fn full(self) -> Seq<char> {
        match self.suffix {
            Some(s) => self.ns + s,
            None => self.ns,
        }
    }

    /// A syntactically valid identifier whose split, if any, is non-trivial.
    pub open spec fn wf(self) -> bool {
        text::valid_iri_ref(self.full())
    }
}

impl<TD: TermData> View for Iri<TD> {
    type V = IriView;

    open spec fn view(&self) -> IriView {
        IriView {
            ns: self.ns.text(),
            suffix: match self.suffix {
                Some(s) => Some(s.text()),
                None => None,
            },
        }
    }
}

impl<TD: TermData> Iri<TD> {
    /// The resolved identifier as one owned span.
    pub fn full_string(&self) -> (r: String)
        ensures
            r@ == self@.full(),
    {
        let mut r = String::from_str(self.ns.as_str());
        match &self.suffix {
            Some(s) => {
                r.append(s.as_str());
            },
            None => {},
        }
        r
    }

    /// Whether this identifier resolves to the same text as `other`,
    /// whatever the two splits and ownership strategies.
    pub fn eq_resolved<U: TermData>(&self, other: &Iri<U>) -> (r: bool)
        ensures
            r == (self@.full() == other@.full()),
    {
        let a = self.full_string();
        let b = other.full_string();
        text::str_eq(a.as_str(), b.as_str())
    }

    /// Whether the resolved identifier is absolute.
    pub fn is_absolute(&self) -> (r: bool)
        ensures
            r == text::is_absolute_iri(self@.full()),
    {
        match &self.suffix {
            None => text::check_absolute(self.ns.as_str()),
            Some(_) => {
                let full = self.full_string();
                text::check_absolute(full.as_str())
            },
        }
    }
}

/// How [`crate::Term::normalized`] canonicalizes an identifier's split.
#[derive(Clone, Copy, Debug)]
pub enum Normalization {
    /// Collapse the identifier into one contiguous span.
    NoSuffix,
    /// Split the identifier after its last generic delimiter, if that leaves
    /// a non-empty suffix; otherwise collapse it.
    LastGenDelim,
}

/// A generic delimiter of the identifier syntax.
pub open spec fn gen_delim(c: char) -> bool {
    c == ':' || c == '/' || c == '?' || c == '#' || c == '[' || c == ']' || c == '@'
}

/// Index of the last generic delimiter of `s`, or `-1` if there is none.
pub open spec fn last_gen_delim(s: Seq<char>) -> int
    decreases s.len(),
{
    if s.len() == 0 {
        -1
    } else if gen_delim(s[s.len() - 1]) {
        s.len() - 1
    } else {
        last_gen_delim(s.drop_last())
    }
}

/// The canonical representation of an identifier under a policy.
///
/// The resolved text is preserved; only the split changes.
pub open spec fn normal_iri(v: IriView, p: Normalization) -> IriView {
    let full = v.full();
    match p {
        Normalization::NoSuffix => IriView { ns: full, suffix: None },
        Normalization::LastGenDelim => {
            let k = last_gen_delim(full);
            if k < 0 || k + 1 >= full.len() {
                IriView { ns: full, suffix: None }
            } else {
                IriView { ns: full.take(k + 1), suffix: Some(full.skip(k + 1)) }
            }
        },
    }
}

/// The normal form resolves to the same identifier.
pub proof fn lemma_normal_iri_full(v: IriView, p: Normalization)
    ensures
        normal_iri(v, p).full() == v.full(),
{
    let full = v.full();
    match p {
        Normalization::NoSuffix => {},
        Normalization::LastGenDelim => {
            let k = last_gen_delim(full);
            if 0 <= k && k + 1 < full.len() {
                assert(full.take(k + 1) + full.skip(k + 1) =~= full);
            }
        },
    }
}

/// Normalization is idempotent: a second application with the same policy
/// leaves the representation byte-for-byte unchanged.
pub proof fn lemma_normal_iri_idempotent(v: IriView, p: Normalization)
    ensures
        normal_iri(normal_iri(v, p), p) == normal_iri(v, p),
{
    lemma_normal_iri_full(v, p);
    let n1 = normal_iri(v, p);
    match p {
        Normalization::NoSuffix => {},
        Normalization::LastGenDelim => {
            let full = v.full();
            let k = last_gen_delim(full);
            if 0 <= k && k + 1 < full.len() {
                assert(normal_iri(n1, p).ns =~= n1.ns);
                assert(normal_iri(n1, p).suffix matches Some(s) && n1.suffix matches Some(
                    t,
                ) && s =~= t);
            } else {
                assert(normal_iri(n1, p).ns =~= n1.ns);
            }
        },
    }
}

/// Find the last generic delimiter of `s`, as [`last_gen_delim`] counts it.
fn find_last_gen_delim(s: &str) -> (r: Option<usize>)
    ensures
        r matches Some(k) ==> k == last_gen_delim(s@) && k < s@.len(),
        r is None ==> last_gen_delim(s@) == -1,
{
    let n = s.unicode_len();
    let mut i: usize = n;
    assert(s@.take(n as int) =~= s@);
    while i > 0
        invariant
            0 <= i <= n,
            n == s@.len(),
            last_gen_delim(s@) == last_gen_delim(s@.take(i as int)),
        decreases i,
    {
        let c = s.get_char(i - 1);
        assert(s@.take(i as int).drop_last() =~= s@.take(i - 1));
        if c == ':' || c == '/' || c == '?' || c == '#' || c == '[' || c == ']' || c == '@' {
            return Some(i - 1);
        }
        i = i - 1;
    }
    assert(s@.take(0) =~= Seq::<char>::empty());
    None
}

/// Rebuild an identifier in the canonical representation of `policy`,
/// borrowing its text where the representation allows it.
pub fn normalize_iri<'a, TD: TermData>(iri: &'a Iri<TD>, policy: Normalization) -> (r: Iri<
    MaybeOwned<'a>,
>)
    ensures
        r@ == normal_iri(iri@, policy),
{
    match policy {
        Normalization::NoSuffix => {
            match &iri.suffix {
                None => Iri { ns: MaybeOwned::Borrowed(iri.ns.as_str()), suffix: None },
                Some(_) => Iri { ns: MaybeOwned::Owned(iri.full_string()), suffix: None },
            }
        },
        Normalization::LastGenDelim => {
            match &iri.suffix {
                None => {
                    let s: &'a str = iri.ns.as_str();
                    split_at_last_delim_borrowed(s, Ghost(iri@))
                },
                Some(_) => {
                    let full = iri.full_string();
                    let n = full.as_str().unicode_len();
                    match find_last_gen_delim(full.as_str()) {
                        Some(k) if k + 1 < n => {
                            let ns = full.as_str().substring_char(0, k + 1);
                            let sfx = full.as_str().substring_char(k + 1, n);
                            assert(ns@ =~= iri@.full().take(k + 1));
                            assert(sfx@ =~= iri@.full().skip(k + 1));
                            Iri {
                                ns: MaybeOwned::Owned(String::from_str(ns)),
                                suffix: Some(MaybeOwned::Owned(String::from_str(sfx))),
                            }
                        },
                        _ => Iri { ns: MaybeOwned::Owned(full), suffix: None },
                    }
                },
            }
        },
    }
}

/// Split a single-span identifier after its last generic delimiter, borrowing
/// both parts.
fn split_at_last_delim_borrowed<'a>(s: &'a str, model: Ghost<IriView>) -> (r: Iri<MaybeOwned<'a>>)
    requires
        model@.suffix is None,
        model@.ns == s@,
    ensures
        r@ == normal_iri(model@, Normalization::LastGenDelim),
{
    let n = s.unicode_len();
    match find_last_gen_delim(s) {
        Some(k) if k + 1 < n => {
            let ns = s.substring_char(0, k + 1);
            let sfx = s.substring_char(k + 1, n);
            assert(ns@ =~= s@.take(k + 1));
            assert(sfx@ =~= s@.skip(k + 1));
            Iri {
                ns: MaybeOwned::Borrowed(ns),
                suffix: Some(MaybeOwned::Borrowed(sfx)),
            }
        },
        _ => Iri { ns: MaybeOwned::Borrowed(s), suffix: None },
    }
}

} // verus!
