//! Writing request parameters: the writer abstraction, the query-string and
//! form writers, the name-prefixing adaptor, and how plain values are written.

use vstd::prelude::*;

use crate::encode::{HasValue, decimal, decimal_string, encode_multivalue, encoded_values, value_texts};

verus! {

/// An ordered list of wire parameters, each a name and a value.
pub type Params = Seq<(Seq<char>, Seq<char>)>;

/// A sink of wire parameters.
pub trait UrlParamWriter {
    /// What stays fixed while parameters are written.
    type Setup;

    /// The writer's setup, which writing never changes.
    spec fn setup(&self) -> Self::Setup;

    /// The writer's internal consistency.
    spec fn inv(&self) -> bool;

    /// The parameters written so far, in order.
    spec fn written(&self) -> Params;

    fn add(&mut self, name: &str, value: &str)
        requires
            old(self).inv(),
        ensures
            final(self).inv(),
            final(self).written() == old(self).written().push((name@, value@)),
            final(self).setup() == old(self).setup(),
    ;
}

/// A record that writes itself as a list of parameters.
pub trait WriteUrlParams {
    /// The parameters this value writes.
    spec fn params(&self) -> Params;

    fn ser<W: UrlParamWriter>(&self, w: &mut W)
        requires
            old(w).inv(),
        ensures
            final(w).inv(),
            final(w).written() == old(w).written() + self.params(),
            final(w).setup() == old(w).setup(),
    ;
}

/// A value that writes itself under a given name, possibly with extra
/// parameters after it.
pub trait WriteUrlValue {
    /// All parameters written when this value stands under `name`.
    spec fn value_params(&self, name: Seq<char>) -> Params;

    /// The extra parameters alone, without the named one.
    spec fn extra_params(&self) -> Params;

    fn ser<W: UrlParamWriter>(&self, n: BufferedName, w: &mut W)
        requires
            old(w).inv(),
        ensures
            final(w).inv(),
            final(w).written() == old(w).written() + self.value_params(n.name()),
            final(w).setup() == old(w).setup(),
    ;

    fn ser_additional_only<W: UrlParamWriter>(&self, w: &mut W)
        requires
            old(w).inv(),
        ensures
            final(w).inv(),
            final(w).written() == old(w).written() + self.extra_params(),
            final(w).setup() == old(w).setup(),
    ;
}

/// A parameter name waiting for its value.
pub struct BufferedName {
    name: String,
}

impl BufferedName {
    pub closed spec fn name(&self) -> Seq<char> {
        self.name@
    }

    pub fn new(name: &str) -> (r: Self)
        ensures
            r.name() == name@,
    {
        BufferedName { name: String::from_str(name) }
    }

    /// Writes the pair of this name and `value`.
    pub fn write<W: UrlParamWriter>(self, w: &mut W, value: &str)
        requires
            old(w).inv(),
        ensures
            final(w).inv(),
            final(w).written() == old(w).written().push((self.name(), value@)),
            final(w).setup() == old(w).setup(),
    {
        w.add(self.name.as_str(), value);
    }
}

/// Percent-encoding of a parameter name or value, as urlencoding does it.
pub uninterp spec fn url_encoded(s: Seq<char>) -> Seq<char>;

/// Relies on urlencoding::encode: percent-encodes every byte of the UTF-8
/// text except alphanumerics and `-`, `_`, `.`, `~`.
#[verifier::external_body]
fn percent_encode(s: &str) -> (r: String)
    ensures
        r@ == url_encoded(s@),
{
    urlencoding::encode(s).into_owned()
}

/// One `name=value` field of a query string.
pub open spec fn query_field(p: (Seq<char>, Seq<char>)) -> Seq<char> {
    url_encoded(p.0) + seq!['='] + url_encoded(p.1)
}

/// The query string of a parameter list: its fields joined with `&`.
pub open spec fn query_string(ps: Params) -> Seq<char>
    decreases ps.len(),
{
    if ps.len() == 0 {
        Seq::empty()
    } else if ps.len() == 1 {
        query_field(ps[0])
    } else {
        query_string(ps.drop_last()) + seq!['&'] + query_field(ps.last())
    }
}

proof fn lemma_query_string_empty(ps: Params)
    ensures
        (query_string(ps).len() == 0) == (ps.len() == 0),
    decreases ps.len(),
{
    if ps.len() > 1 {
        lemma_query_string_empty(ps.drop_last());
    }
}

/// A writer that builds a URL query string.
pub struct Simple {
    query: String,
    pairs: Ghost<Params>,
}

impl Simple {
    pub fn new() -> (r: Self)
        ensures
            r.inv(),
            r.written() == Params::empty(),
    {
        Simple { query: String::new(), pairs: Ghost(Seq::empty()) }
    }

    /// The query string built so far.
    pub fn as_str(&self) -> (r: &str)
        requires
            self.inv(),
        ensures
            r@ == query_string(self.written()),
    {
        self.query.as_str()
    }
}

impl UrlParamWriter for Simple {
    type Setup = ();

    open spec fn setup(&self) -> () {
        ()
    }

    closed spec fn inv(&self) -> bool {
        self.query@ == query_string(self.pairs@)
    }

    closed spec fn written(&self) -> Params {
        self.pairs@
    }

    fn add(&mut self, name: &str, value: &str) {
        let ghost before = self.pairs@;
        proof {
            lemma_query_string_empty(before);
        }
        if !self.query.as_str().is_empty() {
            let amp = "&";
            proof {
                reveal_strlit("&");
            }
            self.query.append(amp);
        }
        let n = percent_encode(name);
        self.query.append(n.as_str());
        let eq = "=";
        proof {
            reveal_strlit("=");
        }
        self.query.append(eq);
        let v = percent_encode(value);
        self.query.append(v.as_str());
        self.pairs = Ghost(before.push((name@, value@)));
        proof {
            let after = before.push((name@, value@));
            assert(after.drop_last() =~= before);
            assert(self.query@ =~= query_string(after));
        }
    }
}

/// The view of a list of owned pairs.
pub open spec fn pairs_view(v: Seq<(String, String)>) -> Params {
    v.map_values(|p: (String, String)| (p.0@, p.1@))
}

/// A writer that keeps the parameters as a list of fields, as for a form body.
pub struct FormFields {
    pub fields: Vec<(String, String)>,
}

impl FormFields {
    pub fn new() -> (r: Self)
        ensures
            r.inv(),
            r.written() == Params::empty(),
    {
        FormFields { fields: Vec::new() }
    }
}

impl UrlParamWriter for FormFields {
    type Setup = ();

    open spec fn setup(&self) -> () {
        ()
    }

    open spec fn inv(&self) -> bool {
        true
    }

    open spec fn written(&self) -> Params {
        pairs_view(self.fields@)
    }

    fn add(&mut self, name: &str, value: &str) {
        self.fields.push((String::from_str(name), String::from_str(value)));
        assert(pairs_view(self.fields@) =~= old(self).written().push((name@, value@)));
    }
}

/// `ps` with `prefix` put before every name.
pub open spec fn prefixed(prefix: Seq<char>, ps: Params) -> Params {
    ps.map_values(|p: (Seq<char>, Seq<char>)| (prefix + p.0, p.1))
}

/// A writer that puts a prefix before every name it passes on.
pub struct PrependAdaptor<T> {
    inner: T,
    prep: String,
    base: Ghost<Params>,
    log: Ghost<Params>,
}

impl<T: UrlParamWriter> PrependAdaptor<T> {
    /// The prefix.
    pub closed spec fn prefix(&self) -> Seq<char> {
        self.prep@
    }

    /// The inner writer's setup.
    pub closed spec fn inner_setup(&self) -> T::Setup {
        self.inner.setup()
    }

    /// What the inner writer held before this adaptor wrapped it.
    pub closed spec fn base(&self) -> Params {
        self.base@
    }

    pub fn new(inner: T, prep: &str) -> (r: Self)
        requires
            inner.inv(),
        ensures
            r.inv(),
            r.prefix() == prep@,
            r.base() == inner.written(),
            r.inner_setup() == inner.setup(),
            r.written() == Params::empty(),
    {
        let ghost base = inner.written();
        let r = PrependAdaptor { inner, prep: String::from_str(prep), base: Ghost(base), log: Ghost(Seq::empty()) };
        assert(r.inner.written() =~= base + prefixed(prep@, Seq::empty()));
        r
    }

    /// The inner writer, with every name passed on prefixed.
    pub fn into_inner(self) -> (r: T)
        requires
            self.inv(),
        ensures
            r.inv(),
            r.written() == self.base() + prefixed(self.prefix(), self.written()),
            r.setup() == self.inner_setup(),
    {
        self.inner
    }
}

impl<T: UrlParamWriter> UrlParamWriter for PrependAdaptor<T> {
    /// The prefix, what the inner writer held when wrapped, and the inner
    /// writer's own setup.
    type Setup = (Seq<char>, Params, T::Setup);

    open spec fn setup(&self) -> (Seq<char>, Params, T::Setup) {
        (self.prefix(), self.base(), self.inner_setup())
    }

    closed spec fn inv(&self) -> bool {
        &&& self.inner.inv()
        &&& self.inner.written() == self.base@ + prefixed(self.prep@, self.log@)
    }

    closed spec fn written(&self) -> Params {
        self.log@
    }

    fn add(&mut self, name: &str, value: &str) {
        let mut full = self.prep.clone();
        full.append(name);
        self.inner.add(full.as_str(), value);
        let ghost after = self.log@.push((name@, value@));
        self.log = Ghost(after);
        assert(prefixed(self.prep@, after) =~= prefixed(self.prep@, old(self).log@).push((self.prep@ + name@, value@)));
        assert(self.inner.written() =~= self.base@ + prefixed(self.prep@, after));
    }
}

/// Passes every field on to `w`, in order.
pub fn write_fields<W: UrlParamWriter>(fields: &Vec<(String, String)>, w: &mut W)
    requires
        old(w).inv(),
    ensures
        final(w).inv(),
        final(w).written() == old(w).written() + pairs_view(fields@),
        final(w).setup() == old(w).setup(),
{
    let ghost start = w.written();
    let ghost setup = w.setup();
    let ghost all = pairs_view(fields@);
    let mut i: usize = 0;
    while i < fields.len()
        invariant
            i <= fields@.len(),
            all == pairs_view(fields@),
            w.inv(),
            w.written() =~= start + all.take(i as int),
            w.setup() == setup,
        decreases fields@.len() - i,
    {
        let (n, v) = &fields[i];
        w.add(n.as_str(), v.as_str());
        assert(all.take(i as int + 1) =~= all.take(i as int).push(all[i as int]));
        i += 1;
    }
    assert(all.take(i as int) =~= all);
}

/// Writes the parameters of `sub` with `prefix` before every name: a
/// sub-record flattened into a parent that prefixes its names.
pub fn ser_prefixed<P: WriteUrlParams, W: UrlParamWriter>(sub: &P, prefix: &str, w: &mut W)
    requires
        old(w).inv(),
    ensures
        final(w).inv(),
        final(w).written() == old(w).written() + prefixed(prefix@, sub.params()),
        final(w).setup() == old(w).setup(),
{
    let mut adaptor = PrependAdaptor::new(FormFields::new(), prefix);
    sub.ser(&mut adaptor);
    assert(adaptor.written() =~= sub.params());
    let fields = adaptor.into_inner();
    assert(fields.written() =~= prefixed(prefix@, sub.params()));
    write_fields(&fields.fields, w);
}

/// A single parameter.
pub open spec fn one(name: Seq<char>, value: Seq<char>) -> Params {
    seq![(name, value)]
}

impl WriteUrlValue for String {
    open spec fn value_params(&self, name: Seq<char>) -> Params {
        one(name, self@)
    }

    open spec fn extra_params(&self) -> Params {
        Params::empty()
    }

    fn ser<W: UrlParamWriter>(&self, n: BufferedName, w: &mut W) {
        let ghost name = n.name();
        n.write(w, self.as_str());
        assert(w.written() =~= old(w).written() + self.value_params(name));
    }

    fn ser_additional_only<W: UrlParamWriter>(&self, w: &mut W) {
        assert(w.written() =~= w.written() + Params::empty());
    }
}

impl WriteUrlValue for bool {
    /// A set flag is written with an empty value; a clear one is left out.
    open spec fn value_params(&self, name: Seq<char>) -> Params {
        if *self {
            one(name, Seq::empty())
        } else {
            Params::empty()
        }
    }

    open spec fn extra_params(&self) -> Params {
        Params::empty()
    }

    fn ser<W: UrlParamWriter>(&self, n: BufferedName, w: &mut W) {
        if *self {
            let e = "";
            proof {
                reveal_strlit("");
            }
            assert(e@ =~= Seq::<char>::empty());
            n.write(w, e);
            assert(final(w).written() =~= old(w).written() + one(n.name(), Seq::empty()));
        } else {
            assert(w.written() =~= w.written() + Params::empty());
        }
    }

    fn ser_additional_only<W: UrlParamWriter>(&self, w: &mut W) {
        assert(w.written() =~= w.written() + Params::empty());
    }
}

impl WriteUrlValue for u32 {
    open spec fn value_params(&self, name: Seq<char>) -> Params {
        one(name, decimal(*self as nat))
    }

    open spec fn extra_params(&self) -> Params {
        Params::empty()
    }

    fn ser<W: UrlParamWriter>(&self, n: BufferedName, w: &mut W) {
        let ghost name = n.name();
        let s = decimal_string(*self as u64);
        n.write(w, s.as_str());
        assert(w.written() =~= old(w).written() + self.value_params(name));
    }

    fn ser_additional_only<W: UrlParamWriter>(&self, w: &mut W) {
        assert(w.written() =~= w.written() + Params::empty());
    }
}

impl WriteUrlValue for u64 {
    open spec fn value_params(&self, name: Seq<char>) -> Params {
        one(name, decimal(*self as nat))
    }

    open spec fn extra_params(&self) -> Params {
        Params::empty()
    }

    fn ser<W: UrlParamWriter>(&self, n: BufferedName, w: &mut W) {
        let ghost name = n.name();
        let s = decimal_string(*self);
        n.write(w, s.as_str());
        assert(w.written() =~= old(w).written() + self.value_params(name));
    }

    fn ser_additional_only<W: UrlParamWriter>(&self, w: &mut W) {
        assert(w.written() =~= w.written() + Params::empty());
    }
}

impl<T: WriteUrlValue> WriteUrlValue for Option<T> {
    /// An absent value is left out.
    open spec fn value_params(&self, name: Seq<char>) -> Params {
        match self {
            Some(v) => v.value_params(name),
            None => Params::empty(),
        }
    }

    open spec fn extra_params(&self) -> Params {
        match self {
            Some(v) => v.extra_params(),
            None => Params::empty(),
        }
    }

    fn ser<W: UrlParamWriter>(&self, n: BufferedName, w: &mut W) {
        match self {
            Some(v) => v.ser(n, w),
            None => {
                assert(w.written() =~= w.written() + Params::empty());
            },
        }
    }

    fn ser_additional_only<W: UrlParamWriter>(&self, w: &mut W) {
        match self {
            Some(v) => v.ser_additional_only(w),
            None => {
                assert(w.written() =~= w.written() + Params::empty());
            },
        }
    }
}

impl<T: WriteUrlParams> WriteUrlParams for Option<T> {
    open spec fn params(&self) -> Params {
        match self {
            Some(v) => v.params(),
            None => Params::empty(),
        }
    }

    fn ser<W: UrlParamWriter>(&self, w: &mut W) {
        match self {
            Some(v) => v.ser(w),
            None => {
                assert(w.written() =~= w.written() + Params::empty());
            },
        }
    }
}

impl<T: HasValue> WriteUrlValue for Vec<T> {
    /// An empty list is left out; otherwise one parameter holds all values.
    open spec fn value_params(&self, name: Seq<char>) -> Params {
        if self@.len() == 0 {
            Params::empty()
        } else {
            one(name, encoded_values(value_texts(self@)))
        }
    }

    open spec fn extra_params(&self) -> Params {
        Params::empty()
    }

    fn ser<W: UrlParamWriter>(&self, n: BufferedName, w: &mut W) {
        if self.len() == 0 {
            assert(w.written() =~= w.written() + Params::empty());
        } else {
            let s = encode_multivalue(self);
            n.write(w, s.as_str());
            assert(final(w).written() =~= old(w).written() + self.value_params(n.name()));
        }
    }

    fn ser_additional_only<W: UrlParamWriter>(&self, w: &mut W) {
        assert(w.written() =~= w.written() + Params::empty());
    }
}

} // verus!
