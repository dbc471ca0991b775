//! Turning a request into what is sent: a GET URL or the fields of a form.

use vstd::prelude::*;

use crate::req::Main;
use crate::url::{FormFields, Params, Simple, UrlParamWriter, WriteUrlParams, pairs_view, query_string, write_fields};

verus! {

/// The URL of a GET request: the endpoint, `?`, then the query string.
pub open spec fn url_of(base: Seq<char>, ps: Params) -> Seq<char> {
    base + seq!['?'] + query_string(ps)
}

/// The GET URL of `m` on the endpoint `url`.
pub fn mkurl(url: &str, m: Main) -> (r: String)
    ensures
        r@ == url_of(url@, m.params()),
{
    let mut q = Simple::new();
    m.ser(&mut q);
    assert(q.written() =~= m.params());
    let mut s = String::from_str(url);
    let mark = "?";
    proof {
        reveal_strlit("?");
    }
    s.append(mark);
    s.append(q.as_str());
    s
}

/// The GET URL of `m` on the endpoint `url`, with the parameters `ext` (a
/// continuation, echoed as it came) after those of `m`.
pub fn mkurl_with_ext(url: &str, m: Main, ext: &Vec<(String, String)>) -> (r: String)
    ensures
        r@ == url_of(url@, m.params() + pairs_view(ext@)),
{
    let mut q = Simple::new();
    m.ser(&mut q);
    write_fields(ext, &mut q);
    assert(q.written() =~= m.params() + pairs_view(ext@));
    let mut s = String::from_str(url);
    let mark = "?";
    proof {
        reveal_strlit("?");
    }
    s.append(mark);
    s.append(q.as_str());
    s
}

/// The fields of `m` as a POST form body.
pub fn build_form(m: &Main) -> (r: FormFields)
    ensures
        r.written() == m.params(),
{
    let mut f = FormFields::new();
    m.ser(&mut f);
    assert(f.written() =~= m.params());
    f
}

} // verus!
