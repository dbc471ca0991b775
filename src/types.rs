//! Timestamps as the API writes them.

use vstd::prelude::*;

use crate::url::{BufferedName, Params, UrlParamWriter, WriteUrlValue, one};

verus! {

/// The RFC 3339 text, to the second and with a `Z` suffix, of the UTC time
/// `secs` seconds after the Unix epoch; `None` where the time is out of range.
pub uninterp spec fn rfc3339_of(secs: i64) -> Option<Seq<char>>;

/// Relies on chrono: `DateTime::<Utc>::from_timestamp(secs, 0)`, which is `None`
/// out of range, then `to_rfc3339_opts(SecondsFormat::Secs, true)`.
#[verifier::external_body]
fn format_unix_seconds(secs: i64) -> (r: Option<String>)
    ensures
        match r {
            Some(s) => rfc3339_of(secs) == Some(s@),
            None => rfc3339_of(secs) is None,
        },
{
    match chrono::DateTime::from_timestamp(secs, 0) {
        Some(t) => Some(t.to_rfc3339_opts(chrono::SecondsFormat::Secs, true)),
        None => None,
    }
}

/// A point in time, to the second, UTC.
#[derive(Debug)]
pub struct MwTimestamp {
    secs: i64,
    text: String,
}

impl MwTimestamp {
    #[verifier::type_invariant]
    spec fn text_matches(&self) -> bool {
        rfc3339_of(self.secs) == Some(self.text@)
    }

    /// Seconds since the Unix epoch.
    pub closed spec fn secs(&self) -> i64 {
        self.secs
    }

    /// The time `secs` seconds after the Unix epoch, if it can be written.
    pub fn from_unix(secs: i64) -> (r: Option<MwTimestamp>)
        ensures
            r is Some == rfc3339_of(secs) is Some,
            r matches Some(t) ==> t.secs() == secs,
    {
        match format_unix_seconds(secs) {
            Some(text) => Some(MwTimestamp { secs, text }),
            None => None,
        }
    }

    pub fn unix_seconds(&self) -> (r: i64)
        ensures
            r == self.secs(),
    {
        self.secs
    }

    /// The wire text of this time.
    pub fn format(&self) -> (r: String)
        ensures
            rfc3339_of(self.secs()) == Some(r@),
    {
        proof {
            use_type_invariant(self);
        }
        self.text.clone()
    }
}

impl Clone for MwTimestamp {
    fn clone(&self) -> (r: Self)
        ensures
            r.secs() == self.secs(),
    {
        proof {
            use_type_invariant(self);
        }
        MwTimestamp { secs: self.secs, text: self.text.clone() }
    }
}

impl WriteUrlValue for MwTimestamp {
    open spec fn value_params(&self, name: Seq<char>) -> Params {
        one(name, rfc3339_of(self.secs()).unwrap())
    }

    open spec fn extra_params(&self) -> Params {
        Params::empty()
    }

    fn ser<W: UrlParamWriter>(&self, n: BufferedName, w: &mut W) {
        let s = self.format();
        n.write(w, s.as_str());
        assert(final(w).written() =~= old(w).written() + one(n.name(), s@));
    }

    fn ser_additional_only<W: UrlParamWriter>(&self, w: &mut W) {
        assert(w.written() =~= w.written() + Params::empty());
    }
}

/// A time, or the moment the server handles the request.
#[derive(Clone, Debug)]
pub enum NowableTime {
    Now,
    Timestamp(MwTimestamp),
}

impl WriteUrlValue for NowableTime {
    open spec fn value_params(&self, name: Seq<char>) -> Params {
        match self {
            NowableTime::Now => one(name, "now"@),
            NowableTime::Timestamp(t) => t.value_params(name),
        }
    }

    open spec fn extra_params(&self) -> Params {
        Params::empty()
    }

    fn ser<W: UrlParamWriter>(&self, n: BufferedName, w: &mut W) {
        match self {
            NowableTime::Now => {
                let ghost name = n.name();
                n.write(w, "now");
                assert(w.written() =~= old(w).written() + one(name, "now"@));
            },
            NowableTime::Timestamp(t) => t.ser(n, w),
        }
    }

    fn ser_additional_only<W: UrlParamWriter>(&self, w: &mut W) {
        assert(w.written() =~= w.written() + Params::empty());
    }
}

} // verus!
