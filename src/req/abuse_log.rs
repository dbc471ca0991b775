//! Listing abuse filters and abuse log entries.

use vstd::prelude::*;

use crate::flags::{flag_params, strs_view, write_flags};
use crate::req::Limit;
use crate::types::NowableTime;
use crate::url::{BufferedName, Params, UrlParamWriter, WriteUrlParams, WriteUrlValue};

verus! {

/// The properties of abuse filters to fetch.
#[derive(Clone, Copy, Debug, PartialEq, Eq)]
pub struct AbuseFilterProp {
    pub bits: u16,
}

impl AbuseFilterProp {
    pub const ID: u16 = 1;
    pub const DESCRIPTION: u16 = 2;
    pub const ACTIONS: u16 = 4;
    pub const PATTERN: u16 = 8;
    pub const STATUS: u16 = 16;
    pub const PRIVATE: u16 = 32;
    pub const LASTEDITTIME: u16 = 64;
    pub const LASTEDITOR: u16 = 128;
    pub const HITS: u16 = 256;
    pub const COMMENTS: u16 = 512;
    /// The properties the API gives when none are named.
    pub const DEFAULT: u16 = 23;

    pub fn from_bits(bits: u16) -> (r: Self)
        ensures
            r.bits == bits,
    {
        AbuseFilterProp { bits }
    }

    pub fn empty() -> (r: Self)
        ensures
            r.bits == 0,
    {
        AbuseFilterProp { bits: 0 }
    }

    /// The flags set in either.
    pub fn union(self, other: Self) -> (r: Self)
        ensures
            r.bits == self.bits | other.bits,
    {
        AbuseFilterProp { bits: self.bits | other.bits }
    }

    /// The wire names of the flags, by bit position.
    pub open spec fn names_spec() -> Seq<Seq<char>> {
        seq![
            "id"@,
            "description"@,
            "actions"@,
            "pattern"@,
            "status"@,
            "private"@,
            "lastedittime"@,
            "lasteditor"@,
            "hits"@,
            "comments"@,
        ]
    }

    pub fn names() -> (r: Vec<&'static str>)
        ensures
            strs_view(r@) == Self::names_spec(),
            r@.len() <= 64,
    {
        let r = vec![
            "id",
            "description",
            "actions",
            "pattern",
            "status",
            "private",
            "lastedittime",
            "lasteditor",
            "hits",
            "comments",
        ];
        assert(strs_view(r@) =~= Self::names_spec());
        r
    }
}

impl WriteUrlValue for AbuseFilterProp {
    open spec fn value_params(&self, name: Seq<char>) -> Params {
        flag_params(self.bits as u64, Self::names_spec(), name)
    }

    open spec fn extra_params(&self) -> Params {
        Params::empty()
    }

    fn ser<W: UrlParamWriter>(&self, n: BufferedName, w: &mut W) {
        let names = Self::names();
        write_flags(self.bits as u64, &names, n, w);
    }

    fn ser_additional_only<W: UrlParamWriter>(&self, w: &mut W) {
        assert(w.written() =~= w.written() + Params::empty());
    }
}

/// The properties of abuse log entries to fetch.
#[derive(Clone, Copy, Debug, PartialEq, Eq)]
pub struct AbuseLogProp {
    pub bits: u16,
}

impl AbuseLogProp {
    pub const DETAILS: u16 = 1;
    pub const ACTION: u16 = 2;
    pub const FILTER: u16 = 4;
    pub const HIDDEN: u16 = 8;
    pub const IDS: u16 = 16;
    pub const RESULT: u16 = 32;
    pub const REVID: u16 = 64;
    pub const TIMESTAMP: u16 = 128;
    pub const TITLE: u16 = 256;
    pub const USER: u16 = 512;

    pub fn from_bits(bits: u16) -> (r: Self)
        ensures
            r.bits == bits,
    {
        AbuseLogProp { bits }
    }

    pub fn empty() -> (r: Self)
        ensures
            r.bits == 0,
    {
        AbuseLogProp { bits: 0 }
    }

    /// The flags set in either.
    pub fn union(self, other: Self) -> (r: Self)
        ensures
            r.bits == self.bits | other.bits,
    {
        AbuseLogProp { bits: self.bits | other.bits }
    }

    /// The wire names of the flags, by bit position.
    pub open spec fn names_spec() -> Seq<Seq<char>> {
        seq!["details"@, "action"@, "filter"@, "hidden"@, "ids"@, "result"@, "revid"@, "timestamp"@, "title"@, "user"@]
    }

    pub fn names() -> (r: Vec<&'static str>)
        ensures
            strs_view(r@) == Self::names_spec(),
            r@.len() <= 64,
    {
        let r = vec!["details", "action", "filter", "hidden", "ids", "result", "revid", "timestamp", "title", "user"];
        assert(strs_view(r@) =~= Self::names_spec());
        r
    }
}

impl WriteUrlValue for AbuseLogProp {
    open spec fn value_params(&self, name: Seq<char>) -> Params {
        flag_params(self.bits as u64, Self::names_spec(), name)
    }

    open spec fn extra_params(&self) -> Params {
        Params::empty()
    }

    fn ser<W: UrlParamWriter>(&self, n: BufferedName, w: &mut W) {
        let names = Self::names();
        write_flags(self.bits as u64, &names, n, w);
    }

    fn ser_additional_only<W: UrlParamWriter>(&self, w: &mut W) {
        assert(w.written() =~= w.written() + Params::empty());
    }
}

/// Lists abuse filters.
#[derive(Clone, Debug)]
pub struct ListAbuseFilters {
    pub startid: Option<u32>,
    pub endid: Option<u32>,
    pub limit: Limit,
    pub prop: AbuseFilterProp,
}

impl WriteUrlParams for ListAbuseFilters {
    open spec fn params(&self) -> Params {
        self.startid.value_params("abfstartid"@) + self.endid.value_params("abfendid"@)
            + self.limit.value_params("abflimit"@) + self.prop.value_params("abfprop"@)
    }

    fn ser<W: UrlParamWriter>(&self, w: &mut W) {
        let ghost start = w.written();
        self.startid.ser(BufferedName::new("abfstartid"), w);
        self.endid.ser(BufferedName::new("abfendid"), w);
        self.limit.ser(BufferedName::new("abflimit"), w);
        self.prop.ser(BufferedName::new("abfprop"), w);
        assert(w.written() =~= start + self.params());
    }
}

/// Lists abuse log entries.
#[derive(Clone, Debug)]
pub struct ListAbuseLog {
    pub logid: Option<u64>,
    pub start: Option<NowableTime>,
    pub end: Option<NowableTime>,
    pub filter: Option<Vec<String>>,
    pub limit: Limit,
    pub prop: AbuseLogProp,
}

impl WriteUrlParams for ListAbuseLog {
    open spec fn params(&self) -> Params {
        self.logid.value_params("afllogid"@)
            + self.start.value_params("aflstart"@)
            + self.end.value_params("aflend"@)
            + self.filter.value_params("aflfilter"@)
            + self.limit.value_params("afllimit"@)
            + self.prop.value_params("aflprop"@)
    }

    #[verifier::rlimit(40)]
    fn ser<W: UrlParamWriter>(&self, w: &mut W) {
        let ghost start = w.written();
        self.logid.ser(BufferedName::new("afllogid"), w);
        self.start.ser(BufferedName::new("aflstart"), w);
        self.end.ser(BufferedName::new("aflend"), w);
        self.filter.ser(BufferedName::new("aflfilter"), w);
        self.limit.ser(BufferedName::new("afllimit"), w);
        self.prop.ser(BufferedName::new("aflprop"), w);
        assert(w.written() =~= start + self.params());
    }
}

} // verus!
