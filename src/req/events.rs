//! Listing log events.

use vstd::prelude::*;

use crate::flags::{flag_params, strs_view, write_flags};
use crate::req::Limit;
use crate::url::{BufferedName, Params, UrlParamWriter, WriteUrlParams, WriteUrlValue};

verus! {

/// The properties of log events to fetch.
#[derive(Clone, Copy, Debug, PartialEq, Eq)]
pub struct LogEventsProp {
    pub bits: u16,
}

impl LogEventsProp {
    pub const IDS: u16 = 1;
    pub const TITLE: u16 = 2;
    pub const TYPE: u16 = 4;
    pub const USER: u16 = 8;
    pub const TIMESTAMP: u16 = 16;
    pub const COMMENT: u16 = 32;
    pub const DETAILS: u16 = 64;
    pub const PARSEDCOMMENT: u16 = 128;
    pub const TAGS: u16 = 256;
    pub const USERID: u16 = 512;
    /// The properties the API gives when none are named.
    pub const DEFAULT: u16 = 127;

    pub fn from_bits(bits: u16) -> (r: Self)
        ensures
            r.bits == bits,
    {
        LogEventsProp { bits }
    }

    pub fn empty() -> (r: Self)
        ensures
            r.bits == 0,
    {
        LogEventsProp { bits: 0 }
    }

    /// The flags set in either.
    pub fn union(self, other: Self) -> (r: Self)
        ensures
            r.bits == self.bits | other.bits,
    {
        LogEventsProp { bits: self.bits | other.bits }
    }

    /// The wire names of the flags, by bit position.
    pub open spec fn names_spec() -> Seq<Seq<char>> {
        seq![
            "ids"@,
            "title"@,
            "type"@,
            "user"@,
            "timestamp"@,
            "comment"@,
            "details"@,
            "parsedcomment"@,
            "tags"@,
            "userid"@,
        ]
    }

    pub fn names() -> (r: Vec<&'static str>)
        ensures
            strs_view(r@) == Self::names_spec(),
            r@.len() <= 64,
    {
        let r = vec![
            "ids",
            "title",
            "type",
            "user",
            "timestamp",
            "comment",
            "details",
            "parsedcomment",
            "tags",
            "userid",
        ];
        assert(strs_view(r@) =~= Self::names_spec());
        r
    }
}

impl WriteUrlValue for LogEventsProp {
    open spec fn value_params(&self, name: Seq<char>) -> Params {
        flag_params(self.bits as u64, Self::names_spec(), name)
    }

    open spec fn extra_params(&self) -> Params {
        Params::empty()
    }

    fn ser<W: UrlParamWriter>(&self, n: BufferedName, w: &mut W) {
        let names = Self::names();
        write_flags(self.bits as u64, &names, n, w);
    }

    fn ser_additional_only<W: UrlParamWriter>(&self, w: &mut W) {
        assert(w.written() =~= w.written() + Params::empty());
    }
}

/// Lists log events.
#[derive(Clone, Debug)]
pub struct ListLogEvents {
    pub prop: LogEventsProp,
    pub user: Option<String>,
    pub limit: Limit,
}

impl WriteUrlParams for ListLogEvents {
    open spec fn params(&self) -> Params {
        self.prop.value_params("leprop"@) + self.user.value_params("leuser"@) + self.limit.value_params("lelimit"@)
    }

    fn ser<W: UrlParamWriter>(&self, w: &mut W) {
        let ghost start = w.written();
        self.prop.ser(BufferedName::new("leprop"), w);
        self.user.ser(BufferedName::new("leuser"), w);
        self.limit.ser(BufferedName::new("lelimit"), w);
        assert(w.written() =~= start + self.params());
    }
}

} // verus!
