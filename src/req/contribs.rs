//! Listing the contributions of users.

use vstd::prelude::*;

use crate::flags::{flag_params, strs_view, write_flags};
use crate::req::Limit;
use crate::url::{BufferedName, Params, UrlParamWriter, WriteUrlParams, WriteUrlValue, one, prefixed, ser_prefixed};

verus! {

/// The properties of user contributions to fetch.
#[derive(Clone, Copy, Debug, PartialEq, Eq)]
pub struct UserContribsProp {
    pub bits: u16,
}

impl UserContribsProp {
    pub const IDS: u16 = 1;
    pub const TITLE: u16 = 2;
    pub const TIMESTAMP: u16 = 4;
    pub const COMMENT: u16 = 8;
    pub const SIZE: u16 = 16;
    pub const FLAGS: u16 = 32;
    pub const SIZEDIFF: u16 = 64;
    pub const TAGS: u16 = 128;
    pub const PARSEDCOMMENT: u16 = 256;
    pub const ORESSCORES: u16 = 512;

    pub fn from_bits(bits: u16) -> (r: Self)
        ensures
            r.bits == bits,
    {
        UserContribsProp { bits }
    }

    pub fn empty() -> (r: Self)
        ensures
            r.bits == 0,
    {
        UserContribsProp { bits: 0 }
    }

    /// The flags set in either.
    pub fn union(self, other: Self) -> (r: Self)
        ensures
            r.bits == self.bits | other.bits,
    {
        UserContribsProp { bits: self.bits | other.bits }
    }

    /// The wire names of the flags, by bit position.
    pub open spec fn names_spec() -> Seq<Seq<char>> {
        seq![
            "ids"@,
            "title"@,
            "timestamp"@,
            "comment"@,
            "size"@,
            "flags"@,
            "sizediff"@,
            "tags"@,
            "parsedcomment"@,
            "oresscores"@,
        ]
    }

    pub fn names() -> (r: Vec<&'static str>)
        ensures
            strs_view(r@) == Self::names_spec(),
            r@.len() <= 64,
    {
        let r = vec![
            "ids",
            "title",
            "timestamp",
            "comment",
            "size",
            "flags",
            "sizediff",
            "tags",
            "parsedcomment",
            "oresscores",
        ];
        assert(strs_view(r@) =~= Self::names_spec());
        r
    }
}

impl WriteUrlValue for UserContribsProp {
    open spec fn value_params(&self, name: Seq<char>) -> Params {
        flag_params(self.bits as u64, Self::names_spec(), name)
    }

    open spec fn extra_params(&self) -> Params {
        Params::empty()
    }

    fn ser<W: UrlParamWriter>(&self, n: BufferedName, w: &mut W) {
        let names = Self::names();
        write_flags(self.bits as u64, &names, n, w);
    }

    fn ser_additional_only<W: UrlParamWriter>(&self, w: &mut W) {
        assert(w.written() =~= w.written() + Params::empty());
    }
}

/// Whose contributions to list; exactly one of these is written.
#[derive(Clone, Debug)]
pub enum Selector {
    User(Vec<String>),
    UserIds(Vec<u64>),
    UserPrefix(String),
    IpRange(String),
}

impl WriteUrlParams for Selector {
    open spec fn params(&self) -> Params {
        match self {
            Selector::User(v) => v.value_params("user"@),
            Selector::UserIds(v) => v.value_params("userids"@),
            Selector::UserPrefix(s) => s.value_params("userprefix"@),
            Selector::IpRange(s) => s.value_params("iprange"@),
        }
    }

    fn ser<W: UrlParamWriter>(&self, w: &mut W) {
        match self {
            Selector::User(v) => v.ser(BufferedName::new("user"), w),
            Selector::UserIds(v) => v.ser(BufferedName::new("userids"), w),
            Selector::UserPrefix(s) => s.ser(BufferedName::new("userprefix"), w),
            Selector::IpRange(s) => s.ser(BufferedName::new("iprange"), w),
        }
    }
}

/// Lists the contributions of users.
#[derive(Clone, Debug)]
pub struct ListUserContribs {
    pub limit: Limit,
    pub selector: Selector,
    pub prop: UserContribsProp,
}

impl WriteUrlParams for ListUserContribs {
    open spec fn params(&self) -> Params {
        self.limit.value_params("uclimit"@) + prefixed("uc"@, self.selector.params())
            + self.prop.value_params("ucprop"@)
    }

    fn ser<W: UrlParamWriter>(&self, w: &mut W) {
        let ghost start = w.written();
        self.limit.ser(BufferedName::new("uclimit"), w);
        ser_prefixed(&self.selector, "uc", w);
        self.prop.ser(BufferedName::new("ucprop"), w);
        assert(w.written() =~= start + self.params());
    }
}

} // verus!
