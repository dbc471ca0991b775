//! Listing recent changes.

use vstd::prelude::*;

use crate::flags::{flag_params, strs_view, write_flags};
use crate::req::Limit;
use crate::types::NowableTime;
use crate::url::{BufferedName, Params, UrlParamWriter, WriteUrlParams, WriteUrlValue};

verus! {

/// The properties of recent changes to fetch.
#[derive(Clone, Copy, Debug, PartialEq, Eq)]
pub struct RcProp {
    pub bits: u16,
}

impl RcProp {
    pub const TITLE: u16 = 1;
    pub const TIMESTAMP: u16 = 2;
    pub const IDS: u16 = 4;
    pub const FLAGS: u16 = 8;
    pub const LOG_INFO: u16 = 16;
    pub const ORES_SCORES: u16 = 32;
    pub const PARSED_COMMENT: u16 = 64;
    pub const PATROLLED: u16 = 128;
    pub const REDIRECT: u16 = 256;
    pub const SHA1: u16 = 512;
    pub const SIZES: u16 = 1024;
    pub const TAGS: u16 = 2048;

    pub fn from_bits(bits: u16) -> (r: Self)
        ensures
            r.bits == bits,
    {
        RcProp { bits }
    }

    pub fn empty() -> (r: Self)
        ensures
            r.bits == 0,
    {
        RcProp { bits: 0 }
    }

    /// The flags set in either.
    pub fn union(self, other: Self) -> (r: Self)
        ensures
            r.bits == self.bits | other.bits,
    {
        RcProp { bits: self.bits | other.bits }
    }

    /// The wire names of the flags, by bit position.
    pub open spec fn names_spec() -> Seq<Seq<char>> {
        seq![
            "title"@,
            "timestamp"@,
            "ids"@,
            "flags"@,
            "loginfo"@,
            "oresscores"@,
            "parsedcomment"@,
            "patrolled"@,
            "redirect"@,
            "sha1"@,
            "sizes"@,
            "tags"@,
        ]
    }

    pub fn names() -> (r: Vec<&'static str>)
        ensures
            strs_view(r@) == Self::names_spec(),
            r@.len() <= 64,
    {
        let r = vec![
            "title",
            "timestamp",
            "ids",
            "flags",
            "loginfo",
            "oresscores",
            "parsedcomment",
            "patrolled",
            "redirect",
            "sha1",
            "sizes",
            "tags",
        ];
        assert(strs_view(r@) =~= Self::names_spec());
        r
    }
}

impl WriteUrlValue for RcProp {
    open spec fn value_params(&self, name: Seq<char>) -> Params {
        flag_params(self.bits as u64, Self::names_spec(), name)
    }

    open spec fn extra_params(&self) -> Params {
        Params::empty()
    }

    fn ser<W: UrlParamWriter>(&self, n: BufferedName, w: &mut W) {
        let names = Self::names();
        write_flags(self.bits as u64, &names, n, w);
    }

    fn ser_additional_only<W: UrlParamWriter>(&self, w: &mut W) {
        assert(w.written() =~= w.written() + Params::empty());
    }
}

/// The kinds of recent change to list.
#[derive(Clone, Copy, Debug, PartialEq, Eq)]
pub struct RcType {
    pub bits: u8,
}

impl RcType {
    pub const EDIT: u8 = 1;
    pub const NEW: u8 = 2;
    pub const EXTERNAL: u8 = 4;
    pub const LOG: u8 = 8;
    pub const CATEGORIZE: u8 = 16;

    pub fn from_bits(bits: u8) -> (r: Self)
        ensures
            r.bits == bits,
    {
        RcType { bits }
    }

    pub fn empty() -> (r: Self)
        ensures
            r.bits == 0,
    {
        RcType { bits: 0 }
    }

    /// The flags set in either.
    pub fn union(self, other: Self) -> (r: Self)
        ensures
            r.bits == self.bits | other.bits,
    {
        RcType { bits: self.bits | other.bits }
    }

    /// The wire names of the flags, by bit position.
    pub open spec fn names_spec() -> Seq<Seq<char>> {
        seq!["edit"@, "new"@, "external"@, "log"@, "categorize"@]
    }

    pub fn names() -> (r: Vec<&'static str>)
        ensures
            strs_view(r@) == Self::names_spec(),
            r@.len() <= 64,
    {
        let r = vec!["edit", "new", "external", "log", "categorize"];
        assert(strs_view(r@) =~= Self::names_spec());
        r
    }
}

impl WriteUrlValue for RcType {
    open spec fn value_params(&self, name: Seq<char>) -> Params {
        flag_params(self.bits as u64, Self::names_spec(), name)
    }

    open spec fn extra_params(&self) -> Params {
        Params::empty()
    }

    fn ser<W: UrlParamWriter>(&self, n: BufferedName, w: &mut W) {
        let names = Self::names();
        write_flags(self.bits as u64, &names, n, w);
    }

    fn ser_additional_only<W: UrlParamWriter>(&self, w: &mut W) {
        assert(w.written() =~= w.written() + Params::empty());
    }
}

/// Lists recent changes.
#[derive(Clone, Debug)]
pub struct ListRc {
    pub start: Option<NowableTime>,
    pub end: Option<NowableTime>,
    pub limit: Limit,
    pub prop: RcProp,
    pub ty: RcType,
}

impl WriteUrlParams for ListRc {
    open spec fn params(&self) -> Params {
        self.start.value_params("rcstart"@)
            + self.end.value_params("rcend"@)
            + self.limit.value_params("rclimit"@)
            + self.prop.value_params("rcprop"@)
            + self.ty.value_params("rctype"@)
    }

    #[verifier::rlimit(40)]
    fn ser<W: UrlParamWriter>(&self, w: &mut W) {
        let ghost start = w.written();
        self.start.ser(BufferedName::new("rcstart"), w);
        self.end.ser(BufferedName::new("rcend"), w);
        self.limit.ser(BufferedName::new("rclimit"), w);
        self.prop.ser(BufferedName::new("rcprop"), w);
        self.ty.ser(BufferedName::new("rctype"), w);
        assert(w.written() =~= start + self.params());
    }
}

} // verus!
