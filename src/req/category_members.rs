//! Listing the members of a category.

use vstd::prelude::*;

use crate::flags::{flag_params, strs_view, write_flags};
use crate::req::{Limit, PageSpec};
use crate::url::{BufferedName, Params, UrlParamWriter, WriteUrlParams, WriteUrlValue, prefixed, ser_prefixed};

verus! {

/// The kinds of category member to list.
#[derive(Clone, Copy, Debug, PartialEq, Eq)]
pub struct CategoryMembersType {
    pub bits: u8,
}

impl CategoryMembersType {
    pub const FILE: u8 = 1;
    pub const PAGE: u8 = 2;
    pub const SUBCAT: u8 = 4;

    pub fn from_bits(bits: u8) -> (r: Self)
        ensures
            r.bits == bits,
    {
        CategoryMembersType { bits }
    }

    pub fn empty() -> (r: Self)
        ensures
            r.bits == 0,
    {
        CategoryMembersType { bits: 0 }
    }

    /// The flags set in either.
    pub fn union(self, other: Self) -> (r: Self)
        ensures
            r.bits == self.bits | other.bits,
    {
        CategoryMembersType { bits: self.bits | other.bits }
    }

    /// The wire names of the flags, by bit position.
    pub open spec fn names_spec() -> Seq<Seq<char>> {
        seq!["file"@, "page"@, "subcat"@]
    }

    pub fn names() -> (r: Vec<&'static str>)
        ensures
            strs_view(r@) == Self::names_spec(),
            r@.len() <= 64,
    {
        let r = vec!["file", "page", "subcat"];
        assert(strs_view(r@) =~= Self::names_spec());
        r
    }
}

impl WriteUrlValue for CategoryMembersType {
    open spec fn value_params(&self, name: Seq<char>) -> Params {
        flag_params(self.bits as u64, Self::names_spec(), name)
    }

    open spec fn extra_params(&self) -> Params {
        Params::empty()
    }

    fn ser<W: UrlParamWriter>(&self, n: BufferedName, w: &mut W) {
        let names = Self::names();
        write_flags(self.bits as u64, &names, n, w);
    }

    fn ser_additional_only<W: UrlParamWriter>(&self, w: &mut W) {
        assert(w.written() =~= w.written() + Params::empty());
    }
}

/// The properties of category members to fetch.
#[derive(Clone, Copy, Debug, PartialEq, Eq)]
pub struct CategoryMembersProp {
    pub bits: u8,
}

impl CategoryMembersProp {
    pub const IDS: u8 = 1;
    pub const SORT_KEY: u8 = 2;
    pub const SORT_KEY_PREFIX: u8 = 4;
    pub const TIMESTAMP: u8 = 8;
    pub const TITLE: u8 = 16;
    pub const TYPE: u8 = 32;

    pub fn from_bits(bits: u8) -> (r: Self)
        ensures
            r.bits == bits,
    {
        CategoryMembersProp { bits }
    }

    pub fn empty() -> (r: Self)
        ensures
            r.bits == 0,
    {
        CategoryMembersProp { bits: 0 }
    }

    /// The flags set in either.
    pub fn union(self, other: Self) -> (r: Self)
        ensures
            r.bits == self.bits | other.bits,
    {
        CategoryMembersProp { bits: self.bits | other.bits }
    }

    /// The wire names of the flags, by bit position.
    pub open spec fn names_spec() -> Seq<Seq<char>> {
        seq!["ids"@, "sortkey"@, "sortkeyprefix"@, "timestamp"@, "title"@, "type"@]
    }

    pub fn names() -> (r: Vec<&'static str>)
        ensures
            strs_view(r@) == Self::names_spec(),
            r@.len() <= 64,
    {
        let r = vec!["ids", "sortkey", "sortkeyprefix", "timestamp", "title", "type"];
        assert(strs_view(r@) =~= Self::names_spec());
        r
    }
}

impl WriteUrlValue for CategoryMembersProp {
    open spec fn value_params(&self, name: Seq<char>) -> Params {
        flag_params(self.bits as u64, Self::names_spec(), name)
    }

    open spec fn extra_params(&self) -> Params {
        Params::empty()
    }

    fn ser<W: UrlParamWriter>(&self, n: BufferedName, w: &mut W) {
        let names = Self::names();
        write_flags(self.bits as u64, &names, n, w);
    }

    fn ser_additional_only<W: UrlParamWriter>(&self, w: &mut W) {
        assert(w.written() =~= w.written() + Params::empty());
    }
}

/// Lists the members of a category.
#[derive(Clone, Debug)]
pub struct ListCategoryMembers {
    pub spec: PageSpec,
    pub limit: Limit,
    pub ty: CategoryMembersType,
    pub prop: CategoryMembersProp,
}

impl WriteUrlParams for ListCategoryMembers {
    /// The page is flattened in under the `cm` prefix.
    open spec fn params(&self) -> Params {
        prefixed("cm"@, self.spec.params()) + self.limit.value_params("cmlimit"@) + self.ty.value_params("cmtype"@)
            + self.prop.value_params("cmprop"@)
    }

    fn ser<W: UrlParamWriter>(&self, w: &mut W) {
        let ghost start = w.written();
        ser_prefixed(&self.spec, "cm", w);
        self.limit.ser(BufferedName::new("cmlimit"), w);
        self.ty.ser(BufferedName::new("cmtype"), w);
        self.prop.ser(BufferedName::new("cmprop"), w);
        assert(w.written() =~= start + self.params());
    }
}

/// A page title flattened into a category-members list is written under the
/// list's `cm` prefix: as `cmtitle`, the first of the list's parameters.
pub proof fn lemma_flatten_prefix(l: ListCategoryMembers, title: String)
    requires
        l.spec == PageSpec::Title(title),
    ensures
        l.params()[0] == ("cmtitle"@, title@),
{
    reveal_strlit("cm");
    reveal_strlit("title");
    reveal_strlit("cmtitle");
    assert("cm"@ + "title"@ =~= "cmtitle"@);
    assert(prefixed("cm"@, l.spec.params())[0] == ("cm"@ + "title"@, title@));
}

} // verus!
