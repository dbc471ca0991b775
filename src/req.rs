//! Request descriptions and how each writes its wire parameters.

pub mod abuse_filter;
pub mod abuse_log;
pub mod block;
pub mod category_members;
pub mod contribs;
pub mod events;
pub mod parse;
pub mod rc;
pub mod search;

use vstd::prelude::*;

use crate::encode::decimal;
use crate::enum_set::{BitflaggedEnum, EnumSet, NamedEnum};
use crate::flags::{flag_params, strs_view, write_flags};
use crate::types::MwTimestamp;
use crate::url::{BufferedName, Params, UrlParamWriter, WriteUrlParams, WriteUrlValue, one};

pub use abuse_filter::{CheckMatch, CheckMatchTest};
pub use abuse_log::{AbuseFilterProp, AbuseLogProp, ListAbuseFilters, ListAbuseLog};
pub use block::{Block, Expiry};
pub use category_members::{CategoryMembersProp, CategoryMembersType, ListCategoryMembers};
pub use contribs::{ListUserContribs, Selector, UserContribsProp};
pub use events::{ListLogEvents, LogEventsProp};
pub use parse::{Parse, ParseProp};
pub use rc::{ListRc, RcProp, RcType};
pub use search::SearchGenerator;

verus! {

/// How many results to ask for.
#[derive(Clone, Copy, Debug, PartialEq, Eq)]
pub enum Limit {
    Max,
    Value(usize),
    Unset,
}

impl WriteUrlValue for Limit {
    open spec fn value_params(&self, name: Seq<char>) -> Params {
        match self {
            Limit::Max => one(name, "max"@),
            Limit::Value(v) => one(name, decimal(*v as nat)),
            Limit::Unset => Params::empty(),
        }
    }

    open spec fn extra_params(&self) -> Params {
        Params::empty()
    }

    fn ser<W: UrlParamWriter>(&self, n: BufferedName, w: &mut W) {
        match self {
            Limit::Max => {
                n.write(w, "max");
                assert(final(w).written() =~= old(w).written() + one(n.name(), "max"@));
            },
            Limit::Value(v) => {
                let v = *v as u64;
                v.ser(n, w);
            },
            Limit::Unset => {
                assert(w.written() =~= w.written() + Params::empty());
            },
        }
    }

    fn ser_additional_only<W: UrlParamWriter>(&self, w: &mut W) {
        assert(w.written() =~= w.written() + Params::empty());
    }
}

/// Which section an edit touches.
#[derive(Clone, Debug, PartialEq, Eq)]
pub enum EditSection {
    Num(u32),
    New { title: String },
    Custom(String),
}

impl WriteUrlValue for EditSection {
    /// A new section is written as `new`, followed by `sectiontitle`.
    open spec fn value_params(&self, name: Seq<char>) -> Params {
        match self {
            EditSection::Num(n) => one(name, decimal(*n as nat)),
            EditSection::New { title } => one(name, "new"@) + one("sectiontitle"@, title@),
            EditSection::Custom(s) => one(name, s@),
        }
    }

    open spec fn extra_params(&self) -> Params {
        match self {
            EditSection::New { title } => one("sectiontitle"@, title@),
            _ => Params::empty(),
        }
    }

    fn ser<W: UrlParamWriter>(&self, n: BufferedName, w: &mut W) {
        match self {
            EditSection::Num(v) => v.ser(n, w),
            EditSection::New { title } => {
                let ghost start = w.written();
                let ghost name = n.name();
                n.write(w, "new");
                w.add("sectiontitle", title.as_str());
                assert(w.written() =~= start + (one(name, "new"@) + one("sectiontitle"@, title@)));
            },
            EditSection::Custom(s) => s.ser(n, w),
        }
    }

    fn ser_additional_only<W: UrlParamWriter>(&self, w: &mut W) {
        match self {
            EditSection::New { title } => {
                w.add("sectiontitle", title.as_str());
                assert(final(w).written() =~= old(w).written() + one("sectiontitle"@, title@));
            },
            _ => {
                assert(w.written() =~= w.written() + Params::empty());
            },
        }
    }
}

/// A page, by title or by id; exactly one of the two is written.
#[derive(Clone, Debug, PartialEq, Eq)]
pub enum PageSpec {
    Title(String),
    PageId(u32),
}

impl WriteUrlParams for PageSpec {
    open spec fn params(&self) -> Params {
        match self {
            PageSpec::Title(t) => one("title"@, t@),
            PageSpec::PageId(id) => one("pageid"@, decimal(*id as nat)),
        }
    }

    fn ser<W: UrlParamWriter>(&self, w: &mut W) {
        match self {
            PageSpec::Title(t) => t.ser(BufferedName::new("title"), w),
            PageSpec::PageId(id) => id.ser(BufferedName::new("pageid"), w),
        }
    }
}

/// The response format.
#[derive(Clone, Copy, Debug, PartialEq, Eq)]
pub enum Format {
    Json { formatversion: u8 },
    Nothing,
    Php,
    RawFm,
    Xml,
}

impl NamedEnum for Format {
    open spec fn name_spec(&self) -> Seq<char> {
        match self {
            Format::Json { .. } => "json"@,
            Format::Nothing => "none"@,
            Format::Php => "php"@,
            Format::RawFm => "rawfm"@,
            Format::Xml => "xml"@,
        }
    }

    fn variant_name(&self) -> (r: &'static str) {
        match self {
            Format::Json { .. } => "json",
            Format::Nothing => "none",
            Format::Php => "php",
            Format::RawFm => "rawfm",
            Format::Xml => "xml",
        }
    }
}

impl WriteUrlValue for Format {
    /// JSON is followed by its `formatversion`.
    open spec fn value_params(&self, name: Seq<char>) -> Params {
        one(name, self.name_spec()) + self.extra_params()
    }

    open spec fn extra_params(&self) -> Params {
        match self {
            Format::Json { formatversion } => one("formatversion"@, decimal(*formatversion as nat)),
            _ => Params::empty(),
        }
    }

    fn ser<W: UrlParamWriter>(&self, n: BufferedName, w: &mut W) {
        let ghost start = w.written();
        let ghost name = n.name();
        n.write(w, self.variant_name());
        self.ser_additional_only(w);
        assert(w.written() =~= start + self.value_params(name));
    }

    fn ser_additional_only<W: UrlParamWriter>(&self, w: &mut W) {
        match self {
            Format::Json { formatversion } => {
                let v = *formatversion as u32;
                v.ser(BufferedName::new("formatversion"), w);
            },
            _ => {
                assert(w.written() =~= w.written() + Params::empty());
            },
        }
    }
}

/// Logging in with a name, a password and a login token.
#[derive(Clone, Debug)]
pub struct Login {
    pub name: String,
    pub password: String,
    pub token: String,
}

impl WriteUrlParams for Login {
    open spec fn params(&self) -> Params {
        one("lgname"@, self.name@) + one("lgpassword"@, self.password@) + one("lgtoken"@, self.token@)
    }

    fn ser<W: UrlParamWriter>(&self, w: &mut W) {
        let ghost start = w.written();
        w.add("lgname", self.name.as_str());
        w.add("lgpassword", self.password.as_str());
        w.add("lgtoken", self.token.as_str());
        assert(w.written() =~= start + self.params());
    }
}

/// A revision property to fetch.
#[derive(Clone, Copy, Debug, PartialEq, Eq)]
pub enum RvProp {
    Comment,
    Content,
    ContentModel,
    Flagged,
    Flags,
    Ids,
    OresScores,
    ParsedComment,
    Roles,
    Sha1,
    Size,
    SlotSha1,
    SlotSize,
    Tags,
    Timestamp,
    User,
    UserId,
}

impl NamedEnum for RvProp {
    open spec fn name_spec(&self) -> Seq<char> {
        match self {
            RvProp::Comment => "comment"@,
            RvProp::Content => "content"@,
            RvProp::ContentModel => "contentmodel"@,
            RvProp::Flagged => "flagged"@,
            RvProp::Flags => "flags"@,
            RvProp::Ids => "ids"@,
            RvProp::OresScores => "oresscores"@,
            RvProp::ParsedComment => "parsedcomment"@,
            RvProp::Roles => "roles"@,
            RvProp::Sha1 => "sha1"@,
            RvProp::Size => "size"@,
            RvProp::SlotSha1 => "slotsha1"@,
            RvProp::SlotSize => "slotsize"@,
            RvProp::Tags => "tags"@,
            RvProp::Timestamp => "timestamp"@,
            RvProp::User => "user"@,
            RvProp::UserId => "userid"@,
        }
    }

    fn variant_name(&self) -> (r: &'static str) {
        match self {
            RvProp::Comment => "comment",
            RvProp::Content => "content",
            RvProp::ContentModel => "contentmodel",
            RvProp::Flagged => "flagged",
            RvProp::Flags => "flags",
            RvProp::Ids => "ids",
            RvProp::OresScores => "oresscores",
            RvProp::ParsedComment => "parsedcomment",
            RvProp::Roles => "roles",
            RvProp::Sha1 => "sha1",
            RvProp::Size => "size",
            RvProp::SlotSha1 => "slotsha1",
            RvProp::SlotSize => "slotsize",
            RvProp::Tags => "tags",
            RvProp::Timestamp => "timestamp",
            RvProp::User => "user",
            RvProp::UserId => "userid",
        }
    }
}

impl BitflaggedEnum for RvProp {
    proof fn lemma_bit_names(a: &Self, b: &Self) {
    }

    open spec fn bit_spec(&self) -> nat {
        match self {
            RvProp::Comment => 0,
            RvProp::Content => 1,
            RvProp::ContentModel => 2,
            RvProp::Flagged => 3,
            RvProp::Flags => 4,
            RvProp::Ids => 5,
            RvProp::OresScores => 6,
            RvProp::ParsedComment => 7,
            RvProp::Roles => 8,
            RvProp::Sha1 => 9,
            RvProp::Size => 10,
            RvProp::SlotSha1 => 11,
            RvProp::SlotSize => 12,
            RvProp::Tags => 13,
            RvProp::Timestamp => 14,
            RvProp::User => 15,
            RvProp::UserId => 16,
        }
    }

    fn bit(&self) -> (r: u32) {
        match self {
            RvProp::Comment => 0,
            RvProp::Content => 1,
            RvProp::ContentModel => 2,
            RvProp::Flagged => 3,
            RvProp::Flags => 4,
            RvProp::Ids => 5,
            RvProp::OresScores => 6,
            RvProp::ParsedComment => 7,
            RvProp::Roles => 8,
            RvProp::Sha1 => 9,
            RvProp::Size => 10,
            RvProp::SlotSha1 => 11,
            RvProp::SlotSize => 12,
            RvProp::Tags => 13,
            RvProp::Timestamp => 14,
            RvProp::User => 15,
            RvProp::UserId => 16,
        }
    }
}

impl WriteUrlValue for RvProp {
    open spec fn value_params(&self, name: Seq<char>) -> Params {
        one(name, self.name_spec())
    }

    open spec fn extra_params(&self) -> Params {
        Params::empty()
    }

    fn ser<W: UrlParamWriter>(&self, n: BufferedName, w: &mut W) {
        n.write(w, self.variant_name());
        assert(final(w).written() =~= old(w).written() + one(n.name(), self.name_spec()));
    }

    fn ser_additional_only<W: UrlParamWriter>(&self, w: &mut W) {
        assert(w.written() =~= w.written() + Params::empty());
    }
}

/// A revision slot to fetch.
#[derive(Clone, Copy, Debug, PartialEq, Eq)]
pub enum RvSlot {
    Main,
    All,
}

impl NamedEnum for RvSlot {
    open spec fn name_spec(&self) -> Seq<char> {
        match self {
            RvSlot::Main => "main"@,
            RvSlot::All => "*"@,
        }
    }

    fn variant_name(&self) -> (r: &'static str) {
        match self {
            RvSlot::Main => "main",
            RvSlot::All => "*",
        }
    }
}

impl BitflaggedEnum for RvSlot {
    proof fn lemma_bit_names(a: &Self, b: &Self) {
    }

    open spec fn bit_spec(&self) -> nat {
        match self {
            RvSlot::Main => 0,
            RvSlot::All => 1,
        }
    }

    fn bit(&self) -> (r: u32) {
        match self {
            RvSlot::Main => 0,
            RvSlot::All => 1,
        }
    }
}

impl WriteUrlValue for RvSlot {
    open spec fn value_params(&self, name: Seq<char>) -> Params {
        one(name, self.name_spec())
    }

    open spec fn extra_params(&self) -> Params {
        Params::empty()
    }

    fn ser<W: UrlParamWriter>(&self, n: BufferedName, w: &mut W) {
        n.write(w, self.variant_name());
        assert(final(w).written() =~= old(w).written() + one(n.name(), self.name_spec()));
    }

    fn ser_additional_only<W: UrlParamWriter>(&self, w: &mut W) {
        assert(w.written() =~= w.written() + Params::empty());
    }
}

/// A property of the current user to fetch.
#[derive(Clone, Copy, Debug, PartialEq, Eq)]
pub enum UserInfoProp {
    Rights,
}

impl NamedEnum for UserInfoProp {
    open spec fn name_spec(&self) -> Seq<char> {
        match self {
            UserInfoProp::Rights => "rights"@,
        }
    }

    fn variant_name(&self) -> (r: &'static str) {
        match self {
            UserInfoProp::Rights => "rights",
        }
    }
}

impl BitflaggedEnum for UserInfoProp {
    proof fn lemma_bit_names(a: &Self, b: &Self) {
    }

    open spec fn bit_spec(&self) -> nat {
        match self {
            UserInfoProp::Rights => 0,
        }
    }

    fn bit(&self) -> (r: u32) {
        match self {
            UserInfoProp::Rights => 0,
        }
    }
}

impl WriteUrlValue for UserInfoProp {
    open spec fn value_params(&self, name: Seq<char>) -> Params {
        one(name, self.name_spec())
    }

    open spec fn extra_params(&self) -> Params {
        Params::empty()
    }

    fn ser<W: UrlParamWriter>(&self, n: BufferedName, w: &mut W) {
        n.write(w, self.variant_name());
        assert(final(w).written() =~= old(w).written() + one(n.name(), self.name_spec()));
    }

    fn ser_additional_only<W: UrlParamWriter>(&self, w: &mut W) {
        assert(w.written() =~= w.written() + Params::empty());
    }
}

/// What an edit does to the page's watch status.
#[derive(Clone, Copy, Debug, PartialEq, Eq)]
pub enum Watchlist {
    NoChange,
    Preferences,
    Unwatch,
    Watch,
}

impl NamedEnum for Watchlist {
    open spec fn name_spec(&self) -> Seq<char> {
        match self {
            Watchlist::NoChange => "nochange"@,
            Watchlist::Preferences => "preferences"@,
            Watchlist::Unwatch => "unwatch"@,
            Watchlist::Watch => "watch"@,
        }
    }

    fn variant_name(&self) -> (r: &'static str) {
        match self {
            Watchlist::NoChange => "nochange",
            Watchlist::Preferences => "preferences",
            Watchlist::Unwatch => "unwatch",
            Watchlist::Watch => "watch",
        }
    }
}

impl BitflaggedEnum for Watchlist {
    proof fn lemma_bit_names(a: &Self, b: &Self) {
    }

    open spec fn bit_spec(&self) -> nat {
        match self {
            Watchlist::NoChange => 0,
            Watchlist::Preferences => 1,
            Watchlist::Unwatch => 2,
            Watchlist::Watch => 3,
        }
    }

    fn bit(&self) -> (r: u32) {
        match self {
            Watchlist::NoChange => 0,
            Watchlist::Preferences => 1,
            Watchlist::Unwatch => 2,
            Watchlist::Watch => 3,
        }
    }
}

impl WriteUrlValue for Watchlist {
    open spec fn value_params(&self, name: Seq<char>) -> Params {
        one(name, self.name_spec())
    }

    open spec fn extra_params(&self) -> Params {
        Params::empty()
    }

    fn ser<W: UrlParamWriter>(&self, n: BufferedName, w: &mut W) {
        n.write(w, self.variant_name());
        assert(final(w).written() =~= old(w).written() + one(n.name(), self.name_spec()));
    }

    fn ser_additional_only<W: UrlParamWriter>(&self, w: &mut W) {
        assert(w.written() =~= w.written() + Params::empty());
    }
}

/// The kinds of token to request.
#[derive(Clone, Copy, Debug, PartialEq, Eq)]
pub struct TokenType {
    pub bits: u16,
}

impl TokenType {
    pub const CREATE_ACCOUNT: u16 = 1;
    pub const CSRF: u16 = 2;
    pub const DELETE_GLOBAL_ACCOUNT: u16 = 4;
    pub const LOGIN: u16 = 8;
    pub const PATROL: u16 = 16;
    pub const ROLLBACK: u16 = 32;
    pub const SET_GLOBAL_ACCOUNT_STATUS: u16 = 64;
    pub const USER_RIGHTS: u16 = 128;
    pub const WATCH: u16 = 256;

    pub fn from_bits(bits: u16) -> (r: Self)
        ensures
            r.bits == bits,
    {
        TokenType { bits }
    }

    pub fn empty() -> (r: Self)
        ensures
            r.bits == 0,
    {
        TokenType { bits: 0 }
    }

    /// The flags set in either.
    pub fn union(self, other: Self) -> (r: Self)
        ensures
            r.bits == self.bits | other.bits,
    {
        TokenType { bits: self.bits | other.bits }
    }

    /// The wire names of the flags, by bit position.
    pub open spec fn names_spec() -> Seq<Seq<char>> {
        seq![
            "createaccount"@,
            "csrf"@,
            "deleteglobalaccount"@,
            "login"@,
            "patrol"@,
            "rollback"@,
            "setglobalaccountstatus"@,
            "userrights"@,
            "watch"@,
        ]
    }

    pub fn names() -> (r: Vec<&'static str>)
        ensures
            strs_view(r@) == Self::names_spec(),
            r@.len() <= 64,
    {
        let r = vec![
            "createaccount",
            "csrf",
            "deleteglobalaccount",
            "login",
            "patrol",
            "rollback",
            "setglobalaccountstatus",
            "userrights",
            "watch",
        ];
        assert(strs_view(r@) =~= Self::names_spec());
        r
    }
}

impl WriteUrlValue for TokenType {
    open spec fn value_params(&self, name: Seq<char>) -> Params {
        flag_params(self.bits as u64, Self::names_spec(), name)
    }

    open spec fn extra_params(&self) -> Params {
        Params::empty()
    }

    fn ser<W: UrlParamWriter>(&self, n: BufferedName, w: &mut W) {
        let names = Self::names();
        write_flags(self.bits as u64, &names, n, w);
    }

    fn ser_additional_only<W: UrlParamWriter>(&self, w: &mut W) {
        assert(w.written() =~= w.written() + Params::empty());
    }
}

/// Lists the pages matching a full-text search.
#[derive(Clone, Debug)]
pub struct ListSearch {
    pub search: String,
    pub limit: Limit,
}

impl WriteUrlParams for ListSearch {
    open spec fn params(&self) -> Params {
        one("srsearch"@, self.search@) + self.limit.value_params("srlimit"@)
    }

    fn ser<W: UrlParamWriter>(&self, w: &mut W) {
        let ghost start = w.written();
        self.search.ser(BufferedName::new("srsearch"), w);
        self.limit.ser(BufferedName::new("srlimit"), w);
        assert(w.written() =~= start + self.params());
    }
}

/// A list module to query.
#[derive(Clone, Debug)]
pub enum QueryList {
    Search(ListSearch),
    RecentChanges(ListRc),
    AbuseLog(ListAbuseLog),
    LogEvents(ListLogEvents),
    UserContribs(ListUserContribs),
    CategoryMembers(ListCategoryMembers),
    AbuseFilters(ListAbuseFilters),
}

impl NamedEnum for QueryList {
    open spec fn name_spec(&self) -> Seq<char> {
        match self {
            QueryList::Search(..) => "search"@,
            QueryList::RecentChanges(..) => "recentchanges"@,
            QueryList::AbuseLog(..) => "abuselog"@,
            QueryList::LogEvents(..) => "logevents"@,
            QueryList::UserContribs(..) => "usercontribs"@,
            QueryList::CategoryMembers(..) => "categorymembers"@,
            QueryList::AbuseFilters(..) => "abusefilters"@,
        }
    }

    fn variant_name(&self) -> (r: &'static str) {
        match self {
            QueryList::Search(..) => "search",
            QueryList::RecentChanges(..) => "recentchanges",
            QueryList::AbuseLog(..) => "abuselog",
            QueryList::LogEvents(..) => "logevents",
            QueryList::UserContribs(..) => "usercontribs",
            QueryList::CategoryMembers(..) => "categorymembers",
            QueryList::AbuseFilters(..) => "abusefilters",
        }
    }
}

impl BitflaggedEnum for QueryList {
    proof fn lemma_bit_names(a: &Self, b: &Self) {
    }

    open spec fn bit_spec(&self) -> nat {
        match self {
            QueryList::Search(..) => 0,
            QueryList::RecentChanges(..) => 1,
            QueryList::AbuseLog(..) => 2,
            QueryList::LogEvents(..) => 3,
            QueryList::UserContribs(..) => 4,
            QueryList::CategoryMembers(..) => 5,
            QueryList::AbuseFilters(..) => 6,
        }
    }

    fn bit(&self) -> (r: u32) {
        match self {
            QueryList::Search(..) => 0,
            QueryList::RecentChanges(..) => 1,
            QueryList::AbuseLog(..) => 2,
            QueryList::LogEvents(..) => 3,
            QueryList::UserContribs(..) => 4,
            QueryList::CategoryMembers(..) => 5,
            QueryList::AbuseFilters(..) => 6,
        }
    }
}

impl WriteUrlValue for QueryList {
    /// The variant's name, then the variant's own parameters.
    open spec fn value_params(&self, name: Seq<char>) -> Params {
        one(name, self.name_spec()) + self.extra_params()
    }

    open spec fn extra_params(&self) -> Params {
        match self {
            QueryList::Search(x) => x.params(),
            QueryList::RecentChanges(x) => x.params(),
            QueryList::AbuseLog(x) => x.params(),
            QueryList::LogEvents(x) => x.params(),
            QueryList::UserContribs(x) => x.params(),
            QueryList::CategoryMembers(x) => x.params(),
            QueryList::AbuseFilters(x) => x.params(),
        }
    }

    fn ser<W: UrlParamWriter>(&self, n: BufferedName, w: &mut W) {
        let ghost start = w.written();
        let ghost name = n.name();
        n.write(w, self.variant_name());
        self.ser_additional_only(w);
        assert(w.written() =~= start + self.value_params(name));
    }

    fn ser_additional_only<W: UrlParamWriter>(&self, w: &mut W) {
        match self {
            QueryList::Search(x) => x.ser(w),
            QueryList::RecentChanges(x) => x.ser(w),
            QueryList::AbuseLog(x) => x.ser(w),
            QueryList::LogEvents(x) => x.ser(w),
            QueryList::UserContribs(x) => x.ser(w),
            QueryList::CategoryMembers(x) => x.ser(w),
            QueryList::AbuseFilters(x) => x.ser(w),
        }
    }
}

/// A meta module to query.
#[derive(Clone, Debug)]
pub enum QueryMeta {
    Tokens { type_: TokenType },
    UserInfo(MetaUserInfo),
}

impl NamedEnum for QueryMeta {
    open spec fn name_spec(&self) -> Seq<char> {
        match self {
            QueryMeta::Tokens { .. } => "tokens"@,
            QueryMeta::UserInfo(..) => "userinfo"@,
        }
    }

    fn variant_name(&self) -> (r: &'static str) {
        match self {
            QueryMeta::Tokens { .. } => "tokens",
            QueryMeta::UserInfo(..) => "userinfo",
        }
    }
}

impl BitflaggedEnum for QueryMeta {
    proof fn lemma_bit_names(a: &Self, b: &Self) {
    }

    open spec fn bit_spec(&self) -> nat {
        match self {
            QueryMeta::Tokens { .. } => 0,
            QueryMeta::UserInfo(..) => 1,
        }
    }

    fn bit(&self) -> (r: u32) {
        match self {
            QueryMeta::Tokens { .. } => 0,
            QueryMeta::UserInfo(..) => 1,
        }
    }
}

impl WriteUrlValue for QueryMeta {
    /// The variant's name, then the variant's own parameters.
    open spec fn value_params(&self, name: Seq<char>) -> Params {
        one(name, self.name_spec()) + self.extra_params()
    }

    open spec fn extra_params(&self) -> Params {
        match self {
            QueryMeta::Tokens { type_ } => type_.value_params("type"@),
            QueryMeta::UserInfo(x) => x.params(),
        }
    }

    fn ser<W: UrlParamWriter>(&self, n: BufferedName, w: &mut W) {
        let ghost start = w.written();
        let ghost name = n.name();
        n.write(w, self.variant_name());
        self.ser_additional_only(w);
        assert(w.written() =~= start + self.value_params(name));
    }

    fn ser_additional_only<W: UrlParamWriter>(&self, w: &mut W) {
        match self {
            QueryMeta::Tokens { type_ } => type_.ser(BufferedName::new("type"), w),
            QueryMeta::UserInfo(x) => x.ser(w),
        }
    }
}

/// A property module to query.
#[derive(Clone, Debug)]
pub enum QueryProp {
    Revisions(QueryPropRevisions),
}

impl NamedEnum for QueryProp {
    open spec fn name_spec(&self) -> Seq<char> {
        match self {
            QueryProp::Revisions(..) => "revisions"@,
        }
    }

    fn variant_name(&self) -> (r: &'static str) {
        match self {
            QueryProp::Revisions(..) => "revisions",
        }
    }
}

impl BitflaggedEnum for QueryProp {
    proof fn lemma_bit_names(a: &Self, b: &Self) {
    }

    open spec fn bit_spec(&self) -> nat {
        match self {
            QueryProp::Revisions(..) => 0,
        }
    }

    fn bit(&self) -> (r: u32) {
        match self {
            QueryProp::Revisions(..) => 0,
        }
    }
}

impl WriteUrlValue for QueryProp {
    /// The variant's name, then the variant's own parameters.
    open spec fn value_params(&self, name: Seq<char>) -> Params {
        one(name, self.name_spec()) + self.extra_params()
    }

    open spec fn extra_params(&self) -> Params {
        match self {
            QueryProp::Revisions(x) => x.params(),
        }
    }

    fn ser<W: UrlParamWriter>(&self, n: BufferedName, w: &mut W) {
        let ghost start = w.written();
        let ghost name = n.name();
        n.write(w, self.variant_name());
        self.ser_additional_only(w);
        assert(w.written() =~= start + self.value_params(name));
    }

    fn ser_additional_only<W: UrlParamWriter>(&self, w: &mut W) {
        match self {
            QueryProp::Revisions(x) => x.ser(w),
        }
    }
}

/// A generator module that picks the pages of a query.
#[derive(Clone, Debug)]
pub enum QueryGenerator {
    Search(SearchGenerator),
}

impl NamedEnum for QueryGenerator {
    open spec fn name_spec(&self) -> Seq<char> {
        match self {
            QueryGenerator::Search(..) => "search"@,
        }
    }

    fn variant_name(&self) -> (r: &'static str) {
        match self {
            QueryGenerator::Search(..) => "search",
        }
    }
}

impl WriteUrlValue for QueryGenerator {
    /// The variant's name, then the variant's own parameters.
    open spec fn value_params(&self, name: Seq<char>) -> Params {
        one(name, self.name_spec()) + self.extra_params()
    }

    open spec fn extra_params(&self) -> Params {
        match self {
            QueryGenerator::Search(x) => x.params(),
        }
    }

    fn ser<W: UrlParamWriter>(&self, n: BufferedName, w: &mut W) {
        let ghost start = w.written();
        let ghost name = n.name();
        n.write(w, self.variant_name());
        self.ser_additional_only(w);
        assert(w.written() =~= start + self.value_params(name));
    }

    fn ser_additional_only<W: UrlParamWriter>(&self, w: &mut W) {
        match self {
            QueryGenerator::Search(x) => x.ser(w),
        }
    }
}

/// The API action to perform.
#[derive(Clone, Debug)]
pub enum Action {
    Query(Query),
    Edit(Edit),
    Login(Login),
    Parse(Parse),
    Block(Block),
}

impl NamedEnum for Action {
    open spec fn name_spec(&self) -> Seq<char> {
        match self {
            Action::Query(..) => "query"@,
            Action::Edit(..) => "edit"@,
            Action::Login(..) => "login"@,
            Action::Parse(..) => "parse"@,
            Action::Block(..) => "block"@,
        }
    }

    fn variant_name(&self) -> (r: &'static str) {
        match self {
            Action::Query(..) => "query",
            Action::Edit(..) => "edit",
            Action::Login(..) => "login",
            Action::Parse(..) => "parse",
            Action::Block(..) => "block",
        }
    }
}

impl WriteUrlValue for Action {
    /// The variant's name, then the variant's own parameters.
    open spec fn value_params(&self, name: Seq<char>) -> Params {
        one(name, self.name_spec()) + self.extra_params()
    }

    open spec fn extra_params(&self) -> Params {
        match self {
            Action::Query(x) => x.params(),
            Action::Edit(x) => x.params(),
            Action::Login(x) => x.params(),
            Action::Parse(x) => x.params(),
            Action::Block(x) => x.params(),
        }
    }

    fn ser<W: UrlParamWriter>(&self, n: BufferedName, w: &mut W) {
        let ghost start = w.written();
        let ghost name = n.name();
        n.write(w, self.variant_name());
        self.ser_additional_only(w);
        assert(w.written() =~= start + self.value_params(name));
    }

    fn ser_additional_only<W: UrlParamWriter>(&self, w: &mut W) {
        match self {
            Action::Query(x) => x.ser(w),
            Action::Edit(x) => x.ser(w),
            Action::Login(x) => x.ser(w),
            Action::Parse(x) => x.ser(w),
            Action::Block(x) => x.ser(w),
        }
    }
}

/// Information about the current user.
#[derive(Clone, Debug)]
pub struct MetaUserInfo {
    pub prop: Option<EnumSet<UserInfoProp>>,
}

impl WriteUrlParams for MetaUserInfo {
    open spec fn params(&self) -> Params {
        self.prop.value_params("uiprop"@)
    }

    fn ser<W: UrlParamWriter>(&self, w: &mut W) {
        self.prop.ser(BufferedName::new("uiprop"), w);
    }
}

/// Revisions of the queried pages.
#[derive(Clone, Debug)]
pub struct QueryPropRevisions {
    pub prop: EnumSet<RvProp>,
    pub slots: EnumSet<RvSlot>,
    pub limit: Limit,
}

impl WriteUrlParams for QueryPropRevisions {
    open spec fn params(&self) -> Params {
        self.prop.value_params("rvprop"@) + self.slots.value_params("rvslots"@) + self.limit.value_params("rvlimit"@)
    }

    fn ser<W: UrlParamWriter>(&self, w: &mut W) {
        let ghost start = w.written();
        self.prop.ser(BufferedName::new("rvprop"), w);
        self.slots.ser(BufferedName::new("rvslots"), w);
        self.limit.ser(BufferedName::new("rvlimit"), w);
        assert(w.written() =~= start + self.params());
    }
}

/// A query: lists, meta information and page properties, for the given pages.
#[derive(Clone, Debug)]
pub struct Query {
    pub list: Option<EnumSet<QueryList>>,
    pub meta: Option<EnumSet<QueryMeta>>,
    /// Which properties to get for the queried pages.
    pub prop: Option<EnumSet<QueryProp>>,
    pub titles: Option<Vec<String>>,
    pub pageids: Option<Vec<u32>>,
    pub generator: Option<QueryGenerator>,
}

impl Query {
    /// A query that asks for nothing yet.
    pub fn new() -> (r: Self)
        ensures
            r.list is None && r.meta is None && r.prop is None && r.titles is None && r.pageids is None
                && r.generator is None,
    {
        Query { list: None, meta: None, prop: None, titles: None, pageids: None, generator: None }
    }
}

/// The query aims at exactly the page `page`, by title or by id.
pub open spec fn aims_at(q: Query, page: PageSpec) -> bool {
    match page {
        PageSpec::Title(t) => q.pageids is None && match q.titles {
            Some(v) => v@ == seq![t],
            None => false,
        },
        PageSpec::PageId(id) => q.titles is None && match q.pageids {
            Some(v) => v@ == seq![id],
            None => false,
        },
    }
}

/// The property is the content of the main slot of the latest revision.
pub open spec fn is_latest_content(p: QueryProp) -> bool {
    match p {
        QueryProp::Revisions(rv) => rv.prop@ == seq![RvProp::Content] && rv.slots@ == seq![RvSlot::Main]
            && rv.limit == Limit::Value(1),
    }
}

impl Query {
    /// This query, aimed at `page` alone instead of any pages it named.
    pub fn with_page(self, page: PageSpec) -> (r: Query)
        ensures
            aims_at(r, page),
            r.list == self.list && r.meta == self.meta && r.prop == self.prop && r.generator == self.generator,
    {
        match page {
            PageSpec::Title(t) => {
                let mut v = Vec::new();
                v.push(t);
                Query { titles: Some(v), pageids: None, ..self }
            },
            PageSpec::PageId(id) => {
                let mut v = Vec::new();
                v.push(id);
                Query { titles: None, pageids: Some(v), ..self }
            },
        }
    }

    /// The query for the latest content of the main slot of `page`.
    pub fn latest_content(page: PageSpec) -> (r: Query)
        ensures
            aims_at(r, page),
            r.list is None && r.meta is None && r.generator is None,
            match r.prop {
                Some(s) => s@.len() == 1 && is_latest_content(s@[0]),
                None => false,
            },
    {
        let revisions = QueryPropRevisions {
            prop: EnumSet::new_one(RvProp::Content),
            slots: EnumSet::new_one(RvSlot::Main),
            limit: Limit::Value(1),
        };
        let mut q = Query::new();
        q.prop = Some(EnumSet::new_one(QueryProp::Revisions(revisions)));
        q.with_page(page)
    }
}

impl WriteUrlParams for Query {
    open spec fn params(&self) -> Params {
        self.list.value_params("list"@) + self.meta.value_params("meta"@) + self.prop.value_params("prop"@)
            + self.titles.value_params("titles"@) + self.pageids.value_params("pageids"@)
            + self.generator.value_params("generator"@)
    }

    fn ser<W: UrlParamWriter>(&self, w: &mut W) {
        let ghost start = w.written();
        self.list.ser(BufferedName::new("list"), w);
        self.meta.ser(BufferedName::new("meta"), w);
        self.prop.ser(BufferedName::new("prop"), w);
        self.titles.ser(BufferedName::new("titles"), w);
        self.pageids.ser(BufferedName::new("pageids"), w);
        self.generator.ser(BufferedName::new("generator"), w);
        assert(w.written() =~= start + self.params());
    }
}

/// An edit of one page.
#[derive(Clone, Debug)]
pub struct Edit {
    pub spec: PageSpec,
    pub section: Option<EditSection>,
    pub text: Option<String>,
    pub summary: Option<String>,
    pub tags: Option<Vec<String>>,
    pub minor: bool,
    pub notminor: bool,
    pub bot: bool,
    pub baserevid: Option<u32>,
    pub basetimestamp: Option<MwTimestamp>,
    pub starttimestamp: Option<MwTimestamp>,
    pub recreate: bool,
    pub createonly: bool,
    pub nocreate: bool,
    pub watchlist: Option<Watchlist>,
    pub watchlistexpiry: Option<MwTimestamp>,
    pub md5: Option<String>,
    pub prependtext: Option<String>,
    pub appendtext: Option<String>,
    pub undo: Option<u32>,
    pub undoafter: Option<u32>,
    pub redirect: bool,
    pub contentformat: Option<String>,
    pub contentmodel: Option<String>,
    pub token: String,
    pub captchaword: Option<String>,
    pub captchaid: Option<String>,
}

impl Edit {
    /// The parameters of the section, text and summary.
    #[verifier::opaque]
    pub open spec fn section_params(&self) -> Params {
        self.section.value_params("section"@)
            + self.text.value_params("text"@)
            + self.summary.value_params("summary"@)
    }

    fn ser_section<W: UrlParamWriter>(&self, w: &mut W)
        requires
            old(w).inv(),
        ensures
            final(w).inv(),
            final(w).written() == old(w).written() + self.section_params(),
            final(w).setup() == old(w).setup(),
    {
        reveal(Edit::section_params);
        let ghost start = w.written();
        self.section.ser(BufferedName::new("section"), w);
        self.text.ser(BufferedName::new("text"), w);
        self.summary.ser(BufferedName::new("summary"), w);
        assert(w.written() =~= start + self.section_params());
    }

    /// The parameters of the tags and the minor, not-minor and bot flags.
    #[verifier::opaque]
    pub open spec fn tag_params(&self) -> Params {
        self.tags.value_params("tags"@)
            + self.minor.value_params("minor"@)
            + self.notminor.value_params("notminor"@)
            + self.bot.value_params("bot"@)
    }

    fn ser_tag<W: UrlParamWriter>(&self, w: &mut W)
        requires
            old(w).inv(),
        ensures
            final(w).inv(),
            final(w).written() == old(w).written() + self.tag_params(),
            final(w).setup() == old(w).setup(),
    {
        reveal(Edit::tag_params);
        let ghost start = w.written();
        self.tags.ser(BufferedName::new("tags"), w);
        self.minor.ser(BufferedName::new("minor"), w);
        self.notminor.ser(BufferedName::new("notminor"), w);
        self.bot.ser(BufferedName::new("bot"), w);
        assert(w.written() =~= start + self.tag_params());
    }

    /// The parameters of the base revision and timestamps.
    #[verifier::opaque]
    pub open spec fn base_params(&self) -> Params {
        self.baserevid.value_params("baserevid"@)
            + self.basetimestamp.value_params("basetimestamp"@)
            + self.starttimestamp.value_params("starttimestamp"@)
    }

    fn ser_base<W: UrlParamWriter>(&self, w: &mut W)
        requires
            old(w).inv(),
        ensures
            final(w).inv(),
            final(w).written() == old(w).written() + self.base_params(),
            final(w).setup() == old(w).setup(),
    {
        reveal(Edit::base_params);
        let ghost start = w.written();
        self.baserevid.ser(BufferedName::new("baserevid"), w);
        self.basetimestamp.ser(BufferedName::new("basetimestamp"), w);
        self.starttimestamp.ser(BufferedName::new("starttimestamp"), w);
        assert(w.written() =~= start + self.base_params());
    }

    /// The parameters of the recreate, create-only and no-create flags.
    #[verifier::opaque]
    pub open spec fn create_params(&self) -> Params {
        self.recreate.value_params("recreate"@)
            + self.createonly.value_params("createonly"@)
            + self.nocreate.value_params("nocreate"@)
    }

    fn ser_create<W: UrlParamWriter>(&self, w: &mut W)
        requires
            old(w).inv(),
        ensures
            final(w).inv(),
            final(w).written() == old(w).written() + self.create_params(),
            final(w).setup() == old(w).setup(),
    {
        reveal(Edit::create_params);
        let ghost start = w.written();
        self.recreate.ser(BufferedName::new("recreate"), w);
        self.createonly.ser(BufferedName::new("createonly"), w);
        self.nocreate.ser(BufferedName::new("nocreate"), w);
        assert(w.written() =~= start + self.create_params());
    }

    /// The parameters of the watch status and the checksum.
    #[verifier::opaque]
    pub open spec fn watch_params(&self) -> Params {
        self.watchlist.value_params("watchlist"@)
            + self.watchlistexpiry.value_params("watchlistexpiry"@)
            + self.md5.value_params("md5"@)
    }

    fn ser_watch<W: UrlParamWriter>(&self, w: &mut W)
        requires
            old(w).inv(),
        ensures
            final(w).inv(),
            final(w).written() == old(w).written() + self.watch_params(),
            final(w).setup() == old(w).setup(),
    {
        reveal(Edit::watch_params);
        let ghost start = w.written();
        self.watchlist.ser(BufferedName::new("watchlist"), w);
        self.watchlistexpiry.ser(BufferedName::new("watchlistexpiry"), w);
        self.md5.ser(BufferedName::new("md5"), w);
        assert(w.written() =~= start + self.watch_params());
    }

    /// The parameters of the prepended and appended text and the undo range.
    #[verifier::opaque]
    pub open spec fn change_params(&self) -> Params {
        self.prependtext.value_params("prependtext"@)
            + self.appendtext.value_params("appendtext"@)
            + self.undo.value_params("undo"@)
            + self.undoafter.value_params("undoafter"@)
    }

    fn ser_change<W: UrlParamWriter>(&self, w: &mut W)
        requires
            old(w).inv(),
        ensures
            final(w).inv(),
            final(w).written() == old(w).written() + self.change_params(),
            final(w).setup() == old(w).setup(),
    {
        reveal(Edit::change_params);
        let ghost start = w.written();
        self.prependtext.ser(BufferedName::new("prependtext"), w);
        self.appendtext.ser(BufferedName::new("appendtext"), w);
        self.undo.ser(BufferedName::new("undo"), w);
        self.undoafter.ser(BufferedName::new("undoafter"), w);
        assert(w.written() =~= start + self.change_params());
    }

    /// The parameters of the redirect flag and the content format and model.
    #[verifier::opaque]
    pub open spec fn content_params(&self) -> Params {
        self.redirect.value_params("redirect"@)
            + self.contentformat.value_params("contentformat"@)
            + self.contentmodel.value_params("contentmodel"@)
    }

    fn ser_content<W: UrlParamWriter>(&self, w: &mut W)
        requires
            old(w).inv(),
        ensures
            final(w).inv(),
            final(w).written() == old(w).written() + self.content_params(),
            final(w).setup() == old(w).setup(),
    {
        reveal(Edit::content_params);
        let ghost start = w.written();
        self.redirect.ser(BufferedName::new("redirect"), w);
        self.contentformat.ser(BufferedName::new("contentformat"), w);
        self.contentmodel.ser(BufferedName::new("contentmodel"), w);
        assert(w.written() =~= start + self.content_params());
    }

    /// The parameters of the token and the captcha.
    #[verifier::opaque]
    pub open spec fn auth_params(&self) -> Params {
        self.token.value_params("token"@)
            + self.captchaword.value_params("captchaword"@)
            + self.captchaid.value_params("captchaid"@)
    }

    fn ser_auth<W: UrlParamWriter>(&self, w: &mut W)
        requires
            old(w).inv(),
        ensures
            final(w).inv(),
            final(w).written() == old(w).written() + self.auth_params(),
            final(w).setup() == old(w).setup(),
    {
        reveal(Edit::auth_params);
        let ghost start = w.written();
        self.token.ser(BufferedName::new("token"), w);
        self.captchaword.ser(BufferedName::new("captchaword"), w);
        self.captchaid.ser(BufferedName::new("captchaid"), w);
        assert(w.written() =~= start + self.auth_params());
    }

}

impl WriteUrlParams for Edit {
    /// The page comes first, flattened in; then every field under its own name.
    open spec fn params(&self) -> Params {
        self.spec.params()
            + self.section_params()
            + self.tag_params()
            + self.base_params()
            + self.create_params()
            + self.watch_params()
            + self.change_params()
            + self.content_params()
            + self.auth_params()
    }

    fn ser<W: UrlParamWriter>(&self, w: &mut W) {
        let ghost start = w.written();
        self.spec.ser(w);
        self.ser_section(w);
        self.ser_tag(w);
        self.ser_base(w);
        self.ser_create(w);
        self.ser_watch(w);
        self.ser_change(w);
        self.ser_content(w);
        self.ser_auth(w);
        assert(w.written() =~= start + self.params());
    }
}

/// The field an edit cannot be built without.
#[derive(Clone, Copy, Debug, PartialEq, Eq, Structural)]
pub enum MissingField {
    /// Neither a title nor a page id was given.
    Page,
    /// No CSRF token was given.
    Token,
}

/// Builds an [`Edit`] field by field.
#[derive(Clone, Debug)]
pub struct EditBuilder {
    pub spec: Option<PageSpec>,
    pub section: Option<EditSection>,
    pub text: Option<String>,
    pub summary: Option<String>,
    pub tags: Option<Vec<String>>,
    pub minor: bool,
    pub notminor: bool,
    pub bot: bool,
    pub baserevid: Option<u32>,
    pub basetimestamp: Option<MwTimestamp>,
    pub starttimestamp: Option<MwTimestamp>,
    pub recreate: bool,
    pub createonly: bool,
    pub nocreate: bool,
    pub watchlist: Option<Watchlist>,
    pub watchlistexpiry: Option<MwTimestamp>,
    pub md5: Option<String>,
    pub prependtext: Option<String>,
    pub appendtext: Option<String>,
    pub undo: Option<u32>,
    pub undoafter: Option<u32>,
    pub redirect: bool,
    pub contentformat: Option<String>,
    pub contentmodel: Option<String>,
    pub token: Option<String>,
    pub captchaword: Option<String>,
    pub captchaid: Option<String>,
}

/// The view of an optional string.
pub open spec fn opt_str(o: Option<String>) -> Option<Seq<char>> {
    match o {
        Some(s) => Some(s@),
        None => None,
    }
}

/// `e` holds what `b` was given, field by field.
pub open spec fn built_from(b: EditBuilder, e: Edit) -> bool {
    &&& b.spec == Some(e.spec)
    &&& b.token == Some(e.token)
    &&& b.section == e.section
    &&& b.text == e.text
    &&& b.summary == e.summary
    &&& b.tags == e.tags
    &&& b.minor == e.minor
    &&& b.notminor == e.notminor
    &&& b.bot == e.bot
    &&& b.baserevid == e.baserevid
    &&& b.basetimestamp == e.basetimestamp
    &&& b.starttimestamp == e.starttimestamp
    &&& b.recreate == e.recreate
    &&& b.createonly == e.createonly
    &&& b.nocreate == e.nocreate
    &&& b.watchlist == e.watchlist
    &&& b.watchlistexpiry == e.watchlistexpiry
    &&& b.md5 == e.md5
    &&& b.prependtext == e.prependtext
    &&& b.appendtext == e.appendtext
    &&& b.undo == e.undo
    &&& b.undoafter == e.undoafter
    &&& b.redirect == e.redirect
    &&& b.contentformat == e.contentformat
    &&& b.contentmodel == e.contentmodel
    &&& b.captchaword == e.captchaword
    &&& b.captchaid == e.captchaid
}

impl EditBuilder {
    /// A builder with nothing set.
    pub fn new() -> (r: Self)
        ensures
            r.spec is None && r.section is None && r.text is None && r.summary is None && r.tags is None &&
                !r.minor && !r.notminor && !r.bot && r.baserevid is None && r.basetimestamp is None &&
                r.starttimestamp is None && !r.recreate && !r.createonly && !r.nocreate &&
                r.watchlist is None && r.watchlistexpiry is None && r.md5 is None && r.prependtext is None &&
                r.appendtext is None && r.undo is None && r.undoafter is None && !r.redirect &&
                r.contentformat is None && r.contentmodel is None && r.token is None &&
                r.captchaword is None && r.captchaid is None,
    {
        EditBuilder {
            spec: None,
            section: None,
            text: None,
            summary: None,
            tags: None,
            minor: false,
            notminor: false,
            bot: false,
            baserevid: None,
            basetimestamp: None,
            starttimestamp: None,
            recreate: false,
            createonly: false,
            nocreate: false,
            watchlist: None,
            watchlistexpiry: None,
            md5: None,
            prependtext: None,
            appendtext: None,
            undo: None,
            undoafter: None,
            redirect: false,
            contentformat: None,
            contentmodel: None,
            token: None,
            captchaword: None,
            captchaid: None,
        }
    }

    /// The edit, or the first missing field of the page and the token.
    pub fn build(self) -> (r: Result<Edit, MissingField>)
        ensures
            self.spec is None ==> r == Err::<Edit, MissingField>(MissingField::Page),
            self.spec is Some && self.token is None ==> r == Err::<Edit, MissingField>(MissingField::Token),
            self.spec is Some && self.token is Some ==> match r {
                Ok(e) => built_from(self, e),
                Err(_) => false,
            },
    {
        match self.spec {
            None => Err(MissingField::Page),
            Some(spec) => match self.token {
                None => Err(MissingField::Token),
                Some(token) => Ok(Edit {
                    spec,
                    section: self.section,
                    text: self.text,
                    summary: self.summary,
                    tags: self.tags,
                    minor: self.minor,
                    notminor: self.notminor,
                    bot: self.bot,
                    baserevid: self.baserevid,
                    basetimestamp: self.basetimestamp,
                    starttimestamp: self.starttimestamp,
                    recreate: self.recreate,
                    createonly: self.createonly,
                    nocreate: self.nocreate,
                    watchlist: self.watchlist,
                    watchlistexpiry: self.watchlistexpiry,
                    md5: self.md5,
                    prependtext: self.prependtext,
                    appendtext: self.appendtext,
                    undo: self.undo,
                    undoafter: self.undoafter,
                    redirect: self.redirect,
                    contentformat: self.contentformat,
                    contentmodel: self.contentmodel,
                    token,
                    captchaword: self.captchaword,
                    captchaid: self.captchaid,
                }),
            },
        }
    }

    /// The edit, if the page and the token were given.
    pub fn try_build(self) -> (r: Option<Edit>)
        ensures
            r is Some == (self.spec is Some && self.token is Some),
            match r {
                Some(e) => built_from(self, e),
                None => true,
            },
    {
        match self.build() {
            Ok(e) => Some(e),
            Err(_) => None,
        }
    }

    /// Edits the page with id `id`.
    pub fn page_id(self, id: u32) -> (r: Self)
        ensures
            r == (EditBuilder { spec: Some(PageSpec::PageId(id)), ..self }),
    {
        EditBuilder { spec: Some(PageSpec::PageId(id)), ..self }
    }

    /// Edits the page titled `title`.
    pub fn title(self, title: &str) -> (r: Self)
        ensures
            match r.spec {
                Some(PageSpec::Title(t)) => t@ == title@,
                _ => false,
            },
            r == (EditBuilder { spec: r.spec, ..self }),
    {
        EditBuilder { spec: Some(PageSpec::Title(String::from_str(title))), ..self }
    }

    /// Adds a new section titled `title`.
    pub fn new_section(self, title: String) -> (r: Self)
        ensures
            r == (EditBuilder { section: Some(EditSection::New { title }), ..self }),
    {
        EditBuilder { section: Some(EditSection::New { title }), ..self }
    }

    /// Edits the section numbered `id`.
    pub fn section_id(self, id: u32) -> (r: Self)
        ensures
            r == (EditBuilder { section: Some(EditSection::Num(id)), ..self }),
    {
        EditBuilder { section: Some(EditSection::Num(id)), ..self }
    }

    /// Edits the section named by `custom`.
    pub fn section_custom(self, custom: String) -> (r: Self)
        ensures
            r == (EditBuilder { section: Some(EditSection::Custom(custom)), ..self }),
    {
        EditBuilder { section: Some(EditSection::Custom(custom)), ..self }
    }

    pub fn text(self, value: &str) -> (r: Self)
        ensures
            opt_str(r.text) == Some(value@),
            r == (EditBuilder { text: r.text, ..self }),
    {
        EditBuilder { text: Some(String::from_str(value)), ..self }
    }

    pub fn summary(self, value: &str) -> (r: Self)
        ensures
            opt_str(r.summary) == Some(value@),
            r == (EditBuilder { summary: r.summary, ..self }),
    {
        EditBuilder { summary: Some(String::from_str(value)), ..self }
    }

    pub fn tags(self, value: Vec<String>) -> (r: Self)
        ensures
            r == (EditBuilder { tags: Some(value), ..self }),
    {
        EditBuilder { tags: Some(value), ..self }
    }

    pub fn minor(self) -> (r: Self)
        ensures
            r == (EditBuilder { minor: true, ..self }),
    {
        EditBuilder { minor: true, ..self }
    }

    pub fn notminor(self) -> (r: Self)
        ensures
            r == (EditBuilder { notminor: true, ..self }),
    {
        EditBuilder { notminor: true, ..self }
    }

    pub fn bot(self) -> (r: Self)
        ensures
            r == (EditBuilder { bot: true, ..self }),
    {
        EditBuilder { bot: true, ..self }
    }

    pub fn baserevid(self, value: u32) -> (r: Self)
        ensures
            r == (EditBuilder { baserevid: Some(value), ..self }),
    {
        EditBuilder { baserevid: Some(value), ..self }
    }

    pub fn basetimestamp(self, value: MwTimestamp) -> (r: Self)
        ensures
            r == (EditBuilder { basetimestamp: Some(value), ..self }),
    {
        EditBuilder { basetimestamp: Some(value), ..self }
    }

    pub fn starttimestamp(self, value: MwTimestamp) -> (r: Self)
        ensures
            r == (EditBuilder { starttimestamp: Some(value), ..self }),
    {
        EditBuilder { starttimestamp: Some(value), ..self }
    }

    pub fn recreate(self) -> (r: Self)
        ensures
            r == (EditBuilder { recreate: true, ..self }),
    {
        EditBuilder { recreate: true, ..self }
    }

    pub fn createonly(self) -> (r: Self)
        ensures
            r == (EditBuilder { createonly: true, ..self }),
    {
        EditBuilder { createonly: true, ..self }
    }

    pub fn nocreate(self) -> (r: Self)
        ensures
            r == (EditBuilder { nocreate: true, ..self }),
    {
        EditBuilder { nocreate: true, ..self }
    }

    pub fn watchlist(self, value: Watchlist) -> (r: Self)
        ensures
            r == (EditBuilder { watchlist: Some(value), ..self }),
    {
        EditBuilder { watchlist: Some(value), ..self }
    }

    pub fn watchlistexpiry(self, value: MwTimestamp) -> (r: Self)
        ensures
            r == (EditBuilder { watchlistexpiry: Some(value), ..self }),
    {
        EditBuilder { watchlistexpiry: Some(value), ..self }
    }

    pub fn md5(self, value: &str) -> (r: Self)
        ensures
            opt_str(r.md5) == Some(value@),
            r == (EditBuilder { md5: r.md5, ..self }),
    {
        EditBuilder { md5: Some(String::from_str(value)), ..self }
    }

    pub fn prependtext(self, value: &str) -> (r: Self)
        ensures
            opt_str(r.prependtext) == Some(value@),
            r == (EditBuilder { prependtext: r.prependtext, ..self }),
    {
        EditBuilder { prependtext: Some(String::from_str(value)), ..self }
    }

    pub fn appendtext(self, value: &str) -> (r: Self)
        ensures
            opt_str(r.appendtext) == Some(value@),
            r == (EditBuilder { appendtext: r.appendtext, ..self }),
    {
        EditBuilder { appendtext: Some(String::from_str(value)), ..self }
    }

    pub fn undo(self, value: u32) -> (r: Self)
        ensures
            r == (EditBuilder { undo: Some(value), ..self }),
    {
        EditBuilder { undo: Some(value), ..self }
    }

    pub fn undoafter(self, value: u32) -> (r: Self)
        ensures
            r == (EditBuilder { undoafter: Some(value), ..self }),
    {
        EditBuilder { undoafter: Some(value), ..self }
    }

    pub fn redirect(self) -> (r: Self)
        ensures
            r == (EditBuilder { redirect: true, ..self }),
    {
        EditBuilder { redirect: true, ..self }
    }

    pub fn contentformat(self, value: &str) -> (r: Self)
        ensures
            opt_str(r.contentformat) == Some(value@),
            r == (EditBuilder { contentformat: r.contentformat, ..self }),
    {
        EditBuilder { contentformat: Some(String::from_str(value)), ..self }
    }

    pub fn contentmodel(self, value: &str) -> (r: Self)
        ensures
            opt_str(r.contentmodel) == Some(value@),
            r == (EditBuilder { contentmodel: r.contentmodel, ..self }),
    {
        EditBuilder { contentmodel: Some(String::from_str(value)), ..self }
    }

    pub fn token(self, value: &str) -> (r: Self)
        ensures
            opt_str(r.token) == Some(value@),
            r == (EditBuilder { token: r.token, ..self }),
    {
        EditBuilder { token: Some(String::from_str(value)), ..self }
    }

    pub fn captchaword(self, value: &str) -> (r: Self)
        ensures
            opt_str(r.captchaword) == Some(value@),
            r == (EditBuilder { captchaword: r.captchaword, ..self }),
    {
        EditBuilder { captchaword: Some(String::from_str(value)), ..self }
    }

    pub fn captchaid(self, value: &str) -> (r: Self)
        ensures
            opt_str(r.captchaid) == Some(value@),
            r == (EditBuilder { captchaid: r.captchaid, ..self }),
    {
        EditBuilder { captchaid: Some(String::from_str(value)), ..self }
    }

}

/// A complete request: an action and the response format.
#[derive(Clone, Debug)]
pub struct Main {
    pub action: Action,
    pub format: Format,
}

impl WriteUrlParams for Main {
    open spec fn params(&self) -> Params {
        self.action.value_params("action"@) + self.format.value_params("format"@)
    }

    fn ser<W: UrlParamWriter>(&self, w: &mut W) {
        let ghost start = w.written();
        self.action.ser(BufferedName::new("action"), w);
        self.format.ser(BufferedName::new("format"), w);
        assert(w.written() =~= start + self.params());
    }
}

impl Main {
    /// The action, answered as JSON, format version 2.
    pub fn action(action: Action) -> (r: Self)
        ensures
            r == (Main { action, format: Format::Json { formatversion: 2 } }),
    {
        Main { action, format: Format::Json { formatversion: 2 } }
    }

    pub fn query(q: Query) -> (r: Self)
        ensures
            r == (Main { action: Action::Query(q), format: Format::Json { formatversion: 2 } }),
    {
        Self::action(Action::Query(q))
    }

    pub fn login(l: Login) -> (r: Self)
        ensures
            r == (Main { action: Action::Login(l), format: Format::Json { formatversion: 2 } }),
    {
        Self::action(Action::Login(l))
    }

    pub fn edit(e: Edit) -> (r: Self)
        ensures
            r == (Main { action: Action::Edit(e), format: Format::Json { formatversion: 2 } }),
    {
        Self::action(Action::Edit(e))
    }

    /// A query for tokens of the kinds `t`.
    pub fn tokens(t: TokenType) -> (r: Self)
        ensures
            r.format == (Format::Json { formatversion: 2 }),
            match r.action {
                Action::Query(q) => q.list is None && q.prop is None && q.titles is None && q.pageids is None
                    && q.generator is None
                    && match q.meta {
                    Some(m) => m@ == seq![QueryMeta::Tokens { type_: t }],
                    None => false,
                },
                _ => false,
            },
    {
        let mut q = Query::new();
        q.meta = Some(EnumSet::new_one(QueryMeta::Tokens { type_: t }));
        Self::query(q)
    }
}

} // verus!
