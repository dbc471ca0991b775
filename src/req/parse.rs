//! Parsing wikitext or a page.

use vstd::prelude::*;

use crate::flags::{flag_params, strs_view, write_flags};
use crate::req::PageSpec;
use crate::url::{BufferedName, Params, UrlParamWriter, WriteUrlParams, WriteUrlValue};

verus! {

/// The pieces of parser output to fetch.
#[derive(Clone, Copy, Debug, PartialEq, Eq)]
pub struct ParseProp {
    pub bits: u32,
}

impl ParseProp {
    pub const TEXT: u32 = 1;
    pub const LANGLINKS: u32 = 2;
    pub const CATEGORIES: u32 = 4;
    pub const CATEGORIES_HTML: u32 = 8;
    pub const LINKS: u32 = 16;
    pub const TEMPLATES: u32 = 32;
    pub const IMAGES: u32 = 64;
    pub const EXTERNAL_LINKS: u32 = 128;
    pub const SECTIONS: u32 = 256;
    pub const REV_ID: u32 = 512;
    pub const DISPLAY_TITLE: u32 = 1024;
    pub const SUBTITLE: u32 = 2048;
    pub const HEAD_HTML: u32 = 4096;
    pub const MODULES: u32 = 8192;
    pub const JS_CONFIG_VARS: u32 = 16384;
    pub const ENCODED_JS_CONFIG_VARS: u32 = 32768;
    pub const INDICATORS: u32 = 65536;
    pub const IWLINKS: u32 = 131072;
    pub const WIKITEXT: u32 = 262144;
    pub const PROPERTIES: u32 = 524288;
    pub const LIMIT_REPORT_DATA: u32 = 1048576;
    pub const LIMIT_REPORT_HTML: u32 = 2097152;
    pub const PARSE_TREE: u32 = 4194304;
    pub const PARSE_WARNINGS: u32 = 8388608;
    pub const PARSE_WARNINGS_HTML: u32 = 16777216;
    /// The pieces the API gives when none are named.
    pub const DEFAULT: u32 = 9046007;

    pub fn from_bits(bits: u32) -> (r: Self)
        ensures
            r.bits == bits,
    {
        ParseProp { bits }
    }

    pub fn empty() -> (r: Self)
        ensures
            r.bits == 0,
    {
        ParseProp { bits: 0 }
    }

    /// The flags set in either.
    pub fn union(self, other: Self) -> (r: Self)
        ensures
            r.bits == self.bits | other.bits,
    {
        ParseProp { bits: self.bits | other.bits }
    }

    /// The wire names of the flags, by bit position.
    pub open spec fn names_spec() -> Seq<Seq<char>> {
        seq![
            "text"@,
            "langlinks"@,
            "categories"@,
            "categorieshtml"@,
            "links"@,
            "templates"@,
            "images"@,
            "externallinks"@,
            "sections"@,
            "revid"@,
            "displaytitle"@,
            "subtitle"@,
            "headhtml"@,
            "modules"@,
            "jsconfigvars"@,
            "encodedjsconfigvars"@,
            "indicators"@,
            "iwlinks"@,
            "wikitext"@,
            "properties"@,
            "limitreportdata"@,
            "limitreporthtml"@,
            "parsetree"@,
            "parsewarnings"@,
            "parsewarningshtml"@,
        ]
    }

    pub fn names() -> (r: Vec<&'static str>)
        ensures
            strs_view(r@) == Self::names_spec(),
            r@.len() <= 64,
    {
        let r = vec![
            "text",
            "langlinks",
            "categories",
            "categorieshtml",
            "links",
            "templates",
            "images",
            "externallinks",
            "sections",
            "revid",
            "displaytitle",
            "subtitle",
            "headhtml",
            "modules",
            "jsconfigvars",
            "encodedjsconfigvars",
            "indicators",
            "iwlinks",
            "wikitext",
            "properties",
            "limitreportdata",
            "limitreporthtml",
            "parsetree",
            "parsewarnings",
            "parsewarningshtml",
        ];
        assert(strs_view(r@) =~= Self::names_spec());
        r
    }
}

impl WriteUrlValue for ParseProp {
    open spec fn value_params(&self, name: Seq<char>) -> Params {
        flag_params(self.bits as u64, Self::names_spec(), name)
    }

    open spec fn extra_params(&self) -> Params {
        Params::empty()
    }

    fn ser<W: UrlParamWriter>(&self, n: BufferedName, w: &mut W) {
        let names = Self::names();
        write_flags(self.bits as u64, &names, n, w);
    }

    fn ser_additional_only<W: UrlParamWriter>(&self, w: &mut W) {
        assert(w.written() =~= w.written() + Params::empty());
    }
}

/// Parses wikitext or a page.
#[derive(Clone, Debug)]
pub struct Parse {
    pub title: Option<String>,
    pub text: Option<String>,
    pub selector: Option<PageSpec>,
    pub redirects: bool,
    pub oldid: Option<u64>,
    pub prop: ParseProp,
    pub preview: bool,
    pub pst: bool,
    pub onlypst: bool,
}

impl Parse {
    /// The parameters of what is parsed.
    #[verifier::opaque]
    pub open spec fn source_params(&self) -> Params {
        self.title.value_params("title"@)
            + self.text.value_params("text"@)
            + self.selector.params()
            + self.redirects.value_params("redirects"@)
            + self.oldid.value_params("oldid"@)
    }

    fn ser_source_params<W: UrlParamWriter>(&self, w: &mut W)
        requires
            old(w).inv(),
        ensures
            final(w).inv(),
            final(w).written() == old(w).written() + self.source_params(),
            final(w).setup() == old(w).setup(),
    {
        reveal(Parse::source_params);
        let ghost start = w.written();
        self.title.ser(BufferedName::new("title"), w);
        self.text.ser(BufferedName::new("text"), w);
        self.selector.ser(w);
        self.redirects.ser(BufferedName::new("redirects"), w);
        self.oldid.ser(BufferedName::new("oldid"), w);
        assert(w.written() =~= start + self.source_params());
    }

    /// The parameters of the output asked for.
    #[verifier::opaque]
    pub open spec fn output_params(&self) -> Params {
        self.prop.value_params("prop"@)
            + self.preview.value_params("preview"@)
            + self.pst.value_params("pst"@)
            + self.onlypst.value_params("onlypst"@)
    }

    fn ser_output_params<W: UrlParamWriter>(&self, w: &mut W)
        requires
            old(w).inv(),
        ensures
            final(w).inv(),
            final(w).written() == old(w).written() + self.output_params(),
            final(w).setup() == old(w).setup(),
    {
        reveal(Parse::output_params);
        let ghost start = w.written();
        self.prop.ser(BufferedName::new("prop"), w);
        self.preview.ser(BufferedName::new("preview"), w);
        self.pst.ser(BufferedName::new("pst"), w);
        self.onlypst.ser(BufferedName::new("onlypst"), w);
        assert(w.written() =~= start + self.output_params());
    }

}

impl WriteUrlParams for Parse {
    open spec fn params(&self) -> Params {
        self.source_params() + self.output_params()
    }

    fn ser<W: UrlParamWriter>(&self, w: &mut W) {
        let ghost start = w.written();
        self.ser_source_params(w);
        self.ser_output_params(w);
        assert(w.written() =~= start + self.params());
    }
}

impl Parse {
    /// Parses nothing yet, asking for the default pieces of output.
    pub fn new() -> (r: Self)
        ensures
            r.title is None && r.text is None && r.selector is None && r.oldid is None,
            !r.redirects && !r.preview && !r.pst && !r.onlypst,
            r.prop.bits == ParseProp::DEFAULT,
    {
        Parse {
            title: None,
            text: None,
            selector: None,
            redirects: false,
            oldid: None,
            prop: ParseProp::from_bits(ParseProp::DEFAULT),
            preview: false,
            pst: false,
            onlypst: false,
        }
    }
}

} // verus!
