//! Checking an abuse filter against a change.

use vstd::prelude::*;

use crate::url::{BufferedName, Params, UrlParamWriter, WriteUrlParams, WriteUrlValue, one};

verus! {

/// What an abuse filter is checked against; exactly one of these is written.
#[derive(Clone, Debug)]
pub enum CheckMatchTest {
    Vars(String),
    RcId(u64),
    LogId(u64),
}

impl WriteUrlParams for CheckMatchTest {
    open spec fn params(&self) -> Params {
        match self {
            CheckMatchTest::Vars(s) => s.value_params("vars"@),
            CheckMatchTest::RcId(v) => v.value_params("rcid"@),
            CheckMatchTest::LogId(v) => v.value_params("logid"@),
        }
    }

    fn ser<W: UrlParamWriter>(&self, w: &mut W) {
        match self {
            CheckMatchTest::Vars(s) => s.ser(BufferedName::new("vars"), w),
            CheckMatchTest::RcId(v) => v.ser(BufferedName::new("rcid"), w),
            CheckMatchTest::LogId(v) => v.ser(BufferedName::new("logid"), w),
        }
    }
}

/// Checks a filter against a change.
#[derive(Clone, Debug)]
pub struct CheckMatch {
    pub filter: String,
    pub test: CheckMatchTest,
}

impl WriteUrlParams for CheckMatch {
    open spec fn params(&self) -> Params {
        one("filter"@, self.filter@) + self.test.params()
    }

    fn ser<W: UrlParamWriter>(&self, w: &mut W) {
        let ghost start = w.written();
        self.filter.ser(BufferedName::new("filter"), w);
        self.test.ser(w);
        assert(w.written() =~= start + self.params());
    }
}

} // verus!
