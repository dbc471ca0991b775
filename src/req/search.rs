//! Picking the pages of a query by a full-text search.

use vstd::prelude::*;

use crate::req::Limit;
use crate::url::{BufferedName, Params, UrlParamWriter, WriteUrlParams, WriteUrlValue};

verus! {

/// Picks the pages of a query by a full-text search.
#[derive(Clone, Debug)]
pub struct SearchGenerator {
    pub search: String,
    pub limit: Limit,
    pub offset: Option<u32>,
}

impl WriteUrlParams for SearchGenerator {
    open spec fn params(&self) -> Params {
        self.search.value_params("gsrsearch"@)
            + self.limit.value_params("gsrlimit"@)
            + self.offset.value_params("gsroffset"@)
    }

    fn ser<W: UrlParamWriter>(&self, w: &mut W) {
        let ghost start = w.written();
        self.search.ser(BufferedName::new("gsrsearch"), w);
        self.limit.ser(BufferedName::new("gsrlimit"), w);
        self.offset.ser(BufferedName::new("gsroffset"), w);
        assert(w.written() =~= start + self.params());
    }
}

} // verus!
