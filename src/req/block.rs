//! Blocking a user.

use vstd::prelude::*;

use crate::types::MwTimestamp;
use crate::url::{BufferedName, Params, UrlParamWriter, WriteUrlParams, WriteUrlValue, one};

verus! {

/// Blocks a user.
#[derive(Clone, Debug)]
pub struct Block {
    pub user: String,
    pub expiry: Expiry,
    pub reason: Option<String>,
    pub anononly: bool,
    pub nocreate: bool,
    pub autoblock: bool,
    pub noemail: bool,
    pub hidename: bool,
    pub allowusertalk: bool,
    pub reblock: bool,
    pub watchuser: bool,
    pub watchlistexpiry: Option<MwTimestamp>,
    pub tags: Option<Vec<String>>,
    pub partial: bool,
    pub pagerestrictions: Option<Vec<String>>,
    pub namespace_restrictions: Option<Vec<i32>>,
}

impl Block {
    /// The parameters of the user, expiry and reason.
    #[verifier::opaque]
    pub open spec fn target_params(&self) -> Params {
        self.user.value_params("user"@)
            + self.expiry.value_params("expiry"@)
            + self.reason.value_params("reason"@)
    }

    fn ser_target_params<W: UrlParamWriter>(&self, w: &mut W)
        requires
            old(w).inv(),
        ensures
            final(w).inv(),
            final(w).written() == old(w).written() + self.target_params(),
            final(w).setup() == old(w).setup(),
    {
        reveal(Block::target_params);
        let ghost start = w.written();
        self.user.ser(BufferedName::new("user"), w);
        self.expiry.ser(BufferedName::new("expiry"), w);
        self.reason.ser(BufferedName::new("reason"), w);
        assert(w.written() =~= start + self.target_params());
    }

    /// The parameters of what the block stops.
    #[verifier::opaque]
    pub open spec fn restriction_params(&self) -> Params {
        self.anononly.value_params("anononly"@)
            + self.nocreate.value_params("nocreate"@)
            + self.autoblock.value_params("autoblock"@)
            + self.noemail.value_params("noemail"@)
    }

    fn ser_restriction_params<W: UrlParamWriter>(&self, w: &mut W)
        requires
            old(w).inv(),
        ensures
            final(w).inv(),
            final(w).written() == old(w).written() + self.restriction_params(),
            final(w).setup() == old(w).setup(),
    {
        reveal(Block::restriction_params);
        let ghost start = w.written();
        self.anononly.ser(BufferedName::new("anononly"), w);
        self.nocreate.ser(BufferedName::new("nocreate"), w);
        self.autoblock.ser(BufferedName::new("autoblock"), w);
        self.noemail.ser(BufferedName::new("noemail"), w);
        assert(w.written() =~= start + self.restriction_params());
    }

    /// The parameters of the block's other options.
    #[verifier::opaque]
    pub open spec fn option_params(&self) -> Params {
        self.hidename.value_params("hidename"@)
            + self.allowusertalk.value_params("allowusertalk"@)
            + self.reblock.value_params("reblock"@)
            + self.watchuser.value_params("watchuser"@)
    }

    fn ser_option_params<W: UrlParamWriter>(&self, w: &mut W)
        requires
            old(w).inv(),
        ensures
            final(w).inv(),
            final(w).written() == old(w).written() + self.option_params(),
            final(w).setup() == old(w).setup(),
    {
        reveal(Block::option_params);
        let ghost start = w.written();
        self.hidename.ser(BufferedName::new("hidename"), w);
        self.allowusertalk.ser(BufferedName::new("allowusertalk"), w);
        self.reblock.ser(BufferedName::new("reblock"), w);
        self.watchuser.ser(BufferedName::new("watchuser"), w);
        assert(w.written() =~= start + self.option_params());
    }

    /// The parameters of the block's scope.
    #[verifier::opaque]
    pub open spec fn scope_params(&self) -> Params {
        self.watchlistexpiry.value_params("watchlistexpiry"@)
            + self.tags.value_params("tags"@)
            + self.partial.value_params("partial"@)
            + self.pagerestrictions.value_params("pagerestrictions"@)
            + self.namespace_restrictions.value_params("namespacerestrictions"@)
    }

    fn ser_scope_params<W: UrlParamWriter>(&self, w: &mut W)
        requires
            old(w).inv(),
        ensures
            final(w).inv(),
            final(w).written() == old(w).written() + self.scope_params(),
            final(w).setup() == old(w).setup(),
    {
        reveal(Block::scope_params);
        let ghost start = w.written();
        self.watchlistexpiry.ser(BufferedName::new("watchlistexpiry"), w);
        self.tags.ser(BufferedName::new("tags"), w);
        self.partial.ser(BufferedName::new("partial"), w);
        self.pagerestrictions.ser(BufferedName::new("pagerestrictions"), w);
        self.namespace_restrictions.ser(BufferedName::new("namespacerestrictions"), w);
        assert(w.written() =~= start + self.scope_params());
    }

}

impl WriteUrlParams for Block {
    open spec fn params(&self) -> Params {
        self.target_params() + self.restriction_params() + self.option_params() + self.scope_params()
    }

    fn ser<W: UrlParamWriter>(&self, w: &mut W) {
        let ghost start = w.written();
        self.ser_target_params(w);
        self.ser_restriction_params(w);
        self.ser_option_params(w);
        self.ser_scope_params(w);
        assert(w.written() =~= start + self.params());
    }
}

/// When a block ends.
#[derive(Clone, Debug)]
pub enum Expiry {
    Relative(String),
    Absolute(MwTimestamp),
    Never,
}

impl WriteUrlValue for Expiry {
    open spec fn value_params(&self, name: Seq<char>) -> Params {
        match self {
            Expiry::Relative(s) => one(name, s@),
            Expiry::Absolute(t) => t.value_params(name),
            Expiry::Never => one(name, "never"@),
        }
    }

    open spec fn extra_params(&self) -> Params {
        Params::empty()
    }

    fn ser<W: UrlParamWriter>(&self, n: BufferedName, w: &mut W) {
        match self {
            Expiry::Relative(s) => s.ser(n, w),
            Expiry::Absolute(t) => t.ser(n, w),
            Expiry::Never => {
                let ghost name = n.name();
                n.write(w, "never");
                assert(w.written() =~= old(w).written() + one(name, "never"@));
            },
        }
    }

    fn ser_additional_only<W: UrlParamWriter>(&self, w: &mut W) {
        assert(w.written() =~= w.written() + Params::empty());
    }
}

} // verus!
