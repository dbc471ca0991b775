//! Requests of the ready-made generators, and the recent-changes patroller,
//! which queries the changes since its last round, round after round.

use vstd::prelude::*;

use crate::enum_set::EnumSet;
use crate::req::{Action, Format, Limit, ListRc, ListSearch, Main, Query, QueryList, RcProp, RcType};
use crate::types::{MwTimestamp, NowableTime};

verus! {

/// The query of `m` lists exactly `list`, and asks for nothing else.
pub open spec fn queries_list(m: Main, list: QueryList) -> bool {
    &&& m.format == (Format::Json { formatversion: 2 })
    &&& match m.action {
        Action::Query(q) => q.meta is None && q.prop is None && q.titles is None && q.pageids is None
            && q.generator is None && match q.list {
            Some(s) => s@ == seq![list],
            None => false,
        },
        _ => false,
    }
}

fn list_request(list: QueryList) -> (r: Main)
    ensures
        queries_list(r, list),
{
    let mut q = Query::new();
    q.list = Some(EnumSet::new_one(list));
    Main::query(q)
}

/// The request of a full-text search for `search`, as many results a page
/// as allowed.
pub fn search_request(search: String) -> (r: Main)
    ensures
        queries_list(r, QueryList::Search(ListSearch { search, limit: Limit::Max })),
{
    list_request(QueryList::Search(ListSearch { search, limit: Limit::Max }))
}

/// The request listing the recent changes `rc` selects.
pub fn recent_changes_request(rc: ListRc) -> (r: Main)
    ensures
        queries_list(r, QueryList::RecentChanges(rc)),
{
    list_request(QueryList::RecentChanges(rc))
}

/// The window is from `end` back to `start`, both timestamps.
pub open spec fn window_is(rc: ListRc, start: i64, end: i64) -> bool {
    &&& match rc.start {
        Some(NowableTime::Timestamp(t)) => t.secs() == start,
        _ => false,
    }
    &&& match rc.end {
        Some(NowableTime::Timestamp(t)) => t.secs() == end,
        _ => false,
    }
    &&& rc.limit == Limit::Max
}

/// Watches recent changes round by round: each round lists the changes from
/// the end of the last round up to a second before now. After an error it
/// stops.
#[derive(Clone, Debug)]
pub struct RecentChangesPatroller {
    prev_time: i64,
    errored: bool,
    prop: RcProp,
    ty: RcType,
}

impl RecentChangesPatroller {
    /// Where the last round ended, in seconds since the Unix epoch.
    pub closed spec fn prev_time(&self) -> i64 {
        self.prev_time
    }

    pub closed spec fn stopped(&self) -> bool {
        self.errored
    }

    pub closed spec fn props(&self) -> (RcProp, RcType) {
        (self.prop, self.ty)
    }

    /// A patroller whose first round starts a second before `now`.
    pub fn new(now: i64, prop: RcProp, ty: RcType) -> (r: Self)
        requires
            now > i64::MIN,
        ensures
            r.prev_time() == now - 1,
            !r.stopped(),
            r.props() == (prop, ty),
    {
        RecentChangesPatroller { prev_time: now - 1, errored: false, prop, ty }
    }

    /// The query of the next round, at `now`: from a second before `now`
    /// back to where the last round ended. `None` once stopped, or where
    /// the times cannot be written.
    pub fn next_round(&mut self, now: i64) -> (r: Option<ListRc>)
        requires
            now > i64::MIN,
        ensures
            final(self).props() == old(self).props(),
            final(self).stopped() == old(self).stopped(),
            old(self).stopped() ==> r is None && final(self).prev_time() == old(self).prev_time(),
            match r {
                Some(rc) => window_is(rc, (now - 1) as i64, old(self).prev_time()) && final(self).prev_time() == now - 1
                    && rc.prop == old(self).props().0 && rc.ty == old(self).props().1,
                None => final(self).prev_time() == old(self).prev_time(),
            },
            !old(self).stopped() && rfc3339_is_some((now - 1) as i64) && rfc3339_is_some(old(self).prev_time())
                ==> r is Some,
    {
        if self.errored {
            return None;
        }
        let start = match MwTimestamp::from_unix(now - 1) {
            Some(t) => t,
            None => return None,
        };
        let end = match MwTimestamp::from_unix(self.prev_time) {
            Some(t) => t,
            None => return None,
        };
        self.prev_time = now - 1;
        Some(ListRc {
            start: Some(NowableTime::Timestamp(start)),
            end: Some(NowableTime::Timestamp(end)),
            limit: Limit::Max,
            prop: self.prop,
            ty: self.ty,
        })
    }

    /// Stops the patroller after a failed round.
    pub fn on_error(&mut self)
        ensures
            final(self).stopped(),
            final(self).prev_time() == old(self).prev_time(),
            final(self).props() == old(self).props(),
    {
        self.errored = true;
    }
}

/// Whether the time `secs` can be written.
pub open spec fn rfc3339_is_some(secs: i64) -> bool {
    crate::types::rfc3339_of(secs) is Some
}

} // verus!
