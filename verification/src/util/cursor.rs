//! The pagination cursor shared by every listing endpoint: limit, the opaque
//! `after`/`before` tickets, count, and the time window of ranked listings.

use vstd::prelude::*;

use crate::request::UrlBuf;
use crate::util::text::spec_u32_string;
use crate::util::text::u32_to_string;

verus! {

/// The time window of a ranked listing; a closed enumeration, so an
/// unserializable window cannot be constructed.
#[derive(Clone, Copy, Debug, PartialEq, Eq, Structural)]
pub enum TimePeriod {
    /// Posts from the past hour.
    ThisHour,
    /// Posts from the past day.
    ThisDay,
    /// Posts from the past week.
    ThisWeek,
    /// Posts from the past month.
    ThisMonth,
    /// Posts from the past year.
    ThisYear,
    /// Posts from all time.
    AllTime,
}

impl TimePeriod {
    /// The lowercase token this window puts on the wire.
    pub open spec fn spec_token(self) -> Seq<char> {
        match self {
            TimePeriod::ThisHour => "hour"@,
            TimePeriod::ThisDay => "day"@,
            TimePeriod::ThisWeek => "week"@,
            TimePeriod::ThisMonth => "month"@,
            TimePeriod::ThisYear => "year"@,
            TimePeriod::AllTime => "all"@,
        }
    }

    /// Serializes the window to its wire token.
    pub fn token(self) -> (r: &'static str)
        ensures
            r@ == self.spec_token(),
    {
        match self {
            TimePeriod::ThisHour => "hour",
            TimePeriod::ThisDay => "day",
            TimePeriod::ThisWeek => "week",
            TimePeriod::ThisMonth => "month",
            TimePeriod::ThisYear => "year",
            TimePeriod::AllTime => "all",
        }
    }
}

/// Pagination and sorting parameters for a listing call. Constructed fresh
/// per call, consumed once to produce query parameters, then discarded.
/// Absent fields are omitted from the query entirely.
#[derive(Clone, Debug, PartialEq, Eq)]
pub struct FeedOption {
    /// Return items after this full-name ticket; takes precedence upstream
    /// when `before` is also given.
    pub after: Option<String>,
    /// Return items before this full-name ticket.
    pub before: Option<String>,
    /// The number of items already seen in this listing.
    pub count: Option<u32>,
    /// The maximum number of items to return.
    pub limit: Option<u32>,
    /// The time window of a ranked listing.
    pub period: Option<TimePeriod>,
}

/// The query pairs of one optional parameter: one pair when present, nothing
/// when absent.
pub open spec fn spec_opt_param(key: Seq<char>, value: Option<Seq<char>>) -> Seq<
    (Seq<char>, Seq<char>),
> {
    match value {
        Some(v) => seq![(key, v)],
        None => Seq::empty(),
    }
}

/// Every query pair a cursor contributes, in field order: limit, after,
/// before, count, time window.
pub open spec fn spec_params(o: FeedOption) -> Seq<(Seq<char>, Seq<char>)> {
    spec_opt_param(
        "limit"@,
        match o.limit {
            Some(n) => Some(spec_u32_string(n as nat)),
            None => None,
        },
    ) + spec_opt_param("after"@, o.after.deep_view()) + spec_opt_param(
        "before"@,
        o.before.deep_view(),
    ) + spec_opt_param(
        "count"@,
        match o.count {
            Some(n) => Some(spec_u32_string(n as nat)),
            None => None,
        },
    ) + spec_opt_param(
        "t"@,
        match o.period {
            Some(p) => Some(p.spec_token()),
            None => None,
        },
    )
}

/// The query pairs of an optional cursor: nothing when no cursor was given.
pub open spec fn spec_opt_params(o: Option<FeedOption>) -> Seq<(Seq<char>, Seq<char>)> {
    match o {
        Some(f) => spec_params(f),
        None => Seq::empty(),
    }
}

impl FeedOption {
    /// A cursor with every parameter absent.
    pub fn new() -> (r: FeedOption)
        ensures
            r.after is None,
            r.before is None,
            r.count is None,
            r.limit is None,
            r.period is None,
    {
        FeedOption { after: None, before: None, count: None, limit: None, period: None }
    }

    /// Sets the `after` ticket.
    pub fn after(self, ticket: &str) -> (r: FeedOption)
        ensures
            r.after.deep_view() == Some(ticket@),
            r.before == self.before,
            r.count == self.count,
            r.limit == self.limit,
            r.period == self.period,
    {
        FeedOption { after: Some(ticket.to_owned()), ..self }
    }

    /// Sets the `before` ticket.
    pub fn before(self, ticket: &str) -> (r: FeedOption)
        ensures
            r.before.deep_view() == Some(ticket@),
            r.after == self.after,
            r.count == self.count,
            r.limit == self.limit,
            r.period == self.period,
    {
        FeedOption { before: Some(ticket.to_owned()), ..self }
    }

    /// Sets the already-seen count.
    pub fn count(self, count: u32) -> (r: FeedOption)
        ensures
            r.count == Some(count),
            r.after == self.after,
            r.before == self.before,
            r.limit == self.limit,
            r.period == self.period,
    {
        FeedOption { count: Some(count), ..self }
    }

    /// Sets the maximum number of items.
    pub fn limit(self, limit: u32) -> (r: FeedOption)
        ensures
            r.limit == Some(limit),
            r.after == self.after,
            r.before == self.before,
            r.count == self.count,
            r.period == self.period,
    {
        FeedOption { limit: Some(limit), ..self }
    }

    /// Sets the time window.
    pub fn period(self, period: TimePeriod) -> (r: FeedOption)
        ensures
            r.period == Some(period),
            r.after == self.after,
            r.before == self.before,
            r.count == self.count,
            r.limit == self.limit,
    {
        FeedOption { period: Some(period), ..self }
    }

    /// Appends this cursor's parameters to a URL's query string, in field
    /// order and only for the fields that are present; the base is never
    /// touched.
    pub fn build_url(&self, url: &mut UrlBuf)
        ensures
            final(url).base@ == old(url).base@,
            final(url).query_view() == old(url).query_view() + spec_params(*self),
    {
        if let Some(limit) = &self.limit {
            let s = u32_to_string(*limit);
            url.append_pair("limit", s.as_str());
        }
        if let Some(after) = &self.after {
            url.append_pair("after", after.as_str());
        }
        if let Some(before) = &self.before {
            url.append_pair("before", before.as_str());
        }
        if let Some(count) = &self.count {
            let s = u32_to_string(*count);
            url.append_pair("count", s.as_str());
        }
        if let Some(period) = &self.period {
            url.append_pair("t", period.token());
        }
        assert(url.query_view() =~= old(url).query_view() + spec_params(*self));
    }
}

} // verus!
