//! Query text and page number of the result set being browsed.

use vstd::prelude::*;

verus! {

/// Highest page that stepping forward reaches.
pub const MAX_PAGE: u16 = 1000;

/// Page reached by stepping `amount` pages forward from `page`.
pub open spec fn advance(page: u16, amount: u16) -> u16 {
    if (page as int) + (amount as int) < (MAX_PAGE as int) {
        (page + amount) as u16
    } else {
        MAX_PAGE
    }
}

/// Page reached by stepping `amount` pages back from `page`.
pub open spec fn retreat(page: u16, amount: u16) -> u16 {
    if page <= amount {
        0
    } else {
        (page - amount) as u16
    }
}

/// What the next fetch asks for: the query text and the page number.
#[derive(Clone, Debug)]
pub struct Params {
    pub page: u16,
    pub query: String,
}

impl Params {
    /// Page 1 of the seed query "algorithms".
    pub fn new() -> (r: Self)
        ensures
            r.page == 1,
            r.query@ == seq!['a', 'l', 'g', 'o', 'r', 'i', 't', 'h', 'm', 's'],
    {
        proof {
            reveal_strlit("algorithms");
        }
        Params { page: 1, query: String::from_str("algorithms") }
    }

    /// Steps forward by `amount` pages, saturating at `MAX_PAGE`.
    pub fn next_page_by(&mut self, amount: u16)
        ensures
            final(self).page == advance(old(self).page, amount),
            final(self).page as int == vstd::math::min(old(self).page + amount, MAX_PAGE as int),
            final(self).query == old(self).query,
    {
        let page = self.page;
        self.page = if (page as u32) + (amount as u32) < MAX_PAGE as u32 {
            page + amount
        } else {
            MAX_PAGE
        };
    }

    /// Steps back by `amount` pages, stopping at page 0.
    pub fn prev_page_by(&mut self, amount: u16)
        ensures
            final(self).page == retreat(old(self).page, amount),
            amount >= old(self).page ==> final(self).page == 0,
            amount < old(self).page ==> final(self).page == old(self).page - amount,
            final(self).query == old(self).query,
    {
        let page = self.page;
        self.page = if page <= amount {
            0
        } else {
            page - amount
        };
    }

    /// Replaces the query text verbatim; the empty text browses without a filter.
    pub fn set_query(&mut self, query: String)
        ensures
            final(self).query == query,
            final(self).page == old(self).page,
    {
        self.query = query;
    }
}

/// Stepping forward and then back by the same amount returns to the start
/// page whenever the forward step stays within `MAX_PAGE`, and below that
/// bound the forward step adds exactly `amount`.
pub proof fn lemma_advance_then_retreat(page: u16, amount: u16)
    requires
        (page as int) + (amount as int) <= (MAX_PAGE as int),
    ensures
        advance(page, amount) == page + amount,
        retreat(advance(page, amount), amount) == page,
{
}

/// Stepping back never goes below page 0, and lands exactly on 0 once the
/// amount reaches the current page.
pub proof fn lemma_retreat_floor(page: u16, amount: u16)
    ensures
        0 <= retreat(page, amount) <= page,
        amount >= page ==> retreat(page, amount) == 0,
{
}

} // verus!
