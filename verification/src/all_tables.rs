use vstd::prelude::*;

verus! {

/// Paginated listing of the table names one owner holds.
///
/// `total` is fixed once at construction, a point-in-time snapshot of the
/// owner-scoped count: tables created by concurrent writers afterwards are
/// never observed, and termination is bounded by this captured value.
///
/// The stream holds only the pagination bookkeeping and the current page;
/// issuing the catalog queries and decoding their rows is its caller's
/// work, fed in through `new` and `advance_fetched`.
pub struct AllTableNameStream {
    /// Page size; fixed for the stream's lifetime.
    pub limit: u32,
    /// Offset of the current page; always a multiple of `limit`.
    pub offset: u64,
    /// The owner's table count, captured once at construction.
    pub total: u64,
    /// The names of the current page, drained by `take_current`.
    pub current: Vec<String>,
}

impl AllTableNameStream {
    /// Bookkeeping invariant kept for the stream's whole life.
    pub open spec fn wf(self) -> bool {
        0 < self.limit && self.offset as int % (self.limit as int) == 0
    }

    /// True exactly when one more page lies within the fixed total.
    pub open spec fn has_next_page(self) -> bool {
        self.offset + self.limit <= self.total
    }

    pub fn get_current_ref(&self) -> (r: &[String])
        ensures
            r@ == self.current@,
    {
        self.current.as_slice()
    }

    /// Drains the current page, leaving it empty; called again before the
    /// next advance it yields nothing.
    pub fn take_current(&mut self) -> (r: Vec<String>)
        ensures
            r@ == old(self).current@,
            final(self).current@ == Seq::<String>::empty(),
            final(self).offset == old(self).offset,
            final(self).total == old(self).total,
            final(self).limit == old(self).limit,
    {
        let mut taken: Vec<String> = Vec::new();
        core::mem::swap(&mut self.current, &mut taken);
        taken
    }

    /// Builds the stream from the values observed at construction time:
    /// the owner's table count, fixed here for good, and the rows of the
    /// first listing page, fetched at offset 0 even when the count is 0.
    pub fn new(limit: u32, total: u64, first_page: Vec<String>) -> (s: Self)
        requires
            0 < limit,
        ensures
            s.wf(),
            s.limit == limit,
            s.offset == 0,
            s.total == total,
            s.current@ == first_page@,
    {
        proof {
            let ghost l = limit as int;
            assert(0int % l == 0) by (nonlinear_arith)
                requires
                    0 < l,
            ;
        }
        AllTableNameStream { limit, offset: 0, total, current: first_page }
    }

    /// Decision for the next advance: `true` asks the caller to fetch the
    /// page at `next_offset`, `false` says the stream is exhausted.
    pub fn wants_more(&self) -> (b: bool)
        ensures
            b == self.has_next_page(),
    {
        self.offset <= self.total && self.total - self.offset >= self.limit as u64
    }

    /// The offset the next page must be fetched at.
    pub fn next_offset(&self) -> (o: u64)
        requires
            self.has_next_page(),
        ensures
            o == self.offset + self.limit,
    {
        self.offset + self.limit as u64
    }

    /// Terminal advance: past the fixed total nothing is left; the current
    /// page is cleared without touching the database and `false` comes
    /// back, with `offset` left where it was.
    pub fn advance_exhausted(&mut self) -> (b: bool)
        requires
            !old(self).has_next_page(),
        ensures
            !b,
            final(self).current@ == Seq::<String>::empty(),
            final(self).offset == old(self).offset,
            final(self).total == old(self).total,
            final(self).limit == old(self).limit,
    {
        self.current.clear();
        false
    }

    /// Successful advance: the rows fetched at `next_offset` become the
    /// current page and `offset` moves forward by exactly `limit`; the
    /// captured total never changes.
    pub fn advance_fetched(&mut self, rows: Vec<String>) -> (b: bool)
        requires
            old(self).wf(),
            old(self).has_next_page(),
        ensures
            b,
            final(self).wf(),
            final(self).offset == old(self).offset + old(self).limit,
            final(self).total == old(self).total,
            final(self).limit == old(self).limit,
            final(self).current@ == rows@,
    {
        let next = self.offset + self.limit as u64;
        proof {
            let ghost o = old(self).offset as int;
            let ghost l = old(self).limit as int;
            assert((o + l) % l == 0) by (nonlinear_arith)
                requires
                    o % l == 0,
                    0 < l,
            ;
        }
        self.offset = next;
        self.current = rows;
        true
    }
}

} // verus!
