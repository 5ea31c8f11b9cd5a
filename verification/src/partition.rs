//! Splitting a primary-key range into partitions, walking a partition in
//! chunks, and paging through a table without a key.

use vstd::prelude::*;

verus! {

/// The width `max - min` of a primary-key range.
pub fn key_span(min: i64, max: i64) -> (span: i64)
    requires
        i64::MIN <= max - min <= i64::MAX,
    ensures
        span == max - min,
{
    max - min
}

/// Partition `i` of the key range `[min, max]` cut at the offsets
/// `offsets` (offset `i` is where partition `i` starts, counted from `min`):
/// it runs from `min + offsets[i]` to the start of the next partition, and
/// the last one runs to `max`. Both ends are inclusive.
pub open spec fn partition_at(min: i64, max: i64, offsets: Seq<i64>, i: int) -> (int, int) {
    let start = min + offsets[i];
    let end = if i == offsets.len() - 1 { max as int } else { min + offsets[i + 1] };
    (start, end)
}

/// The requirement that every partition start fits in an `i64`.
pub open spec fn starts_fit(min: i64, offsets: Seq<i64>) -> bool {
    forall|i: int| 0 <= i < offsets.len() ==> i64::MIN <= min + #[trigger] offsets[i] <= i64::MAX
}

/// The inclusive key ranges of the partitions of `[min, max]` that start at
/// `min + offsets[i]`, one per offset.
pub fn partition_bounds(min: i64, max: i64, offsets: &Vec<i64>) -> (parts: Vec<(i64, i64)>)
    requires
        starts_fit(min, offsets@),
    ensures
        parts@.len() == offsets@.len(),
        forall|i: int| 0 <= i < parts@.len() ==>
            (#[trigger] parts@[i].0 as int, parts@[i].1 as int) == partition_at(min, max, offsets@, i),
        forall|i: int| 0 <= i < parts@.len() ==> #[trigger] parts@[i].0 == min + offsets@[i]
            && parts@[i].1 == (if i == parts@.len() - 1 { max as int } else { min + offsets@[i + 1] }),
{
    let n = offsets.len();
    let mut parts: Vec<(i64, i64)> = Vec::new();
    let mut i: usize = 0;
    while i < n
        invariant
            n == offsets@.len(),
            starts_fit(min, offsets@),
            i <= n,
            parts@.len() == i,
            forall|j: int| 0 <= j < i ==>
                (#[trigger] parts@[j].0 as int, parts@[j].1 as int) == partition_at(min, max, offsets@, j),
        decreases n - i,
    {
        assert(i64::MIN <= min + offsets@[i as int] <= i64::MAX);
        let start = min + offsets[i];
        let end = if i == n - 1 {
            max
        } else {
            assert(i64::MIN <= min + offsets@[i + 1] <= i64::MAX);
            min + offsets[i + 1]
        };
        parts.push((start, end));
        i = i + 1;
    }
    parts
}

/// Neighbouring partitions meet: each one ends on the key the next one
/// starts with (both ends being inclusive, that key lies in both), the first
/// starts at `min + offsets[0]` and the last ends at `max`.
pub proof fn partitions_meet(min: i64, max: i64, offsets: Seq<i64>)
    requires
        offsets.len() > 0,
    ensures
        partition_at(min, max, offsets, 0).0 == min + offsets[0],
        partition_at(min, max, offsets, offsets.len() - 1).1 == max,
        forall|i: int| 0 <= i < offsets.len() - 1 ==>
            #[trigger] partition_at(min, max, offsets, i).1 == partition_at(min, max, offsets, i + 1).0,
{
}

/// Every key from the first partition's start to `max` lies in some
/// partition, when the offsets never decrease and the last start is not
/// past `max`.
pub proof fn partitions_cover(min: i64, max: i64, offsets: Seq<i64>, key: int)
    requires
        offsets.len() > 0,
        forall|i: int, j: int| 0 <= i <= j < offsets.len() ==> offsets[i] <= offsets[j],
        min + offsets[offsets.len() - 1] <= max,
        min + offsets[0] <= key <= max,
    ensures
        exists|i: int| 0 <= i < offsets.len()
            && #[trigger] partition_at(min, max, offsets, i).0 <= key <= partition_at(min, max, offsets, i).1,
{
    partition_reaching(min, max, offsets, key, 0);
}

proof fn partition_reaching(min: i64, max: i64, offsets: Seq<i64>, key: int, i: int)
    requires
        0 <= i < offsets.len(),
        min + offsets[i] <= key <= max,
    ensures
        exists|j: int| 0 <= j < offsets.len()
            && #[trigger] partition_at(min, max, offsets, j).0 <= key <= partition_at(min, max, offsets, j).1,
    decreases offsets.len() - i,
{
    if i + 1 < offsets.len() && min + offsets[i + 1] <= key {
        partition_reaching(min, max, offsets, key, i + 1);
    } else {
        assert(partition_at(min, max, offsets, i).0 <= key <= partition_at(min, max, offsets, i).1);
    }
}

/// Where a chunk that starts at `current` ends: `step` keys further, but
/// not past `end`.
pub open spec fn chunk_end(current: int, end: int, step: int) -> int {
    if current + step < end { current + step } else { end }
}

/// The chunks a walk from `current` to `end` visits, in order; each is an
/// inclusive key range.
pub open spec fn chunk_walk(current: int, end: int, step: int) -> Seq<(int, int)>
    decreases end - current + 1,
{
    if current > end || step < 0 {
        Seq::empty()
    } else {
        let e = chunk_end(current, end, step);
        seq![(current, e)] + chunk_walk(e + 1, end, step)
    }
}

/// Where a chunk walk stands.
pub struct ChunkCursorView {
    pub current: int,
    pub end: int,
    pub step: int,
}

/// Walks the key range of one partition in chunks of at most `step + 1`
/// keys (a chunk runs from its start to `step` keys further, inclusive).
pub struct ChunkCursor {
    current: i64,
    end: i64,
    step: i64,
}

impl ChunkCursor {
    #[verifier::type_invariant]
    spec fn step_not_negative(self) -> bool {
        self.step >= 0
    }
}

impl View for ChunkCursor {
    type V = ChunkCursorView;

    closed spec fn view(&self) -> ChunkCursorView {
        ChunkCursorView { current: self.current as int, end: self.end as int, step: self.step as int }
    }
}

impl ChunkCursor {
    /// A walk over `[start, end]` in chunks reaching `batch_size` keys past
    /// their start.
    pub fn new(start: i64, end: i64, batch_size: usize) -> (c: Self)
        requires
            batch_size <= i64::MAX,
        ensures
            c@ == (ChunkCursorView { current: start as int, end: end as int, step: batch_size as int }),
            c@.step >= 0,
    {
        ChunkCursor { current: start, end, step: batch_size as i64 }
    }

    /// Whether `next_chunk` can be asked: the end of a pending chunk is
    /// computed without overflow.
    pub fn next_chunk_fits(&self) -> (b: bool)
        ensures
            b == (self@.current <= self@.end ==> self@.current + self@.step <= i64::MAX),
    {
        proof { use_type_invariant(self); }
        self.current > self.end || self.current <= i64::MAX - self.step
    }

    /// Whether a chunk with rows can be handed to `on_chunk`: a chunk is
    /// pending, and the key after it is computed without overflow.
    pub fn advance_fits(&self) -> (b: bool)
        ensures
            b == (self@.current <= self@.end && self@.current + self@.step <= i64::MAX
                && chunk_end(self@.current, self@.end, self@.step) < i64::MAX),
    {
        proof { use_type_invariant(self); }
        if self.current <= self.end && self.current <= i64::MAX - self.step {
            let reach = self.current + self.step;
            let chunk_end = if reach < self.end { reach } else { self.end };
            chunk_end < i64::MAX
        } else {
            false
        }
    }

    /// The chunk to fetch next, or `None` once the walk is past the end.
    pub fn next_chunk(&self) -> (r: Option<(i64, i64)>)
        requires
            self@.current <= self@.end ==> self@.current + self@.step <= i64::MAX,
        ensures
            self@.current > self@.end ==> r is None,
            self@.current <= self@.end ==> (r matches Some(c)
                && c.0 == self@.current
                && c.1 == chunk_end(self@.current, self@.end, self@.step)
                && c.1 == (if self@.current + self@.step < self@.end { self@.current + self@.step } else { self@.end })),
    {
        proof { use_type_invariant(self); }
        if self.current <= self.end {
            let reach = self.current + self.step;
            let chunk_end = if reach < self.end { reach } else { self.end };
            Some((self.current, chunk_end))
        } else {
            None
        }
    }

    /// Decides what a chunk fetch leads to: an empty chunk ends the walk, a
    /// failed query fails it, and a chunk with rows is handed on and the walk
    /// moves to the key after its end.
    pub fn on_chunk(&mut self, event: ChunkEvent) -> (action: ChunkAction)
        requires
            old(self)@.current <= old(self)@.end,
            old(self)@.current + old(self)@.step <= i64::MAX,
            (event matches ChunkEvent::Fetched(n) && n > 0)
                ==> chunk_end(old(self)@.current, old(self)@.end, old(self)@.step) < i64::MAX,
        ensures
            (final(self)@, action) == after_chunk(old(self)@, event),
            final(self)@.end == old(self)@.end,
            final(self)@.step == old(self)@.step,
            (event matches ChunkEvent::Fetched(n) && n > 0) ==> action == ChunkAction::Deliver
                && final(self)@.current == (if old(self)@.current + old(self)@.step < old(self)@.end {
                    old(self)@.current + old(self)@.step
                } else {
                    old(self)@.end
                }) + 1,
            (event matches ChunkEvent::Fetched(n) && n == 0) ==> action == ChunkAction::Finish && final(self)@ == old(self)@,
            event is QueryFailed ==> action == ChunkAction::Fail && final(self)@ == old(self)@,
    {
        proof { use_type_invariant(&*self); }
        match event {
            ChunkEvent::Fetched(n) => {
                if n == 0 {
                    ChunkAction::Finish
                } else {
                    let reach = self.current + self.step;
                    let chunk_end = if reach < self.end { reach } else { self.end };
                    self.current = chunk_end + 1;
                    ChunkAction::Deliver
                }
            },
            ChunkEvent::QueryFailed => ChunkAction::Fail,
        }
    }
}

/// What a chunk fetch brought.
pub enum ChunkEvent {
    /// The chunk was fetched and held this many rows.
    Fetched(usize),
    /// The chunk query failed.
    QueryFailed,
}

/// What to do after a chunk fetch.
#[derive(PartialEq, Eq, Structural)]
pub enum ChunkAction {
    /// Hand the rows on, then fetch the next chunk.
    Deliver,
    /// The partition is done.
    Finish,
    /// Report the query's failure.
    Fail,
}

/// The walk and the action after a chunk fetch: an empty chunk ends the
/// walk where it stands, a failure fails it, and a chunk with rows moves the
/// walk past the chunk.
pub open spec fn after_chunk(v: ChunkCursorView, event: ChunkEvent) -> (ChunkCursorView, ChunkAction) {
    match event {
        ChunkEvent::Fetched(n) => if n == 0 {
            (v, ChunkAction::Finish)
        } else {
            (ChunkCursorView { current: chunk_end(v.current, v.end, v.step) + 1, ..v }, ChunkAction::Deliver)
        },
        ChunkEvent::QueryFailed => (v, ChunkAction::Fail),
    }
}

/// The chunks of a walk tile its range: the first starts at the walk's
/// start, each next one starts right after the previous one ends, the last
/// ends at the walk's end, and none holds more than `step + 1` keys.
pub proof fn chunks_tile_range(start: int, end: int, step: int)
    requires
        start <= end,
        step >= 0,
    ensures
        chunk_walk(start, end, step).len() > 0,
        chunk_walk(start, end, step)[0].0 == start,
        chunk_walk(start, end, step).last().1 == end,
        forall|k: int| 0 <= k < chunk_walk(start, end, step).len() ==>
            #[trigger] chunk_walk(start, end, step)[k].0 <= chunk_walk(start, end, step)[k].1
            && chunk_walk(start, end, step)[k].1 - chunk_walk(start, end, step)[k].0 <= step,
        forall|k: int| 0 <= k < chunk_walk(start, end, step).len() - 1 ==>
            #[trigger] chunk_walk(start, end, step)[k + 1].0 == chunk_walk(start, end, step)[k].1 + 1,
    decreases end - start + 1,
{
    let e = chunk_end(start, end, step);
    let rest = chunk_walk(e + 1, end, step);
    let w = chunk_walk(start, end, step);
    assert(w == seq![(start, e)] + rest);
    if e + 1 <= end {
        chunks_tile_range(e + 1, end, step);
        assert forall|k: int| 0 <= k < w.len() - 1 implies #[trigger] w[k + 1].0 == w[k].1 + 1 by {
            assert(w[k + 1] == rest[k]);
            if k > 0 {
                assert(w[k] == rest[k - 1]);
                let j = k - 1;
                assert(rest[j + 1].0 == rest[j].1 + 1);
            }
        }
        assert forall|k: int| 0 <= k < w.len() implies
            #[trigger] w[k].0 <= w[k].1 && w[k].1 - w[k].0 <= step by {
            if k > 0 {
                assert(w[k] == rest[k - 1]);
            }
        }
        assert(w.last() == rest.last());
    } else {
        assert(rest.len() == 0);
        assert(w =~= seq![(start, e)]);
    }
}

/// The chunk cursor follows the walk: the chunk it offers is the walk's
/// first, and moving past it (after a chunk with rows) leaves exactly the
/// rest of the walk.
pub proof fn cursor_follows_walk(current: int, end: int, step: int)
    requires
        current <= end,
        step >= 0,
    ensures
        chunk_walk(current, end, step)[0] == (current, chunk_end(current, end, step)),
        chunk_walk(chunk_end(current, end, step) + 1, end, step) == chunk_walk(current, end, step).drop_first(),
{
    let w = chunk_walk(current, end, step);
    assert(w == seq![(current, chunk_end(current, end, step))] + chunk_walk(chunk_end(current, end, step) + 1, end, step));
    assert(w.drop_first() =~= chunk_walk(chunk_end(current, end, step) + 1, end, step));
}

/// After a chunk with rows, the cursor stands on the key right after that
/// chunk's last key (the smaller of `current + step` and `end`), so the
/// chunks it offers are exactly the walk's: the rest of the walk from there
/// is the walk without its first chunk, and no key is skipped or repeated.
/// An empty chunk or a failed query leaves the cursor where it stands.
pub proof fn cursor_moves_to_next_key(v: ChunkCursorView, n: usize)
    requires
        v.current <= v.end,
        v.step >= 0,
    ensures
        n > 0 ==> after_chunk(v, ChunkEvent::Fetched(n)).0 == (ChunkCursorView {
            current: (if v.current + v.step < v.end { v.current + v.step } else { v.end }) + 1,
            end: v.end,
            step: v.step,
        }),
        n > 0 ==> chunk_walk(after_chunk(v, ChunkEvent::Fetched(n)).0.current, v.end, v.step)
            == chunk_walk(v.current, v.end, v.step).drop_first(),
        n > 0 ==> after_chunk(v, ChunkEvent::Fetched(n)).0.current == chunk_walk(v.current, v.end, v.step)[0].1 + 1,
        n > 0 ==> after_chunk(v, ChunkEvent::Fetched(n)).1 == ChunkAction::Deliver,
        n == 0 ==> after_chunk(v, ChunkEvent::Fetched(n)) == (v, ChunkAction::Finish),
        after_chunk(v, ChunkEvent::QueryFailed) == (v, ChunkAction::Fail),
{
    cursor_follows_walk(v.current, v.end, v.step);
}

/// A walk's first chunk starts at its first key and reaches `step` keys
/// further, or the end when that is nearer.
pub proof fn first_chunk_reaches_step_keys(current: int, end: int, step: int)
    requires
        current <= end,
        step >= 0,
    ensures
        chunk_walk(current, end, step)[0]
            == (current, if current + step < end { current + step } else { end }),
{
    cursor_follows_walk(current, end, step);
}

/// Where a page walk stands.
pub struct PageCursorView {
    pub offset: int,
    pub page_size: int,
}

/// What a page fetch brought.
pub enum PageEvent {
    /// The page was fetched and held this many rows.
    Fetched(usize),
    /// The page query failed.
    QueryFailed,
}

/// What to do after a page fetch.
#[derive(PartialEq, Eq, Structural)]
pub enum PageAction {
    /// Hand the fetched rows on, then fetch the next page.
    Deliver,
    /// Signal the end of the data and stop.
    Finish,
}

/// Pages through a query result `page_size` rows at a time, with 1-based
/// inclusive row bounds.
pub struct PageCursor {
    offset: i64,
    page_size: i64,
}

impl View for PageCursor {
    type V = PageCursorView;

    closed spec fn view(&self) -> PageCursorView {
        PageCursorView { offset: self.offset as int, page_size: self.page_size as int }
    }
}

/// The 1-based inclusive row bounds of the page after `offset` rows.
pub open spec fn page_rows(offset: int, page_size: int) -> (int, int) {
    (offset + 1, offset + page_size)
}

/// The action and the new offset after a page fetch: an empty page or a
/// failed query ends the walk; a page with rows is handed on and the walk
/// moves one page further.
pub open spec fn after_page(v: PageCursorView, event: PageEvent) -> (PageCursorView, PageAction) {
    match event {
        PageEvent::Fetched(n) => if n == 0 {
            (v, PageAction::Finish)
        } else {
            (PageCursorView { offset: v.offset + v.page_size, ..v }, PageAction::Deliver)
        },
        PageEvent::QueryFailed => (v, PageAction::Finish),
    }
}

impl PageCursor {
    /// A walk from the first row, `page_size` rows per page.
    pub fn new(page_size: i64) -> (c: Self)
        ensures
            c@ == (PageCursorView { offset: 0, page_size: page_size as int }),
    {
        PageCursor { offset: 0, page_size }
    }

    /// Whether the next page's bounds, and the move past it, are computed
    /// without overflow.
    pub fn page_fits(&self) -> (b: bool)
        ensures
            b == (i64::MIN <= self@.offset + self@.page_size <= i64::MAX && self@.offset < i64::MAX),
    {
        self.offset < i64::MAX && (if self.page_size >= 0 {
            self.offset <= i64::MAX - self.page_size
        } else {
            self.offset >= i64::MIN - self.page_size
        })
    }

    /// The 1-based inclusive row bounds of the next page.
    pub fn page_bounds(&self) -> (r: (i64, i64))
        requires
            i64::MIN <= self@.offset + self@.page_size <= i64::MAX,
            self@.offset < i64::MAX,
        ensures
            (r.0 as int, r.1 as int) == page_rows(self@.offset, self@.page_size),
    {
        (self.offset + 1, self.offset + self.page_size)
    }

    /// Decides what a page fetch leads to, and moves on when it is handed on.
    pub fn on_page(&mut self, event: PageEvent) -> (action: PageAction)
        requires
            i64::MIN <= old(self)@.offset + old(self)@.page_size <= i64::MAX,
        ensures
            (final(self)@, action) == after_page(old(self)@, event),
    {
        match event {
            PageEvent::Fetched(n) => {
                if n == 0 {
                    PageAction::Finish
                } else {
                    self.offset = self.offset + self.page_size;
                    PageAction::Deliver
                }
            },
            PageEvent::QueryFailed => PageAction::Finish,
        }
    }
}

/// A page with rows is handed on and the walk moves one page size further;
/// an empty page or a failed query ends the walk where it stands. A page
/// covers the rows right after the offset, `page_size` of them.
pub proof fn page_walk_steps(v: PageCursorView, n: usize)
    ensures
        n > 0 ==> after_page(v, PageEvent::Fetched(n))
            == (PageCursorView { offset: v.offset + v.page_size, page_size: v.page_size }, PageAction::Deliver),
        n == 0 ==> after_page(v, PageEvent::Fetched(n)) == (v, PageAction::Finish),
        after_page(v, PageEvent::QueryFailed) == (v, PageAction::Finish),
        page_rows(v.offset, v.page_size) == (v.offset + 1, v.offset + v.page_size),
{
}

/// Pages follow each other without gap or overlap: after a page is handed
/// on, the next page starts on the row after the one the page ended on.
pub proof fn pages_are_adjacent(v: PageCursorView, n: usize)
    requires
        n > 0,
    ensures
        after_page(v, PageEvent::Fetched(n)).1 == PageAction::Deliver,
        page_rows(after_page(v, PageEvent::Fetched(n)).0.offset, v.page_size).0
            == page_rows(v.offset, v.page_size).1 + 1,
{
}

} // verus!
