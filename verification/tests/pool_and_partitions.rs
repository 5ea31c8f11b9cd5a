use peregrine_falcon_miramar::partition::{
    key_span, partition_bounds, ChunkAction, ChunkCursor, ChunkEvent, PageAction, PageCursor, PageEvent,
};
use peregrine_falcon_miramar::pool::ConnectionPool;

#[test]
fn pool_starts_empty() {
    let pool: ConnectionPool<String> = ConnectionPool::new(3);
    assert_eq!(pool.max_size(), 3);
    assert_eq!(pool.acquire(), None);
}

#[test]
fn pool_hands_out_oldest_first() {
    let pool = ConnectionPool::new(2);
    assert_eq!(pool.release("a".to_string()), None);
    assert_eq!(pool.release("b".to_string()), None);
    assert_eq!(pool.acquire(), Some("a".to_string()));
    assert_eq!(pool.acquire(), Some("b".to_string()));
    assert_eq!(pool.acquire(), None);
}

#[test]
fn pool_refuses_when_full() {
    let pool = ConnectionPool::new(1);
    assert_eq!(pool.release(10u64), None);
    assert_eq!(pool.release(20u64), Some(20));
    assert_eq!(pool.acquire(), Some(10));
    assert_eq!(pool.acquire(), None);
}

#[test]
fn pool_reuses_released_connection() {
    let pool = ConnectionPool::new(4);
    assert_eq!(pool.release(7u64), None);
    let got = pool.acquire().unwrap();
    assert_eq!(got, 7);
    assert_eq!(pool.release(got), None);
    assert_eq!(pool.acquire(), Some(7));
}

#[test]
fn pool_round_trip_goes_to_back() {
    let pool = ConnectionPool::new(3);
    for id in 0u64..3 {
        assert_eq!(pool.release(id), None);
    }
    let first = pool.acquire().unwrap();
    assert_eq!(pool.release(first), None);
    assert_eq!(pool.acquire(), Some(1));
    assert_eq!(pool.acquire(), Some(2));
    assert_eq!(pool.acquire(), Some(0));
}

#[test]
fn key_span_is_difference() {
    assert_eq!(key_span(10, 110), 100);
    assert_eq!(key_span(-5, 5), 10);
    assert_eq!(key_span(7, 7), 0);
    assert_eq!(key_span(9, 1), -8);
}

#[test]
fn partitions_share_boundaries() {
    let parts = partition_bounds(0, 100, &vec![0, 25, 50, 75]);
    assert_eq!(parts, vec![(0, 25), (25, 50), (50, 75), (75, 100)]);
}

#[test]
fn single_partition_spans_range() {
    assert_eq!(partition_bounds(1000, 2000, &vec![0]), vec![(1000, 2000)]);
    assert_eq!(partition_bounds(5, 5, &vec![]), vec![]);
}

#[test]
fn partitions_from_offset_minimum() {
    let parts = partition_bounds(-10, 20, &vec![0, 10, 20]);
    assert_eq!(parts, vec![(-10, 0), (0, 10), (10, 20)]);
}

fn walk(start: i64, end: i64, step: usize) -> Vec<(i64, i64)> {
    let mut c = ChunkCursor::new(start, end, step);
    let mut out = Vec::new();
    while let Some(chunk) = c.next_chunk() {
        out.push(chunk);
        assert!(c.on_chunk(ChunkEvent::Fetched(1)) == ChunkAction::Deliver);
    }
    out
}

#[test]
fn chunks_tile_partition() {
    assert_eq!(walk(1, 10, 3), vec![(1, 4), (5, 8), (9, 10)]);
    assert_eq!(walk(0, 0, 5), vec![(0, 0)]);
    assert_eq!(walk(5, 4, 5), vec![]);
    assert_eq!(walk(0, 9, 0), (0..10).map(|k| (k, k)).collect::<Vec<_>>());
}

#[test]
fn chunks_cover_every_key_once() {
    let chunks = walk(-7, 250, 12);
    let mut next = -7;
    for (lo, hi) in &chunks {
        assert_eq!(*lo, next);
        assert!(hi - lo <= 12);
        next = hi + 1;
    }
    assert_eq!(next, 251);
}

#[test]
fn pages_follow_each_other() {
    let mut p = PageCursor::new(100);
    assert_eq!(p.page_bounds(), (1, 100));
    assert!(p.on_page(PageEvent::Fetched(100)) == PageAction::Deliver);
    assert_eq!(p.page_bounds(), (101, 200));
    assert!(p.on_page(PageEvent::Fetched(3)) == PageAction::Deliver);
    assert_eq!(p.page_bounds(), (201, 300));
    assert!(p.on_page(PageEvent::Fetched(0)) == PageAction::Finish);
    assert_eq!(p.page_bounds(), (201, 300));
}

#[test]
fn failed_page_finishes() {
    let mut p = PageCursor::new(50);
    assert!(p.on_page(PageEvent::QueryFailed) == PageAction::Finish);
    assert_eq!(p.page_bounds(), (1, 50));
}

#[test]
fn empty_chunk_ends_partition() {
    let mut c = ChunkCursor::new(1, 100, 9);
    assert_eq!(c.next_chunk(), Some((1, 10)));
    assert!(c.on_chunk(ChunkEvent::Fetched(0)) == ChunkAction::Finish);
    assert_eq!(c.next_chunk(), Some((1, 10)));
}

#[test]
fn failed_chunk_query_fails_partition() {
    let mut c = ChunkCursor::new(1, 100, 9);
    assert!(c.on_chunk(ChunkEvent::Fetched(5)) == ChunkAction::Deliver);
    assert_eq!(c.next_chunk(), Some((11, 20)));
    assert!(c.on_chunk(ChunkEvent::QueryFailed) == ChunkAction::Fail);
    assert_eq!(c.next_chunk(), Some((11, 20)));
}
