//! Hacker News stories: their records, the paging state of story lists, the
//! cache keys of the story queries, and the answers of the story routes.
use crate::b64::{b64_std_bytes, b64_std_decode, b64_std_encode, b64_std_text};
use crate::text::{i64_to_decimal, int_decimal, lemma_int_decimal_chars, lemma_int_decimal_injective};
use vstd::prelude::*;

verus! {

/// A story as stored and served.
#[derive(PartialEq, Clone, Debug)]
pub struct HNStory {
    pub id: String,
    pub title: String,
    pub author: String,
    pub url: Option<String>,
    pub story_text: Option<String>,
    pub tags: Option<Vec<String>>,
    pub points: i32,
}

/// A story as the Hacker News search answers it.
#[derive(PartialEq, Clone, Debug)]
pub struct HNSearchResult {
    pub author: String,
    pub id: String,
    pub title: String,
    pub url: Option<String>,
    pub story_text: Option<String>,
    pub tags: Option<Vec<String>>,
    pub points: u32,
}

/// Errors of the story model.
#[derive(Debug)]
pub enum Error {
    Base64(base64::DecodeError),
    ScyllaError(String),
}

/// Where the next page of a story list starts, as base64 text of the
/// database's paging bytes.
#[derive(Clone, Debug)]
pub struct PagingState(pub String);

impl PagingState {
    /// A paging state from its base64 text.
    pub fn new(encoded: String) -> (res: Self)
        ensures
            res.0 == encoded,
    {
        PagingState(encoded)
    }

    /// The paging state of the database's paging bytes. Its text decodes
    /// back to the same bytes.
    pub fn from_bytes(bytes: &[u8]) -> (res: Self)
        ensures
            res.0@ == b64_std_text(bytes@),
            b64_std_bytes(res.0@) == Some(bytes@),
    {
        PagingState(b64_std_encode(bytes))
    }

    /// The database's paging bytes; text that is not base64 is `Base64`.
    pub fn into_bytes(&self) -> (res: Result<Vec<u8>, Error>)
        ensures
            match b64_std_bytes(self.0@) {
                Some(b) => (res matches Ok(v) && v@ == b),
                None => (res matches Err(e) && e is Base64),
            },
    {
        match b64_std_decode(self.0.as_str()) {
            Ok(v) => Ok(v),
            Err(e) => Err(Error::Base64(e)),
        }
    }
}

/// The paging bytes that a list query starts from: those of the paging
/// state when it decodes; the first page when there is none or it does not
/// decode.
pub fn query_paging_bytes(paging_state: &Option<PagingState>) -> (res: Option<Vec<u8>>)
    ensures
        match paging_state {
            Some(p) => match b64_std_bytes(p.0@) {
                Some(b) => (res matches Some(v) && v@ == b),
                None => res is None,
            },
            None => res is None,
        },
{
    match paging_state {
        Some(p) => match p.into_bytes() {
            Ok(v) => Some(v),
            Err(_) => None,
        },
        None => None,
    }
}

/// How long a page of stories stays in the cache, in seconds.
pub const REDIS_CACHE_DURATION: usize = 300;

/// How long a single story stays in the cache, in seconds.
pub const STORY_CACHE_DURATION: usize = 3600;

/// The cache key of the story `id`.
pub open spec fn spec_story_cache_key(id: Seq<char>) -> Seq<char> {
    "hnstory:"@ + id
}

/// The cache key of a page of stories.
pub open spec fn spec_page_cache_key(page_size: int, paging_state: Option<Seq<char>>) -> Seq<char> {
    match paging_state {
        Some(s) => "hnstories:page_size:"@ + int_decimal(page_size) + ":paging_state:"@ + s,
        None => "hnstories:page_size:"@ + int_decimal(page_size) + ":first_page"@,
    }
}

/// The cache key of the story `id`: `hnstory:<id>`.
pub fn story_cache_key(id: &str) -> (res: String)
    ensures
        res@ == spec_story_cache_key(id@),
{
    let mut key = String::from_str("hnstory:");
    key.append(id);
    key
}

/// The cache key of a page of `page_size` stories:
/// `hnstories:page_size:<n>:paging_state:<state>` after a paging state,
/// `hnstories:page_size:<n>:first_page` for the first page.
pub fn page_cache_key(page_size: i32, paging_state: &Option<PagingState>) -> (res: String)
    ensures
        res@ == spec_page_cache_key(page_size as int, match paging_state {
            Some(s) => Some(s.0@),
            None => None,
        }),
{
    let mut key = String::from_str("hnstories:page_size:");
    let n = i64_to_decimal(page_size as i64);
    key.append(n.as_str());
    match paging_state {
        Some(state) => {
            key.append(":paging_state:");
            key.append(state.0.as_str());
        },
        None => {
            key.append(":first_page");
        },
    }
    key
}

/// Only a story list with at least one story is put in the cache.
pub fn should_cache_stories(stories: &Vec<HNStory>) -> (res: bool)
    ensures
        res == (stories@.len() > 0),
{
    stories.len() > 0
}

/// What a read of the cache decides for a story query.
pub enum CacheStep<T> {
    /// The cache holds the answer: return it, with no database query.
    Hit(T),
    /// Query the database.
    Query,
}

/// The decision on what the cache gave for a key: a value found there is
/// the answer; no value, or a failed cache read, leads to the database
/// query (a cache failure is never an error of the query).
pub fn cache_lookup_step<T, E>(cached: Result<Option<T>, E>) -> (res: CacheStep<T>)
    ensures
        match cached {
            Ok(Some(v)) => res == CacheStep::Hit(v),
            _ => res is Query,
        },
{
    match cached {
        Ok(Some(v)) => CacheStep::Hit(v),
        _ => CacheStep::Query,
    }
}

/// After a cache miss on a single story: the answer is what the query gave,
/// and it is cached for `STORY_CACHE_DURATION` seconds only when it holds a
/// story (a failed query or an empty result is not cached). The answer
/// does not depend on whether the cache write succeeds.
pub fn story_miss_plan<E>(rows: Result<Vec<HNStory>, E>) -> (res: (Result<Vec<HNStory>, E>, Option<usize>))
    ensures
        res.0 == rows,
        match rows {
            Ok(v) => if v@.len() > 0 {
                res.1 == Some(STORY_CACHE_DURATION)
            } else {
                res.1 is None
            },
            Err(_) => res.1 is None,
        },
{
    let ttl = match &rows {
        Ok(v) => if should_cache_stories(v) {
            Some(STORY_CACHE_DURATION)
        } else {
            None
        },
        Err(_) => None,
    };
    (rows, ttl)
}

/// After a cache miss on a page of stories: the answer is the page's stories
/// with the paging state of the database's next paging bytes, and it is
/// cached for `REDIS_CACHE_DURATION` seconds; a failed query is the answer
/// as it is, and nothing is cached. The answer does not depend on whether
/// the cache write succeeds.
pub fn page_miss_plan<E>(rows: Result<(Vec<HNStory>, Option<Vec<u8>>), E>) -> (res: (
    Result<(Vec<HNStory>, Option<PagingState>), E>,
    Option<usize>,
))
    ensures
        match rows {
            Ok((v, next)) => (res.0 matches Ok((w, p)) && w == v && match next {
                Some(b) => (p matches Some(ps) && ps.0@ == b64_std_text(b@)),
                None => p is None,
            }) && res.1 == Some(REDIS_CACHE_DURATION),
            Err(e) => (res.0 matches Err(e2) && e2 == e) && res.1 is None,
        },
{
    match rows {
        Ok((stories, next)) => {
            let state = match next {
                Some(b) => Some(PagingState::from_bytes(b.as_slice())),
                None => None,
            };
            (Ok((stories, state)), Some(REDIS_CACHE_DURATION))
        },
        Err(e) => (Err(e), None),
    }
}

// ---- the story routes

/// The query of the story list route.
pub struct PaginationParams {
    pub page_size: u32,
    pub paging_state: Option<String>,
}

/// A page of items and where the next page starts.
pub struct PaginatedResponse<T> {
    pub data: Vec<T>,
    pub next_paging_state: Option<String>,
}

/// The page size as the database query takes it: the `u32` read as an
/// `i32`, wrapping above `i32::MAX`.
pub open spec fn query_page_size(page_size: u32) -> int {
    if page_size <= i32::MAX { page_size as int } else { page_size - 0x1_0000_0000 }
}

/// The page size queried is the requested one read as an `i32`: the one
/// `i32` equal to it modulo 2^32, so a size that fits is kept as it is.
pub proof fn lemma_query_page_size_is_i32_reading(page_size: u32)
    ensures
        i32::MIN <= query_page_size(page_size) <= i32::MAX,
        (query_page_size(page_size) - page_size) % 0x1_0000_0000 == 0,
        page_size <= i32::MAX ==> query_page_size(page_size) == page_size,
{
}

/// The page size and paging state that the story list route queries with.
pub fn pagination_query(params: PaginationParams) -> (res: (i32, Option<PagingState>))
    ensures
        res.0 == query_page_size(params.page_size),
        params.page_size <= i32::MAX ==> res.0 == params.page_size,
        params.page_size > i32::MAX ==> res.0 == params.page_size - 0x1_0000_0000,
        match params.paging_state {
            Some(s) => (res.1 matches Some(p) && p.0 == s),
            None => res.1 is None,
        },
{
    let size: i32 = if params.page_size <= 2147483647 {
        params.page_size as i32
    } else {
        (params.page_size as i64 - 4294967296) as i32
    };
    let state = match params.paging_state {
        Some(s) => Some(PagingState::new(s)),
        None => None,
    };
    (size, state)
}

/// The page the story list route answers with.
pub fn paginated_response(stories: Vec<HNStory>, next: Option<PagingState>) -> (res: PaginatedResponse<HNStory>)
    ensures
        res.data == stories,
        match next {
            Some(p) => res.next_paging_state == Some(p.0),
            None => res.next_paging_state is None,
        },
{
    PaginatedResponse {
        data: stories,
        next_paging_state: match next {
            Some(p) => Some(p.0),
            None => None,
        },
    }
}

/// The answer of the story list route.
pub enum PageReply {
    /// A page of stories (200).
    Page(PaginatedResponse<HNStory>),
    /// The query failed (500, `Failed to retrieve stories`).
    Failed,
}

/// The answer of the story list route for the result of the query.
pub fn page_reply<E>(result: Result<(Vec<HNStory>, Option<PagingState>), E>) -> (res: PageReply)
    ensures
        match result {
            Ok((stories, next)) => (res matches PageReply::Page(p) && p.data == stories && match next {
                Some(n) => p.next_paging_state == Some(n.0),
                None => p.next_paging_state is None,
            }),
            Err(_) => res is Failed,
        },
{
    match result {
        Ok((stories, next)) => PageReply::Page(paginated_response(stories, next)),
        Err(_) => PageReply::Failed,
    }
}

/// The answer of the single story route.
pub enum StoryReply {
    /// The first story found (200).
    Found(HNStory),
    /// No story has the id (404, `Story not found`).
    NotFound,
    /// The query failed (500, `Failed to retrieve story`).
    Failed,
}

/// The answer of the single story route for the result of the query.
pub fn story_reply<E>(result: Result<Vec<HNStory>, E>) -> (res: StoryReply)
    ensures
        match result {
            Ok(v) => if v@.len() > 0 { res == StoryReply::Found(v@[0]) } else { res is NotFound },
            Err(_) => res is Failed,
        },
{
    match result {
        Ok(mut stories) => {
            if stories.len() == 0 {
                StoryReply::NotFound
            } else {
                StoryReply::Found(stories.remove(0))
            }
        },
        Err(_) => StoryReply::Failed,
    }
}

} // verus!

verus! {

proof fn lemma_split_at_colon(d1: Seq<char>, r1: Seq<char>, d2: Seq<char>, r2: Seq<char>)
    requires
        d1 + r1 == d2 + r2,
        forall|i: int| 0 <= i < d1.len() ==> #[trigger] d1[i] != ':',
        forall|i: int| 0 <= i < d2.len() ==> #[trigger] d2[i] != ':',
        r1.len() > 0 && r1[0] == ':',
        r2.len() > 0 && r2[0] == ':',
    ensures
        d1 == d2,
        r1 == r2,
{
    let k = d1 + r1;
    if d1.len() < d2.len() {
        assert(k[d1.len() as int] == r1[0]);
        assert((d2 + r2)[d1.len() as int] == d2[d1.len() as int]);
    } else if d2.len() < d1.len() {
        assert((d2 + r2)[d2.len() as int] == r2[0]);
        assert(k[d2.len() as int] == d1[d2.len() as int]);
    }
    assert(d1 =~= k.take(d1.len() as int));
    assert(d2 =~= (d2 + r2).take(d2.len() as int));
    assert(r1 =~= k.skip(d1.len() as int));
    assert(r2 =~= (d2 + r2).skip(d2.len() as int));
}

/// Different pages have different cache keys: the key names the page size
/// and the paging state (or the first page) it was made from.
pub proof fn lemma_page_cache_key_unique(p1: int, s1: Option<Seq<char>>, p2: int, s2: Option<Seq<char>>)
    requires
        spec_page_cache_key(p1, s1) == spec_page_cache_key(p2, s2),
    ensures
        p1 == p2,
        s1 == s2,
{
    reveal_strlit("hnstories:page_size:");
    reveal_strlit(":paging_state:");
    reveal_strlit(":first_page");
    let pre = "hnstories:page_size:"@;
    let tail1 = match s1 { Some(s) => ":paging_state:"@ + s, None => ":first_page"@ };
    let tail2 = match s2 { Some(s) => ":paging_state:"@ + s, None => ":first_page"@ };
    let d1 = int_decimal(p1);
    let d2 = int_decimal(p2);
    assert(spec_page_cache_key(p1, s1) =~= pre + (d1 + tail1));
    assert(spec_page_cache_key(p2, s2) =~= pre + (d2 + tail2));
    assert(d1 + tail1 =~= (pre + (d1 + tail1)).skip(pre.len() as int));
    assert(d2 + tail2 =~= (pre + (d2 + tail2)).skip(pre.len() as int));
    lemma_int_decimal_chars(p1);
    lemma_int_decimal_chars(p2);
    assert forall|i: int| 0 <= i < d1.len() implies #[trigger] d1[i] != ':' by {
        assert(d1[i] == '-' || ('0' <= d1[i] && d1[i] <= '9'));
    }
    assert forall|i: int| 0 <= i < d2.len() implies #[trigger] d2[i] != ':' by {
        assert(d2[i] == '-' || ('0' <= d2[i] && d2[i] <= '9'));
    }
    assert(tail1[0] == ':');
    assert(tail2[0] == ':');
    lemma_split_at_colon(d1, tail1, d2, tail2);
    lemma_int_decimal_injective(p1, p2);
    match (s1, s2) {
        (Some(a), Some(b)) => {
            assert(a =~= tail1.skip(14));
            assert(b =~= tail2.skip(14));
        },
        (Some(a), None) => {
            assert(tail1[1] == 'p');
            assert(tail2[1] == 'f');
        },
        (None, Some(b)) => {
            assert(tail1[1] == 'f');
            assert(tail2[1] == 'p');
        },
        (None, None) => {},
    }
}

} // verus!

verus! {

/// A single story and a page of stories never share a cache key.
pub proof fn lemma_story_and_page_keys_differ(id: Seq<char>, page_size: int, paging_state: Option<Seq<char>>)
    ensures
        spec_story_cache_key(id) != spec_page_cache_key(page_size, paging_state),
{
    reveal_strlit("hnstory:");
    reveal_strlit("hnstories:page_size:");
    let a = spec_story_cache_key(id);
    let b = spec_page_cache_key(page_size, paging_state);
    let pre = "hnstories:page_size:"@;
    assert(pre.len() == 20);
    assert(pre[7] == 'e');
    assert(a[7] == ':');
    match paging_state {
        Some(s) => {
            let rest = int_decimal(page_size) + ":paging_state:"@ + s;
            assert(b =~= pre + rest);
            assert((pre + rest)[7] == pre[7]);
        },
        None => {
            let rest = int_decimal(page_size) + ":first_page"@;
            assert(b =~= pre + rest);
            assert((pre + rest)[7] == pre[7]);
        },
    }
    assert(b[7] == 'e');
}

} // verus!
