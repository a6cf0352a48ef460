//! Paging through an address's history, newest first, until the watermark.
//!
//! The cursor never talks to the indexer. It says which page to ask for
//! next and takes the answer, so the stop rule can be stated and proved on
//! its own.

use vstd::prelude::*;
use vstd::string::*;
use crate::node::{ErgoTransaction, FetchError, NodeAPIResponse, PAGE_SIZE};

verus! {

/// Whether `tx` is the transaction that `watermark` names. The empty
/// watermark names none.
pub open spec fn is_watermark(tx: ErgoTransaction, watermark: Seq<char>) -> bool {
    watermark.len() > 0 && tx.id@ == watermark
}

/// How many transactions of `page` come before the first one that
/// `watermark` names: the whole length where it names none of them.
pub open spec fn untracked_prefix_len(page: Seq<ErgoTransaction>, watermark: Seq<char>) -> nat
    decreases page.len(),
{
    if page.len() == 0 || is_watermark(page.first(), watermark) {
        0
    } else {
        1 + untracked_prefix_len(page.drop_first(), watermark)
    }
}

/// `untracked_prefix_len` is the least index that the watermark names, or
/// the length.
pub proof fn lemma_untracked_prefix_len(page: Seq<ErgoTransaction>, watermark: Seq<char>)
    ensures
        untracked_prefix_len(page, watermark) <= page.len(),
        forall|j: int|
            0 <= j < untracked_prefix_len(page, watermark) ==> !is_watermark(
                #[trigger] page[j],
                watermark,
            ),
        untracked_prefix_len(page, watermark) < page.len() ==> is_watermark(
            page[untracked_prefix_len(page, watermark) as int],
            watermark,
        ),
    decreases page.len(),
{
    if page.len() == 0 || is_watermark(page.first(), watermark) {
    } else {
        let rest = page.drop_first();
        lemma_untracked_prefix_len(rest, watermark);
        assert forall|j: int| 0 <= j < untracked_prefix_len(page, watermark) implies !is_watermark(
            #[trigger] page[j],
            watermark,
        ) by {
            if j > 0 {
                assert(page[j] == rest[j - 1]);
            }
        }
        let n = untracked_prefix_len(rest, watermark);
        if n < rest.len() {
            assert(page[n as int + 1] == rest[n as int]);
        }
    }
}

/// An index that no earlier transaction's name precedes, and that is the
/// length or names the watermark, is `untracked_prefix_len`.
pub proof fn lemma_untracked_prefix_len_is(
    page: Seq<ErgoTransaction>,
    watermark: Seq<char>,
    i: int,
)
    requires
        0 <= i <= page.len(),
        forall|j: int| 0 <= j < i ==> !is_watermark(#[trigger] page[j], watermark),
        i < page.len() ==> is_watermark(page[i], watermark),
    ensures
        untracked_prefix_len(page, watermark) == i,
    decreases page.len(),
{
    if i == 0 {
    } else {
        let rest = page.drop_first();
        assert(!is_watermark(page[0], watermark));
        assert forall|j: int| 0 <= j < i - 1 implies !is_watermark(
            #[trigger] rest[j],
            watermark,
        ) by {
            assert(rest[j] == page[j + 1]);
        }
        if i < page.len() {
            assert(rest[i - 1] == page[i]);
        }
        lemma_untracked_prefix_len_is(rest, watermark, i - 1);
    }
}

/// What a cursor stands for: the transactions gathered so far, the offset
/// of the next page, and whether paging has ended.
pub struct CursorView {
    pub txs: Seq<ErgoTransaction>,
    pub offset: nat,
    pub done: bool,
}

impl CursorView {
    /// Before the first request.
    pub open spec fn start() -> CursorView {
        CursorView { txs: Seq::empty(), offset: 0, done: false }
    }

    /// The cursor after the answer to its request. `None` is a failed
    /// request: paging ends with what was gathered. On a page that holds
    /// the watermark, paging ends with the transactions before it. On a
    /// short page, paging ends with the whole page. Otherwise the page is
    /// kept and the next one is due.
    pub open spec fn accept(self, page: Option<Seq<ErgoTransaction>>, watermark: Seq<char>)
        -> CursorView {
        match page {
            None => CursorView { done: true, ..self },
            Some(items) => {
                let cut = untracked_prefix_len(items, watermark);
                if cut < items.len() {
                    CursorView {
                        txs: self.txs + items.take(cut as int),
                        offset: self.offset,
                        done: true,
                    }
                } else if items.len() < PAGE_SIZE {
                    CursorView { txs: self.txs + items, offset: self.offset, done: true }
                } else {
                    CursorView {
                        txs: self.txs + items,
                        offset: self.offset + PAGE_SIZE as nat,
                        done: false,
                    }
                }
            },
        }
    }
}

/// The transactions of an answer, or `None` for a failed request.
pub open spec fn page_items(
    page: Result<NodeAPIResponse<Vec<ErgoTransaction>>, FetchError>,
) -> Option<Seq<ErgoTransaction>> {
    match page {
        Ok(response) => Some(response.items@),
        Err(_) => None,
    }
}

/// Gathers the transactions newer than the watermark, page by page.
#[derive(Debug)]
pub struct PageCursor {
    txs: Vec<ErgoTransaction>,
    offset: u64,
    done: bool,
}

impl View for PageCursor {
    type V = CursorView;

    closed spec fn view(&self) -> CursorView {
        CursorView { txs: self.txs@, offset: self.offset as nat, done: self.done }
    }
}

fn find_watermark(page: &Vec<ErgoTransaction>, watermark: &String) -> (cut: usize)
    ensures
        cut == untracked_prefix_len(page@, watermark@),
{
    if watermark.as_str().is_empty() {
        proof {
            lemma_untracked_prefix_len_is(page@, watermark@, page@.len() as int);
        }
        return page.len();
    }
    let mut i: usize = 0;
    while i < page.len() && !(page[i].id == *watermark)
        invariant
            i <= page.len(),
            watermark@.len() > 0,
            forall|j: int| 0 <= j < i ==> !is_watermark(#[trigger] page@[j], watermark@),
        decreases page.len() - i,
    {
        i += 1;
    }
    proof {
        lemma_untracked_prefix_len_is(page@, watermark@, i as int);
    }
    i
}

impl PageCursor {
    /// Every full page that was kept moved the offset on by one page, so
    /// the offset never exceeds what was gathered.
    pub closed spec fn wf(&self) -> bool {
        self.offset <= self.txs.len()
    }

    /// A cursor before its first request.
    pub fn new() -> (cursor: PageCursor)
        ensures
            cursor.wf(),
            cursor@ == CursorView::start(),
    {
        PageCursor { txs: Vec::new(), offset: 0, done: false }
    }

    /// The page to ask for next, as offset and limit, or `None` once
    /// paging has ended.
    pub fn next_request(&self) -> (request: Option<(u64, u64)>)
        ensures
            match request {
                None => self@.done,
                Some((offset, limit)) => !self@.done && offset as nat == self@.offset && limit
                    == PAGE_SIZE,
            },
    {
        if self.done {
            None
        } else {
            Some((self.offset, PAGE_SIZE))
        }
    }

    /// Whether paging has ended.
    pub fn is_done(&self) -> (done: bool)
        ensures
            done == self@.done,
    {
        self.done
    }

    /// How many transactions were gathered so far.
    pub fn len(&self) -> (n: usize)
        ensures
            n == self@.txs.len(),
    {
        self.txs.len()
    }

    /// Takes the answer to the request that `next_request` named. Once
    /// paging has ended, further answers change nothing.
    pub fn accept_page(
        &mut self,
        page: Result<NodeAPIResponse<Vec<ErgoTransaction>>, FetchError>,
        watermark: &String,
    )
        requires
            old(self).wf(),
        ensures
            final(self).wf(),
            final(self)@ == if old(self)@.done {
                old(self)@
            } else {
                old(self)@.accept(page_items(page), watermark@)
            },
    {
        if self.done {
            return ;
        }
        match page {
            Err(_) => {
                self.done = true;
            },
            Ok(response) => {
                let mut items = response.items;
                let count = items.len();
                let cut = find_watermark(&items, watermark);
                if cut < count {
                    items.truncate(cut);
                    self.txs.append(&mut items);
                    self.done = true;
                } else if count < PAGE_SIZE as usize {
                    self.txs.append(&mut items);
                    self.done = true;
                } else {
                    self.txs.append(&mut items);
                    let gathered: usize = self.txs.len();
                    assert(self.offset + PAGE_SIZE <= gathered);
                    self.offset = self.offset + PAGE_SIZE;
                }
            },
        }
    }

    /// The transactions gathered, newest first.
    pub fn into_transactions(self) -> (txs: Vec<ErgoTransaction>)
        ensures
            txs@ == self@.txs,
    {
        self.txs
    }
}

/// The page that an indexer holding `history`, newest first, returns for
/// a request at `offset`: up to one page's worth from there on.
pub open spec fn page_at(history: Seq<ErgoTransaction>, offset: nat) -> Seq<ErgoTransaction> {
    let from = if offset <= history.len() {
        offset as int
    } else {
        history.len() as int
    };
    let to = if offset + PAGE_SIZE <= history.len() {
        offset + PAGE_SIZE
    } else {
        history.len() as int
    };
    history.subrange(from, to)
}

/// Where paging ends when every request from `cursor` on is answered out
/// of `history`, and how many requests that takes.
pub open spec fn paged(history: Seq<ErgoTransaction>, watermark: Seq<char>, cursor: CursorView)
    -> (CursorView, nat)
    decreases history.len() - cursor.offset,
{
    if cursor.done {
        (cursor, 0)
    } else {
        let next = cursor.accept(Some(page_at(history, cursor.offset)), watermark);
        if next.done {
            (next, 1)
        } else {
            let rest = paged(history, watermark, next);
            (rest.0, rest.1 + 1)
        }
    }
}

/// The transactions that paging through `history` gathers for `watermark`.
pub open spec fn untracked(history: Seq<ErgoTransaction>, watermark: Seq<char>) -> Seq<
    ErgoTransaction,
> {
    paged(history, watermark, CursorView::start()).0.txs
}

/// The number of page requests that paging through `history` makes.
pub open spec fn requests_made(history: Seq<ErgoTransaction>, watermark: Seq<char>) -> nat {
    paged(history, watermark, CursorView::start()).1
}

proof fn lemma_paged_to_watermark(
    history: Seq<ErgoTransaction>,
    watermark: Seq<char>,
    k: int,
    cursor: CursorView,
)
    requires
        0 <= k < history.len(),
        is_watermark(history[k], watermark),
        forall|j: int| 0 <= j < k ==> !is_watermark(#[trigger] history[j], watermark),
        !cursor.done,
        cursor.offset <= k,
        cursor.txs == history.take(cursor.offset as int),
    ensures
        paged(history, watermark, cursor).0.done,
        paged(history, watermark, cursor).0.txs == history.take(k),
        paged(history, watermark, cursor).1 == (k - cursor.offset) / (PAGE_SIZE as int) + 1,
    decreases k - cursor.offset,
{
    let page = page_at(history, cursor.offset);
    let next = cursor.accept(Some(page), watermark);
    let at = cursor.offset as int;
    if k < at + PAGE_SIZE {
        assert forall|j: int| 0 <= j < k - at implies !is_watermark(
            #[trigger] page[j],
            watermark,
        ) by {
            assert(page[j] == history[at + j]);
        }
        assert(page[k - at] == history[k]);
        lemma_untracked_prefix_len_is(page, watermark, k - at);
        assert(next.txs =~= history.take(k));
    } else {
        assert forall|j: int| 0 <= j < page.len() implies !is_watermark(
            #[trigger] page[j],
            watermark,
        ) by {
            assert(page[j] == history[at + j]);
        }
        lemma_untracked_prefix_len_is(page, watermark, page.len() as int);
        assert(next.txs =~= history.take(at + PAGE_SIZE));
        lemma_paged_to_watermark(history, watermark, k, next);
    }
}

/// With the watermark at position `k` of the history, paging gathers
/// exactly the `k` transactions before it and stops with the page that
/// holds it: `k / PAGE_SIZE + 1` requests, which is `k + 1` divided by the
/// page size and rounded up.
pub proof fn lemma_pagination_stops_at_watermark(
    history: Seq<ErgoTransaction>,
    watermark: Seq<char>,
    k: int,
)
    requires
        0 <= k < history.len(),
        is_watermark(history[k], watermark),
        forall|j: int| 0 <= j < k ==> !is_watermark(#[trigger] history[j], watermark),
    ensures
        untracked(history, watermark) == history.take(k),
        requests_made(history, watermark) == k / (PAGE_SIZE as int) + 1,
        requests_made(history, watermark) == (k + 1 + PAGE_SIZE - 1) / (PAGE_SIZE as int),
{
    assert(history.take(0) =~= Seq::<ErgoTransaction>::empty());
    lemma_paged_to_watermark(history, watermark, k, CursorView::start());
}

proof fn lemma_paged_to_end(
    history: Seq<ErgoTransaction>,
    watermark: Seq<char>,
    cursor: CursorView,
)
    requires
        forall|j: int| 0 <= j < history.len() ==> !is_watermark(#[trigger] history[j], watermark),
        !cursor.done,
        cursor.offset <= history.len(),
        cursor.txs == history.take(cursor.offset as int),
    ensures
        paged(history, watermark, cursor).0.done,
        paged(history, watermark, cursor).0.txs == history,
        paged(history, watermark, cursor).1 == (history.len() - cursor.offset) / (
        PAGE_SIZE as int) + 1,
    decreases history.len() - cursor.offset,
{
    let page = page_at(history, cursor.offset);
    let next = cursor.accept(Some(page), watermark);
    let at = cursor.offset as int;
    assert forall|j: int| 0 <= j < page.len() implies !is_watermark(
        #[trigger] page[j],
        watermark,
    ) by {
        assert(page[j] == history[at + j]);
    }
    lemma_untracked_prefix_len_is(page, watermark, page.len() as int);
    if at + PAGE_SIZE <= history.len() {
        assert(next.txs =~= history.take(at + PAGE_SIZE));
        lemma_paged_to_end(history, watermark, next);
    } else {
        assert(next.txs =~= history);
    }
}

/// Where the watermark names no transaction of the history (the empty
/// watermark never does), paging gathers the whole history and stops at
/// the first short page.
pub proof fn lemma_pagination_reaches_end(history: Seq<ErgoTransaction>, watermark: Seq<char>)
    requires
        forall|j: int| 0 <= j < history.len() ==> !is_watermark(#[trigger] history[j], watermark),
    ensures
        untracked(history, watermark) == history,
        requests_made(history, watermark) == history.len() / (PAGE_SIZE as nat) + 1,
{
    assert(history.take(0) =~= Seq::<ErgoTransaction>::empty());
    lemma_paged_to_end(history, watermark, CursorView::start());
}

/// Whatever the history and the watermark, paging ends, gathers exactly
/// the transactions before the first one that the watermark names (all of
/// them where it names none), and makes one request for each page up to
/// and including the one where it stops.
pub proof fn lemma_untracked_is_prefix(history: Seq<ErgoTransaction>, watermark: Seq<char>)
    ensures
        paged(history, watermark, CursorView::start()).0.done,
        untracked(history, watermark) == history.take(
            untracked_prefix_len(history, watermark) as int,
        ),
        requests_made(history, watermark) == untracked_prefix_len(history, watermark) / (
        PAGE_SIZE as nat) + 1,
{
    let cut = untracked_prefix_len(history, watermark);
    lemma_untracked_prefix_len(history, watermark);
    assert(history.take(0) =~= Seq::<ErgoTransaction>::empty());
    if cut < history.len() {
        lemma_paged_to_watermark(history, watermark, cut as int, CursorView::start());
    } else {
        lemma_paged_to_end(history, watermark, CursorView::start());
        assert(history.take(cut as int) =~= history);
    }
}

/// After a restart with the watermark that was persisted, paging gathers
/// nothing that stands at or after the watermark's place in the history:
/// where identifiers are unique, no gathered transaction bears the
/// identifier of the watermark's transaction or of an older one.
pub proof fn lemma_restart_excludes_notified(
    history: Seq<ErgoTransaction>,
    watermark: Seq<char>,
    k: int,
)
    requires
        0 <= k < history.len(),
        is_watermark(history[k], watermark),
        forall|i: int, j: int|
            0 <= i < j < history.len() ==> (#[trigger] history[i]).id@ != (
            #[trigger] history[j]).id@,
    ensures
        untracked(history, watermark) == history.take(k),
        forall|i: int, j: int|
            0 <= i < untracked(history, watermark).len() && k <= j < history.len() ==> (
            #[trigger] untracked(history, watermark)[i]).id@ != (#[trigger] history[j]).id@,
{
    assert forall|j: int| 0 <= j < k implies !is_watermark(#[trigger] history[j], watermark) by {
        assert(history[j].id@ != history[k].id@);
    }
    lemma_pagination_stops_at_watermark(history, watermark, k);
}

} // verus!
