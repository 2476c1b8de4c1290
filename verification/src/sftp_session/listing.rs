//! What holds of reading a directory page by page.

use super::model::{SessionView, StepView, PAGE_SIZE};
use crate::handle_table::HandleStateView;
use crate::protocol::request::RequestView;
use crate::protocol::response::name::FileView;
use crate::protocol::response::status::StatusCode;
use crate::protocol::response::ResponseView;
use crate::storage::{StorageCallView, StorageOutcomeView};
use vstd::prelude::*;

verus! {

/// One page of a listing as storage hands it back.
pub struct PageView {
    pub entries: Seq<FileView>,
    pub next_token: Option<Seq<char>>,
}

impl PageView {
    /// The page as what came of a call to storage.
    pub open spec fn outcome(self) -> StorageOutcomeView {
        StorageOutcomeView::Page { entries: self.entries, next_token: self.next_token }
    }
}

/// A listing as storage hands it out, page by page: every page but the last
/// comes with the token for the next; the last comes with none and is empty.
pub open spec fn ends_with_empty_page(pages: Seq<PageView>) -> bool {
    &&& pages.len() > 0
    &&& forall|i: int| 0 <= i < pages.len() - 1 ==> (#[trigger] pages[i]).next_token.is_some()
    &&& pages.last().next_token.is_none()
    &&& pages.last().entries.len() == 0
}

/// The token that stands for page `i`: none for the first page, and for any
/// other the token that came with the page before.
pub open spec fn token_for(pages: Seq<PageView>, i: int) -> Option<Seq<char>> {
    if i == 0 {
        None
    } else {
        pages[i - 1].next_token
    }
}

/// The whole listing: the entries of all pages, in order.
pub open spec fn all_entries(pages: Seq<PageView>) -> Seq<FileView>
    decreases pages.len(),
{
    if pages.len() == 0 {
        Seq::empty()
    } else {
        all_entries(pages.drop_last()) + pages.last().entries
    }
}

/// The request to read on in the listing behind `handle`.
pub open spec fn readdir(id: u32, handle: Seq<char>) -> RequestView {
    RequestView::Readdir { id, handle }
}

/// The session after the first `count` pages have come back from storage,
/// each in answer to a request to read on.
pub open spec fn after_pages(
    session: SessionView,
    id: u32,
    handle: Seq<char>,
    pages: Seq<PageView>,
    count: nat,
) -> SessionView
    decreases count,
{
    if count == 0 {
        session
    } else {
        after_pages(session, id, handle, pages, (count - 1) as nat).complete(
            readdir(id, handle),
            pages[count - 1].outcome(),
        ).0
    }
}

/// The answer that the client gets when page `k` has come back.
pub open spec fn answer(
    session: SessionView,
    id: u32,
    handle: Seq<char>,
    pages: Seq<PageView>,
    k: int,
) -> ResponseView {
    after_pages(session, id, handle, pages, k as nat).complete(
        readdir(id, handle),
        pages[k].outcome(),
    ).1
}

/// The answers that the client gets, one for each page.
pub open spec fn answers(session: SessionView, id: u32, handle: Seq<char>, pages: Seq<PageView>)
    -> Seq<ResponseView> {
    Seq::new(pages.len(), |k: int| answer(session, id, handle, pages, k))
}

/// What the client has been shown: the files of all answers that list files,
/// in order.
pub open spec fn listed(answers: Seq<ResponseView>) -> Seq<FileView>
    decreases answers.len(),
{
    if answers.len() == 0 {
        Seq::empty()
    } else {
        listed(answers.drop_last()) + match answers.last() {
            ResponseView::Name { files, .. } => files,
            _ => Seq::empty(),
        }
    }
}

/// After any number of pages the handle still stands for the listing, and the
/// token stored with it is the one that came with the page before.
pub proof fn lemma_token_followed(
    session: SessionView,
    id: u32,
    handle: Seq<char>,
    prefix: Seq<char>,
    pages: Seq<PageView>,
    count: nat,
)
    requires
        session.lookup(handle) == Some(
            HandleStateView::DirListing { prefix, continuation_token: None },
        ),
        count <= pages.len(),
    ensures
        ({
            let now = after_pages(session, id, handle, pages, count);
            &&& now.resolve(handle) == session.resolve(handle)
            &&& now.lookup(handle) == Some(
                HandleStateView::DirListing {
                    prefix,
                    continuation_token: token_for(pages, count as int),
                },
            )
            &&& now.begin(readdir(id, handle)) == (
                now,
                StepView::Call(
                    StorageCallView::ListPrefix {
                        prefix,
                        continuation_token: token_for(pages, count as int),
                        max_results: PAGE_SIZE,
                    },
                ),
            )
        }),
    decreases count,
{
    if count > 0 {
        lemma_token_followed(session, id, handle, prefix, pages, (count - 1) as nat);
    }
}

/// The answer to a page: its entries, unless it is empty and comes with no
/// token; that is the end.
pub proof fn lemma_answer(
    session: SessionView,
    id: u32,
    handle: Seq<char>,
    prefix: Seq<char>,
    pages: Seq<PageView>,
    k: int,
)
    requires
        session.lookup(handle) == Some(
            HandleStateView::DirListing { prefix, continuation_token: None },
        ),
        0 <= k < pages.len(),
    ensures
        answer(session, id, handle, pages, k) == if pages[k].entries.len() == 0
            && pages[k].next_token.is_none() {
            ResponseView::status(id, StatusCode::Eof)
        } else {
            ResponseView::Name { id, files: pages[k].entries }
        },
{
    lemma_token_followed(session, id, handle, prefix, pages, k as nat);
}

/// What the client has been shown after the first `count` answers, none of
/// them the last: the entries of the first `count` pages.
proof fn lemma_listed_so_far(
    session: SessionView,
    id: u32,
    handle: Seq<char>,
    prefix: Seq<char>,
    pages: Seq<PageView>,
    count: int,
)
    requires
        session.lookup(handle) == Some(
            HandleStateView::DirListing { prefix, continuation_token: None },
        ),
        ends_with_empty_page(pages),
        0 <= count <= pages.len(),
    ensures
        listed(answers(session, id, handle, pages).take(count)) == all_entries(pages.take(count)),
    decreases count,
{
    let all = answers(session, id, handle, pages);
    if count == 0 {
        assert(all.take(0) =~= Seq::<ResponseView>::empty());
        assert(pages.take(0) =~= Seq::<PageView>::empty());
    } else {
        lemma_listed_so_far(session, id, handle, prefix, pages, count - 1);
        lemma_answer(session, id, handle, prefix, pages, count - 1);
        assert(all.take(count).drop_last() =~= all.take(count - 1));
        assert(pages.take(count).drop_last() =~= pages.take(count - 1));
        assert(all.take(count).last() == answer(session, id, handle, pages, count - 1));
        assert(pages.take(count).last() == pages[count - 1]);
        if count == pages.len() {
            assert(pages[count - 1].entries =~= Seq::<FileView>::empty());
        } else {
            assert(pages[count - 1].next_token.is_some());
        }
    }
}

/// Reading a directory to its end. The client opens a listing and reads on
/// until told that the end is reached; storage hands out the listing page by
/// page and ends it with an empty page. Then every call to storage carries
/// the token that came with the page before, every page but the last is
/// handed on as it came, the last answer is the end of file, and what the
/// client has been shown is the whole listing: every entry once, none left
/// out, in order.
pub proof fn lemma_listing_complete(
    session: SessionView,
    id: u32,
    handle: Seq<char>,
    prefix: Seq<char>,
    pages: Seq<PageView>,
)
    requires
        session.lookup(handle) == Some(
            HandleStateView::DirListing { prefix, continuation_token: None },
        ),
        ends_with_empty_page(pages),
    ensures
        forall|k: int|
            0 <= k < pages.len() ==> (#[trigger] after_pages(
                session,
                id,
                handle,
                pages,
                k as nat,
            )).begin(readdir(id, handle)).1 == StepView::Call(
                StorageCallView::ListPrefix {
                    prefix,
                    continuation_token: token_for(pages, k),
                    max_results: PAGE_SIZE,
                },
            ),
        forall|k: int|
            0 <= k < pages.len() - 1 ==> #[trigger] answers(session, id, handle, pages)[k]
                == (ResponseView::Name { id, files: pages[k].entries }),
        answers(session, id, handle, pages).last() == ResponseView::status(id, StatusCode::Eof),
        listed(answers(session, id, handle, pages)) == all_entries(pages),
{
    let all = answers(session, id, handle, pages);
    assert forall|k: int| 0 <= k < pages.len() implies (#[trigger] after_pages(
        session,
        id,
        handle,
        pages,
        k as nat,
    )).begin(readdir(id, handle)).1 == StepView::Call(
        StorageCallView::ListPrefix {
            prefix,
            continuation_token: token_for(pages, k),
            max_results: PAGE_SIZE,
        },
    ) by {
        lemma_token_followed(session, id, handle, prefix, pages, k as nat);
    }
    assert forall|k: int| 0 <= k < pages.len() - 1 implies #[trigger] all[k] == (
    ResponseView::Name { id, files: pages[k].entries }) by {
        lemma_answer(session, id, handle, prefix, pages, k);
        assert(pages[k].next_token.is_some());
    }
    lemma_answer(session, id, handle, prefix, pages, pages.len() - 1);
    lemma_listed_so_far(session, id, handle, prefix, pages, pages.len() as int);
    assert(all.take(pages.len() as int) =~= all);
    assert(pages.take(pages.len() as int) =~= pages);
}

} // verus!
