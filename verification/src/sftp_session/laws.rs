//! What holds of a session whatever the requests and whatever storage does.

use super::model::{SessionView, StepView};
use crate::error::Error;
use crate::handle_id::{handle_of_text, handle_text, lemma_handle_round_trip};
use crate::handle_table::HandleStateView;
use crate::protocol::request::RequestView;
use crate::protocol::response::status::StatusCode;
use crate::protocol::response::ResponseView;
use crate::storage::StorageOutcomeView;
use vstd::map::*;
use vstd::prelude::*;

verus! {

/// A new session is well formed and free, and has nothing open.
pub proof fn lemma_new_session(user: Seq<char>, number: u64)
    ensures
        SessionView::new(user, number).wf(),
        SessionView::new(user, number).idle(),
        SessionView::new(user, number).handles.entries == Map::<u64, HandleStateView>::empty(),
{
}

/// Nothing that a session does spoils its table: not the moves on a request,
/// not the end of the connection.
pub proof fn lemma_wf_kept(session: SessionView, request: RequestView, outcome: StorageOutcomeView)
    requires
        session.wf(),
    ensures
        session.begin(request).0.wf(),
        session.complete(request, outcome).0.wf(),
        session.take_up(request).0.wf(),
        session.finish(outcome).0.wf(),
        session.released().wf(),
{
}

/// Neither move on a request changes whose session it is, or its number, and
/// neither changes by itself which request is with storage.
pub proof fn lemma_identity_kept(
    session: SessionView,
    request: RequestView,
    outcome: StorageOutcomeView,
)
    ensures
        session.begin(request).0.user == session.user,
        session.begin(request).0.number == session.number,
        session.begin(request).0.pending == session.pending,
        session.complete(request, outcome).0.user == session.user,
        session.complete(request, outcome).0.number == session.number,
        session.complete(request, outcome).0.pending == session.pending,
        session.take_up(request).0.user == session.user,
        session.take_up(request).0.number == session.number,
        session.finish(outcome).0.user == session.user,
        session.finish(outcome).0.number == session.number,
{
}

/// One request at a time. A free session takes up a request with the first
/// move on it. If that move answers the request, the session is free again at
/// once. If it sends the request to storage, the session takes no other
/// until what came of it is handed back; then it makes the second move on
/// that request and no other, and is free again.
pub proof fn lemma_one_at_a_time(
    session: SessionView,
    request: RequestView,
    other: RequestView,
    outcome: StorageOutcomeView,
)
    requires
        session.idle(),
    ensures
        session.finish(outcome) == (session, Err::<ResponseView, Error>(Error::Fatal)),
        session.take_up(request).1 == Ok::<StepView, Error>(session.begin(request).1),
        session.take_up(request).1 matches Ok(StepView::Respond(response)) ==> session.take_up(
            request,
        ).0 == session.exchange(request, outcome).0 && response == session.exchange(
            request,
            outcome,
        ).1,
        session.take_up(request).1 matches Ok(StepView::Call(_)) ==> session.take_up(
            request,
        ).0.finish(outcome) == (
            session.exchange(request, outcome).0,
            Ok::<ResponseView, Error>(session.exchange(request, outcome).1),
        ),
        ({
            let (taken, step) = session.take_up(request);
            let (begun, _) = session.begin(request);
            match step {
                Ok(StepView::Respond(_)) => taken == begun && taken.idle(),
                _ => {
                    &&& !taken.idle()
                    &&& taken.take_up(other) == (taken, Err::<StepView, Error>(Error::Fatal))
                    &&& taken.finish(outcome) == (
                        begun.complete(request, outcome).0,
                        Ok::<ResponseView, Error>(begun.complete(request, outcome).1),
                    )
                    &&& taken.finish(outcome).0.idle()
                },
            }
        }),
{
    let (begun, _) = session.begin(request);
    assert(begun.pending.is_none());
    assert(begun.with_pending(Some(request)).with_pending(None) == begun);
}

/// A write that does not start where the stream stands is refused with a
/// failure and is not applied: storage is not called, and the session stays
/// as it was. Nor does the second move apply such a write, should it be
/// handed one.
pub proof fn lemma_write_out_of_place(
    session: SessionView,
    id: u32,
    handle: Seq<char>,
    offset: u64,
    data: Seq<u8>,
    outcome: StorageOutcomeView,
)
    requires
        session.lookup(handle) matches Some(HandleStateView::WriteStream { written, .. })
            && written != offset,
    ensures
        session.begin(RequestView::Write { id, handle, offset, data }) == (
            session,
            StepView::Respond(ResponseView::failure(id, Error::Failure)),
        ),
        ResponseView::failure(id, Error::Failure) == ResponseView::status(id, StatusCode::Failure),
        session.complete(RequestView::Write { id, handle, offset, data }, outcome).0 == session,
        session.complete(RequestView::Write { id, handle, offset, data }, outcome).1
            != ResponseView::status(id, StatusCode::Okay),
{
}

/// A write that starts where the stream stands and that storage took moves
/// the stream on by its length, so that the next write must start there.
pub proof fn lemma_write_moves_on(
    session: SessionView,
    id: u32,
    handle: Seq<char>,
    offset: u64,
    data: Seq<u8>,
)
    requires
        session.lookup(handle) matches Some(HandleStateView::WriteStream { written, .. })
            && SessionView::appends(written, offset, data.len()),
    ensures
        session.begin(RequestView::Write { id, handle, offset, data }).1 is Call,
        ({
            let after = session.complete(
                RequestView::Write { id, handle, offset, data },
                StorageOutcomeView::Done,
            );
            &&& after.1 == ResponseView::status(id, StatusCode::Okay)
            &&& after.0.lookup(handle) matches Some(HandleStateView::WriteStream { written, .. })
                && written == offset + data.len()
        }),
{
}

/// Binds each of `states` to a new handle, one after the other: the session
/// afterwards, and the names that were handed out.
pub open spec fn bind_all(session: SessionView, states: Seq<HandleStateView>) -> (
    SessionView,
    Seq<Seq<char>>,
)
    decreases states.len(),
{
    if states.len() == 0 {
        (session, Seq::empty())
    } else {
        let (before, names) = bind_all(session, states.drop_last());
        (
            before.bind(0, states.last()).0,
            names.push(handle_text(before.number, before.handles.next)),
        )
    }
}

/// An order in which to take each of the numbers below `n` once: each comes
/// up, and none twice.
pub open spec fn is_order(order: Seq<int>, n: nat) -> bool {
    &&& order.len() == n
    &&& order.no_duplicates()
    &&& forall|j: int| 0 <= j < n ==> 0 <= #[trigger] order[j] < n
    &&& forall|i: int| 0 <= i < n ==> order.contains(i)
}

/// The request to close the handle that goes by `name`.
pub open spec fn close(id: u32, name: Seq<char>) -> RequestView {
    RequestView::Close { id, handle: name }
}

/// The session after the first `count` handles of `order` have been closed,
/// each in a whole exchange: `names[order[j]]` is the handle that the `j`-th
/// exchange closes, and `outcomes[j]` is what storage made of it.
pub open spec fn after_closes(
    session: SessionView,
    id: u32,
    names: Seq<Seq<char>>,
    order: Seq<int>,
    outcomes: Seq<StorageOutcomeView>,
    count: nat,
) -> SessionView
    decreases count,
{
    if count == 0 {
        session
    } else {
        after_closes(session, id, names, order, outcomes, (count - 1) as nat).exchange(
            close(id, names[order[count - 1]]),
            outcomes[count - 1],
        ).0
    }
}

/// The answer to the `j`-th of these exchanges.
pub open spec fn close_answer(
    session: SessionView,
    id: u32,
    names: Seq<Seq<char>>,
    order: Seq<int>,
    outcomes: Seq<StorageOutcomeView>,
    j: int,
) -> ResponseView {
    after_closes(session, id, names, order, outcomes, j as nat).exchange(
        close(id, names[order[j]]),
        outcomes[j],
    ).1
}

/// What binding handles one after the other comes to: the numbers count up
/// from the next one, each name is made from its number, each state is found
/// under its number, and what was open before is untouched.
pub proof fn lemma_bind_all(session: SessionView, states: Seq<HandleStateView>)
    requires
        session.wf(),
        session.handles.next + states.len() <= u64::MAX,
    ensures
        ({
            let (after, names) = bind_all(session, states);
            &&& after.wf()
            &&& after.user == session.user
            &&& after.number == session.number
            &&& after.handles.next == session.handles.next + states.len()
            &&& names.len() == states.len()
            &&& forall|i: int|
                0 <= i < states.len() ==> #[trigger] names[i] == handle_text(
                    session.number,
                    (session.handles.next + i) as u64,
                )
            &&& forall|k: u64|
                #[trigger] after.handles.get(k) == if session.handles.next <= k
                    < session.handles.next + states.len() {
                    Some(states[k - session.handles.next])
                } else {
                    session.handles.get(k)
                }
        }),
    decreases states.len(),
{
    if states.len() > 0 {
        lemma_bind_all(session, states.drop_last());
        let (before, _) = bind_all(session, states.drop_last());
        let (after, _) = bind_all(session, states);
        assert forall|k: u64| #[trigger]
            after.handles.get(k) == if session.handles.next <= k < session.handles.next
                + states.len() {
                Some(states[k - session.handles.next])
            } else {
                session.handles.get(k)
            } by {
            let _ = before.handles.get(k);
        }
    }
}

/// Each of the handles bound one after the other is answered with its name:
/// the `i`-th answer is the handle that goes by `names[i]`.
pub proof fn lemma_bind_answers(
    session: SessionView,
    states: Seq<HandleStateView>,
    id: u32,
    i: int,
)
    requires
        session.wf(),
        session.handles.next + states.len() <= u64::MAX,
        0 <= i < states.len(),
    ensures
        bind_all(session, states.take(i)).0.bind(id, states[i]).1 == (ResponseView::Handle {
            id,
            handle: bind_all(session, states).1[i],
        }),
{
    lemma_bind_all(session, states);
    lemma_bind_all(session, states.take(i));
}

/// A number is among the first `count` of an order just if it is among the
/// first `count - 1` or is the one that comes after them.
proof fn lemma_taken(order: Seq<int>, count: int, x: int)
    requires
        0 < count <= order.len(),
    ensures
        order.take(count).contains(x) <==> order.take(count - 1).contains(x) || order[count - 1]
            == x,
{
    let more = order.take(count);
    let fewer = order.take(count - 1);
    if more.contains(x) {
        let i = choose|i: int| 0 <= i < more.len() && more[i] == x;
        if i < count - 1 {
            assert(fewer[i] == x);
        }
    }
    if fewer.contains(x) {
        let i = choose|i: int| 0 <= i < fewer.len() && fewer[i] == x;
        assert(more[i] == x);
    }
    if order[count - 1] == x {
        assert(more[count - 1] == x);
    }
}

/// What closing the handles that were just bound comes to, after the first
/// `count` of them in any order: each was found open and was answered, those
/// are gone, and everything else is as it was.
proof fn lemma_close_some(
    session: SessionView,
    states: Seq<HandleStateView>,
    id: u32,
    order: Seq<int>,
    outcomes: Seq<StorageOutcomeView>,
    count: int,
)
    requires
        session.wf(),
        session.handles.next + states.len() <= u64::MAX,
        is_order(order, states.len()),
        outcomes.len() == states.len(),
        0 <= count <= states.len(),
    ensures
        ({
            let (opened, names) = bind_all(session, states);
            let closed = after_closes(opened, id, names, order, outcomes, count as nat);
            &&& closed.wf()
            &&& closed.number == session.number
            &&& closed.handles.next == opened.handles.next
            &&& forall|k: u64|
                #[trigger] closed.handles.get(k) == if session.handles.next <= k
                    < session.handles.next + states.len() && order.take(count).contains(
                    k - session.handles.next,
                ) {
                    None
                } else {
                    opened.handles.get(k)
                }
            &&& count > 0 ==> close_answer(opened, id, names, order, outcomes, count - 1) == (
            if states[order[count - 1]] is DirListing {
                ResponseView::status(id, StatusCode::Okay)
            } else {
                SessionView::complete_done(id, outcomes[count - 1])
            })
        }),
    decreases count,
{
    let (opened, names) = bind_all(session, states);
    lemma_bind_all(session, states);
    let first = session.handles.next;
    if count > 0 {
        lemma_close_some(session, states, id, order, outcomes, count - 1);
        let i = order[count - 1];
        let number = (first + i) as u64;
        let before = after_closes(opened, id, names, order, outcomes, (count - 1) as nat);
        let closed = after_closes(opened, id, names, order, outcomes, count as nat);
        lemma_handle_round_trip(session.number, number);
        assert(!order.take(count - 1).contains(i)) by {
            let fewer = order.take(count - 1);
            if fewer.contains(i) {
                let j = choose|j: int| 0 <= j < fewer.len() && fewer[j] == i;
                assert(order[j] == order[count - 1]);
            }
        }
        let _ = before.handles.get(number);
        let _ = opened.handles.get(number);
        assert(before.handles.get(number) == Some(states[i]));
        assert(before.resolve(names[i]) == Some(number));
        assert(closed == before.with_handles(before.handles.close(number)));
        assert forall|k: u64| #[trigger]
            closed.handles.get(k) == if first <= k < first + states.len() && order.take(
                count,
            ).contains(k - first) {
                None
            } else {
                opened.handles.get(k)
            } by {
            let _ = before.handles.get(k);
            lemma_taken(order, count, k - first);
        }
    } else {
        assert(order.take(0) =~= Seq::<int>::empty());
    }
}

/// Opening handles and then closing each of them once, in any order, gives
/// as many different names as there were handles, answers every close with
/// success where storage made no trouble, and leaves open only what was open
/// before: in a new session, nothing. To close any of them once more is to
/// name a handle that does not exist.
pub proof fn lemma_open_then_close(
    session: SessionView,
    states: Seq<HandleStateView>,
    id: u32,
    order: Seq<int>,
    outcomes: Seq<StorageOutcomeView>,
)
    requires
        session.wf(),
        session.handles.next + states.len() <= u64::MAX,
        is_order(order, states.len()),
        outcomes.len() == states.len(),
    ensures
        ({
            let (opened, names) = bind_all(session, states);
            let closed = after_closes(opened, id, names, order, outcomes, states.len());
            &&& names.len() == states.len()
            &&& names.no_duplicates()
            &&& forall|i: int|
                0 <= i < names.len() ==> #[trigger] opened.lookup(names[i]) == Some(states[i])
            &&& forall|j: int|
                0 <= j < names.len() ==> #[trigger] close_answer(
                    opened,
                    id,
                    names,
                    order,
                    outcomes,
                    j,
                ) == (if states[order[j]] is DirListing {
                    ResponseView::status(id, StatusCode::Okay)
                } else {
                    SessionView::complete_done(id, outcomes[j])
                })
            &&& forall|j: int|
                0 <= j < names.len() && outcomes[j] is Done ==> #[trigger] close_answer(
                    opened,
                    id,
                    names,
                    order,
                    outcomes,
                    j,
                ) == ResponseView::status(id, StatusCode::Okay)
            &&& closed.handles.entries == session.handles.entries
            &&& forall|i: int|
                0 <= i < names.len() ==> #[trigger] closed.begin_close(id, names[i]) == (
                    closed,
                    StepView::Respond(ResponseView::failure(id, Error::NoSuchHandle)),
                )
            &&& ResponseView::failure(id, Error::NoSuchHandle) == ResponseView::status(
                id,
                StatusCode::InvalidHandle,
            )
        }),
{
    let (opened, names) = bind_all(session, states);
    let closed = after_closes(opened, id, names, order, outcomes, states.len());
    let first = session.handles.next;
    lemma_bind_all(session, states);
    lemma_close_some(session, states, id, order, outcomes, states.len() as int);
    assert(order.take(states.len() as int) =~= order);
    assert forall|i: int| 0 <= i < names.len() implies handle_of_text(#[trigger] names[i]) == Some(
        (session.number, (first + i) as u64),
    ) by {
        lemma_handle_round_trip(session.number, (first + i) as u64);
    }
    assert forall|i: int, j: int| 0 <= i < names.len() && 0 <= j < names.len() && i != j implies names[i]
        != names[j] by {
        assert(handle_of_text(names[i]) != handle_of_text(names[j]));
    }
    assert forall|i: int| 0 <= i < names.len() implies #[trigger] opened.lookup(names[i]) == Some(
        states[i],
    ) by {
        let k = (first + i) as u64;
        let _ = opened.handles.get(k);
        assert(opened.resolve(names[i]) == Some(k));
    }
    assert forall|j: int| 0 <= j < names.len() implies #[trigger] close_answer(
        opened,
        id,
        names,
        order,
        outcomes,
        j,
    ) == (if states[order[j]] is DirListing {
        ResponseView::status(id, StatusCode::Okay)
    } else {
        SessionView::complete_done(id, outcomes[j])
    }) by {
        lemma_close_some(session, states, id, order, outcomes, j + 1);
    }
    assert_maps_equal!(closed.handles.entries, session.handles.entries, k => {
        let _ = closed.handles.get(k);
        let _ = opened.handles.get(k);
        let _ = session.handles.get(k);
        if first <= k < first + states.len() {
            assert(order.contains(k - first));
        }
    });
    assert forall|i: int| 0 <= i < names.len() implies #[trigger] closed.begin_close(id, names[i])
        == (closed, StepView::Respond(ResponseView::failure(id, Error::NoSuchHandle))) by {
        let k = (first + i) as u64;
        let _ = closed.handles.get(k);
        assert(order.contains(k - first));
        assert(closed.resolve(names[i]).is_none());
    }
}

/// A handle that is not open and whose number has been given out stays
/// closed for good: no request and nothing that storage does brings it back.
pub proof fn lemma_closed_for_good(
    session: SessionView,
    number: u64,
    request: RequestView,
    outcome: StorageOutcomeView,
)
    requires
        session.wf(),
        number < session.handles.next,
        session.handles.get(number).is_none(),
    ensures
        session.begin(request).0.handles.get(number).is_none(),
        number < session.begin(request).0.handles.next,
        session.complete(request, outcome).0.handles.get(number).is_none(),
        number < session.complete(request, outcome).0.handles.next,
{
}

/// The kind of what a handle stands for never changes while it is open.
pub proof fn lemma_kind_kept(
    session: SessionView,
    number: u64,
    request: RequestView,
    outcome: StorageOutcomeView,
)
    requires
        session.wf(),
        session.handles.get(number).is_some(),
    ensures
        session.begin(request).0.handles.get(number) matches Some(state) ==> state.same_kind(
            session.handles.entries[number],
        ),
        session.complete(request, outcome).0.handles.get(number) matches Some(state)
            ==> state.same_kind(session.handles.entries[number]),
{
}

} // verus!
