//! The table of what a session has open.

use std::collections::HashMap;
use vstd::prelude::*;

verus! {

/// What stands behind an open handle. The kind is fixed when the handle is
/// made; only the progress within it changes.
#[derive(Debug, PartialEq)]
pub enum HandleState {
    /// A stream that storage reads from.
    ReadStream { stream: String, path: String },
    /// A stream that storage writes to, and the bytes written so far.
    WriteStream { stream: String, path: String, written: u64 },
    /// A listing, and the token that storage gave for its next page.
    DirListing { prefix: String, continuation_token: Option<String> },
}

/// What stands behind an open handle, as plain values.
pub enum HandleStateView {
    ReadStream { stream: Seq<char>, path: Seq<char> },
    WriteStream { stream: Seq<char>, path: Seq<char>, written: u64 },
    DirListing { prefix: Seq<char>, continuation_token: Option<Seq<char>> },
}

/// The plain values of a list of strings.
pub open spec fn strings_view(strings: Seq<String>) -> Seq<Seq<char>> {
    strings.map_values(|s: String| s@)
}

/// The plain value of a token that may be missing.
pub open spec fn token_view(token: Option<String>) -> Option<Seq<char>> {
    match token {
        Some(t) => Some(t@),
        None => None,
    }
}

impl View for HandleState {
    type V = HandleStateView;

    open spec fn view(&self) -> HandleStateView {
        match self {
            HandleState::ReadStream { stream, path } => HandleStateView::ReadStream {
                stream: stream@,
                path: path@,
            },
            HandleState::WriteStream { stream, path, written } => HandleStateView::WriteStream {
                stream: stream@,
                path: path@,
                written: *written,
            },
            HandleState::DirListing { prefix, continuation_token } => HandleStateView::DirListing {
                prefix: prefix@,
                continuation_token: token_view(*continuation_token),
            },
        }
    }
}

impl HandleStateView {
    /// The path that the handle was opened on.
    pub open spec fn path(self) -> Seq<char> {
        match self {
            HandleStateView::ReadStream { path, .. } => path,
            HandleStateView::WriteStream { path, .. } => path,
            HandleStateView::DirListing { prefix, .. } => prefix,
        }
    }

    /// Whether two states are of the same kind.
    pub open spec fn same_kind(self, other: HandleStateView) -> bool {
        match self {
            HandleStateView::ReadStream { .. } => other is ReadStream,
            HandleStateView::WriteStream { .. } => other is WriteStream,
            HandleStateView::DirListing { .. } => other is DirListing,
        }
    }
}

/// The table of a session as plain values: what is open under which number,
/// and the number that the next handle gets.
pub struct HandleTableView {
    pub entries: Map<u64, HandleStateView>,
    pub next: u64,
}

impl HandleTableView {
    /// A number is given out once: whatever is open has a number below the
    /// next one.
    pub open spec fn wf(self) -> bool {
        &&& self.entries.dom().finite()
        &&& forall|number: u64| self.entries.contains_key(number) ==> number < self.next
    }

    /// The table of a new session.
    pub open spec fn empty() -> HandleTableView {
        HandleTableView { entries: Map::empty(), next: 0 }
    }

    /// Whether the table has a number left to give out.
    pub open spec fn has_room(self) -> bool {
        self.next < u64::MAX
    }

    /// What is open under `number`, if anything.
    pub open spec fn get(self, number: u64) -> Option<HandleStateView> {
        if self.entries.contains_key(number) {
            Some(self.entries[number])
        } else {
            None
        }
    }

    /// The table after `state` was put under the next number. A full table
    /// stays as it is.
    pub open spec fn open(self, state: HandleStateView) -> HandleTableView {
        if self.has_room() {
            HandleTableView {
                entries: self.entries.insert(self.next, state),
                next: (self.next + 1) as u64,
            }
        } else {
            self
        }
    }

    /// The table after what was under `number` has been taken out.
    pub open spec fn close(self, number: u64) -> HandleTableView {
        HandleTableView { entries: self.entries.remove(number), next: self.next }
    }

    /// The table after everything has been taken out. Numbers that were
    /// given out stay given out.
    pub open spec fn clear(self) -> HandleTableView {
        HandleTableView { entries: Map::empty(), next: self.next }
    }

    /// The streams behind the handles with numbers below `limit`, in the
    /// order of the numbers. Listings have no stream.
    pub open spec fn streams_below(self, limit: nat) -> Seq<Seq<char>>
        decreases limit,
    {
        if limit == 0 {
            Seq::empty()
        } else {
            let before = self.streams_below((limit - 1) as nat);
            match self.get((limit - 1) as u64) {
                Some(HandleStateView::ReadStream { stream, .. }) => before.push(stream),
                Some(HandleStateView::WriteStream { stream, .. }) => before.push(stream),
                _ => before,
            }
        }
    }

    /// The table after the state under `number` has moved on to `state`. A
    /// number under which nothing is open gets nothing.
    pub open spec fn update(self, number: u64, state: HandleStateView) -> HandleTableView {
        if self.entries.contains_key(number) {
            HandleTableView { entries: self.entries.insert(number, state), next: self.next }
        } else {
            self
        }
    }
}

/// The table of what a session has open, by number. Numbers count up from zero
/// and are never given out twice, so a closed handle stays closed.
#[derive(Debug)]
pub struct HandleTable {
    entries: HashMap<u64, HandleState>,
    next: u64,
}

impl View for HandleTable {
    type V = HandleTableView;

    closed spec fn view(&self) -> HandleTableView {
        HandleTableView {
            entries: self.entries@.map_values(|state: HandleState| state@),
            next: self.next,
        }
    }
}

impl HandleTable {
    /// An empty table.
    pub fn new() -> (table: HandleTable)
        ensures
            table@ == HandleTableView::empty(),
            table@.wf(),
    {
        let table = HandleTable { entries: HashMap::new(), next: 0 };
        assert(table@.entries =~= Map::<u64, HandleStateView>::empty());
        table
    }

    /// How many handles are open.
    pub fn len(&self) -> (n: usize)
        ensures
            n == self@.entries.len(),
    {
        proof {
            self.lemma_view();
        }
        self.entries.len()
    }

    /// Whether nothing is open.
    pub fn is_empty(&self) -> (empty: bool)
        ensures
            empty == (self@.entries == Map::<u64, HandleStateView>::empty()),
    {
        proof {
            self.lemma_view();
            if self.entries@.is_empty() {
                assert(self@.entries =~= Map::<u64, HandleStateView>::empty());
            } else {
                let k = choose|k: u64| self.entries@.contains_key(k);
                assert(self@.entries.contains_key(k));
            }
        }
        self.entries.is_empty()
    }

    /// Whether the numbers have run out.
    pub fn is_full(&self) -> (full: bool)
        ensures
            full == !self@.has_room(),
    {
        self.next == u64::MAX
    }

    /// Puts `state` under the next number and gives the number out, unless
    /// the numbers have run out: then the table stays as it is.
    pub fn open(&mut self, state: HandleState) -> (number: Option<u64>)
        ensures
            final(self)@ == old(self)@.open(state@),
            old(self)@.wf() ==> final(self)@.wf(),
            number == if old(self)@.has_room() {
                Some(old(self)@.next)
            } else {
                None
            },
    {
        if self.next == u64::MAX {
            return None;
        }
        let number = self.next;
        self.next = number + 1;
        self.entries.insert(number, state);
        assert(self@.entries =~= old(self)@.entries.insert(number, state@));
        Some(number)
    }

    /// What is open under `number`, if anything.
    pub fn get(&self, number: u64) -> (state: Option<&HandleState>)
        ensures
            match state {
                Some(s) => self@.get(number) == Some(s@),
                None => self@.get(number).is_none(),
            },
    {
        self.entries.get(&number)
    }

    /// Takes out what is open under `number` and hands it back, if anything
    /// is. The number is not given out again.
    pub fn close(&mut self, number: u64) -> (state: Option<HandleState>)
        ensures
            final(self)@ == old(self)@.close(number),
            old(self)@.wf() ==> final(self)@.wf(),
            match state {
                Some(s) => old(self)@.get(number) == Some(s@),
                None => old(self)@.get(number).is_none(),
            },
    {
        let state = self.entries.remove(&number);
        assert(self@.entries =~= old(self)@.entries.remove(number));
        state
    }

    /// Moves the state under `number` on to `state`, if anything is open
    /// there, and says whether it was.
    pub fn update(&mut self, number: u64, state: HandleState) -> (found: bool)
        ensures
            final(self)@ == old(self)@.update(number, state@),
            old(self)@.wf() ==> final(self)@.wf(),
            found == old(self)@.entries.contains_key(number),
    {
        if !self.entries.contains_key(&number) {
            return false;
        }
        self.entries.insert(number, state);
        assert(self@.entries =~= old(self)@.entries.insert(number, state@));
        true
    }

    /// Takes everything out and hands back the streams that were open, in
    /// the order of their handles' numbers, so that storage can be told to
    /// finish with each.
    pub fn drain(&mut self) -> (streams: Vec<String>)
        ensures
            final(self)@ == old(self)@.clear(),
            final(self)@.wf(),
            strings_view(streams@) == old(self)@.streams_below(old(self)@.next as nat),
    {
        let mut streams: Vec<String> = Vec::new();
        let mut number: u64 = 0;
        assert(strings_view(streams@) =~= old(self)@.streams_below(0));
        while number < self.next
            invariant
                number <= self.next,
                self.next == old(self).next,
                forall|k: u64| k >= number ==> self@.get(k) == old(self)@.get(k),
                strings_view(streams@) == old(self)@.streams_below(number as nat),
            decreases self.next - number,
        {
            let ghost before = strings_view(streams@);
            match self.close(number) {
                Some(HandleState::ReadStream { stream, .. }) => {
                    streams.push(stream);
                    assert(strings_view(streams@) =~= before.push(stream@));
                },
                Some(HandleState::WriteStream { stream, .. }) => {
                    streams.push(stream);
                    assert(strings_view(streams@) =~= before.push(stream@));
                },
                _ => {},
            }
            number += 1;
        }
        self.entries.clear();
        assert(self@.entries =~= Map::<u64, HandleStateView>::empty());
        streams
    }

    /// The plain values have the keys of the table, and there are finitely
    /// many of them.
    proof fn lemma_view(&self)
        ensures
            self@.entries.dom() == self.entries@.dom(),
            self@.entries.dom().finite(),
            self@.entries.len() == self.entries@.len(),
    {
        assert(self@.entries.dom() =~= self.entries@.dom());
    }
}

impl HandleTableView {
    /// The empty table is well formed.
    pub proof fn lemma_empty_wf()
        ensures
            HandleTableView::empty().wf(),
    {
    }

    /// Opening, closing and updating keep a well-formed table well formed.
    pub proof fn lemma_wf_kept(self, number: u64, state: HandleStateView)
        requires
            self.wf(),
        ensures
            self.open(state).wf(),
            self.close(number).wf(),
            self.update(number, state).wf(),
    {
    }

    /// The stream behind a handle, if it has one.
    pub open spec fn stream_of(self, number: u64) -> Option<Seq<char>> {
        match self.get(number) {
            Some(HandleStateView::ReadStream { stream, .. }) => Some(stream),
            Some(HandleStateView::WriteStream { stream, .. }) => Some(stream),
            _ => None,
        }
    }

    /// The streams below a limit leave out none: the stream of every handle
    /// with a number below the limit is among them.
    pub proof fn lemma_streams_below_has(self, limit: nat, number: u64)
        requires
            number < limit,
            self.stream_of(number).is_some(),
        ensures
            self.streams_below(limit).contains(self.stream_of(number).unwrap()),
        decreases limit,
    {
        let before = self.streams_below((limit - 1) as nat);
        let all = self.streams_below(limit);
        if number == limit - 1 {
            assert(all == before.push(self.stream_of(number).unwrap()));
            assert(all[all.len() - 1] == self.stream_of(number).unwrap());
        } else {
            self.lemma_streams_below_has((limit - 1) as nat, number);
            let i = choose|i: int| 0 <= i < before.len() && before[i] == self.stream_of(number).unwrap();
            assert(all[i] == before[i]);
        }
    }

    /// When a well-formed table is drained, the stream of every handle that
    /// was open is among those handed back: none is left behind.
    pub proof fn lemma_drain_leaves_none(self, number: u64)
        requires
            self.wf(),
            self.stream_of(number).is_some(),
        ensures
            self.streams_below(self.next as nat).contains(self.stream_of(number).unwrap()),
    {
        self.lemma_streams_below_has(self.next as nat, number);
    }

    /// In a well-formed table a new handle takes the place of no other: what
    /// was open stays open and unchanged, and the new number is one that no
    /// handle of this table has had before.
    pub proof fn lemma_open_is_fresh(self, state: HandleStateView)
        requires
            self.wf(),
            self.has_room(),
        ensures
            self.get(self.next).is_none(),
            self.open(state).get(self.next) == Some(state),
            forall|other: u64| other != self.next ==> self.open(state).get(other) == self.get(other),
            self.open(state).close(self.next).entries == self.entries,
    {
        assert(self.open(state).close(self.next).entries =~= self.entries);
    }

    /// What has been closed is not open: closing it again finds nothing, and
    /// no later handle of this table gets its number.
    pub proof fn lemma_closed_stays_closed(self, number: u64, state: HandleStateView)
        requires
            self.wf(),
            self.get(number).is_some(),
        ensures
            self.close(number).get(number).is_none(),
            self.close(number).close(number) == self.close(number),
            self.close(number).open(state).get(number).is_none(),
    {
        assert(self.close(number).close(number).entries =~= self.close(number).entries);
    }
}

} // verus!
