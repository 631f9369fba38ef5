//! Round bookkeeping: collects one broadcast message per peer for a round and
//! releases the full, sender-indexed set once every party is represented.
use vstd::prelude::*;
use vstd::pervasive::VecAdditionalExecFns;

verus! {

/// Why a message was refused by a round.
#[derive(Debug, Clone, Copy, PartialEq, Eq, Structural)]
pub enum RoundError {
    /// The sender index is not below the number of parties.
    SenderOutOfRange,
    /// The message claims to come from the local party itself.
    SenderIsMe,
    /// A message from this sender was already taken in this round.
    DuplicateSender,
}

/// Whether a round whose slots are `slots` takes a message from `sender`.
pub open spec fn accepts<T>(slots: Seq<Option<T>>, me: nat, sender: nat) -> bool {
    sender < slots.len() && sender != me && slots[sender as int] is None
}

/// The slots after a message from `sender` is offered: filled where it is
/// taken, unchanged where it is refused.
pub open spec fn accept<T>(slots: Seq<Option<T>>, me: nat, sender: nat, msg: T) -> Seq<Option<T>> {
    if accepts(slots, me, sender) {
        slots.update(sender as int, Some(msg))
    } else {
        slots
    }
}

/// Every party but the local one has a message in the slots.
pub open spec fn all_present<T>(slots: Seq<Option<T>>, me: nat) -> bool {
    forall|k: int| 0 <= k < slots.len() && k != me ==> (#[trigger] slots[k]) is Some
}

/// The slots of an empty round over `n` parties.
pub open spec fn empty_slots<T>(n: nat) -> Seq<Option<T>> {
    Seq::new(n, |k: int| None)
}

/// The slots after offering `arrivals`, in order, to a round that starts from `slots`.
pub open spec fn replay<T>(slots: Seq<Option<T>>, me: nat, arrivals: Seq<(nat, T)>) -> Seq<Option<T>>
    decreases arrivals.len(),
{
    if arrivals.len() == 0 {
        slots
    } else {
        let last = arrivals.last();
        accept(replay(slots, me, arrivals.drop_last()), me, last.0, last.1)
    }
}

/// No two arrivals name the same sender.
pub open spec fn distinct_senders<T>(arrivals: Seq<(nat, T)>) -> bool {
    forall|a: int, b: int|
        0 <= a < arrivals.len() && 0 <= b < arrivals.len() && a != b ==> (#[trigger] arrivals[a]).0
            != (#[trigger] arrivals[b]).0
}

/// A complete round takes no further message: every sender is then refused,
/// so a round never holds more than one message per party, and once complete
/// it holds exactly one for each of the `n` parties (the local one included).
pub proof fn lemma_round_atomic<T>(slots: Seq<Option<T>>, me: nat, sender: nat, msg: T)
    requires
        me < slots.len(),
        slots[me as int] is None,
        all_present(slots, me),
    ensures
        !accepts(slots, me, sender),
        accept(slots, me, sender, msg) == slots,
        forall|k: int| 0 <= k < slots.len() ==> (k == me <==> (#[trigger] slots[k]) is None),
{
    if sender < slots.len() && sender != me {
        assert(slots[sender as int] is Some);
    }
}

/// From an empty round, what the slots hold after a sequence of arrivals with
/// distinct senders: the message of each peer in range that sent one.
pub proof fn lemma_replay_contents<T>(n: nat, me: nat, arrivals: Seq<(nat, T)>)
    requires
        distinct_senders(arrivals),
    ensures
        replay(empty_slots::<T>(n), me, arrivals).len() == n,
        forall|k: nat, m: T|
            #![trigger replay(empty_slots::<T>(n), me, arrivals)[k as int], arrivals.contains((k, m))]
            k < n ==> (replay(empty_slots::<T>(n), me, arrivals)[k as int] == Some(m) <==> (k != me
                && arrivals.contains((k, m)))),
    decreases arrivals.len(),
{
    if arrivals.len() > 0 {
        let prefix = arrivals.drop_last();
        let last = arrivals.last();
        assert(distinct_senders(prefix)) by {
            assert forall|a: int, b: int|
                0 <= a < prefix.len() && 0 <= b < prefix.len() && a != b implies (
                #[trigger] prefix[a]).0 != (#[trigger] prefix[b]).0 by {
                assert(prefix[a] == arrivals[a] && prefix[b] == arrivals[b]);
            }
        }
        lemma_replay_contents(n, me, prefix);
        let before = replay(empty_slots::<T>(n), me, prefix);
        assert forall|m: T| !prefix.contains((last.0, m)) by {
            if prefix.contains((last.0, m)) {
                let j = choose|j: int| 0 <= j < prefix.len() && prefix[j] == (last.0, m);
                assert(arrivals[j] == prefix[j]);
                assert(arrivals[arrivals.len() - 1] == last);
            }
        }
        if last.0 < n && last.0 != me {
            assert(before[last.0 as int] is None) by {
                if before[last.0 as int] is Some {
                    let m = before[last.0 as int]->Some_0;
                    assert(prefix.contains((last.0, m)));
                }
            }
        }
        assert forall|k: nat, m: T|
            #![trigger replay(empty_slots::<T>(n), me, arrivals)[k as int], arrivals.contains((k, m))]
            k < n implies (replay(empty_slots::<T>(n), me, arrivals)[k as int] == Some(m) <==> (k != me
                && arrivals.contains((k, m)))) by {
            assert(arrivals =~= prefix.push(last));
            if arrivals.contains((k, m)) {
                let j = choose|j: int| 0 <= j < arrivals.len() && arrivals[j] == (k, m);
                if j < prefix.len() {
                    assert(prefix[j] == arrivals[j]);
                    assert(prefix.contains((k, m)));
                }
            }
            if prefix.contains((k, m)) {
                let j = choose|j: int| 0 <= j < prefix.len() && prefix[j] == (k, m);
                assert(arrivals[j] == prefix[j]);
                assert(arrivals.contains((k, m)));
            }
            if k == last.0 && k != me {
                if arrivals.contains((k, m)) {
                    assert(prefix.contains((k, m)) || (k, m) == last);
                }
            }
        }
    }
}

/// The order in which peers' messages arrive does not matter: two arrival
/// orders of the same messages, with distinct senders, leave a round in the
/// same state, so what the round releases is the same sender-indexed set.
pub proof fn lemma_arrival_order_irrelevant<T>(
    n: nat,
    me: nat,
    arrivals: Seq<(nat, T)>,
    reordered: Seq<(nat, T)>,
)
    requires
        distinct_senders(arrivals),
        reordered.to_multiset() == arrivals.to_multiset(),
    ensures
        replay(empty_slots::<T>(n), me, reordered) == replay(empty_slots::<T>(n), me, arrivals),
{
    broadcast use vstd::seq_lib::group_to_multiset_ensures;
    assert forall|x: (nat, T)| reordered.contains(x) <==> arrivals.contains(x) by {
        vstd::seq_lib::to_multiset_contains(reordered, x);
        vstd::seq_lib::to_multiset_contains(arrivals, x);
    }
    assert(arrivals.no_duplicates()) by {
        assert forall|i: int, j: int|
            0 <= i < arrivals.len() && 0 <= j < arrivals.len() && i != j implies arrivals[i]
            != arrivals[j] by {
            assert(arrivals[i].0 != arrivals[j].0);
        }
    }
    arrivals.lemma_multiset_has_no_duplicates();
    reordered.lemma_multiset_has_no_duplicates_conv();
    assert(distinct_senders(reordered)) by {
        assert forall|a: int, b: int|
            0 <= a < reordered.len() && 0 <= b < reordered.len() && a != b implies (
            #[trigger] reordered[a]).0 != (#[trigger] reordered[b]).0 by {
            assert(reordered.contains(reordered[a]));
            assert(reordered.contains(reordered[b]));
            assert(arrivals.contains(reordered[a]));
            assert(arrivals.contains(reordered[b]));
            let ia = choose|i: int| 0 <= i < arrivals.len() && arrivals[i] == reordered[a];
            let ib = choose|i: int| 0 <= i < arrivals.len() && arrivals[i] == reordered[b];
            assert(reordered[a] != reordered[b]);
            assert(ia != ib);
        }
    }
    lemma_replay_contents(n, me, arrivals);
    lemma_replay_contents(n, me, reordered);
    let ra = replay(empty_slots::<T>(n), me, arrivals);
    let rb = replay(empty_slots::<T>(n), me, reordered);
    assert forall|k: int| 0 <= k < n implies rb[k] == ra[k] by {
        let kn = k as nat;
        if ra[k] is Some {
            let m = ra[k]->Some_0;
            assert(ra[kn as int] == Some(m));
            assert(arrivals.contains((kn, m)));
            assert(rb[kn as int] == Some(m));
        } else if rb[k] is Some {
            let m = rb[k]->Some_0;
            assert(rb[kn as int] == Some(m));
            assert(reordered.contains((kn, m)));
            assert(ra[kn as int] == Some(m));
        }
    }
    assert(rb =~= ra);
}

/// The messages of one round over `n` parties, as seen by party `me`.
pub struct RoundStore<T> {
    me: usize,
    slots: Vec<Option<T>>,
}

impl<T> RoundStore<T> {
    /// Who received the messages: the local party index.
    pub closed spec fn me(&self) -> nat {
        self.me as nat
    }

    /// The number of parties in the round.
    pub closed spec fn parties(&self) -> nat {
        self.slots@.len()
    }

    /// The message taken from each sender so far.
    pub closed spec fn slots(&self) -> Seq<Option<T>> {
        self.slots@
    }

    pub open spec fn wf(&self) -> bool {
        &&& self.me() < self.parties()
        &&& self.slots()[self.me() as int] is None
        &&& self.slots().len() == self.parties()
    }

    /// Whether every peer's message is in.
    pub open spec fn complete(&self) -> bool {
        all_present(self.slots(), self.me())
    }

    /// An empty round for party `me` among `n`.
    pub fn new(me: usize, n: usize) -> (r: Self)
        requires
            me < n,
        ensures
            r.wf(),
            r.me() == me,
            r.parties() == n,
            r.slots() == empty_slots::<T>(n as nat),
    {
        let mut slots: Vec<Option<T>> = Vec::new();
        let mut k: usize = 0;
        while k < n
            invariant
                k <= n,
                slots@ =~= empty_slots::<T>(k as nat),
            decreases n - k,
        {
            slots.push(None);
            k = k + 1;
            assert(slots@ =~= empty_slots::<T>(k as nat));
        }
        RoundStore { me, slots }
    }

    /// The local party index.
    pub fn local_index(&self) -> (r: usize)
        ensures
            r == self.me(),
    {
        self.me
    }

    /// The number of parties.
    pub fn party_count(&self) -> (r: usize)
        ensures
            r == self.parties(),
    {
        self.slots.len()
    }

    /// Offers a peer's message. It is taken only when the sender is a peer in
    /// range that has not sent in this round; otherwise nothing changes.
    pub fn add(&mut self, sender: usize, msg: T) -> (r: Result<(), RoundError>)
        requires
            old(self).wf(),
        ensures
            final(self).wf(),
            final(self).me() == old(self).me(),
            final(self).parties() == old(self).parties(),
            final(self).slots() == accept(old(self).slots(), old(self).me(), sender as nat, msg),
            r is Ok <==> accepts(old(self).slots(), old(self).me(), sender as nat),
            sender >= old(self).parties() ==> r == Err::<(), RoundError>(RoundError::SenderOutOfRange),
            sender == old(self).me() ==> r == Err::<(), RoundError>(RoundError::SenderIsMe),
            sender < old(self).parties() && sender != old(self).me() && old(self).slots()[sender as int] is Some
                ==> r == Err::<(), RoundError>(RoundError::DuplicateSender),
    {
        if sender >= self.slots.len() {
            return Err(RoundError::SenderOutOfRange);
        }
        if sender == self.me {
            return Err(RoundError::SenderIsMe);
        }
        if self.slots[sender].is_some() {
            return Err(RoundError::DuplicateSender);
        }
        self.slots.set(sender, Some(msg));
        Ok(())
    }

    /// Whether a message from every peer has been taken.
    pub fn is_complete(&self) -> (r: bool)
        requires
            self.wf(),
        ensures
            r == self.complete(),
    {
        let mut k: usize = 0;
        while k < self.slots.len()
            invariant
                self.wf(),
                k <= self.slots@.len(),
                forall|j: int| 0 <= j < k && j != self.me() ==> (#[trigger] self.slots()[j]) is Some,
            decreases self.slots@.len() - k,
        {
            if k != self.me && self.slots[k].is_none() {
                assert(!all_present(self.slots(), self.me()) ) by {
                    assert(self.slots()[k as int] is None);
                }
                return false;
            }
            k = k + 1;
        }
        true
    }

    /// The complete round as one message per party, in party order, with
    /// `mine` at the local index.
    pub fn into_vec_including_me(self, mine: T) -> (r: Vec<T>)
        requires
            self.wf(),
            self.complete(),
        ensures
            r@.len() == self.parties(),
            r@[self.me() as int] == mine,
            forall|k: int|
                0 <= k < r@.len() && k != self.me() ==> Some(#[trigger] r@[k]) == self.slots()[k],
    {
        let ghost old_slots = self.slots@;
        let me = self.me;
        let mut slots = self.slots;
        let mut mine = Some(mine);
        let ghost mine_v = mine;
        let mut out: Vec<T> = Vec::new();
        let mut k: usize = 0;
        while k < slots.len()
            invariant
                slots@.len() == old_slots.len(),
                me < old_slots.len(),
                k <= slots@.len(),
                out@.len() == k,
                forall|j: int| k <= j < slots@.len() ==> slots@[j] == old_slots[j],
                forall|j: int| 0 <= j < k && j != me ==> Some(#[trigger] out@[j]) == old_slots[j],
                k <= me ==> mine == mine_v,
                mine_v is Some,
                me < k ==> out@[me as int] == mine_v->Some_0,
                all_present(old_slots, me as nat),
            decreases slots@.len() - k,
        {
            if k == me {
                let m = mine.take();
                match m {
                    Some(v) => out.push(v),
                    None => {
                        assert(false);
                        return out;
                    },
                }
            } else {
                let mut taken: Option<T> = None;
                slots.set_and_swap(k, &mut taken);
                match taken {
                    Some(v) => out.push(v),
                    None => {
                        assert(old_slots[k as int] is Some);
                        assert(false);
                        return out;
                    },
                }
            }
            k = k + 1;
        }
        out
    }
}

} // verus!
