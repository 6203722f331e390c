use vstd::prelude::*;

verus! {

/// The channel as the receiver can observe it: the values still owed to it,
/// oldest first, and the number of live sender handles. `pending` covers the
/// receiver's private buffer followed by the shared queue; where a value sits
/// never shows in what `recv` returns.
#[verifier::ext_equal]
pub struct ChannelModel<T> {
    /// Values sent and not yet received, in the order the sends were
    /// serialized by the lock.
    pub pending: Seq<T>,
    /// How many sender handles are alive.
    pub senders: nat,
}

/// The state after one `send` of `v`: the value joins the back of the queue.
pub open spec fn send_t<T>(m: ChannelModel<T>, v: T) -> ChannelModel<T> {
    ChannelModel { pending: m.pending.push(v), senders: m.senders }
}

/// The state after one `Sender::clone`: one more live handle, counted before
/// the clone is handed out. Only a live handle can be cloned, so this
/// transition is taken only when `m.senders >= 1`.
pub open spec fn clone_t<T>(m: ChannelModel<T>) -> ChannelModel<T> {
    ChannelModel { pending: m.pending, senders: m.senders + 1 }
}

/// The state after one sender handle is dropped: one fewer live handle. Only
/// a live handle can be dropped, so this transition is taken only when
/// `m.senders >= 1`.
pub open spec fn drop_t<T>(m: ChannelModel<T>) -> ChannelModel<T> {
    ChannelModel { senders: (m.senders - 1) as nat, ..m }
}

/// True when `recv` returns a value in state `m`.
pub open spec fn recv_ready<T>(m: ChannelModel<T>) -> bool {
    m.pending.len() > 0
}

/// True when `recv` reports closure in state `m`: nothing pending and no
/// sender left to change that.
pub open spec fn recv_closed<T>(m: ChannelModel<T>) -> bool {
    m.pending.len() == 0 && m.senders == 0
}

/// True when `recv` blocks in state `m`: nothing pending, but a live sender
/// may still deliver.
pub open spec fn recv_blocked<T>(m: ChannelModel<T>) -> bool {
    m.pending.len() == 0 && m.senders > 0
}

/// The value `recv` returns in state `m`, when one is pending.
pub open spec fn recv_value<T>(m: ChannelModel<T>) -> T
    recommends
        recv_ready(m),
{
    m.pending[0]
}

/// The state after one `recv`: the oldest pending value is gone; a receive
/// that reports closure or blocks changes nothing.
pub open spec fn recv_next<T>(m: ChannelModel<T>) -> ChannelModel<T> {
    if m.pending.len() > 0 {
        ChannelModel { pending: m.pending.skip(1), ..m }
    } else {
        m
    }
}

/// The state after the values of `vs` are sent one by one, oldest first,
/// through any mix of live handles.
pub open spec fn send_many_t<T>(m: ChannelModel<T>, vs: Seq<T>) -> ChannelModel<T>
    decreases vs.len(),
{
    if vs.len() == 0 {
        m
    } else {
        send_many_t(send_t(m, vs[0]), vs.skip(1))
    }
}

/// The state after `k` sender handles are dropped, one by one.
pub open spec fn drop_many_t<T>(m: ChannelModel<T>, k: nat) -> ChannelModel<T>
    decreases k,
{
    if k == 0 {
        m
    } else {
        drop_many_t(drop_t(m), (k - 1) as nat)
    }
}

/// The state after `k` calls of `recv`.
pub open spec fn recv_k<T>(m: ChannelModel<T>, k: nat) -> ChannelModel<T>
    decreases k,
{
    if k == 0 {
        m
    } else {
        recv_k(recv_next(m), (k - 1) as nat)
    }
}

/// The values that `k` consecutive calls of `recv` return, in call order.
pub open spec fn drained<T>(m: ChannelModel<T>, k: nat) -> Seq<T>
    recommends
        k <= m.pending.len(),
    decreases k,
{
    if k == 0 {
        Seq::<T>::empty()
    } else {
        seq![recv_value(m)] + drained(recv_next(m), (k - 1) as nat)
    }
}

/// Sends append: after the values of `vs` are sent in order, the pending
/// sequence is the old one followed by `vs`, and the handle count is
/// untouched. Sending never reorders or drops what was already queued.
pub proof fn lemma_send_many<T>(m: ChannelModel<T>, vs: Seq<T>)
    ensures
        send_many_t(m, vs).pending == m.pending + vs,
        send_many_t(m, vs).senders == m.senders,
    decreases vs.len(),
{
    if vs.len() == 0 {
        assert(m.pending + vs =~= m.pending);
    } else {
        lemma_send_many(send_t(m, vs[0]), vs.skip(1));
        assert(m.pending.push(vs[0]) + vs.skip(1) =~= m.pending + vs);
    }
}

/// Drops only count down: after `k` of the live handles are dropped, in
/// whatever order, the pending values are exactly what they were and the
/// count is down by `k`. No drop discards or reorders queued values.
pub proof fn lemma_drop_many<T>(m: ChannelModel<T>, k: nat)
    requires
        k <= m.senders,
    ensures
        drop_many_t(m, k).pending == m.pending,
        drop_many_t(m, k).senders == m.senders - k,
    decreases k,
{
    if k > 0 {
        lemma_drop_many(drop_t(m), (k - 1) as nat);
    }
}

/// The receiver sees the queue in order: `k` consecutive receives return the
/// `k` oldest pending values, exactly in the order their sends were
/// serialized, and leave the rest pending with the handle count untouched.
pub proof fn lemma_recv_in_order<T>(m: ChannelModel<T>, k: nat)
    requires
        k <= m.pending.len(),
    ensures
        drained(m, k) == m.pending.take(k as int),
        recv_k(m, k).pending == m.pending.skip(k as int),
        recv_k(m, k).senders == m.senders,
    decreases k,
{
    if k == 0 {
        assert(m.pending.take(0) =~= Seq::<T>::empty());
        assert(m.pending.skip(0) =~= m.pending);
    } else {
        lemma_recv_in_order(recv_next(m), (k - 1) as nat);
        assert(seq![m.pending[0]] + m.pending.skip(1).take(k - 1) =~= m.pending.take(k as int));
        assert(m.pending.skip(1).skip(k - 1) =~= m.pending.skip(k as int));
    }
}

/// First-in, first-out for one sender: when a sender pushes `v1` and later
/// `v2`, with any values `mid` from other senders serialized in between, the
/// receiver drains that `v1` strictly before that `v2`.
pub proof fn lemma_fifo_per_sender<T>(m: ChannelModel<T>, v1: T, mid: Seq<T>, v2: T)
    ensures
        ({
            let m2 = send_t(send_many_t(send_t(m, v1), mid), v2);
            let i = m.pending.len() as int;
            let j = m2.pending.len() - 1;
            &&& m2.pending == m.pending + seq![v1] + mid + seq![v2]
            &&& i < j
            &&& m2.pending[i] == v1
            &&& m2.pending[j] == v2
            &&& drained(m2, m2.pending.len())[i] == v1
            &&& drained(m2, m2.pending.len())[j] == v2
        }),
{
    let m1 = send_t(m, v1);
    let m2 = send_t(send_many_t(m1, mid), v2);
    lemma_send_many(m1, mid);
    assert(m2.pending =~= m.pending + seq![v1] + mid + seq![v2]);
    lemma_recv_in_order(m2, m2.pending.len());
    assert(m2.pending.take(m2.pending.len() as int) =~= m2.pending);
}

/// Closure correctness: once every sender handle, the original and each
/// clone, has been dropped while nothing is pending, the next receive
/// reports closure rather than blocking.
pub proof fn lemma_closure_after_last_drop<T>(m: ChannelModel<T>)
    requires
        m.pending.len() == 0,
    ensures
        recv_closed(drop_many_t(m, m.senders)),
        !recv_blocked(drop_many_t(m, m.senders)),
{
    lemma_drop_many(m, m.senders);
}

/// No premature closure: while at least one sender handle is alive, a
/// receive never reports closure; with nothing pending it blocks instead.
pub proof fn lemma_no_premature_closure<T>(m: ChannelModel<T>)
    requires
        m.senders >= 1,
    ensures
        !recv_closed(m),
        m.pending.len() == 0 ==> recv_blocked(m),
{
}

/// Drop-order independence: sender handles are interchangeable, so dropping
/// `k` of them leads to one state whatever the order; closure is observed
/// exactly when the count reaches zero with nothing left pending.
pub proof fn lemma_drop_order_independence<T>(m: ChannelModel<T>, k: nat)
    requires
        k <= m.senders,
    ensures
        drop_many_t(m, k).pending == m.pending,
        drop_many_t(m, k).senders == m.senders - k,
        recv_closed(drop_many_t(m, k)) <==> (k == m.senders && m.pending.len() == 0),
{
    lemma_drop_many(m, k);
}

/// A drop and a send commute: which of the two wins the lock first does not
/// change where the channel ends up, so interleaving drops among sends
/// cannot change what the receiver observes.
pub proof fn lemma_drop_send_commute<T>(m: ChannelModel<T>, v: T)
    ensures
        drop_t(send_t(m, v)) == send_t(drop_t(m), v),
{
    assert(drop_t(send_t(m, v)) =~= send_t(drop_t(m), v));
}

/// Batch-drain equivalence: if the values of `vs` are queued before any
/// receive, then `vs.len()` consecutive receives return exactly `vs` in
/// enqueue order and leave nothing pending — however the implementation
/// splits the drain between single pops and whole-backlog swaps, what is
/// returned is this one sequence.
pub proof fn lemma_batch_drain<T>(m: ChannelModel<T>, vs: Seq<T>)
    requires
        m.pending.len() == 0,
    ensures
        ({
            let m2 = send_many_t(m, vs);
            &&& m2.pending == vs
            &&& drained(m2, vs.len()) == vs
            &&& recv_k(m2, vs.len()).pending.len() == 0
            &&& recv_k(m2, vs.len()).senders == m.senders
        }),
{
    lemma_send_many(m, vs);
    let m2 = send_many_t(m, vs);
    assert(m2.pending =~= vs);
    lemma_recv_in_order(m2, vs.len());
    assert(m2.pending.take(vs.len() as int) =~= vs);
    assert(m2.pending.skip(vs.len() as int) =~= Seq::<T>::empty());
}

/// Cloning is balanced and harmless: a clone followed by the drop of one
/// handle is no net change, and a clone alone never closes the channel and
/// never disturbs what is pending.
pub proof fn lemma_clone_balanced<T>(m: ChannelModel<T>)
    ensures
        drop_t(clone_t(m)) == m,
        clone_t(m).pending == m.pending,
        !recv_closed(clone_t(m)),
{
    assert(drop_t(clone_t(m)) =~= m);
}

/// Where the receiver's private buffer ends and the shared queue begins is
/// invisible in the model: what is pending is the buffer followed by the
/// queue, a locked enqueue appends at the back of that whole sequence
/// wherever the split lies, and swapping the entire backlog from the queue
/// into the buffer moves the split without touching the sequence. This is
/// why the single-pop path and the swap-then-drain path return the same
/// values in the same order.
pub proof fn lemma_buffer_split_invisible<T>(buffered: Seq<T>, queue: Seq<T>, t: T)
    ensures
        buffered + queue.push(t) == (buffered + queue).push(t),
        buffered + Seq::<T>::empty() == buffered,
        Seq::<T>::empty() + queue == queue,
{
    assert(buffered + queue.push(t) =~= (buffered + queue).push(t));
    assert(buffered + Seq::<T>::empty() =~= buffered);
    assert(Seq::<T>::empty() + queue =~= queue);
}

/// Once closed, always closed: a closed channel has no live handle left to
/// send or clone, and a receive on it reports closure and changes nothing.
pub proof fn lemma_closed_is_permanent<T>(m: ChannelModel<T>)
    requires
        recv_closed(m),
    ensures
        recv_next(m) == m,
        recv_closed(recv_next(m)),
{
}

} // verus!
