use vstd::prelude::*;
use crate::notification::NOTIFICATION_LEN;

verus! {

/// The whole records at the front of a byte stream, in order.
pub open spec fn records_of(s: Seq<u8>) -> Seq<Seq<u8>>
    decreases s.len(),
{
    if s.len() < NOTIFICATION_LEN {
        Seq::empty()
    } else {
        seq![s.take(NOTIFICATION_LEN as int)] + records_of(s.skip(NOTIFICATION_LEN as int))
    }
}

/// What is left of a byte stream once its whole records are taken off.
pub open spec fn tail_of(s: Seq<u8>) -> Seq<u8>
    decreases s.len(),
{
    if s.len() < NOTIFICATION_LEN {
        s
    } else {
        tail_of(s.skip(NOTIFICATION_LEN as int))
    }
}

/// The bytes of a sequence of chunks, joined in order.
pub open spec fn stream_of(chunks: Seq<Seq<u8>>) -> Seq<u8>
    decreases chunks.len(),
{
    if chunks.len() == 0 {
        Seq::empty()
    } else {
        stream_of(chunks.drop_last()) + chunks.last()
    }
}

/// Records emitted and tail retained by a fresh buffer fed `chunks` one push at a time.
pub open spec fn fed(chunks: Seq<Seq<u8>>) -> (Seq<Seq<u8>>, Seq<u8>)
    decreases chunks.len(),
{
    if chunks.len() == 0 {
        (Seq::empty(), Seq::empty())
    } else {
        let (records, tail) = fed(chunks.drop_last());
        let s = tail + chunks.last();
        (records + records_of(s), tail_of(s))
    }
}

/// The retained tail is always shorter than one record.
pub proof fn lemma_tail_short(s: Seq<u8>)
    ensures
        tail_of(s).len() < NOTIFICATION_LEN,
    decreases s.len(),
{
    if s.len() >= NOTIFICATION_LEN {
        lemma_tail_short(s.skip(NOTIFICATION_LEN as int));
    }
}

/// The retained tail is the stream past its last whole record: the last
/// `s.len() % 17` bytes.
pub proof fn lemma_tail_is_suffix(s: Seq<u8>)
    ensures
        tail_of(s) == s.skip(17 * (s.len() as int / 17)),
        tail_of(s).len() == s.len() as int % 17,
    decreases s.len(),
{
    let k = NOTIFICATION_LEN as int;
    let n = s.len() as int;
    if n >= k {
        let rest = s.skip(k);
        lemma_tail_is_suffix(rest);
        assert((n - k) / k == n / k - 1) by (nonlinear_arith)
            requires
                n >= k,
                k == 17,
        ;
        assert((n - k) % k == n % k) by (nonlinear_arith)
            requires
                n >= k,
                k == 17,
        ;
        assert(k * (n / k) == k + k * ((n - k) / k)) by (nonlinear_arith)
            requires
                (n - k) / k == n / k - 1,
        ;
        assert(rest.skip(k * ((n - k) / k)) =~= s.skip(k * (n / k)));
    } else {
        assert(n / k == 0 && n % k == n) by (nonlinear_arith)
            requires
                0 <= n < k,
                k == 17,
        ;
        assert(s.skip(0) =~= s);
    }
}

/// Records cut from `s + u` are those cut from `s`, then those cut from what `s`
/// leaves over followed by `u`.
pub proof fn lemma_records_append(s: Seq<u8>, u: Seq<u8>)
    ensures
        records_of(s + u) == records_of(s) + records_of(tail_of(s) + u),
        tail_of(s + u) == tail_of(tail_of(s) + u),
    decreases s.len(),
{
    if s.len() >= NOTIFICATION_LEN {
        let k = NOTIFICATION_LEN as int;
        let rest = s.skip(k);
        lemma_records_append(rest, u);
        assert((s + u).skip(k) =~= rest + u);
        assert((s + u).take(k) =~= s.take(k));
        assert(records_of(s + u) =~= records_of(s) + records_of(tail_of(s) + u));
    } else {
        assert(records_of(s) =~= Seq::<Seq<u8>>::empty());
        assert(records_of(s) + records_of(tail_of(s) + u) =~= records_of(s + u));
    }
}

/// Chunking does not matter: however a stream is split into chunks, pushing the
/// chunks one by one into a fresh buffer emits exactly the records of the whole
/// stream, in order, and retains exactly its tail.
pub proof fn lemma_chunking_invariance(chunks: Seq<Seq<u8>>)
    ensures
        fed(chunks).0 == records_of(stream_of(chunks)),
        fed(chunks).1 == tail_of(stream_of(chunks)),
    decreases chunks.len(),
{
    if chunks.len() > 0 {
        let prev = chunks.drop_last();
        lemma_chunking_invariance(prev);
        lemma_records_append(stream_of(prev), chunks.last());
        assert(fed(chunks).0 =~= records_of(stream_of(chunks)));
    } else {
        assert(records_of(Seq::<u8>::empty()) =~= Seq::<Seq<u8>>::empty());
    }
}

/// Two splittings of the same stream emit the same records and retain the same tail.
pub proof fn lemma_partitions_agree(a: Seq<Seq<u8>>, b: Seq<Seq<u8>>)
    requires
        stream_of(a) == stream_of(b),
    ensures
        fed(a) == fed(b),
{
    lemma_chunking_invariance(a);
    lemma_chunking_invariance(b);
}

/// Recovers fixed-length notification records from a stream of chunks whose
/// boundaries need not match the record boundaries.
pub struct ReassemblyBuffer {
    tail: Vec<u8>,
}

impl View for ReassemblyBuffer {
    type V = Seq<u8>;

    /// The bytes retained for the next push.
    closed spec fn view(&self) -> Seq<u8> {
        self.tail@
    }
}

impl ReassemblyBuffer {
    /// The retained bytes are fewer than one record.
    pub open spec fn wf(&self) -> bool {
        self@.len() < NOTIFICATION_LEN
    }

    /// An empty buffer.
    pub fn new() -> (r: Self)
        ensures
            r@ == Seq::<u8>::empty(),
            r.wf(),
    {
        ReassemblyBuffer { tail: Vec::new() }
    }

    /// Number of bytes retained for the next push.
    pub fn tail_len(&self) -> (r: usize)
        ensures
            r == self@.len(),
    {
        self.tail.len()
    }

    /// Appends `chunk` to the retained bytes and takes off every whole record, in
    /// arrival order; the remainder, shorter than a record, is kept for the next push.
    pub fn push(&mut self, chunk: &[u8]) -> (r: Vec<Vec<u8>>)
        requires
            old(self)@.len() + chunk@.len() <= usize::MAX,
        ensures
            r.deep_view() == records_of(old(self)@ + chunk@),
            final(self)@ == tail_of(old(self)@ + chunk@),
            final(self).wf(),
            forall|i: int| 0 <= i < r@.len() ==> #[trigger] r@[i]@.len() == NOTIFICATION_LEN,
    {
        let ghost all = self@ + chunk@;
        let mut buf: Vec<u8> = Vec::new();
        std::mem::swap(&mut buf, &mut self.tail);
        let mut j: usize = 0;
        while j < chunk.len()
            invariant
                j <= chunk@.len(),
                buf@ == old(self)@ + chunk@.take(j as int),
            decreases chunk@.len() - j,
        {
            buf.push(chunk[j]);
            j = j + 1;
            assert(buf@ =~= old(self)@ + chunk@.take(j as int));
        }
        assert(buf@ =~= all);
        let mut records: Vec<Vec<u8>> = Vec::new();
        let mut i: usize = 0;
        assert(all.skip(0) =~= all);
        while buf.len() - i >= NOTIFICATION_LEN
            invariant
                buf@ == all,
                all.len() <= usize::MAX,
                i <= buf@.len(),
                records_of(all) == records.deep_view() + records_of(all.skip(i as int)),
                tail_of(all) == tail_of(all.skip(i as int)),
                forall|k: int|
                    0 <= k < records@.len() ==> #[trigger] records@[k]@.len() == NOTIFICATION_LEN,
            decreases buf@.len() - i,
        {
            let mut record: Vec<u8> = Vec::with_capacity(NOTIFICATION_LEN);
            let mut k: usize = 0;
            while k < NOTIFICATION_LEN
                invariant
                    buf@ == all,
                    all.len() <= usize::MAX,
                    i + NOTIFICATION_LEN <= buf@.len(),
                    k <= NOTIFICATION_LEN,
                    record@ == all.subrange(i as int, i + k),
                decreases NOTIFICATION_LEN - k,
            {
                record.push(buf[i + k]);
                k = k + 1;
                assert(record@ =~= all.subrange(i as int, i + k));
            }
            let ghost before = records.deep_view();
            let ghost s = all.skip(i as int);
            assert(s.take(NOTIFICATION_LEN as int) =~= record@);
            assert(s.skip(NOTIFICATION_LEN as int) =~= all.skip(i + NOTIFICATION_LEN));
            assert(record.deep_view() =~= record@);
            records.push(record);
            assert(records.deep_view() =~= before.push(record@));
            i = i + NOTIFICATION_LEN;
        }
        let mut rest: Vec<u8> = Vec::new();
        let mut k: usize = i;
        while k < buf.len()
            invariant
                buf@ == all,
                i <= k <= buf@.len(),
                rest@ == all.subrange(i as int, k as int),
            decreases buf@.len() - k,
        {
            rest.push(buf[k]);
            k = k + 1;
            assert(rest@ =~= all.subrange(i as int, k as int));
        }
        let ghost s = all.skip(i as int);
        assert(rest@ =~= s);
        assert(records_of(s) =~= Seq::<Seq<u8>>::empty());
        assert(records.deep_view() + records_of(s) =~= records.deep_view());
        self.tail = rest;
        proof {
            lemma_tail_short(all);
        }
        records
    }
}

} // verus!
