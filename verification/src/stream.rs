//! A reader that hands out a byte slice in bounded chunks, as a streaming
//! Wasm parser consumes its input.
use vstd::prelude::*;

verus! {

/// The largest number of bytes that one read hands out.
pub const CHUNK_LEN: usize = 1024;

/// Where a read that starts at `pos` stops: `CHUNK_LEN` bytes further on, or
/// at the end of the data, whichever comes first.
pub open spec fn chunk_end(len: int, pos: int) -> int {
    if pos + CHUNK_LEN < len {
        pos + CHUNK_LEN
    } else {
        len
    }
}

/// The chunks that a stream standing at `pos` over `data` still hands out,
/// in the order it hands them out.
pub open spec fn chunks_from(data: Seq<u8>, pos: int) -> Seq<Seq<u8>>
    decreases data.len() - pos,
{
    if pos < 0 || pos >= data.len() {
        Seq::empty()
    } else {
        let end = chunk_end(data.len() as int, pos);
        seq![data.subrange(pos, end)] + chunks_from(data, end)
    }
}

/// Chunked reads hand out every remaining byte exactly once and in order:
/// the chunks, put back together, are the data from `pos` to its end.
/// Each chunk holds at least one byte and at most `CHUNK_LEN` bytes.
pub proof fn lemma_chunks_reassemble(data: Seq<u8>, pos: int)
    requires
        0 <= pos <= data.len(),
    ensures
        chunks_from(data, pos).flatten() =~= data.subrange(pos, data.len() as int),
        forall|i: int|
            0 <= i < chunks_from(data, pos).len() ==> 0 < #[trigger] chunks_from(data, pos)[i].len()
                <= CHUNK_LEN,
    decreases data.len() - pos,
{
    if pos < data.len() {
        let end = chunk_end(data.len() as int, pos);
        lemma_chunks_reassemble(data, end);
        let rest = chunks_from(data, end);
        let all = chunks_from(data, pos);
        assert(all =~= seq![data.subrange(pos, end)] + rest);
        assert(all.drop_first() =~= rest);
        assert(all.flatten() == all.first() + all.drop_first().flatten());
        assert(data.subrange(pos, data.len() as int) =~= data.subrange(pos, end) + data.subrange(
            end,
            data.len() as int,
        ));
        assert forall|i: int| 0 <= i < all.len() implies 0 < #[trigger] all[i].len()
            <= CHUNK_LEN by {
            if i > 0 {
                assert(all[i] == rest[i - 1]);
            }
        }
    } else {
        assert(data.subrange(pos, data.len() as int) =~= Seq::<u8>::empty());
    }
}

/// Every chunk but the last holds exactly `CHUNK_LEN` bytes.
pub proof fn lemma_chunks_full_but_last(data: Seq<u8>, pos: int)
    requires
        0 <= pos <= data.len(),
    ensures
        forall|i: int|
            0 <= i < chunks_from(data, pos).len() - 1 ==> #[trigger] chunks_from(data, pos)[i].len()
                == CHUNK_LEN,
    decreases data.len() - pos,
{
    if pos < data.len() {
        let end = chunk_end(data.len() as int, pos);
        lemma_chunks_full_but_last(data, end);
        let rest = chunks_from(data, end);
        let all = chunks_from(data, pos);
        assert(all =~= seq![data.subrange(pos, end)] + rest);
        if end < data.len() {
            assert(end == pos + CHUNK_LEN);
        } else {
            assert(rest.len() == 0);
        }
        assert forall|i: int| 0 <= i < all.len() - 1 implies #[trigger] all[i].len()
            == CHUNK_LEN by {
            if i > 0 {
                assert(all[i] == rest[i - 1]);
            } else {
                assert(rest.len() > 0);
                assert(end == pos + CHUNK_LEN);
            }
        }
    }
}

/// A stream that has handed out everything hands out nothing more: at the
/// end of the data no chunk is left, whatever was read before.
pub proof fn lemma_no_chunks_at_end(data: Seq<u8>)
    ensures
        chunks_from(data, data.len() as int) =~= Seq::<Seq<u8>>::empty(),
{
}

/// The number of reads that a stream over `len` bytes answers with a chunk
/// is `len` divided by `CHUNK_LEN`, rounded up.
pub proof fn lemma_chunk_count(data: Seq<u8>, pos: int)
    requires
        0 <= pos <= data.len(),
    ensures
        chunks_from(data, pos).len() == (data.len() - pos + CHUNK_LEN - 1) / (CHUNK_LEN as int),
    decreases data.len() - pos,
{
    if pos < data.len() {
        let end = chunk_end(data.len() as int, pos);
        lemma_chunk_count(data, end);
        let n = data.len() - pos;
        let c = CHUNK_LEN as int;
        if pos + c < data.len() {
            assert((n + c - 1) / c == (n - c + c - 1) / c + 1) by (nonlinear_arith)
                requires
                    c == 1024,
                    n > c,
            ;
        } else {
            assert((n + c - 1) / c == 1) by (nonlinear_arith)
                requires
                    c == 1024,
                    0 < n <= c,
            ;
        }
    }
}

/// A stream over `data` read from its start hands out `k` chunks, `k` being
/// the length of `data` divided by `CHUNK_LEN` and rounded up, and nothing
/// after them: put back together they are `data`, every chunk but the last
/// holds `CHUNK_LEN` bytes, and the last holds from one to `CHUNK_LEN` bytes.
pub proof fn lemma_read_out(data: Seq<u8>)
    ensures
        chunks_from(data, 0).len() == (data.len() + CHUNK_LEN - 1) / (CHUNK_LEN as int),
        chunks_from(data, 0).flatten() == data,
        forall|i: int|
            0 <= i < chunks_from(data, 0).len() - 1 ==> #[trigger] chunks_from(data, 0)[i].len()
                == CHUNK_LEN,
        chunks_from(data, 0).len() > 0 ==> 0 < chunks_from(data, 0).last().len() <= CHUNK_LEN,
        chunks_from(data, data.len() as int).len() == 0,
{
    lemma_chunk_count(data, 0);
    lemma_chunks_reassemble(data, 0);
    lemma_chunks_full_but_last(data, 0);
    assert(data.subrange(0, data.len() as int) =~= data);
    let all = chunks_from(data, 0);
    if all.len() > 0 {
        assert(all.last() == all[all.len() - 1]);
    }
}

/// Hands out the bytes of a slice, front to back, `CHUNK_LEN` bytes at a time.
pub struct SliceStream<'a> {
    data: &'a [u8],
    pos: usize,
}

impl<'a> SliceStream<'a> {
    #[verifier::type_invariant]
    spec fn well_formed(self) -> bool {
        self.pos <= self.data@.len()
    }

    /// The bytes the stream reads from.
    pub closed spec fn bytes(&self) -> Seq<u8> {
        self.data@
    }

    /// How many bytes the stream has handed out so far.
    pub closed spec fn position(&self) -> nat {
        self.pos as nat
    }

    /// The chunks the stream still hands out, in order.
    pub open spec fn remaining(&self) -> Seq<Seq<u8>> {
        chunks_from(self.bytes(), self.position() as int)
    }

    /// Starts a stream at the front of `data`.
    pub fn new(data: &'a [u8]) -> (s: Self)
        ensures
            s.bytes() == data@,
            s.position() == 0,
            s.remaining() == chunks_from(data@, 0),
    {
        SliceStream { data, pos: 0 }
    }

    /// How many bytes the stream has handed out so far.
    pub fn pos(&self) -> (p: usize)
        ensures
            p == self.position(),
            p <= self.bytes().len(),
    {
        proof {
            use_type_invariant(self);
        }
        self.pos
    }

    /// Hands out the next chunk: the bytes from the current position up to
    /// `CHUNK_LEN` bytes further on or to the end of the data, whichever comes
    /// first; `None` once every byte has been handed out.
    pub fn read(&mut self) -> (r: Option<Vec<u8>>)
        ensures
            final(self).bytes() == old(self).bytes(),
            final(self).position() <= final(self).bytes().len(),
            match r {
                Some(chunk) => {
                    &&& old(self).position() < old(self).bytes().len()
                    &&& final(self).position() == chunk_end(
                        old(self).bytes().len() as int,
                        old(self).position() as int,
                    )
                    &&& chunk@ == old(self).bytes().subrange(
                        old(self).position() as int,
                        final(self).position() as int,
                    )
                    &&& chunk@ == old(self).remaining()[0]
                    &&& final(self).remaining() == old(self).remaining().drop_first()
                },
                None => {
                    &&& old(self).position() == old(self).bytes().len()
                    &&& old(self).remaining().len() == 0
                    &&& final(self).position() == old(self).position()
                },
            },
    {
        proof {
            use_type_invariant(&*self);
        }
        let len = self.data.len();
        if self.pos >= len {
            return None;
        }
        let start = self.pos;
        let end = if len - start > CHUNK_LEN {
            start + CHUNK_LEN
        } else {
            len
        };
        let mut chunk: Vec<u8> = Vec::new();
        let mut i: usize = start;
        while i < end
            invariant
                start <= i <= end,
                end <= len,
                len == self.data@.len(),
                chunk@ == self.data@.subrange(start as int, i as int),
            decreases end - i,
        {
            chunk.push(self.data[i]);
            i = i + 1;
            assert(chunk@ =~= self.data@.subrange(start as int, i as int));
        }
        self.pos = end;
        proof {
            let data = self.data@;
            let all = chunks_from(data, start as int);
            assert(all =~= seq![data.subrange(start as int, end as int)] + chunks_from(
                data,
                end as int,
            ));
            assert(all.drop_first() =~= chunks_from(data, end as int));
        }
        Some(chunk)
    }
}

} // verus!
