//! An ordered list of byte chunks, read as one run of bytes.

use std::collections::VecDeque;
use vstd::prelude::*;
use vstd::seq_lib::lemma_flatten_concat;

verus! {

/// Byte chunks in the order they were pushed. Together they read as one
/// contiguous run of bytes, but nothing is copied into one buffer until a
/// caller asks for it.
#[derive(Debug)]
pub struct BufList {
    bufs: VecDeque<Vec<u8>>,
}

/// States about any chunks what reading them as one run means at both ends:
/// the run starts with the first chunk and ends with the last.
pub proof fn lemma_bytes_of_chunks(chunks: Seq<Seq<u8>>, i: int)
    requires
        0 <= i <= chunks.len(),
    ensures
        chunks.flatten() == chunks.take(i).flatten() + chunks.skip(i).flatten(),
        i < chunks.len() ==> chunks.take(i + 1).flatten() == chunks.take(i).flatten() + chunks[i],
        i < chunks.len() ==> chunks.skip(i).flatten() == chunks[i] + chunks.skip(i + 1).flatten(),
{
    assert(chunks =~= chunks.take(i) + chunks.skip(i));
    lemma_flatten_concat(chunks.take(i), chunks.skip(i));
    if i < chunks.len() {
        assert(chunks.take(i + 1) =~= chunks.take(i) + seq![chunks[i]]);
        lemma_flatten_concat(chunks.take(i), seq![chunks[i]]);
        seq![chunks[i]].lemma_flatten_one_element();
        assert(chunks.skip(i) =~= seq![chunks[i]] + chunks.skip(i + 1));
        lemma_flatten_concat(seq![chunks[i]], chunks.skip(i + 1));
    }
}

impl BufList {
    /// Whether the list is well formed: the bytes that are left to read fit
    /// in `usize`. Every list made and changed by the functions below is.
    pub open spec fn wf(&self) -> bool {
        self.bytes().len() <= usize::MAX
    }

    /// The chunks that are held, first to last.
    pub closed spec fn bufs(&self) -> Seq<Vec<u8>> {
        self.bufs@
    }

    /// The contents of the chunks, first to last.
    pub open spec fn chunks(&self) -> Seq<Seq<u8>> {
        self.bufs().map_values(|buf: Vec<u8>| buf@)
    }

    /// All bytes that are left to read, as one run.
    pub open spec fn bytes(&self) -> Seq<u8> {
        self.chunks().flatten()
    }

    /// The empty list.
    pub fn new() -> (list: Self)
        ensures
            list.wf(),
            list.bufs() == Seq::<Vec<u8>>::empty(),
    {
        let list = BufList { bufs: VecDeque::new() };
        assert(list.chunks() =~= Seq::<Seq<u8>>::empty());
        list
    }

    /// Appends `buf` as the last chunk. The chunks before it keep their
    /// order.
    pub fn push(&mut self, buf: Vec<u8>)
        requires
            old(self).bytes().len() + buf@.len() <= usize::MAX,
        ensures
            final(self).wf(),
            final(self).bufs() == old(self).bufs().push(buf),
            final(self).bytes() == old(self).bytes() + buf@,
    {
        proof {
            let chunks = old(self).chunks();
            assert(old(self).bufs().push(buf).map_values(|b: Vec<u8>| b@) =~= chunks.push(buf@));
            assert(chunks.push(buf@) =~= chunks + seq![buf@]);
            lemma_flatten_concat(chunks, seq![buf@]);
            seq![buf@].lemma_flatten_one_element();
        }
        self.bufs.push_back(buf);
    }

    /// Takes the first chunk off the list, whole. The others keep their
    /// order.
    pub fn pop(&mut self) -> (buf: Option<Vec<u8>>)
        requires
            old(self).wf(),
        ensures
            final(self).wf(),
            match buf {
                Some(first) => {
                    &&& old(self).bufs().len() > 0
                    &&& first == old(self).bufs()[0]
                    &&& final(self).bufs() == old(self).bufs().skip(1)
                    &&& old(self).bytes() == first@ + final(self).bytes()
                },
                None => old(self).bufs().len() == 0 && final(self).bufs() == old(self).bufs(),
            },
    {
        proof {
            let chunks = old(self).chunks();
            if chunks.len() > 0 {
                lemma_bytes_of_chunks(chunks, 0);
                assert(chunks.take(0).flatten() =~= Seq::<u8>::empty());
                assert(old(self).bufs().skip(1).map_values(|b: Vec<u8>| b@) =~= chunks.skip(1));
            }
        }
        self.bufs.pop_front()
    }

    /// The number of bytes that are left to read: the sum of the lengths of
    /// all chunks.
    pub fn remaining(&self) -> (n: usize)
        requires
            self.wf(),
        ensures
            n == self.bytes().len(),
    {
        let ghost chunks = self.chunks();
        let mut sum: usize = 0;
        let mut i: usize = 0;
        while i < self.bufs.len()
            invariant
                chunks == self.chunks(),
                chunks.len() == self.bufs@.len(),
                i <= self.bufs@.len(),
                sum == chunks.take(i as int).flatten().len(),
                chunks.flatten().len() <= usize::MAX,
            decreases self.bufs@.len() - i,
        {
            proof {
                lemma_bytes_of_chunks(chunks, i as int);
                lemma_bytes_of_chunks(chunks, i as int + 1);
            }
            sum = sum + self.bufs[i].len();
            i = i + 1;
        }
        proof {
            assert(chunks.take(i as int) =~= chunks);
        }
        sum
    }

    /// Whether any byte is left to read.
    pub fn has_remaining(&self) -> (b: bool)
        requires
            self.wf(),
        ensures
            b == (self.bytes().len() > 0),
    {
        self.remaining() > 0
    }

    /// The number of chunks that are held.
    pub fn len(&self) -> (n: usize)
        ensures
            n == self.bufs().len(),
    {
        self.bufs.len()
    }

    /// A look at the first chunk without taking it: its bytes, or no bytes
    /// where the list is empty.
    pub fn chunk(&self) -> (front: &[u8])
        ensures
            front@ == (if self.bufs().len() > 0 {
                self.bufs()[0]@
            } else {
                Seq::<u8>::empty()
            }),
    {
        if self.bufs.len() > 0 {
            self.bufs[0].as_slice()
        } else {
            &[]
        }
    }

    /// Skips the next `cnt` bytes, across chunk boundaries. Chunks that are
    /// passed whole leave the list; the one in which the skip ends keeps
    /// its rest. No chunk changes place.
    pub fn advance(&mut self, cnt: usize)
        requires
            old(self).wf(),
            cnt <= old(self).bytes().len(),
        ensures
            final(self).wf(),
            final(self).bytes() == old(self).bytes().skip(cnt as int),
    {
        let ghost target = old(self).bytes().skip(cnt as int);
        let mut left = cnt;
        while left > 0
            invariant
                self.wf(),
                left <= self.bytes().len(),
                self.bytes().skip(left as int) == target,
            decreases left, self.bufs().len(),
        {
            let ghost before = self.chunks();
            let ghost held = self.bufs();
            proof {
                if before.len() == 0 {
                    assert(before.flatten() =~= Seq::<u8>::empty());
                }
                lemma_bytes_of_chunks(before, 0);
                assert(before.take(0).flatten() =~= Seq::<u8>::empty());
                assert(held.skip(1).map_values(|b: Vec<u8>| b@) =~= before.skip(1));
            }
            let mut front = self.bufs.pop_front().unwrap();
            if front.len() > left {
                let rest = front.split_off(left);
                proof {
                    let after = seq![rest@] + before.skip(1);
                    assert((seq![rest] + held.skip(1)).map_values(|b: Vec<u8>| b@) =~= after);
                    lemma_flatten_concat(seq![rest@], before.skip(1));
                    seq![rest@].lemma_flatten_one_element();
                    assert(after.flatten() =~= before.flatten().skip(left as int));
                }
                self.bufs.push_front(rest);
                left = 0;
            } else {
                proof {
                    assert(before.skip(1).flatten() =~= before.flatten().skip(front@.len() as int));
                    assert(before.flatten().skip(left as int) =~= before.skip(1).flatten().skip(
                        left - front@.len(),
                    ));
                }
                left = left - front.len();
            }
        }
    }

    /// Reads the next `len` bytes into one buffer and skips them.
    pub fn copy_to_bytes(&mut self, len: usize) -> (out: Vec<u8>)
        requires
            old(self).wf(),
            len <= old(self).bytes().len(),
        ensures
            final(self).wf(),
            out@ == old(self).bytes().take(len as int),
            final(self).bytes() == old(self).bytes().skip(len as int),
    {
        let ghost all = old(self).bytes();
        let mut out: Vec<u8> = Vec::with_capacity(len);
        while out.len() < len
            invariant
                self.wf(),
                out@.len() <= len,
                out@ + self.bytes() == all,
                len <= all.len(),
            decreases len - out@.len(), self.bufs().len(),
        {
            let ghost before = self.chunks();
            let ghost held = self.bufs();
            let ghost done = out@;
            proof {
                if before.len() == 0 {
                    assert(before.flatten() =~= Seq::<u8>::empty());
                }
                lemma_bytes_of_chunks(before, 0);
                assert(before.take(0).flatten() =~= Seq::<u8>::empty());
                assert(held.skip(1).map_values(|b: Vec<u8>| b@) =~= before.skip(1));
            }
            let need = len - out.len();
            let mut front = self.bufs.pop_front().unwrap();
            if front.len() > need {
                let rest = front.split_off(need);
                proof {
                    let after = seq![rest@] + before.skip(1);
                    assert((seq![rest] + held.skip(1)).map_values(|b: Vec<u8>| b@) =~= after);
                    lemma_flatten_concat(seq![rest@], before.skip(1));
                    seq![rest@].lemma_flatten_one_element();
                    assert(done + front@ + after.flatten() =~= done + before.flatten());
                }
                self.bufs.push_front(rest);
            } else {
                proof {
                    assert(done + front@ + before.skip(1).flatten() =~= done + before.flatten());
                }
            }
            out.append(&mut front);
        }
        proof {
            assert(out@ =~= all.take(len as int));
            assert(self.bytes() =~= all.skip(len as int));
        }
        out
    }
}

impl Default for BufList {
    fn default() -> (list: Self)
        ensures
            list.wf(),
            list.bufs() == Seq::<Vec<u8>>::empty(),
    {
        BufList::new()
    }
}

} // verus!
