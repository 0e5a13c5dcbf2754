//! Reading from a stream of chunks of bytes, any number of bytes at a time.

use vstd::prelude::*;

use bytes::Bytes;

use crate::error::Error;

verus! {

/// The chunks of bytes of the `bytes` crate.
#[verifier::external_type_specification]
#[verifier::external_body]
pub struct ExBytes(Bytes);

/// The bytes in a chunk.
pub uninterp spec fn chunk_bytes(chunk: Bytes) -> Seq<u8>;

/// Calls `Bytes::len`, which counts the bytes in a chunk.
#[verifier::external_body]
fn chunk_len(chunk: &Bytes) -> (r: usize)
    ensures
        r == chunk_bytes(*chunk).len(),
{
    chunk.len()
}

/// Calls `Bytes::slice`, which gives a part of a chunk.
#[verifier::external_body]
fn chunk_part(chunk: &Bytes, from: usize, to: usize) -> (r: Vec<u8>)
    requires
        from <= to <= chunk_bytes(*chunk).len(),
    ensures
        r@ == chunk_bytes(*chunk).subrange(from as int, to as int),
{
    chunk.slice(from..to).to_vec()
}

/// The part of a stream that has come in and was not read yet.
pub struct StreamReader {
    current_chunk: Option<Bytes>,
    chunk_offset: usize,
}

impl View for StreamReader {
    type V = Seq<u8>;

    closed spec fn view(&self) -> Seq<u8> {
        match self.current_chunk {
            Some(chunk) => if self.chunk_offset <= chunk_bytes(chunk).len() {
                chunk_bytes(chunk).skip(self.chunk_offset as int)
            } else {
                Seq::empty()
            },
            None => Seq::empty(),
        }
    }
}

/// The smaller of two numbers.
pub open spec fn least(a: nat, b: nat) -> nat {
    if a < b {
        a
    } else {
        b
    }
}

/// The bytes in a chunk that may be absent.
pub open spec fn next_bytes(next: Option<Result<Bytes, Error>>) -> Seq<u8> {
    match next {
        Some(Ok(chunk)) => chunk_bytes(chunk),
        _ => Seq::empty(),
    }
}

impl StreamReader {
    /// Nothing has come in yet.
    pub fn new() -> (r: StreamReader)
        ensures
            r@ == Seq::<u8>::empty(),
    {
        StreamReader { current_chunk: None, chunk_offset: 0 }
    }

    /// Reads at most `wanted` bytes of what has come in. `None` means that the next chunk is needed
    /// to read anything.
    pub fn read(&mut self, wanted: usize) -> (r: Option<Vec<u8>>)
        ensures
            r is None <==> wanted > 0 && old(self)@.len() == 0,
            r matches Some(bytes) ==> bytes@ == old(self)@.take(
                least(wanted as nat, old(self)@.len()) as int,
            ) && final(self)@ == old(self)@.skip(bytes@.len() as int),
            r is None ==> final(self)@ == old(self)@,
    {
        if wanted == 0 {
            let none: Vec<u8> = Vec::new();
            assert(none@ =~= self@.take(0));
            assert(self@ =~= self@.skip(0));
            return Some(none);
        }
        match &self.current_chunk {
            Some(chunk) => {
                let len: usize = chunk_len(chunk);
                if self.chunk_offset < len {
                    let remaining: usize = len - self.chunk_offset;
                    let to_copy: usize = if wanted < remaining {
                        wanted
                    } else {
                        remaining
                    };
                    let bytes = chunk_part(chunk, self.chunk_offset, self.chunk_offset + to_copy);
                    proof {
                        let all = chunk_bytes(*chunk);
                        let at = self.chunk_offset as int;
                        assert(bytes@ =~= all.skip(at).take(to_copy as int));
                        assert(all.skip(at + to_copy) =~= all.skip(at).skip(to_copy as int));
                    }
                    self.chunk_offset = self.chunk_offset + to_copy;
                    Some(bytes)
                } else {
                    None
                }
            },
            None => None,
        }
    }

    /// Takes what comes next in the stream, a chunk, a failure or the end, and reads at most
    /// `wanted` bytes of it. At the end of the stream nothing is read; an empty chunk counts as
    /// the end.
    pub fn read_next(&mut self, next: Option<Result<Bytes, Error>>, wanted: usize) -> (r: Result<
        Vec<u8>,
        Error,
    >)
        requires
            wanted > 0,
            old(self)@.len() == 0,
        ensures
            r is Err <==> next matches Some(Err(_)),
            r matches Err(e) ==> next == Some(Err::<Bytes, Error>(e)) && final(self)@ == old(
                self,
            )@,
            r matches Ok(bytes) ==> bytes@ == next_bytes(next).take(
                least(wanted as nat, next_bytes(next).len()) as int,
            ) && final(self)@ == next_bytes(next).skip(bytes@.len() as int),
    {
        match next {
            Some(Ok(chunk)) => {
                let len: usize = chunk_len(&chunk);
                if len == 0 {
                    let none: Vec<u8> = Vec::new();
                    assert(none@ =~= chunk_bytes(chunk).take(0));
                    assert(self@ =~= chunk_bytes(chunk).skip(0));
                    return Ok(none);
                }
                let to_copy: usize = if wanted < len {
                    wanted
                } else {
                    len
                };
                let bytes = chunk_part(&chunk, 0, to_copy);
                proof {
                    assert(bytes@ =~= chunk_bytes(chunk).take(to_copy as int));
                    assert(chunk_bytes(chunk).skip(len as int) =~= Seq::<u8>::empty());
                }
                if to_copy < len {
                    self.current_chunk = Some(chunk);
                    self.chunk_offset = to_copy;
                } else {
                    self.current_chunk = None;
                    self.chunk_offset = 0;
                }
                Ok(bytes)
            },
            Some(Err(error)) => Err(error),
            None => {
                let none: Vec<u8> = Vec::new();
                assert(none@ =~= Seq::<u8>::empty().take(0));
                assert(self@ =~= Seq::<u8>::empty().skip(0));
                Ok(none)
            },
        }
    }
}

/// What was read of a stream so far, what has come in and was not read yet, and the chunks that are
/// still to come.
pub struct Progress {
    pub read: Seq<u8>,
    pub pending: Seq<u8>,
    pub coming: Seq<Seq<u8>>,
}

impl Progress {
    /// After one read of at most `wanted` bytes: of what has come in, or if that is all read, of the
    /// next chunk.
    pub open spec fn after(self, wanted: nat) -> Progress {
        if wanted == 0 || self.pending.len() > 0 {
            self.taken(self.pending, wanted, self.coming)
        } else if self.coming.len() > 0 {
            self.taken(self.coming[0], wanted, self.coming.drop_first())
        } else {
            self
        }
    }

    /// After at most `wanted` of the given bytes were read and the rest of them was kept.
    pub open spec fn taken(self, bytes: Seq<u8>, wanted: nat, coming: Seq<Seq<u8>>) -> Progress {
        let n = least(wanted, bytes.len()) as int;
        Progress { read: self.read + bytes.take(n), pending: bytes.skip(n), coming }
    }

    /// After one read for each of the numbers of bytes that are wanted.
    pub open spec fn after_all(self, wanted: Seq<nat>) -> Progress
        decreases wanted.len(),
    {
        if wanted.len() == 0 {
            self
        } else {
            self.after_all(wanted.drop_last()).after(wanted.last())
        }
    }

    /// The bytes of the whole stream.
    pub open spec fn whole(self) -> Seq<u8> {
        self.read + self.pending + self.coming.flatten()
    }
}

/// However much is wanted at a time, what was read is a beginning of the whole stream, and what is
/// left of it is kept: no byte is lost, doubled or moved. A read that wants bytes and gets none has
/// come to the end of the stream, or to an empty chunk, which counts as the end.
pub proof fn law_reads_lose_nothing(start: Progress, wanted: Seq<nat>, next: nat)
    ensures
        start.after_all(wanted).whole() == start.whole(),
        start.after_all(wanted).read.is_prefix_of(start.whole()),
        ({
            let now = start.after_all(wanted);
            next > 0 && now.after(next).read == now.read ==> now.pending.len() == 0 && (
            now.coming.len() == 0 || now.coming[0].len() == 0)
        }),
    decreases wanted.len(),
{
    let now = start.after_all(wanted);
    if wanted.len() > 0 {
        law_reads_lose_nothing(start, wanted.drop_last(), 0);
        lemma_read_keeps_the_whole(start.after_all(wanted.drop_last()), wanted.last());
    }
    let whole = start.whole();
    assert(whole =~= now.read + (now.pending + now.coming.flatten()));
    assert(now.read =~= whole.subrange(0, now.read.len() as int));
    if next > 0 && now.pending.len() > 0 {
        assert(now.after(next).read.len() > now.read.len());
    } else if next > 0 && now.coming.len() > 0 && now.coming[0].len() > 0 {
        assert(now.after(next).read.len() > now.read.len());
    }
}

proof fn lemma_read_keeps_the_whole(now: Progress, wanted: nat)
    ensures
        now.after(wanted).whole() == now.whole(),
{
    if wanted == 0 || now.pending.len() > 0 {
        let n = least(wanted, now.pending.len()) as int;
        assert(now.pending =~= now.pending.take(n) + now.pending.skip(n));
        assert(now.after(wanted).whole() =~= now.whole());
    } else if now.coming.len() > 0 {
        let chunk = now.coming[0];
        let n = least(wanted, chunk.len()) as int;
        assert(now.coming.first() == chunk);
        assert(chunk =~= chunk.take(n) + chunk.skip(n));
        assert(now.coming.flatten() == chunk + now.coming.drop_first().flatten());
        assert(now.after(wanted).whole() =~= now.whole());
    }
}

} // verus!
