//! The host file under a block device, and an in-memory file that behaves
//! like one.
use vstd::prelude::*;
use crate::fault::HostFault;

verus! {

/// How many of `want` bytes can be transferred at `cursor` when the
/// transfer must end at or before `end`.
pub open spec fn available(end: nat, cursor: nat, want: nat) -> nat {
    if cursor >= end {
        0
    } else if end - cursor < want {
        (end - cursor) as nat
    } else {
        want
    }
}

/// The bytes of a file after `data` was written at offset `at` of `before`.
/// A write past the end grows the file; the gap, if any, reads as zeros.
/// Writing nothing changes nothing.
pub open spec fn overlay(before: Seq<u8>, at: nat, data: Seq<u8>) -> Seq<u8> {
    if data.len() == 0 {
        before
    } else {
        Seq::new(
            if before.len() < at + data.len() { at + data.len() } else { before.len() },
            |i: int|
                if at <= i < at + data.len() {
                    data[i - at]
                } else if i < before.len() {
                    before[i]
                } else {
                    0u8
                },
        )
    }
}

/// A buffer after a read of `n` bytes at offset `at` of `contents`: the
/// bytes read stand at its front, the rest is as it was.
pub open spec fn filled(buf: Seq<u8>, contents: Seq<u8>, at: nat, n: nat) -> Seq<u8> {
    Seq::new(buf.len(), |i: int| if i < n { contents[at + i] } else { buf[i] })
}

/// The bytes of a file after its length was forced to `len`: the old bytes
/// up to `len`, then zeros.
pub open spec fn resized(before: Seq<u8>, len: nat) -> Seq<u8> {
    Seq::new(len, |i: int| if i < before.len() { before[i] } else { 0u8 })
}

/// A file of the host: a run of bytes and a cursor, with the four
/// operations that a block device needs.
///
/// A file on a real disk can fail at any call and may transfer fewer bytes
/// than asked, so for a file in general the methods promise only what holds
/// of every outcome. An implementation whose bytes the proofs can see says
/// so through [`HostFile::modeled`]; of such a file every method states the
/// exact result. The spec functions have defaults so that an implementation
/// over a real file needs to supply the four operations only.
pub trait HostFile {
    /// Whether `contents`, `cursor` and `limit` describe this file exactly.
    open spec fn modeled(&self) -> bool {
        false
    }

    /// The bytes of the file.
    open spec fn contents(&self) -> Seq<u8> {
        Seq::empty()
    }

    /// The offset at which the next transfer starts.
    open spec fn cursor(&self) -> nat {
        0
    }

    /// The length beyond which the file cannot grow.
    open spec fn limit(&self) -> nat {
        0
    }

    /// Moves the cursor to `pos` bytes from the start of the file. The
    /// cursor may stand past the end.
    fn seek_to(&mut self, pos: u64) -> (r: Result<(), HostFault>)
        ensures
            final(self).modeled() == old(self).modeled(),
            old(self).modeled() ==> {
                &&& r is Ok
                &&& final(self).contents() == old(self).contents()
                &&& final(self).limit() == old(self).limit()
                &&& final(self).cursor() == pos
            },
    ;

    /// Reads from the cursor into the front of `buf` and returns the number
    /// of bytes read. A modeled file reads as much as lies between the
    /// cursor and its end.
    fn read(&mut self, buf: &mut [u8]) -> (r: Result<usize, HostFault>)
        ensures
            final(buf)@.len() == old(buf)@.len(),
            final(self).modeled() == old(self).modeled(),
            old(self).modeled() ==> {
                let n = available(
                    old(self).contents().len(),
                    old(self).cursor(),
                    old(buf)@.len(),
                );
                &&& r matches Ok(k)
                &&& k == n
                &&& final(self).contents() == old(self).contents()
                &&& final(self).limit() == old(self).limit()
                &&& final(self).cursor() == old(self).cursor() + n
                &&& final(buf)@ == filled(
                    old(buf)@,
                    old(self).contents(),
                    old(self).cursor(),
                    n,
                )
            },
    ;

    /// Writes the front of `buf` at the cursor and returns the number of
    /// bytes written. A modeled file takes as much as fits below its limit.
    fn write(&mut self, buf: &[u8]) -> (r: Result<usize, HostFault>)
        ensures
            final(self).modeled() == old(self).modeled(),
            old(self).modeled() ==> {
                let n = available(old(self).limit(), old(self).cursor(), buf@.len());
                &&& r matches Ok(k)
                &&& k == n
                &&& final(self).contents() == overlay(
                    old(self).contents(),
                    old(self).cursor(),
                    buf@.subrange(0, n as int),
                )
                &&& final(self).limit() == old(self).limit()
                &&& final(self).cursor() == old(self).cursor() + n
            },
    ;

    /// Forces the length of the file to `len`: cuts it, or grows it with
    /// zeros. The cursor stays. A modeled file refuses a length above its
    /// limit and is then unchanged.
    fn set_len(&mut self, len: u64) -> (r: Result<(), HostFault>)
        ensures
            final(self).modeled() == old(self).modeled(),
            old(self).modeled() ==> {
                &&& final(self).limit() == old(self).limit()
                &&& final(self).cursor() == old(self).cursor()
                &&& r is Ok <==> len <= old(self).limit()
                &&& r is Ok ==> final(self).contents() == resized(
                    old(self).contents(),
                    len as nat,
                )
                &&& r is Err ==> final(self).contents() == old(self).contents()
            },
    ;
}

/// A file held in memory. It behaves as a host file that never fails and
/// never transfers short until it reaches its limit, which stands for a
/// full disk.
pub struct MemFile {
    bytes: Vec<u8>,
    cursor: u64,
    limit: usize,
}

impl MemFile {
    /// An empty file that can grow to `limit` bytes.
    pub fn new(limit: usize) -> (file: MemFile)
        ensures
            file.modeled(),
            file.contents() == Seq::<u8>::empty(),
            file.cursor() == 0,
            file.limit() == limit,
    {
        MemFile { bytes: Vec::new(), cursor: 0, limit }
    }

    /// A file that holds `bytes`, with the cursor at the start.
    pub fn from_bytes(bytes: Vec<u8>, limit: usize) -> (file: MemFile)
        ensures
            file.modeled(),
            file.contents() == bytes@,
            file.cursor() == 0,
            file.limit() == limit,
    {
        MemFile { bytes, cursor: 0, limit }
    }

    /// The bytes of the file.
    pub fn bytes(&self) -> (bytes: &Vec<u8>)
        ensures
            bytes@ == self.contents(),
    {
        &self.bytes
    }

    /// The length of the file in bytes.
    pub fn len(&self) -> (len: usize)
        ensures
            len == self.contents().len(),
    {
        self.bytes.len()
    }
}

impl HostFile for MemFile {
    open spec fn modeled(&self) -> bool {
        true
    }

    closed spec fn contents(&self) -> Seq<u8> {
        self.bytes@
    }

    closed spec fn cursor(&self) -> nat {
        self.cursor as nat
    }

    closed spec fn limit(&self) -> nat {
        self.limit as nat
    }

    fn seek_to(&mut self, pos: u64) -> (r: Result<(), HostFault>) {
        self.cursor = pos;
        Ok(())
    }

    fn read(&mut self, buf: &mut [u8]) -> (r: Result<usize, HostFault>) {
        let len = self.bytes.len();
        let want = buf.len();
        if self.cursor >= len as u64 {
            assert(buf@ =~= filled(buf@, self.bytes@, self.cursor as nat, 0));
            return Ok(0);
        }
        let start: usize = self.cursor as usize;
        let n: usize = if len - start < want { len - start } else { want };
        let mut i: usize = 0;
        while i < n
            invariant
                i <= n,
                n <= want,
                start + n <= len,
                len == self.bytes@.len(),
                want == buf@.len(),
                buf@.len() == old(buf)@.len(),
                self.bytes@ == old(self).bytes@,
                forall|j: int| 0 <= j < i ==> buf@[j] == self.bytes@[start + j],
                forall|j: int| i <= j < want ==> buf@[j] == old(buf)@[j],
            decreases n - i,
        {
            buf[i] = self.bytes[start + i];
            i += 1;
        }
        self.cursor = (start + n) as u64;
        assert(buf@ =~= filled(old(buf)@, self.bytes@, start as nat, n as nat));
        Ok(n)
    }

    #[verifier::loop_isolation(false)]
    fn write(&mut self, buf: &[u8]) -> (r: Result<usize, HostFault>) {
        let want = buf.len();
        if self.cursor >= self.limit as u64 || want == 0 {
            return Ok(0);
        }
        let start: usize = self.cursor as usize;
        let n: usize = if self.limit - start < want { self.limit - start } else { want };
        let ghost before = self.bytes@;
        while self.bytes.len() < start
            invariant
                self.limit == old(self).limit,
                start < self.limit,
                before.len() <= self.bytes@.len(),
                before.len() <= start ==> self.bytes@.len() <= start,
                before.len() > start ==> self.bytes@ == before,
                forall|j: int| 0 <= j < before.len() ==> self.bytes@[j] == before[j],
                forall|j: int| before.len() <= j < self.bytes@.len() ==> self.bytes@[j] == 0u8,
            decreases start - self.bytes@.len(),
        {
            self.bytes.push(0u8);
        }
        let ghost padded = self.bytes@;
        let mut i: usize = 0;
        while i < n
            invariant
                i <= n,
                n <= want,
                want == buf@.len(),
                start + n <= self.limit,
                self.limit == old(self).limit,
                start <= padded.len(),
                self.bytes@.len() == if padded.len() < start + i { start + i } else { padded.len() as int },
                forall|j: int| 0 <= j < start ==> self.bytes@[j] == padded[j],
                forall|j: int| start <= j < start + i ==> self.bytes@[j] == buf@[j - start],
                forall|j: int| start + i <= j < padded.len() ==> self.bytes@[j] == padded[j],
            decreases n - i,
        {
            if start + i < self.bytes.len() {
                self.bytes[start + i] = buf[i];
            } else {
                self.bytes.push(buf[i]);
            }
            i += 1;
        }
        self.cursor = (start + n) as u64;
        proof {
            let after = overlay(before, start as nat, buf@.subrange(0, n as int));
            assert(self.bytes@.len() == after.len());
            assert forall|j: int| 0 <= j < after.len() implies self.bytes@[j] == after[j] by {
                if j < start || start + n <= j {
                    assert(self.bytes@[j] == padded[j]);
                }
            }
            assert(self.bytes@ =~= after);
        }
        Ok(n)
    }

    fn set_len(&mut self, len: u64) -> (r: Result<(), HostFault>) {
        if len > self.limit as u64 {
            return Err(HostFault::NoSpace);
        }
        let ghost before = self.bytes@;
        self.bytes.resize(len as usize, 0u8);
        assert(self.bytes@ =~= resized(before, len as nat));
        Ok(())
    }
}

} // verus!
