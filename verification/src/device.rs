//! The block device: block-granular reads and writes on a host file.
use vstd::prelude::*;
use crate::fault::{BlockFault, HostFault};
use crate::host::{available, overlay, resized, HostFile};

verus! {

/// The size of a block in bytes, the same for the device and for the
/// filesystem engine that uses it.
pub const BLOCK_SZ: usize = 512;

/// The byte offset at which block `id` starts.
pub open spec fn block_start(id: nat) -> nat {
    id * 512
}

/// The length of an image of `total_blocks` blocks.
pub open spec fn image_len_of(total_blocks: nat) -> nat {
    total_blocks * 512
}

/// Whether block `id` lies wholly inside `image`.
pub open spec fn holds_block(image: Seq<u8>, id: nat) -> bool {
    block_start(id) + 512 <= image.len()
}

/// Block `id` of `image`.
pub open spec fn block_at(image: Seq<u8>, id: nat) -> Seq<u8>
    recommends
        holds_block(image, id),
{
    image.subrange(block_start(id) as int, block_start(id) as int + 512)
}

/// `image` after `block` was written as block `id`.
pub open spec fn with_block(image: Seq<u8>, id: nat, block: Seq<u8>) -> Seq<u8> {
    overlay(image, block_start(id), block)
}

/// What a read of block `id` into a buffer of `buf_len` bytes comes to on a
/// modeled file that holds `image`.
pub open spec fn read_verdict(image: Seq<u8>, id: nat, buf_len: nat) -> Result<(), BlockFault> {
    if buf_len != 512 {
        Err(BlockFault::BadBufferLength)
    } else if block_start(id) > u64::MAX {
        Err(BlockFault::OffsetOverflow)
    } else if !holds_block(image, id) {
        Err(BlockFault::IncompleteBlock)
    } else {
        Ok(())
    }
}

/// What a write of a buffer of `buf_len` bytes as block `id` comes to on a
/// modeled file that cannot grow beyond `limit`.
pub open spec fn write_verdict(limit: nat, id: nat, buf_len: nat) -> Result<(), BlockFault> {
    if buf_len != 512 {
        Err(BlockFault::BadBufferLength)
    } else if block_start(id) > u64::MAX {
        Err(BlockFault::OffsetOverflow)
    } else if block_start(id) + 512 > limit {
        Err(BlockFault::IncompleteBlock)
    } else {
        Ok(())
    }
}

/// The image that a write of `buf` as block `id` leaves on a modeled file.
/// A write that is refused before it reaches the host leaves the image as
/// it was; one that the limit cuts short leaves the part that fitted.
pub open spec fn image_after_write(image: Seq<u8>, limit: nat, id: nat, buf: Seq<u8>) -> Seq<u8> {
    if buf.len() != 512 || block_start(id) > u64::MAX {
        image
    } else {
        overlay(
            image,
            block_start(id),
            buf.subrange(0, available(limit, block_start(id), 512) as int),
        )
    }
}

/// The byte offset of block `block_id`, or `None` where it does not fit in
/// 64 bits.
pub fn block_offset(block_id: usize) -> (offset: Option<u64>)
    ensures
        match offset {
            Some(o) => o == block_start(block_id as nat),
            None => block_start(block_id as nat) > u64::MAX,
        },
{
    let id: u64 = block_id as u64;
    if id > u64::MAX / 512 {
        None
    } else {
        Some(id * 512)
    }
}

/// The length in bytes of an image of `total_blocks` blocks.
pub fn image_len(total_blocks: u32) -> (len: u64)
    ensures
        len == image_len_of(total_blocks as nat),
{
    total_blocks as u64 * 512
}

/// Judges what the host reported of a transfer of one block: only a
/// transfer of exactly one block counts.
pub fn complete_block(transferred: Result<usize, HostFault>) -> (r: Result<(), BlockFault>)
    ensures
        r == match transferred {
            Ok(n) => if n == 512 {
                Ok::<(), BlockFault>(())
            } else {
                Err(BlockFault::IncompleteBlock)
            },
            Err(_) => Err(BlockFault::TransferFailed),
        },
{
    match transferred {
        Ok(n) => if n == BLOCK_SZ {
            Ok(())
        } else {
            Err(BlockFault::IncompleteBlock)
        },
        Err(_) => Err(BlockFault::TransferFailed),
    }
}

/// A block device on a host file. It owns the file and keeps no block in
/// memory: every read and write goes to the file.
pub struct BlockFile<F: HostFile> {
    file: F,
}

impl<F: HostFile> BlockFile<F> {
    /// Whether the proofs can see the image (see [`HostFile::modeled`]).
    pub closed spec fn modeled(&self) -> bool {
        self.file.modeled()
    }

    /// The bytes of the image.
    pub closed spec fn image(&self) -> Seq<u8> {
        self.file.contents()
    }

    /// The length beyond which the image cannot grow.
    pub closed spec fn limit(&self) -> nat {
        self.file.limit()
    }

    /// A device on `file` as it stands.
    pub fn new(file: F) -> (dev: BlockFile<F>)
        ensures
            dev.modeled() == file.modeled(),
            dev.image() == file.contents(),
            dev.limit() == file.limit(),
    {
        BlockFile { file }
    }

    /// A device on `file` after the file was forced to the length of
    /// `total_blocks` blocks, whatever its length was before. Bytes beyond
    /// the new length are lost; bytes that the file gains are zero.
    pub fn provision(file: F, total_blocks: u32) -> (r: Result<BlockFile<F>, BlockFault>)
        ensures
            r matches Err(e) ==> e == BlockFault::ResizeFailed,
            file.modeled() ==> {
                &&& r is Ok <==> image_len_of(total_blocks as nat) <= file.limit()
                &&& r matches Ok(dev) ==> {
                    &&& dev.modeled()
                    &&& dev.limit() == file.limit()
                    &&& dev.image().len() == image_len_of(total_blocks as nat)
                    &&& dev.image() == resized(file.contents(), image_len_of(total_blocks as nat))
                }
            },
    {
        let mut file = file;
        match file.set_len(image_len(total_blocks)) {
            Ok(()) => Ok(BlockFile { file }),
            Err(_) => Err(BlockFault::ResizeFailed),
        }
    }

    /// The host file.
    pub fn file(&self) -> (file: &F)
        ensures
            file.modeled() == self.modeled(),
            file.contents() == self.image(),
            file.limit() == self.limit(),
    {
        &self.file
    }

    /// Gives the host file back.
    pub fn into_file(self) -> (file: F)
        ensures
            file.modeled() == self.modeled(),
            file.contents() == self.image(),
            file.limit() == self.limit(),
    {
        self.file
    }

    /// Reads block `block_id` into `buf`, which must hold exactly one block.
    ///
    /// A buffer of another length is refused before the host is touched.
    /// Anything but a transfer of one whole block is a fault: a short read
    /// means that the image is cut off or damaged.
    pub fn read_block(&mut self, block_id: usize, buf: &mut [u8]) -> (r: Result<(), BlockFault>)
        ensures
            final(buf)@.len() == old(buf)@.len(),
            final(self).modeled() == old(self).modeled(),
            r == Err::<(), BlockFault>(BlockFault::BadBufferLength) <==> old(buf)@.len() != 512,
            r == Err::<(), BlockFault>(BlockFault::OffsetOverflow) <==> old(buf)@.len() == 512
                && block_start(block_id as nat) > u64::MAX,
            r == Err::<(), BlockFault>(BlockFault::BadBufferLength) || r == Err::<(), BlockFault>(
                BlockFault::OffsetOverflow,
            ) ==> final(buf)@ == old(buf)@ && *final(self) == *old(self),
            !(r is Err && r->Err_0 == BlockFault::ResizeFailed),
            old(self).modeled() ==> {
                &&& final(self).image() == old(self).image()
                &&& final(self).limit() == old(self).limit()
                &&& r == read_verdict(old(self).image(), block_id as nat, old(buf)@.len())
                &&& r is Ok ==> final(buf)@ == block_at(old(self).image(), block_id as nat)
            },
    {
        if buf.len() != BLOCK_SZ {
            return Err(BlockFault::BadBufferLength);
        }
        let offset = match block_offset(block_id) {
            Some(offset) => offset,
            None => {
                return Err(BlockFault::OffsetOverflow);
            },
        };
        if self.file.seek_to(offset).is_err() {
            return Err(BlockFault::SeekFailed);
        }
        let transferred = self.file.read(buf);
        proof {
            if old(self).modeled() && transferred == Ok::<usize, HostFault>(512) {
                assert(buf@ =~= block_at(old(self).image(), block_id as nat));
            }
        }
        complete_block(transferred)
    }

    /// Writes `buf`, which must hold exactly one block, as block `block_id`.
    ///
    /// A buffer of another length is refused before the host is touched.
    /// Anything but a transfer of one whole block is a fault. A block past
    /// the end of the image makes the image grow. After a write that went
    /// well the image holds the block whole, so that a read of it gives
    /// `buf` back.
    pub fn write_block(&mut self, block_id: usize, buf: &[u8]) -> (r: Result<(), BlockFault>)
        ensures
            final(self).modeled() == old(self).modeled(),
            r == Err::<(), BlockFault>(BlockFault::BadBufferLength) <==> buf@.len() != 512,
            r == Err::<(), BlockFault>(BlockFault::OffsetOverflow) <==> buf@.len() == 512
                && block_start(block_id as nat) > u64::MAX,
            r == Err::<(), BlockFault>(BlockFault::BadBufferLength) || r == Err::<(), BlockFault>(
                BlockFault::OffsetOverflow,
            ) ==> *final(self) == *old(self),
            !(r is Err && r->Err_0 == BlockFault::ResizeFailed),
            old(self).modeled() ==> {
                &&& final(self).limit() == old(self).limit()
                &&& r == write_verdict(old(self).limit(), block_id as nat, buf@.len())
                &&& final(self).image() == image_after_write(
                    old(self).image(),
                    old(self).limit(),
                    block_id as nat,
                    buf@,
                )
                &&& r is Ok ==> final(self).image() == with_block(
                    old(self).image(),
                    block_id as nat,
                    buf@,
                )
                &&& r is Ok ==> holds_block(final(self).image(), block_id as nat)
                &&& r is Ok ==> block_at(final(self).image(), block_id as nat) == buf@
            },
    {
        if buf.len() != BLOCK_SZ {
            return Err(BlockFault::BadBufferLength);
        }
        let offset = match block_offset(block_id) {
            Some(offset) => offset,
            None => {
                return Err(BlockFault::OffsetOverflow);
            },
        };
        if self.file.seek_to(offset).is_err() {
            return Err(BlockFault::SeekFailed);
        }
        let transferred = self.file.write(buf);
        proof {
            if old(self).modeled() && transferred == Ok::<usize, HostFault>(512) {
                assert(buf@.subrange(0, 512) =~= buf@);
                lemma_read_after_write(old(self).image(), block_id as nat, buf@);
            }
        }
        complete_block(transferred)
    }
}

/// A block that was written is the block that is read: after block `id` of
/// any image was overwritten with `block`, the image holds block `id`
/// whole, and it is `block`.
pub proof fn lemma_read_after_write(image: Seq<u8>, id: nat, block: Seq<u8>)
    requires
        block.len() == 512,
    ensures
        holds_block(with_block(image, id, block), id),
        block_at(with_block(image, id, block), id) == block,
{
    assert(block_at(with_block(image, id, block), id) =~= block);
}

/// A write touches one block only: every other block that the image held
/// whole is as it was.
pub proof fn lemma_write_keeps_other_blocks(image: Seq<u8>, id: nat, other: nat, block: Seq<u8>)
    requires
        block.len() == 512,
        other != id,
        holds_block(image, other),
    ensures
        holds_block(with_block(image, id, block), other),
        block_at(with_block(image, id, block), other) == block_at(image, other),
{
    assert(block_at(with_block(image, id, block), other) =~= block_at(image, other));
}

/// On a modeled file, a write that succeeds is followed by a read of the
/// same block that succeeds.
pub proof fn lemma_written_block_is_readable(image: Seq<u8>, limit: nat, id: nat, block: Seq<u8>)
    requires
        write_verdict(limit, id, block.len()) is Ok,
    ensures
        image_after_write(image, limit, id, block) == with_block(image, id, block),
        read_verdict(image_after_write(image, limit, id, block), id, 512) is Ok,
        block_at(image_after_write(image, limit, id, block), id) == block,
{
    assert(block.subrange(0, 512) =~= block);
    lemma_read_after_write(image, id, block);
}

/// Provisioning fixes the length of the image and nothing else: the length
/// after it is that of `total_blocks` whole blocks whatever it was before,
/// what the image keeps of its old bytes stays where it was, and what it
/// gains is zero.
pub proof fn lemma_resized_image(before: Seq<u8>, total_blocks: nat)
    ensures
        resized(before, image_len_of(total_blocks)).len() == total_blocks * 512,
        resized(before, image_len_of(total_blocks)).len() % 512 == 0,
        forall|id: nat| id < total_blocks ==> holds_block(
            resized(before, image_len_of(total_blocks)),
            id,
        ),
        forall|i: int|
            0 <= i < before.len() && i < total_blocks * 512 ==> resized(
                before,
                image_len_of(total_blocks),
            )[i] == before[i],
        forall|i: int|
            before.len() <= i < total_blocks * 512 ==> resized(before, image_len_of(total_blocks))[i]
                == 0u8,
{
    assert(total_blocks * 512 % 512 == 0) by (nonlinear_arith);
    assert forall|id: nat| id < total_blocks implies holds_block(
        resized(before, image_len_of(total_blocks)),
        id,
    ) by {
        assert(id * 512 + 512 <= total_blocks * 512) by (nonlinear_arith)
            requires
                id < total_blocks,
        ;
    }
}

} // verus!
