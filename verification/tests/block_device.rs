use easy_fs_packer::{
    block_offset, complete_block, image_len, BlockFault, BlockFile, HostFault, HostFile, MemFile,
    BLOCK_SZ,
};

const MIB: usize = 1024 * 1024;

fn pattern(seed: u8) -> Vec<u8> {
    let mut block: Vec<u8> = Vec::new();
    let mut i: usize = 0;
    while i < BLOCK_SZ {
        block.push(seed.wrapping_add((i % 251) as u8));
        i += 1;
    }
    block
}

fn device(total_blocks: u32) -> BlockFile<MemFile> {
    BlockFile::provision(MemFile::new(8 * MIB), total_blocks).unwrap()
}

/// A host file that follows a script: it can refuse to seek, fail a
/// transfer, or transfer a fixed number of bytes.
struct ScriptedFile {
    seek_fails: bool,
    transfer: Result<usize, HostFault>,
    resize_fails: bool,
    seeks: Vec<u64>,
    transfers: usize,
}

impl ScriptedFile {
    fn new(transfer: Result<usize, HostFault>) -> ScriptedFile {
        ScriptedFile { seek_fails: false, transfer, resize_fails: false, seeks: Vec::new(), transfers: 0 }
    }
}

impl HostFile for ScriptedFile {
    fn seek_to(&mut self, pos: u64) -> Result<(), HostFault> {
        self.seeks.push(pos);
        if self.seek_fails {
            Err(HostFault::Io)
        } else {
            Ok(())
        }
    }

    fn read(&mut self, _buf: &mut [u8]) -> Result<usize, HostFault> {
        self.transfers += 1;
        self.transfer
    }

    fn write(&mut self, _buf: &[u8]) -> Result<usize, HostFault> {
        self.transfers += 1;
        self.transfer
    }

    fn set_len(&mut self, _len: u64) -> Result<(), HostFault> {
        if self.resize_fails {
            Err(HostFault::Io)
        } else {
            Ok(())
        }
    }
}

#[test]
fn block_size_is_512() {
    assert_eq!(BLOCK_SZ, 512);
}

#[test]
fn block_offset_is_id_times_512() {
    assert_eq!(block_offset(0), Some(0));
    assert_eq!(block_offset(1), Some(512));
    assert_eq!(block_offset(3), Some(1536));
    assert_eq!(block_offset(8191), Some(4193792));
}

#[test]
fn block_offset_refuses_what_does_not_fit() {
    let last: u64 = u64::MAX / 512;
    if (usize::MAX as u64) > last {
        assert_eq!(block_offset(last as usize), Some(last * 512));
        assert_eq!(block_offset(last as usize + 1), None);
        assert_eq!(block_offset(usize::MAX), None);
    }
}

#[test]
fn image_len_is_blocks_times_512() {
    assert_eq!(image_len(0), 0);
    assert_eq!(image_len(1), 512);
    assert_eq!(image_len(4096), 2097152);
    assert_eq!(image_len(8192), 4194304);
    assert_eq!(image_len(u32::MAX), 2199023255040);
}

#[test]
fn complete_block_accepts_one_whole_block_only() {
    assert_eq!(complete_block(Ok(512)), Ok(()));
    assert_eq!(complete_block(Ok(0)), Err(BlockFault::IncompleteBlock));
    assert_eq!(complete_block(Ok(511)), Err(BlockFault::IncompleteBlock));
    assert_eq!(complete_block(Ok(513)), Err(BlockFault::IncompleteBlock));
    assert_eq!(complete_block(Err(HostFault::Io)), Err(BlockFault::TransferFailed));
    assert_eq!(complete_block(Err(HostFault::NoSpace)), Err(BlockFault::TransferFailed));
}

#[test]
fn read_after_write_returns_the_block() {
    let mut dev = device(4096);
    let ids: [usize; 5] = [0, 1, 7, 2048, 4095];
    for id in ids {
        let block = pattern(id as u8);
        assert_eq!(dev.write_block(id, &block), Ok(()));
        let mut back = [0u8; 512];
        assert_eq!(dev.read_block(id, &mut back), Ok(()));
        assert_eq!(&back[..], &block[..]);
    }
}

#[test]
fn write_lands_at_the_offset_of_the_block() {
    let mut dev = device(8);
    let block = pattern(9);
    assert_eq!(dev.write_block(3, &block), Ok(()));
    let file = dev.into_file();
    assert_eq!(file.len(), 8 * 512);
    assert_eq!(&file.bytes()[1536..2048], &block[..]);
    assert!(file.bytes()[..1536].iter().all(|b| *b == 0));
    assert!(file.bytes()[2048..].iter().all(|b| *b == 0));
}

#[test]
fn write_keeps_the_other_blocks() {
    let mut dev = device(4);
    let first = pattern(1);
    let second = pattern(2);
    let third = pattern(3);
    assert_eq!(dev.write_block(0, &first), Ok(()));
    assert_eq!(dev.write_block(1, &second), Ok(()));
    assert_eq!(dev.write_block(2, &third), Ok(()));
    let again = pattern(77);
    assert_eq!(dev.write_block(1, &again), Ok(()));
    let mut back = [0u8; 512];
    assert_eq!(dev.read_block(0, &mut back), Ok(()));
    assert_eq!(&back[..], &first[..]);
    assert_eq!(dev.read_block(1, &mut back), Ok(()));
    assert_eq!(&back[..], &again[..]);
    assert_eq!(dev.read_block(2, &mut back), Ok(()));
    assert_eq!(&back[..], &third[..]);
}

#[test]
fn read_refuses_a_buffer_that_is_not_one_block() {
    let mut dev = device(4);
    let lens: [usize; 5] = [0, 1, 511, 513, 1024];
    for len in lens {
        let mut buf = vec![0xaau8; len];
        assert_eq!(dev.read_block(0, &mut buf), Err(BlockFault::BadBufferLength));
        assert!(buf.iter().all(|b| *b == 0xaa));
    }
}

#[test]
fn write_refuses_a_buffer_that_is_not_one_block() {
    let mut dev = device(4);
    let lens: [usize; 5] = [0, 1, 511, 513, 1024];
    for len in lens {
        let buf = vec![0xaau8; len];
        assert_eq!(dev.write_block(0, &buf), Err(BlockFault::BadBufferLength));
    }
    let file = dev.into_file();
    assert_eq!(file.len(), 4 * 512);
    assert!(file.bytes().iter().all(|b| *b == 0));
}

#[test]
fn a_refused_buffer_never_reaches_the_host() {
    let mut dev = BlockFile::new(ScriptedFile::new(Ok(512)));
    let mut short = [0u8; 100];
    assert_eq!(dev.read_block(0, &mut short), Err(BlockFault::BadBufferLength));
    assert_eq!(dev.write_block(0, &short), Err(BlockFault::BadBufferLength));
    let file = dev.into_file();
    assert!(file.seeks.is_empty());
    assert_eq!(file.transfers, 0);
}

#[test]
fn block_id_beyond_the_offsets_is_refused() {
    if (usize::MAX as u64) > u64::MAX / 512 {
        let mut dev = BlockFile::new(ScriptedFile::new(Ok(512)));
        let mut buf = [0u8; 512];
        assert_eq!(dev.read_block(usize::MAX, &mut buf), Err(BlockFault::OffsetOverflow));
        assert_eq!(dev.write_block(usize::MAX, &buf), Err(BlockFault::OffsetOverflow));
        let file = dev.into_file();
        assert!(file.seeks.is_empty());
        assert_eq!(file.transfers, 0);
    }
}

#[test]
fn the_host_is_asked_for_the_offset_of_the_block() {
    let mut dev = BlockFile::new(ScriptedFile::new(Ok(512)));
    let mut buf = [0u8; 512];
    assert_eq!(dev.read_block(5, &mut buf), Ok(()));
    assert_eq!(dev.write_block(4095, &buf), Ok(()));
    let file = dev.into_file();
    assert_eq!(file.seeks, vec![2560u64, 2096640u64]);
    assert_eq!(file.transfers, 2);
}

#[test]
fn seek_failure_is_a_fault() {
    let mut file = ScriptedFile::new(Ok(512));
    file.seek_fails = true;
    let mut dev = BlockFile::new(file);
    let mut buf = [0u8; 512];
    assert_eq!(dev.read_block(1, &mut buf), Err(BlockFault::SeekFailed));
    assert_eq!(dev.write_block(1, &buf), Err(BlockFault::SeekFailed));
    assert_eq!(dev.into_file().transfers, 0);
}

#[test]
fn transfer_failure_is_a_fault() {
    let mut dev = BlockFile::new(ScriptedFile::new(Err(HostFault::Io)));
    let mut buf = [0u8; 512];
    assert_eq!(dev.read_block(1, &mut buf), Err(BlockFault::TransferFailed));
    assert_eq!(dev.write_block(1, &buf), Err(BlockFault::TransferFailed));
}

#[test]
fn short_transfer_is_a_fault() {
    let mut dev = BlockFile::new(ScriptedFile::new(Ok(188)));
    let mut buf = [0u8; 512];
    assert_eq!(dev.read_block(1, &mut buf), Err(BlockFault::IncompleteBlock));
    assert_eq!(dev.write_block(1, &buf), Err(BlockFault::IncompleteBlock));
}

#[test]
fn read_past_the_end_is_incomplete() {
    let mut dev = device(4);
    let mut buf = [0u8; 512];
    assert_eq!(dev.read_block(3, &mut buf), Ok(()));
    assert_eq!(dev.read_block(4, &mut buf), Err(BlockFault::IncompleteBlock));
    assert_eq!(dev.read_block(4000, &mut buf), Err(BlockFault::IncompleteBlock));
}

#[test]
fn read_of_a_cut_off_image_is_incomplete() {
    let mut bytes = pattern(5);
    bytes.extend_from_slice(&pattern(6)[..188]);
    let mut dev = BlockFile::new(MemFile::from_bytes(bytes, MIB));
    let mut buf = [0u8; 512];
    assert_eq!(dev.read_block(0, &mut buf), Ok(()));
    assert_eq!(&buf[..], &pattern(5)[..]);
    assert_eq!(dev.read_block(1, &mut buf), Err(BlockFault::IncompleteBlock));
}

#[test]
fn write_past_the_end_grows_the_image() {
    let mut dev = device(2);
    let block = pattern(4);
    assert_eq!(dev.write_block(5, &block), Ok(()));
    let mut back = [1u8; 512];
    assert_eq!(dev.read_block(5, &mut back), Ok(()));
    assert_eq!(&back[..], &block[..]);
    assert_eq!(dev.read_block(3, &mut back), Ok(()));
    assert!(back.iter().all(|b| *b == 0));
    assert_eq!(dev.into_file().len(), 6 * 512);
}

#[test]
fn write_cut_short_by_a_full_host_is_incomplete() {
    let mut dev = BlockFile::new(MemFile::new(2 * 512 + 100));
    let block = pattern(8);
    assert_eq!(dev.write_block(1, &block), Ok(()));
    assert_eq!(dev.write_block(2, &block), Err(BlockFault::IncompleteBlock));
    assert_eq!(dev.write_block(3, &block), Err(BlockFault::IncompleteBlock));
    let file = dev.into_file();
    assert_eq!(file.len(), 2 * 512 + 100);
    assert_eq!(&file.bytes()[1024..], &block[..100]);
}

#[test]
fn provision_gives_the_exact_length_when_growing() {
    let dev = BlockFile::provision(MemFile::new(8 * MIB), 4096).unwrap();
    let file = dev.into_file();
    assert_eq!(file.len(), 4096 * 512);
    assert!(file.bytes().iter().all(|b| *b == 0));
}

#[test]
fn provision_gives_the_exact_length_when_shrinking() {
    let old: Vec<u8> = vec![7u8; 10 * 512 + 3];
    let dev = BlockFile::provision(MemFile::from_bytes(old, MIB), 4).unwrap();
    let file = dev.into_file();
    assert_eq!(file.len(), 4 * 512);
    assert!(file.bytes().iter().all(|b| *b == 7));
}

#[test]
fn provision_keeps_the_old_bytes_and_adds_zeros() {
    let old: Vec<u8> = vec![7u8; 700];
    let dev = BlockFile::provision(MemFile::from_bytes(old, MIB), 2).unwrap();
    let file = dev.into_file();
    assert_eq!(file.len(), 1024);
    assert!(file.bytes()[..700].iter().all(|b| *b == 7));
    assert!(file.bytes()[700..].iter().all(|b| *b == 0));
}

#[test]
fn provision_to_the_same_length_changes_nothing() {
    let old = pattern(3);
    let dev = BlockFile::provision(MemFile::from_bytes(old, MIB), 1).unwrap();
    assert_eq!(&dev.file().bytes()[..], &pattern(3)[..]);
}

#[test]
fn provision_to_no_blocks_empties_the_image() {
    let dev = BlockFile::provision(MemFile::from_bytes(pattern(3), MIB), 0).unwrap();
    assert_eq!(dev.file().len(), 0);
}

#[test]
fn provision_fails_where_the_host_cannot_size_the_image() {
    let refused = BlockFile::provision(MemFile::new(4 * 512 - 1), 4);
    assert_eq!(refused.err(), Some(BlockFault::ResizeFailed));
    let fits = BlockFile::provision(MemFile::new(4 * 512), 4);
    assert!(fits.is_ok());
    let mut file = ScriptedFile::new(Ok(512));
    file.resize_fails = true;
    assert_eq!(BlockFile::provision(file, 4).err(), Some(BlockFault::ResizeFailed));
}

#[test]
fn mem_file_reads_what_lies_before_its_end() {
    let mut file = MemFile::from_bytes(vec![1, 2, 3, 4, 5], 16);
    let mut buf = [9u8; 4];
    assert_eq!(file.seek_to(3), Ok(()));
    assert_eq!(file.read(&mut buf), Ok(2));
    assert_eq!(buf, [4, 5, 9, 9]);
    assert_eq!(file.read(&mut buf), Ok(0));
    assert_eq!(file.seek_to(100), Ok(()));
    assert_eq!(file.read(&mut buf), Ok(0));
    assert_eq!(buf, [4, 5, 9, 9]);
}

#[test]
fn mem_file_write_fills_the_gap_with_zeros() {
    let mut file = MemFile::from_bytes(vec![1, 2], 16);
    assert_eq!(file.seek_to(4), Ok(()));
    assert_eq!(file.write(&[7, 8]), Ok(2));
    assert_eq!(file.bytes(), &vec![1, 2, 0, 0, 7, 8]);
    assert_eq!(file.write(&[9]), Ok(1));
    assert_eq!(file.bytes(), &vec![1, 2, 0, 0, 7, 8, 9]);
    assert_eq!(file.seek_to(1), Ok(()));
    assert_eq!(file.write(&[5, 6]), Ok(2));
    assert_eq!(file.bytes(), &vec![1, 5, 6, 0, 7, 8, 9]);
}

#[test]
fn mem_file_write_of_nothing_changes_nothing() {
    let mut file = MemFile::from_bytes(vec![1, 2], 16);
    assert_eq!(file.seek_to(10), Ok(()));
    assert_eq!(file.write(&[]), Ok(0));
    assert_eq!(file.bytes(), &vec![1, 2]);
}

#[test]
fn mem_file_takes_what_fits_below_its_limit() {
    let mut file = MemFile::new(4);
    assert_eq!(file.seek_to(2), Ok(()));
    assert_eq!(file.write(&[1, 2, 3]), Ok(2));
    assert_eq!(file.bytes(), &vec![0, 0, 1, 2]);
    assert_eq!(file.write(&[3]), Ok(0));
    assert_eq!(file.len(), 4);
}

#[test]
fn mem_file_set_len_cuts_and_grows() {
    let mut file = MemFile::from_bytes(vec![1, 2, 3], 8);
    assert_eq!(file.set_len(2), Ok(()));
    assert_eq!(file.bytes(), &vec![1, 2]);
    assert_eq!(file.set_len(4), Ok(()));
    assert_eq!(file.bytes(), &vec![1, 2, 0, 0]);
    assert_eq!(file.set_len(9), Err(HostFault::NoSpace));
    assert_eq!(file.bytes(), &vec![1, 2, 0, 0]);
    assert_eq!(file.set_len(8), Ok(()));
    assert_eq!(file.len(), 8);
}

#[test]
fn block_fault_messages() {
    assert_eq!(BlockFault::SeekFailed.message(), "Error when seeking!");
    assert_eq!(BlockFault::IncompleteBlock.message(), "Not a complete block!");
    assert_eq!(BlockFault::BadBufferLength.message(), "Not a block-sized buffer!");
    assert_eq!(BlockFault::OffsetOverflow.message(), "Block id out of range!");
    assert_eq!(BlockFault::TransferFailed.message(), "Error when transferring a block!");
    assert_eq!(BlockFault::ResizeFailed.message(), "Error when sizing the image!");
}
