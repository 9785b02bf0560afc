//! The settings of a scanner that delivers blocks through a channel.

use crate::types::{BlockNumberOrTag, TimeSpan};
use vstd::prelude::*;
use vstd::string::*;

verus! {

/// Blocks per batch unless set otherwise.
pub const DEFAULT_BLOCKS_READ_PER_EPOCH: u64 = 1000;

/// Time between retries unless set otherwise.
pub const DEFAULT_RETRY_INTERVAL: TimeSpan = 12_000_000_000;

/// Confirmations unless set otherwise.
pub const DEFAULT_BLOCK_CONFIRMATIONS: u64 = 0;

/// Most retries at growing distances.
pub const BACK_OFF_MAX_RETRIES: u64 = 5;

/// How many blocks a reorg sends the scanner back unless set otherwise.
pub const DEFAULT_REORG_REWIND_DEPTH: u64 = 0;

/// Time between retries while the node syncs its state.
pub const STATE_SYNC_RETRY_INTERVAL: TimeSpan = 30_000_000_000;

/// Most retries while the node syncs its state.
pub const STATE_SYNC_MAX_RETRIES: u64 = 12;

/// There are no more blocks.
#[derive(Debug, Clone, Copy, PartialEq, Eq, Structural)]
pub struct ErrEOF;

/// There is nothing to do yet.
#[derive(Debug, Clone, Copy, PartialEq, Eq, Structural)]
pub struct ErrContinue;

impl ErrEOF {
    /// The error in words.
    pub fn to_text(&self) -> (words: String)
        ensures
            words@ == "end of block batch iterator"@,
    {
        "end of block batch iterator".to_string()
    }
}

impl ErrContinue {
    /// The error in words.
    pub fn to_text(&self) -> (words: String)
        ensures
            words@ == "continue"@,
    {
        "continue".to_string()
    }
}

/// The settings of a scanner; `F` is what is called for each batch.
#[derive(Debug)]
pub struct BlockScannerBuilder<F> {
    pub blocks_read_per_epoch: u64,
    pub start_height: BlockNumberOrTag,
    pub end_height: BlockNumberOrTag,
    /// Called for each batch, if there is one.
    pub on_blocks: Option<F>,
    pub reorg_rewind_depth: u64,
    pub retry_interval: TimeSpan,
    pub block_confirmations: u64,
}

/// A scanner; `P` is its node, `F` what is called for each batch.
#[derive(Debug)]
pub struct BlockScanner<P, F> {
    pub provider: P,
    /// How many blocks may wait in the channel.
    pub channel_capacity: usize,
    pub blocks_read_per_epoch: u64,
    pub start_height: BlockNumberOrTag,
    pub end_height: BlockNumberOrTag,
    pub on_blocks: Option<F>,
    pub is_end: bool,
    pub reorg_rewind_depth: u64,
    pub retry_interval: TimeSpan,
    pub block_confirmations: u64,
}

impl<F> BlockScannerBuilder<F> {
    /// The settings that hold unless set otherwise.
    pub fn new() -> (builder: Self)
        ensures
            builder == (BlockScannerBuilder::<F> {
                blocks_read_per_epoch: DEFAULT_BLOCKS_READ_PER_EPOCH,
                start_height: BlockNumberOrTag::Earliest,
                end_height: BlockNumberOrTag::Latest,
                on_blocks: None,
                reorg_rewind_depth: DEFAULT_REORG_REWIND_DEPTH,
                retry_interval: DEFAULT_RETRY_INTERVAL,
                block_confirmations: DEFAULT_BLOCK_CONFIRMATIONS,
            }),
    {
        BlockScannerBuilder {
            blocks_read_per_epoch: DEFAULT_BLOCKS_READ_PER_EPOCH,
            start_height: BlockNumberOrTag::Earliest,
            end_height: BlockNumberOrTag::Latest,
            on_blocks: None,
            reorg_rewind_depth: DEFAULT_REORG_REWIND_DEPTH,
            retry_interval: DEFAULT_RETRY_INTERVAL,
            block_confirmations: DEFAULT_BLOCK_CONFIRMATIONS,
        }
    }

    /// Sets how many blocks make a batch.
    pub fn with_blocks_read_per_epoch(&mut self, blocks_read_per_epoch: u64) -> (builder: &mut Self)
        ensures
            *builder == (BlockScannerBuilder { blocks_read_per_epoch, ..*old(self) }),
            *final(self) == *final(builder),
    {
        self.blocks_read_per_epoch = blocks_read_per_epoch;
        self
    }

    /// Sets the first block.
    pub fn with_start_height(&mut self, start_height: BlockNumberOrTag) -> (builder: &mut Self)
        ensures
            *builder == (BlockScannerBuilder { start_height, ..*old(self) }),
            *final(self) == *final(builder),
    {
        self.start_height = start_height;
        self
    }

    /// Sets the last block.
    pub fn with_end_height(&mut self, end_height: BlockNumberOrTag) -> (builder: &mut Self)
        ensures
            *builder == (BlockScannerBuilder { end_height, ..*old(self) }),
            *final(self) == *final(builder),
    {
        self.end_height = end_height;
        self
    }

    /// Sets what is called for each batch.
    pub fn with_on_blocks(&mut self, on_blocks: F) -> (builder: &mut Self)
        ensures
            *builder == (BlockScannerBuilder { on_blocks: Some(on_blocks), ..*old(self) }),
            *final(self) == *final(builder),
    {
        self.on_blocks = Some(on_blocks);
        self
    }

    /// Sets how many blocks a reorg sends the scanner back.
    pub fn with_reorg_rewind_depth(&mut self, reorg_rewind_depth: u64) -> (builder: &mut Self)
        ensures
            *builder == (BlockScannerBuilder { reorg_rewind_depth, ..*old(self) }),
            *final(self) == *final(builder),
    {
        self.reorg_rewind_depth = reorg_rewind_depth;
        self
    }

    /// Sets the time between retries.
    pub fn with_retry_interval(&mut self, retry_interval: TimeSpan) -> (builder: &mut Self)
        ensures
            *builder == (BlockScannerBuilder { retry_interval, ..*old(self) }),
            *final(self) == *final(builder),
    {
        self.retry_interval = retry_interval;
        self
    }

    /// Sets how many confirmations a block needs.
    pub fn with_block_confirmations(&mut self, block_confirmations: u64) -> (builder: &mut Self)
        ensures
            *builder == (BlockScannerBuilder { block_confirmations, ..*old(self) }),
            *final(self) == *final(builder),
    {
        self.block_confirmations = block_confirmations;
        self
    }

    /// The scanner with these settings and the given node.  A batch must fit in the channel, whose
    /// capacity is positive and of the machine's word size.
    pub fn connect_provider<P>(self, provider: P) -> (scanner: BlockScanner<P, F>)
        requires
            0 < self.blocks_read_per_epoch <= usize::MAX,
        ensures
            scanner == (BlockScanner {
                provider,
                channel_capacity: self.blocks_read_per_epoch as usize,
                is_end: false,
                blocks_read_per_epoch: self.blocks_read_per_epoch,
                start_height: self.start_height,
                end_height: self.end_height,
                on_blocks: self.on_blocks,
                reorg_rewind_depth: self.reorg_rewind_depth,
                retry_interval: self.retry_interval,
                block_confirmations: self.block_confirmations,
            }),
    {
        BlockScanner {
            provider,
            channel_capacity: self.blocks_read_per_epoch as usize,
            is_end: false,
            blocks_read_per_epoch: self.blocks_read_per_epoch,
            start_height: self.start_height,
            end_height: self.end_height,
            on_blocks: self.on_blocks,
            reorg_rewind_depth: self.reorg_rewind_depth,
            retry_interval: self.retry_interval,
            block_confirmations: self.block_confirmations,
        }
    }
}

} // verus!
