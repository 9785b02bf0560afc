//! A scanner of one block range, bounded by heights that are checked when it connects.

#[allow(unused_imports)]
use crate::block_scanner_new;
use crate::block_scanner_new::{rewind_height, BlockHashAndNumber};
#[allow(unused_imports)]
use crate::text;
use crate::text::{push_decimal, push_height};
use crate::types::{BlockHash, BlockNumHash, BlockNumber, BlockNumberOrTag, TimeSpan};
use std::ops::Range;
use vstd::prelude::*;
use vstd::string::*;

verus! {

/// Blocks per batch unless set otherwise.
pub const DEFAULT_BLOCKS_READ_PER_EPOCH: usize = 1000;

/// Time between retries unless set otherwise.
pub const DEFAULT_RETRY_INTERVAL: TimeSpan = 12_000_000_000;

/// Confirmations unless set otherwise.
pub const DEFAULT_BLOCK_CONFIRMATIONS: u64 = 0;

/// How many blocks a reorg sends the scanner back unless set otherwise.
pub const DEFAULT_REORG_REWIND_DEPTH: u64 = 0;

/// What can go wrong.  A failure of the node is carried as the text that describes it.
#[derive(Debug)]
pub enum BlockScannerError {
    ErrEOF,
    ErrContinue,
    TerminalError(u64),
    EndHeightSmallerThanStartHeight(BlockNumberOrTag, BlockNumberOrTag),
    NonExistentStartHeader(BlockNumberOrTag),
    NonExistentEndHeader(BlockNumberOrTag),
    Rpc(String),
}

impl BlockScannerError {
    /// The error in words.
    pub open spec fn text(self) -> Seq<char> {
        match self {
            BlockScannerError::ErrEOF => "end of block batch iterator"@,
            BlockScannerError::ErrContinue => "continue"@,
            BlockScannerError::TerminalError(height) => "terminal error at block height "@
                + text::numeral(height as nat, 10),
            BlockScannerError::EndHeightSmallerThanStartHeight(start, end) => "start height ("@
                + text::height_text(start) + ") > end height ("@ + text::height_text(end) + ")"@,
            BlockScannerError::NonExistentStartHeader(height) =>
                "failed to get start header, height: "@ + text::height_text(height),
            BlockScannerError::NonExistentEndHeader(height) =>
                "failed to get end header, height: "@ + text::height_text(height),
            BlockScannerError::Rpc(cause) => cause@,
        }
    }

    /// The error in words.
    pub fn to_text(&self) -> (words: String)
        ensures
            words@ == self.text(),
    {
        let mut words = String::new();
        match self {
            BlockScannerError::ErrEOF => words.append("end of block batch iterator"),
            BlockScannerError::ErrContinue => words.append("continue"),
            BlockScannerError::TerminalError(height) => {
                words.append("terminal error at block height ");
                push_decimal(&mut words, *height);
            },
            BlockScannerError::EndHeightSmallerThanStartHeight(start, end) => {
                words.append("start height (");
                push_height(&mut words, *start);
                words.append(") > end height (");
                push_height(&mut words, *end);
                words.append(")");
            },
            BlockScannerError::NonExistentStartHeader(height) => {
                words.append("failed to get start header, height: ");
                push_height(&mut words, *height);
            },
            BlockScannerError::NonExistentEndHeader(height) => {
                words.append("failed to get end header, height: ");
                push_height(&mut words, *height);
            },
            BlockScannerError::Rpc(cause) => words.append(cause.as_str()),
        }
        assert(words@ =~= self.text());
        words
    }
}

/// Why a scanner did not start.
#[derive(Debug)]
pub enum StartError {
    BlockScannerError(BlockScannerError),
    /// An item could not be sent; the text describes why.
    SendError(String),
}

impl From<BlockScannerError> for StartError {
    fn from(value: BlockScannerError) -> (error: StartError) {
        StartError::BlockScannerError(value)
    }
}

impl vstd::std_specs::convert::FromSpecImpl<BlockScannerError> for StartError {
    open spec fn obeys_from_spec() -> bool {
        true
    }

    open spec fn from_spec(value: BlockScannerError) -> StartError {
        StartError::BlockScannerError(value)
    }
}

impl StartError {
    /// The error in words.
    pub open spec fn text(self) -> Seq<char> {
        match self {
            StartError::BlockScannerError(error) => error.text(),
            StartError::SendError(cause) => cause@,
        }
    }

    /// The error in words.
    pub fn to_text(&self) -> (words: String)
        ensures
            words@ == self.text(),
    {
        match self {
            StartError::BlockScannerError(error) => error.to_text(),
            StartError::SendError(cause) => cause.clone(),
        }
    }
}

/// The settings of a scanner; `F` is what is called for each block.
#[derive(Debug)]
pub struct BlockScannerBuilder<F> {
    pub blocks_read_per_epoch: usize,
    pub start_height: BlockNumberOrTag,
    pub end_height: Option<BlockNumberOrTag>,
    /// Called for each block, if there is one.
    pub on_blocks: Option<F>,
    pub reorg_rewind_depth: u64,
    pub retry_interval: TimeSpan,
    pub block_confirmations: u64,
}

/// The settings that hold unless set otherwise.
pub open spec fn default_builder<F>() -> BlockScannerBuilder<F> {
    BlockScannerBuilder {
        blocks_read_per_epoch: DEFAULT_BLOCKS_READ_PER_EPOCH,
        start_height: BlockNumberOrTag::Latest,
        end_height: None,
        on_blocks: None,
        reorg_rewind_depth: DEFAULT_REORG_REWIND_DEPTH,
        retry_interval: DEFAULT_RETRY_INTERVAL,
        block_confirmations: DEFAULT_BLOCK_CONFIRMATIONS,
    }
}

impl<F> Default for BlockScannerBuilder<F> {
    fn default() -> (builder: Self)
        ensures
            builder == default_builder::<F>(),
    {
        Self::new()
    }
}

impl<F> BlockScannerBuilder<F> {
    /// The settings that hold unless set otherwise.
    #[must_use]
    pub fn new() -> (builder: Self)
        ensures
            builder == default_builder::<F>(),
    {
        BlockScannerBuilder {
            blocks_read_per_epoch: DEFAULT_BLOCKS_READ_PER_EPOCH,
            start_height: BlockNumberOrTag::Latest,
            end_height: None,
            on_blocks: None,
            reorg_rewind_depth: DEFAULT_REORG_REWIND_DEPTH,
            retry_interval: DEFAULT_RETRY_INTERVAL,
            block_confirmations: DEFAULT_BLOCK_CONFIRMATIONS,
        }
    }

    /// Sets how many blocks make a batch.
    pub fn with_blocks_read_per_epoch(&mut self, blocks_read_per_epoch: usize) -> (builder:
        &mut Self)
        ensures
            *builder == (BlockScannerBuilder { blocks_read_per_epoch, ..*old(self) }),
            *final(self) == *final(builder),
    {
        self.blocks_read_per_epoch = blocks_read_per_epoch;
        self
    }

    /// Sets the first block.
    pub fn with_start_height(&mut self, start_height: BlockNumberOrTag) -> (builder: &mut Self)
        ensures
            *builder == (BlockScannerBuilder { start_height, ..*old(self) }),
            *final(self) == *final(builder),
    {
        self.start_height = start_height;
        self
    }

    /// Sets the last block.
    pub fn with_end_height(&mut self, end_height: BlockNumberOrTag) -> (builder: &mut Self)
        ensures
            *builder == (BlockScannerBuilder { end_height: Some(end_height), ..*old(self) }),
            *final(self) == *final(builder),
    {
        self.end_height = Some(end_height);
        self
    }

    /// Sets what is called for each block.
    pub fn with_on_blocks(&mut self, on_blocks: F) -> (builder: &mut Self)
        ensures
            *builder == (BlockScannerBuilder { on_blocks: Some(on_blocks), ..*old(self) }),
            *final(self) == *final(builder),
    {
        self.on_blocks = Some(on_blocks);
        self
    }

    /// Sets how many blocks a reorg sends the scanner back.
    pub fn with_reorg_rewind_depth(&mut self, reorg_rewind_depth: u64) -> (builder: &mut Self)
        ensures
            *builder == (BlockScannerBuilder { reorg_rewind_depth, ..*old(self) }),
            *final(self) == *final(builder),
    {
        self.reorg_rewind_depth = reorg_rewind_depth;
        self
    }

    /// Sets the time between retries.
    pub fn with_retry_interval(&mut self, retry_interval: TimeSpan) -> (builder: &mut Self)
        ensures
            *builder == (BlockScannerBuilder { retry_interval, ..*old(self) }),
            *final(self) == *final(builder),
    {
        self.retry_interval = retry_interval;
        self
    }

    /// Sets how many confirmations a block needs.
    pub fn with_block_confirmations(&mut self, block_confirmations: u64) -> (builder: &mut Self)
        ensures
            *builder == (BlockScannerBuilder { block_confirmations, ..*old(self) }),
            *final(self) == *final(builder),
    {
        self.block_confirmations = block_confirmations;
        self
    }

    /// Begins to check the heights against the node; see [`ConnectCheck`].
    pub fn connect_provider(&self) -> (check: ConnectCheck)
        ensures
            check == connect_begun(self.start_height, self.end_height),
    {
        let phase = match self.end_height {
            Some(BlockNumberOrTag::Number(end)) => ConnectPhase::ComparingHead { end },
            _ => ConnectPhase::FetchingStart,
        };
        ConnectCheck { start_height: self.start_height, end_height: self.end_height, phase }
    }

    /// The scanner, once the heights are checked.
    pub fn connected<P>(self, provider: P, start: BlockNumHash, end: Option<BlockNumber>) -> (scanner:
        BlockScanner<P, F>)
        ensures
            scanner == (BlockScanner {
                provider,
                current: BlockHashAndNumber { hash: start.hash, number: start.number },
                is_end: false,
                blocks_read_per_epoch: self.blocks_read_per_epoch,
                start_height: start.number,
                end_height: end,
                on_blocks: self.on_blocks,
                reorg_rewind_depth: self.reorg_rewind_depth,
                retry_interval: self.retry_interval,
                block_confirmations: self.block_confirmations,
            }),
    {
        BlockScanner {
            provider,
            current: BlockHashAndNumber::from_header(start),
            is_end: false,
            blocks_read_per_epoch: self.blocks_read_per_epoch,
            start_height: start.number,
            end_height: end,
            on_blocks: self.on_blocks,
            reorg_rewind_depth: self.reorg_rewind_depth,
            retry_interval: self.retry_interval,
            block_confirmations: self.block_confirmations,
        }
    }
}

/// Where the checking of the heights stands.
#[derive(Debug)]
pub enum ConnectPhase {
    /// The newest block is being asked for, to see whether it is the end.
    ComparingHead {
        end: BlockNumber,
    },
    /// The newest block is being asked for again, to see whether the end is behind it.
    BoundingEnd {
        end: BlockNumber,
    },
    /// Whether the start exists is being asked.
    ResolvingStart,
    /// The start is being fetched.
    FetchingStart,
    /// The number of the end is being asked for.
    ResolvingEnd {
        start: BlockNumHash,
    },
    /// All is checked.
    Finished,
}

/// What the checking of the heights hears.
#[derive(Debug)]
pub enum ConnectEvent {
    /// The number of the newest block.
    Head(Result<BlockNumber, String>),
    /// The number of the block asked about, if there is such a block.
    Resolved(Result<Option<BlockNumber>, String>),
    /// The block asked for.
    Fetched(Result<BlockNumHash, String>),
}

/// What the checking of the heights asks for.
#[derive(Debug)]
pub enum ConnectAction {
    /// Ask for the number of the newest block.
    AskHead,
    /// Ask for the number of this block.
    Resolve(BlockNumberOrTag),
    /// Fetch this block.
    Fetch(BlockNumberOrTag),
    /// All is checked: the first block, and the number of the last, if there is one.
    Connected(BlockNumHash, Option<BlockNumber>),
    /// The heights are refused, or the node failed.
    Refused(BlockScannerError),
}

/// The checking of the heights between which a scanner is to scan.
///
/// An end that is a number must exist; a start that is a number must then exist too and must not
/// be behind the end.  Tags are not checked.
#[derive(Debug)]
pub struct ConnectCheck {
    pub start_height: BlockNumberOrTag,
    pub end_height: Option<BlockNumberOrTag>,
    pub phase: ConnectPhase,
}

/// The state in which the checking begins.
pub open spec fn connect_begun(
    start_height: BlockNumberOrTag,
    end_height: Option<BlockNumberOrTag>,
) -> ConnectCheck {
    ConnectCheck {
        start_height,
        end_height,
        phase: match end_height {
            Some(BlockNumberOrTag::Number(end)) => ConnectPhase::ComparingHead { end },
            _ => ConnectPhase::FetchingStart,
        },
    }
}

impl ConnectCheck {
    /// The state in another phase.
    pub open spec fn at(self, phase: ConnectPhase) -> ConnectCheck {
        ConnectCheck { phase, ..self }
    }

    /// What is asked for in the present phase.
    pub open spec fn action(self) -> ConnectAction {
        match self.phase {
            ConnectPhase::ComparingHead { .. } => ConnectAction::AskHead,
            ConnectPhase::BoundingEnd { .. } => ConnectAction::AskHead,
            ConnectPhase::ResolvingStart => ConnectAction::Resolve(self.start_height),
            ConnectPhase::FetchingStart => ConnectAction::Fetch(self.start_height),
            ConnectPhase::ResolvingEnd { .. } => ConnectAction::Resolve(
                match self.end_height {
                    Some(end_height) => end_height,
                    None => BlockNumberOrTag::Latest,
                },
            ),
            ConnectPhase::Finished => ConnectAction::AskHead,
        }
    }

    /// The state after an event, and what is asked for: in the new phase, unless all is checked
    /// or the heights are refused.  An event that is not waited for changes nothing.
    pub open spec fn stepped(self, event: ConnectEvent) -> (ConnectCheck, ConnectAction) {
        let refused = |error: BlockScannerError|
            (self.at(ConnectPhase::Finished), ConnectAction::Refused(error));
        let go_on = |phase: ConnectPhase| (self.at(phase), self.at(phase).action());
        match (self.phase, event) {
            (ConnectPhase::ComparingHead { end }, ConnectEvent::Head(head)) => match head {
                Ok(head) => if end == head {
                    go_on(ConnectPhase::FetchingStart)
                } else {
                    go_on(ConnectPhase::BoundingEnd { end })
                },
                Err(e) => refused(BlockScannerError::Rpc(e)),
            },
            (ConnectPhase::BoundingEnd { end }, ConnectEvent::Head(head)) => match head {
                Ok(head) => if end > head {
                    refused(
                        BlockScannerError::NonExistentEndHeader(BlockNumberOrTag::Number(end)),
                    )
                } else {
                    match self.start_height {
                        BlockNumberOrTag::Number(start) => if start > end {
                            refused(
                                BlockScannerError::EndHeightSmallerThanStartHeight(
                                    self.start_height,
                                    BlockNumberOrTag::Number(end),
                                ),
                            )
                        } else {
                            go_on(ConnectPhase::ResolvingStart)
                        },
                        _ => go_on(ConnectPhase::FetchingStart),
                    }
                },
                Err(e) => refused(BlockScannerError::Rpc(e)),
            },
            (ConnectPhase::ResolvingStart, ConnectEvent::Resolved(number)) => match number {
                Ok(Some(_)) => go_on(ConnectPhase::FetchingStart),
                Ok(None) => refused(BlockScannerError::NonExistentStartHeader(self.start_height)),
                Err(e) => refused(BlockScannerError::Rpc(e)),
            },
            (ConnectPhase::FetchingStart, ConnectEvent::Fetched(block)) => match block {
                Ok(start) => if self.end_height is Some {
                    go_on(ConnectPhase::ResolvingEnd { start })
                } else {
                    (self.at(ConnectPhase::Finished), ConnectAction::Connected(start, None))
                },
                Err(e) => refused(BlockScannerError::Rpc(e)),
            },
            (ConnectPhase::ResolvingEnd { start }, ConnectEvent::Resolved(number)) => match number {
                Ok(end) => (
                    self.at(ConnectPhase::Finished),
                    ConnectAction::Connected(start, end),
                ),
                Err(e) => refused(BlockScannerError::Rpc(e)),
            },
            _ => (self, self.action()),
        }
    }

    /// What is to be done next.
    pub fn next_action(&self) -> (action: ConnectAction)
        ensures
            action == self.action(),
    {
        match &self.phase {
            ConnectPhase::ComparingHead { .. } => ConnectAction::AskHead,
            ConnectPhase::BoundingEnd { .. } => ConnectAction::AskHead,
            ConnectPhase::ResolvingStart => ConnectAction::Resolve(self.start_height),
            ConnectPhase::FetchingStart => ConnectAction::Fetch(self.start_height),
            ConnectPhase::ResolvingEnd { .. } => ConnectAction::Resolve(
                match self.end_height {
                    Some(end_height) => end_height,
                    None => BlockNumberOrTag::Latest,
                },
            ),
            ConnectPhase::Finished => ConnectAction::AskHead,
        }
    }

    /// Ends the checking with an error.
    fn refuse(&mut self, error: BlockScannerError) -> (action: ConnectAction)
        ensures
            *final(self) == old(self).at(ConnectPhase::Finished),
            action == ConnectAction::Refused(error),
    {
        self.phase = ConnectPhase::Finished;
        ConnectAction::Refused(error)
    }

    /// Takes in what came of the last action, and says what is to be done next.
    pub fn step(&mut self, event: ConnectEvent) -> (action: ConnectAction)
        ensures
            (*final(self), action) == old(self).stepped(event),
    {
        match (&self.phase, event) {
            (ConnectPhase::ComparingHead { end }, ConnectEvent::Head(head)) => {
                let end: u64 = *end;
                match head {
                    Ok(head) => {
                        if end == head {
                            self.phase = ConnectPhase::FetchingStart;
                        } else {
                            self.phase = ConnectPhase::BoundingEnd { end };
                        }
                    },
                    Err(e) => return self.refuse(BlockScannerError::Rpc(e)),
                }
            },
            (ConnectPhase::BoundingEnd { end }, ConnectEvent::Head(head)) => {
                let end: u64 = *end;
                match head {
                    Ok(head) => {
                        if end > head {
                            return self.refuse(
                                BlockScannerError::NonExistentEndHeader(
                                    BlockNumberOrTag::Number(end),
                                ),
                            );
                        }
                        match self.start_height {
                            BlockNumberOrTag::Number(start) => {
                                if start > end {
                                    return self.refuse(
                                        BlockScannerError::EndHeightSmallerThanStartHeight(
                                            self.start_height,
                                            BlockNumberOrTag::Number(end),
                                        ),
                                    );
                                }
                                self.phase = ConnectPhase::ResolvingStart;
                            },
                            _ => {
                                self.phase = ConnectPhase::FetchingStart;
                            },
                        }
                    },
                    Err(e) => return self.refuse(BlockScannerError::Rpc(e)),
                }
            },
            (ConnectPhase::ResolvingStart, ConnectEvent::Resolved(number)) => match number {
                Ok(Some(_)) => {
                    self.phase = ConnectPhase::FetchingStart;
                },
                Ok(None) => return self.refuse(
                    BlockScannerError::NonExistentStartHeader(self.start_height),
                ),
                Err(e) => return self.refuse(BlockScannerError::Rpc(e)),
            },
            (ConnectPhase::FetchingStart, ConnectEvent::Fetched(block)) => match block {
                Ok(start) => {
                    if self.end_height.is_some() {
                        self.phase = ConnectPhase::ResolvingEnd { start };
                    } else {
                        self.phase = ConnectPhase::Finished;
                        return ConnectAction::Connected(start, None);
                    }
                },
                Err(e) => return self.refuse(BlockScannerError::Rpc(e)),
            },
            (ConnectPhase::ResolvingEnd { start }, ConnectEvent::Resolved(number)) => {
                let start: BlockNumHash = *start;
                match number {
                    Ok(end) => {
                        self.phase = ConnectPhase::Finished;
                        return ConnectAction::Connected(start, end);
                    },
                    Err(e) => return self.refuse(BlockScannerError::Rpc(e)),
                }
            },
            _ => {},
        }
        self.next_action()
    }
}

/// What a node on a chain whose newest block is `head` answers; it has all blocks up to that one.
pub open spec fn steady_answer(
    action: ConnectAction,
    head: u64,
    tags: spec_fn(BlockNumberOrTag) -> u64,
    block: spec_fn(u64) -> BlockNumHash,
) -> ConnectEvent {
    let number = |height: BlockNumberOrTag|
        match height {
            BlockNumberOrTag::Number(number) => number,
            tag => tags(tag),
        };
    match action {
        ConnectAction::Resolve(height) => ConnectEvent::Resolved(
            Ok(
                if number(height) <= head {
                    Some(number(height))
                } else {
                    None
                },
            ),
        ),
        ConnectAction::Fetch(height) => ConnectEvent::Fetched(Ok(block(number(height)))),
        _ => ConnectEvent::Head(Ok(head)),
    }
}

/// The outcome of a check whose next event is the answer to `action`, on a chain that stays as it
/// is, after at most `steps` answers.
pub open spec fn checked(
    check: ConnectCheck,
    action: ConnectAction,
    head: u64,
    tags: spec_fn(BlockNumberOrTag) -> u64,
    block: spec_fn(u64) -> BlockNumHash,
    steps: nat,
) -> ConnectAction
    decreases steps,
{
    if steps == 0 || action is Connected || action is Refused {
        action
    } else {
        let next = check.stepped(steady_answer(action, head, tags, block));
        checked(next.0, next.1, head, tags, block, (steps - 1) as nat)
    }
}

/// On a chain that stays as it is, two heights given as numbers are refused if the end is behind
/// the newest block, and otherwise if the start is behind the end.  If the end is the newest block,
/// a start behind it is not noticed; there is no such block to begin with.
pub proof fn numbered_heights_are_checked(
    start: u64,
    end: u64,
    head: u64,
    tags: spec_fn(BlockNumberOrTag) -> u64,
    block: spec_fn(u64) -> BlockNumHash,
)
    requires
        end == head ==> start <= head,
    ensures
        ({
            let check = connect_begun(
                BlockNumberOrTag::Number(start),
                Some(BlockNumberOrTag::Number(end)),
            );
            checked(check, check.action(), head, tags, block, 5) == (if end > head {
                ConnectAction::Refused(
                    BlockScannerError::NonExistentEndHeader(BlockNumberOrTag::Number(end)),
                )
            } else if start > end {
                ConnectAction::Refused(
                    BlockScannerError::EndHeightSmallerThanStartHeight(
                        BlockNumberOrTag::Number(start),
                        BlockNumberOrTag::Number(end),
                    ),
                )
            } else {
                ConnectAction::Connected(block(start), Some(end))
            })
        }),
{
    reveal_with_fuel(checked, 6);
}

/// What the node is asked before a scanner starts.
#[derive(Clone, Copy, Debug)]
pub enum StartQuery {
    /// Is there a block of this hash?
    Current(BlockHash),
    /// Which block is the newest?
    Head,
    /// Which block has this number?
    Block(BlockNumber),
}

/// What the node answers; the texts describe why it did not.
#[derive(Debug)]
pub enum StartReply {
    /// Whether there is such a block.
    Current(Result<bool, String>),
    /// The number of the newest block.
    Head(Result<BlockNumber, String>),
    /// The block of that number.
    Block(Result<BlockNumHash, String>),
}

/// How a start goes on.
#[derive(Debug)]
pub enum StartStep {
    /// With this question.
    Ask(StartQuery),
    /// With what the scanner has to send.
    Ready,
    /// Not at all.
    Refused(StartError),
}

/// A scanner that knows its first block; `P` is its node, `F` what is called for each block.
#[derive(Debug)]
pub struct BlockScanner<P, F> {
    pub provider: P,
    pub blocks_read_per_epoch: usize,
    pub start_height: BlockNumber,
    pub end_height: Option<BlockNumber>,
    pub current: BlockHashAndNumber,
    pub on_blocks: Option<F>,
    pub is_end: bool,
    pub reorg_rewind_depth: u64,
    pub retry_interval: TimeSpan,
    pub block_confirmations: u64,
}

impl<P, F> BlockScanner<P, F> {
    /// The node.
    pub fn provider(&self) -> (provider: &P)
        ensures
            *provider == self.provider,
    {
        &self.provider
    }

    /// How a start begins: if there is an end, it is to be made sure that the current block is
    /// still on the chain.
    pub open spec fn start_begun(self) -> StartStep {
        if self.end_height is Some {
            StartStep::Ask(StartQuery::Current(self.current.hash))
        } else {
            StartStep::Ready
        }
    }

    /// The scanner and the next step after a reply.  If the current block has left the chain, the
    /// scanner goes back to an earlier one.
    pub open spec fn start_resumed(self, reply: StartReply) -> (Self, StartStep) {
        match reply {
            StartReply::Current(Ok(true)) => (self, StartStep::Ready),
            StartReply::Current(Ok(false)) => (self, StartStep::Ask(StartQuery::Head)),
            StartReply::Head(Ok(head)) => (
                self,
                StartStep::Ask(
                    StartQuery::Block(
                        block_scanner_new::rewound_to(
                            self.current.number,
                            self.reorg_rewind_depth,
                            head,
                        ),
                    ),
                ),
            ),
            StartReply::Block(Ok(block)) => (
                BlockScanner {
                    current: BlockHashAndNumber { hash: block.hash, number: block.number },
                    ..self
                },
                StartStep::Ready,
            ),
            StartReply::Current(Err(e)) => (self, refused_by(e)),
            StartReply::Head(Err(e)) => (self, refused_by(e)),
            StartReply::Block(Err(e)) => (self, refused_by(e)),
        }
    }

    /// Begins to make sure that the current block is still on the chain.
    pub fn ensure_current_not_reorged(&self) -> (step: StartStep)
        ensures
            step == self.start_begun(),
    {
        if self.end_height.is_some() {
            StartStep::Ask(StartQuery::Current(self.current.hash))
        } else {
            StartStep::Ready
        }
    }

    /// Goes on after the node's answer to the last question.
    pub fn resume(&mut self, reply: StartReply) -> (step: StartStep)
        ensures
            (*final(self), step) == old(self).start_resumed(reply),
    {
        match reply {
            StartReply::Current(Ok(known)) => {
                if known {
                    StartStep::Ready
                } else {
                    StartStep::Ask(StartQuery::Head)
                }
            },
            StartReply::Head(Ok(head)) => StartStep::Ask(
                StartQuery::Block(self.rewind_on_reorg_detected(head)),
            ),
            StartReply::Block(Ok(block)) => {
                self.current = BlockHashAndNumber::from_header(block);
                StartStep::Ready
            },
            StartReply::Current(Err(e)) | StartReply::Head(Err(e)) | StartReply::Block(
                Err(e),
            ) => StartStep::Refused(StartError::BlockScannerError(BlockScannerError::Rpc(e))),
        }
    }

    /// What is sent: the range, if it has an end, and its end; then the end of the stream.
    pub fn start(&self) -> (items: Vec<Result<Range<BlockNumber>, BlockScannerError>>)
        ensures
            items@ == match self.end_height {
                Some(end) => seq![
                    Ok::<Range<u64>, BlockScannerError>(Range { start: self.start_height, end }),
                    Err(BlockScannerError::ErrEOF),
                    Err(BlockScannerError::ErrEOF),
                ],
                None => seq![Err::<Range<u64>, BlockScannerError>(BlockScannerError::ErrEOF)],
            },
    {
        let mut items: Vec<Result<Range<BlockNumber>, BlockScannerError>> = Vec::new();
        if let Some(end) = self.end_height {
            items.push(Ok(Range { start: self.start_height, end }));
            items.push(Err(BlockScannerError::ErrEOF));
        }
        items.push(Err(BlockScannerError::ErrEOF));
        items
    }

    /// The block to go back to when the current one has left the chain, given the newest block.
    pub fn rewind_on_reorg_detected(&self, head: BlockNumber) -> (height: BlockNumber)
        ensures
            height == block_scanner_new::rewound_to(
                self.current.number,
                self.reorg_rewind_depth,
                head,
            ),
    {
        rewind_height(self.current.number, self.reorg_rewind_depth, head)
    }
}

/// A start that fails since the node did not answer.
pub open spec fn refused_by(cause: String) -> StartStep {
    StartStep::Refused(StartError::BlockScannerError(BlockScannerError::Rpc(cause)))
}

/// A scanner whose current block has left the chain goes back from it by its depth, but to the
/// newest block at most, and then starts; nothing else about it changes.
pub proof fn lost_block_is_left_behind<P, F>(
    scanner: BlockScanner<P, F>,
    head: u64,
    block: BlockNumHash,
)
    requires
        scanner.start_resumed(StartReply::Head(Ok(head))).1 == StartStep::Ask(
            StartQuery::Block(block.number),
        ),
    ensures
        scanner.start_resumed(StartReply::Current(Ok(false))) == (
            scanner,
            StartStep::Ask(StartQuery::Head),
        ),
        block.number <= head,
        block.number <= scanner.current.number,
        scanner.current.number <= head ==> scanner.current.number - block.number
            <= scanner.reorg_rewind_depth,
        scanner.start_resumed(StartReply::Block(Ok(block))) == (
            BlockScanner {
                current: BlockHashAndNumber { hash: block.hash, number: block.number },
                ..scanner
            },
            StartStep::Ready,
        ),
{
}

/// An end that is a number is compared with the newest block first; otherwise the start is fetched
/// at once.
pub proof fn numbered_end_is_checked_first(
    start_height: BlockNumberOrTag,
    end_height: Option<BlockNumberOrTag>,
)
    ensures
        ({
            let begun = connect_begun(start_height, end_height);
            &&& begun.start_height == start_height
            &&& begun.end_height == end_height
            &&& begun.action() == if end_height matches Some(BlockNumberOrTag::Number(_)) {
                ConnectAction::AskHead
            } else {
                ConnectAction::Fetch(start_height)
            }
        }),
{
}

/// An end that is the newest block is taken as it is.  Any other is refused if it is behind the
/// newest block, and else if the start is a number behind it; a start that is a number must then
/// exist, and any other is fetched at once.
pub proof fn end_is_bounded_by_the_newest_block(check: ConnectCheck, end: u64, head: u64)
    ensures
        check.phase == (ConnectPhase::ComparingHead { end }) ==> {
            let (next, action) = check.stepped(ConnectEvent::Head(Ok(head)));
            &&& end == head ==> action == ConnectAction::Fetch(check.start_height)
            &&& end != head ==> action is AskHead && next.phase == (ConnectPhase::BoundingEnd {
                end,
            })
            &&& next.start_height == check.start_height
            &&& next.end_height == check.end_height
        },
        check.phase == (ConnectPhase::BoundingEnd { end }) ==> {
            let (next, action) = check.stepped(ConnectEvent::Head(Ok(head)));
            &&& end > head ==> action == ConnectAction::Refused(
                BlockScannerError::NonExistentEndHeader(BlockNumberOrTag::Number(end)),
            )
            &&& end <= head ==> match check.start_height {
                BlockNumberOrTag::Number(start) => {
                    &&& start > end ==> action == ConnectAction::Refused(
                        BlockScannerError::EndHeightSmallerThanStartHeight(
                            BlockNumberOrTag::Number(start),
                            BlockNumberOrTag::Number(end),
                        ),
                    )
                    &&& start <= end ==> action == ConnectAction::Resolve(
                        BlockNumberOrTag::Number(start),
                    ) && next.phase is ResolvingStart
                },
                height => action == ConnectAction::Fetch(height) && next.phase is FetchingStart,
            }
            &&& next.start_height == check.start_height
            &&& next.end_height == check.end_height
        },
{
}

/// A start that does not exist is refused; one that does is fetched.  The scanner is connected with
/// the block fetched, and with the number found for the end, if an end was asked for.
pub proof fn scanner_begins_at_the_block_fetched(
    check: ConnectCheck,
    number: u64,
    start: BlockNumHash,
    end: Option<u64>,
)
    ensures
        check.phase is ResolvingStart ==> {
            &&& check.stepped(ConnectEvent::Resolved(Ok(Some(number)))).1 == ConnectAction::Fetch(
                check.start_height,
            )
            &&& check.stepped(ConnectEvent::Resolved(Ok(None))).1 == ConnectAction::Refused(
                BlockScannerError::NonExistentStartHeader(check.start_height),
            )
        },
        check.phase is FetchingStart ==> {
            let (next, action) = check.stepped(ConnectEvent::Fetched(Ok(start)));
            match check.end_height {
                None => action == ConnectAction::Connected(start, None),
                Some(height) => action == ConnectAction::Resolve(height) && next.phase == (
                ConnectPhase::ResolvingEnd { start }),
            }
        },
        check.phase == (ConnectPhase::ResolvingEnd { start }) ==> check.stepped(
            ConnectEvent::Resolved(Ok(end)),
        ).1 == ConnectAction::Connected(start, end),
{
}

/// A node that does not answer has the heights refused, with the cause.
pub proof fn failed_node_refuses_the_heights(check: ConnectCheck, cause: String)
    ensures
        ({
            let refused = ConnectAction::Refused(BlockScannerError::Rpc(cause));
            &&& check.phase is ComparingHead || check.phase is BoundingEnd ==> check.stepped(
                ConnectEvent::Head(Err(cause)),
            ).1 == refused
            &&& check.phase is ResolvingStart || check.phase is ResolvingEnd ==> check.stepped(
                ConnectEvent::Resolved(Err(cause)),
            ).1 == refused
            &&& check.phase is FetchingStart ==> check.stepped(
                ConnectEvent::Fetched(Err(cause)),
            ).1 == refused
        }),
{
}

/// A scanner with an end looks up its current block by its hash before it starts.  If the block is
/// there, it starts as it is; if not, it asks for the newest block, and goes back from its current
/// block by its depth, but to the newest block at most.
pub proof fn current_block_is_checked_before_the_start<P, F>(
    scanner: BlockScanner<P, F>,
    head: u64,
    cause: String,
)
    ensures
        scanner.start_begun() == if scanner.end_height is Some {
            StartStep::Ask(StartQuery::Current(scanner.current.hash))
        } else {
            StartStep::Ready
        },
        scanner.start_resumed(StartReply::Current(Ok(true))) == (scanner, StartStep::Ready),
        ({
            let (next, step) = scanner.start_resumed(StartReply::Head(Ok(head)));
            let back = if scanner.current.number < scanner.reorg_rewind_depth {
                0
            } else {
                scanner.current.number - scanner.reorg_rewind_depth
            };
            &&& next == scanner
            &&& step matches StartStep::Ask(StartQuery::Block(number))
            &&& number == if head < back {
                head as int
            } else {
                back as int
            }
        }),
        ({
            let refused = StartStep::Refused(
                StartError::BlockScannerError(BlockScannerError::Rpc(cause)),
            );
            &&& scanner.start_resumed(StartReply::Current(Err(cause))) == (scanner, refused)
            &&& scanner.start_resumed(StartReply::Head(Err(cause))) == (scanner, refused)
            &&& scanner.start_resumed(StartReply::Block(Err(cause))) == (scanner, refused)
        }),
{
}

/// The words of an error name the heights that it is about, the start before the end.
pub proof fn words_name_the_heights(
    start: BlockNumberOrTag,
    end: BlockNumberOrTag,
    height: u64,
    cause: String,
)
    ensures
        BlockScannerError::EndHeightSmallerThanStartHeight(start, end).text() == "start height ("@
            + text::height_text(start) + ") > end height ("@ + text::height_text(end) + ")"@,
        BlockScannerError::NonExistentStartHeader(start).text()
            == "failed to get start header, height: "@ + text::height_text(start),
        BlockScannerError::NonExistentEndHeader(end).text() == "failed to get end header, height: "@
            + text::height_text(end),
        BlockScannerError::TerminalError(height).text() == "terminal error at block height "@
            + text::numeral(height as nat, 10),
        BlockScannerError::Rpc(cause).text() == cause@,
        StartError::BlockScannerError(BlockScannerError::Rpc(cause)).text() == cause@,
        StartError::SendError(cause).text() == cause@,
{
}

/// Unless set otherwise, a scanner begins at the newest block and has no end; a thousand blocks make
/// a batch, and neither confirmations nor a way back are asked for.
pub proof fn default_builder_settings<F>()
    ensures
        default_builder::<F>().blocks_read_per_epoch == 1000,
        default_builder::<F>().start_height == BlockNumberOrTag::Latest,
        default_builder::<F>().end_height is None,
        default_builder::<F>().on_blocks is None,
        default_builder::<F>().reorg_rewind_depth == 0,
        default_builder::<F>().retry_interval == 12_000_000_000,
        default_builder::<F>().block_confirmations == 0,
{
}

} // verus!
