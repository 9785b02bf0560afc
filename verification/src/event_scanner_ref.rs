//! A service that scans for the events of many subscribers.

use crate::block_scanner_new::{BlockScanner, BlockScannerError};
#[allow(unused_imports)]
use crate::block_scanner_new;
use crate::event_filter::{EventFilter, Filter};
#[allow(unused_imports)]
use crate::event_filter;
use crate::types::{Address, BlockNumber, BlockNumberOrTag, BlockRange, ChannelState};
use std::ops::Range;
use vstd::prelude::*;

verus! {

/// By which a subscriber is known.
pub type ConnectionId = u64;

/// An event of a contract.
#[derive(Debug)]
pub struct EventFilterRef {
    pub contract_address: Address,
    /// The event's signature.
    pub event: String,
}

impl EventFilterRef {
    /// What to ask a node for: the event's logs in the given blocks, both bounds included.
    pub fn over(&self, from_block: BlockNumber, to_block: BlockNumber) -> (filter: Filter)
        ensures
            filter@ == (event_filter::Restriction {
                address: Some(self.contract_address),
                events: Some(set![event_filter::signature_hash(self.event@)]),
                blocks: Some(BlockRange { start: from_block, end: to_block }),
            }),
    {
        let mut events: Vec<String> = Vec::new();
        events.push(self.event.clone());
        let wanted = EventFilter::new().with_contract_address(self.contract_address).with_events(
            events,
        );
        proof {
            let hashes = event_filter::signature_hashes(wanted@.events);
            let hash = event_filter::signature_hash(self.event@);
            assert(wanted@.events =~= seq![self.event@]);
            assert(hashes =~= seq![hash]);
            assert(hashes[0] == hash);
            assert(hashes.to_set() =~= set![hash]);
            assert(wanted@.all_events() =~= set![hash]);
            assert(wanted@.all_events().contains(hash));
        }
        Filter::from(&wanted).over(BlockRange { start: from_block, end: to_block })
    }
}

/// What a client asks of the service: `S` is where events go, and `C` and `R` are where answers go.
#[derive(Debug)]
pub enum Command<S, C, R> {
    Subscribe {
        sender: S,
        tracked_event: EventFilterRef,
        response: C,
    },
    Sync {
        sender: S,
        tracked_event: EventFilterRef,
        from_block: BlockNumberOrTag,
        response: R,
    },
    Fetch {
        sender: S,
        tracked_event: EventFilterRef,
        from_block: BlockNumberOrTag,
        to_block: BlockNumberOrTag,
        response: R,
    },
    Unsubscribe {
        response: R,
    },
    Shutdown {
        response: R,
    },
}

/// The settings of a scanner.
#[derive(Clone, Copy, Debug, PartialEq, Eq, Structural)]
pub struct EventScanner {
    pub block_range_scanner: BlockScanner,
}

impl Default for EventScanner {
    fn default() -> (scanner: Self)
        ensures
            scanner.block_range_scanner == block_scanner_new::default_scanner(),
    {
        Self::new()
    }
}

impl EventScanner {
    /// The settings that hold unless set otherwise.
    #[must_use]
    pub fn new() -> (scanner: Self)
        ensures
            scanner.block_range_scanner == block_scanner_new::default_scanner(),
    {
        EventScanner { block_range_scanner: BlockScanner::new() }
    }

    /// Configures how many blocks are read per epoch during a historical sync.
    #[must_use]
    pub fn with_blocks_read_per_epoch(self, blocks_read_per_epoch: usize) -> (scanner: Self)
        ensures
            scanner.block_range_scanner == (BlockScanner {
                blocks_read_per_epoch,
                ..self.block_range_scanner
            }),
    {
        EventScanner {
            block_range_scanner: BlockScanner {
                blocks_read_per_epoch,
                ..self.block_range_scanner
            },
        }
    }

    /// Sets the depth to rewind when a reorg is detected.
    #[must_use]
    pub fn with_reorg_rewind_depth(self, reorg_rewind_depth: u64) -> (scanner: Self)
        ensures
            scanner.block_range_scanner == (BlockScanner {
                reorg_rewind_depth,
                ..self.block_range_scanner
            }),
    {
        EventScanner {
            block_range_scanner: BlockScanner { reorg_rewind_depth, ..self.block_range_scanner },
        }
    }

    /// Configures how many confirmations are required before processing a block (used for reorgs).
    #[must_use]
    pub fn with_block_confirmations(self, block_confirmations: u64) -> (scanner: Self)
        ensures
            scanner.block_range_scanner == (BlockScanner {
                block_confirmations,
                ..self.block_range_scanner
            }),
    {
        EventScanner {
            block_range_scanner: BlockScanner { block_confirmations, ..self.block_range_scanner },
        }
    }
}

/// What is left to do for a command, and where the answer goes.
#[derive(Debug)]
pub enum Work<S, C, R, H> {
    /// Subscribe to block ranges from the newest block on, have them searched for the event, tell
    /// [`EventScannerService::handle_subscribe`] what came of it, and answer with the outcome.
    Subscribe {
        sender: S,
        tracked_event: EventFilterRef,
        response: C,
    },
    /// Stop the tasks of the subscribers let go; the answer is that all is well.
    Done {
        response: R,
        released: Vec<(ConnectionId, S, H)>,
    },
    /// Nothing, and no answer.
    Nothing,
}

/// The service: `S` is where a subscriber's events go, and `H` the task that sends them.
#[derive(Debug)]
pub struct EventScannerService<S, H> {
    connections: Vec<(ConnectionId, S, H)>,
    shutdown: bool,
}

/// The service, as a value.
#[verifier::ext_equal]
pub ghost struct ServiceView<S, H> {
    pub connections: Seq<(ConnectionId, S, H)>,
    pub shutdown: bool,
}

impl<S, H> View for EventScannerService<S, H> {
    type V = ServiceView<S, H>;

    closed spec fn view(&self) -> ServiceView<S, H> {
        ServiceView { connections: self.connections@, shutdown: self.shutdown }
    }
}

impl<S, H> ServiceView<S, H> {
    /// Subscribers are numbered from one on.
    pub open spec fn wf(self) -> bool {
        forall|i: int|
            0 <= i < self.connections.len() ==> (#[trigger] self.connections[i]).0 == i + 1
    }

    /// The service after a command.
    pub open spec fn commanded<C, R>(self, command: Command<S, C, R>) -> Self {
        match command {
            Command::Unsubscribe { .. } => ServiceView { connections: Seq::empty(), ..self },
            Command::Shutdown { .. } => ServiceView { connections: Seq::empty(), shutdown: true },
            _ => self,
        }
    }
}

/// Whether `work` is what is left to do for a command to a service with the given subscribers.
pub open spec fn is_work_of<S, C, R, H>(
    work: Work<S, C, R, H>,
    command: Command<S, C, R>,
    connections: Seq<(ConnectionId, S, H)>,
) -> bool {
    match command {
        Command::Subscribe { sender, tracked_event, response } => work == (Work::<
            S,
            C,
            R,
            H,
        >::Subscribe { sender, tracked_event, response }),
        Command::Unsubscribe { response: answer } => {
            &&& work matches Work::Done { response, released }
            &&& response == answer
            &&& released@ == connections
        },
        Command::Shutdown { response: answer } => {
            &&& work matches Work::Done { response, released }
            &&& response == answer
            &&& released@ == connections
        },
        _ => work is Nothing,
    }
}

impl<S, H> EventScannerService<S, H> {
    /// Subscribers are numbered from one on.
    pub open spec fn wf(&self) -> bool {
        self@.wf()
    }

    /// A service without subscribers.
    pub fn new() -> (service: Self)
        ensures
            service.wf(),
            service@ == (ServiceView::<S, H> { connections: Seq::empty(), shutdown: false }),
    {
        EventScannerService { connections: Vec::new(), shutdown: false }
    }

    /// Whether the service is to stop.
    pub fn is_shutdown(&self) -> (shutdown: bool)
        ensures
            shutdown == self@.shutdown,
    {
        self.shutdown
    }

    /// Takes in a command.
    ///
    /// To unsubscribe lets all subscribers go, and so does a shutdown.  To sync and to fetch are
    /// not answered: whoever asks learns that the service is shutting down.
    pub fn handle_command<C, R>(&mut self, command: Command<S, C, R>) -> (work: Work<S, C, R, H>)
        requires
            old(self).wf(),
        ensures
            final(self).wf(),
            is_work_of(work, command, old(self)@.connections),
            final(self)@ == old(self)@.commanded(command),
    {
        match command {
            Command::Subscribe { sender, tracked_event, response } => Work::Subscribe {
                sender,
                tracked_event,
                response,
            },
            Command::Unsubscribe { response } => {
                let mut released: Vec<(ConnectionId, S, H)> = Vec::new();
                std::mem::swap(&mut released, &mut self.connections);
                Work::Done { response, released }
            },
            Command::Shutdown { response } => {
                let mut released: Vec<(ConnectionId, S, H)> = Vec::new();
                std::mem::swap(&mut released, &mut self.connections);
                self.shutdown = true;
                Work::Done { response, released }
            },
            _ => Work::Nothing,
        }
    }

    /// Takes in what came of a subscription: the task that sends the events, or why there is none.
    pub fn handle_subscribe(
        &mut self,
        sender: S,
        task: Result<H, BlockScannerError>,
    ) -> (id: Result<ConnectionId, BlockScannerError>)
        requires
            old(self).wf(),
            old(self)@.connections.len() < u64::MAX,
        ensures
            final(self).wf(),
            match task {
                Ok(task) => {
                    &&& id matches Ok(id) && id == old(self)@.connections.len() + 1
                    &&& final(self)@ == (ServiceView {
                        connections: old(self)@.connections.push((id->Ok_0, sender, task)),
                        ..old(self)@
                    })
                },
                Err(e) => {
                    &&& id == Err::<ConnectionId, BlockScannerError>(e)
                    &&& final(self)@ == old(self)@
                },
            },
    {
        match task {
            Ok(task) => {
                let count: usize = self.connections.len();
                let id: ConnectionId = count as u64 + 1;
                self.connections.push((id, sender, task));
                assert(self@.connections =~= old(self)@.connections.push((id, sender, task)));
                assert forall|i: int| 0 <= i < self@.connections.len() implies (
                #[trigger] self@.connections[i]).0 == i + 1 by {
                    if i < old(self)@.connections.len() {
                        assert(self@.connections[i] == old(self)@.connections[i]);
                    }
                }
                Ok(id)
            },
            Err(e) => Err(e),
        }
    }
}

/// No two subscribers have the same number, and a new one gets a number that none has.
pub proof fn subscribers_are_told_apart<S, H>(service: ServiceView<S, H>, i: int, j: int)
    requires
        service.wf(),
        0 <= i < service.connections.len(),
        0 <= j < service.connections.len(),
    ensures
        service.connections[i].0 == service.connections[j].0 ==> i == j,
        service.connections[i].0 != service.connections.len() + 1,
{
}

/// Where the search for a subscriber's events stands.
#[derive(Clone, Copy, Debug, PartialEq, Eq, Structural)]
pub enum ScanPhase {
    /// The next block range is waited for.
    Receiving,
    /// The logs of a block range are being fetched.
    Fetching,
    /// Logs are being sent.
    SendingLogs,
    /// An error is being sent.
    SendingError,
    /// The news that nothing follows is being sent.
    SendingEof,
    /// Nothing follows.
    Finished,
}

/// What the search waits for, and hears; a log is an `L`.
#[derive(Debug)]
pub enum ScanEvent<L> {
    /// The next block range, or why there is none.
    Received(Result<Range<BlockNumber>, BlockScannerError>),
    /// No more block ranges come.
    Closed,
    /// The logs that were to be fetched, or why they were not.
    Logs(Result<Vec<L>, String>),
    /// The message was handed over, or nobody listens any more.
    Sent(ChannelState),
}

/// What the search asks for.
#[derive(Debug)]
pub enum ScanAction<L> {
    /// Wait for the next block range.
    Receive,
    /// Fetch the logs of the blocks between these, both included.
    GetLogs(BlockNumber, BlockNumber),
    /// Send this message.
    Send(Result<Vec<L>, BlockScannerError>),
    /// Nothing; the event was not waited for.
    Ignore,
    /// Nothing; the search is over.
    Finish,
}

/// Where the search stands after an event, and what it asks for.
pub open spec fn scanned<L>(phase: ScanPhase, event: ScanEvent<L>) -> (ScanPhase, ScanAction<L>) {
    match (phase, event) {
        (ScanPhase::Receiving, ScanEvent::Received(Ok(range))) => (
            ScanPhase::Fetching,
            ScanAction::GetLogs(range.start, range.end),
        ),
        (ScanPhase::Receiving, ScanEvent::Received(Err(BlockScannerError::Eof))) => (
            ScanPhase::SendingEof,
            ScanAction::Send(Err(BlockScannerError::Eof)),
        ),
        (ScanPhase::Receiving, ScanEvent::Received(Err(e))) => (
            ScanPhase::SendingError,
            ScanAction::Send(Err(e)),
        ),
        (ScanPhase::Receiving, ScanEvent::Closed) => (ScanPhase::Finished, ScanAction::Finish),
        (ScanPhase::Fetching, ScanEvent::Logs(Ok(logs))) if logs@.len() > 0 => (
            ScanPhase::SendingLogs,
            ScanAction::Send(Ok(logs)),
        ),
        (ScanPhase::Fetching, ScanEvent::Logs(_)) => (ScanPhase::Receiving, ScanAction::Receive),
        (ScanPhase::SendingLogs, ScanEvent::Sent(_)) => (ScanPhase::Receiving, ScanAction::Receive),
        (ScanPhase::SendingError, ScanEvent::Sent(ChannelState::Open)) => (
            ScanPhase::Receiving,
            ScanAction::Receive,
        ),
        (ScanPhase::SendingEof, ScanEvent::Sent(ChannelState::Open)) => (
            ScanPhase::Finished,
            ScanAction::Finish,
        ),
        _ => (phase, ScanAction::Ignore),
    }
}

/// The search for a subscriber's events.
#[derive(Clone, Copy, Debug, PartialEq, Eq, Structural)]
pub struct EventScan {
    pub phase: ScanPhase,
}

impl EventScan {
    /// A search that waits for the first block range.
    pub fn spawn_event_scanner() -> (scan: Self)
        ensures
            scan.phase == ScanPhase::Receiving,
    {
        EventScan { phase: ScanPhase::Receiving }
    }

    /// Takes in an event.
    ///
    /// Block ranges without logs are passed over, and so are those of which the logs cannot be
    /// had.  Errors are passed on; after the end of the blocks nothing follows.  Whoever is sent an
    /// error listens.
    pub fn step<L>(&mut self, event: ScanEvent<L>) -> (action: ScanAction<L>)
        requires
            old(self).phase == ScanPhase::SendingError || old(self).phase == ScanPhase::SendingEof
                ==> event != ScanEvent::<L>::Sent(ChannelState::Closed),
        ensures
            (final(self).phase, action) == scanned(old(self).phase, event),
    {
        match self.phase {
            ScanPhase::Receiving => match event {
                ScanEvent::Received(Ok(range)) => {
                    self.phase = ScanPhase::Fetching;
                    ScanAction::GetLogs(range.start, range.end)
                },
                ScanEvent::Received(Err(BlockScannerError::Eof)) => {
                    self.phase = ScanPhase::SendingEof;
                    ScanAction::Send(Err(BlockScannerError::Eof))
                },
                ScanEvent::Received(Err(e)) => {
                    self.phase = ScanPhase::SendingError;
                    ScanAction::Send(Err(e))
                },
                ScanEvent::Closed => {
                    self.phase = ScanPhase::Finished;
                    ScanAction::Finish
                },
                _ => ScanAction::Ignore,
            },
            ScanPhase::Fetching => match event {
                ScanEvent::Logs(Ok(logs)) => {
                    if logs.len() > 0 {
                        self.phase = ScanPhase::SendingLogs;
                        ScanAction::Send(Ok(logs))
                    } else {
                        self.phase = ScanPhase::Receiving;
                        ScanAction::Receive
                    }
                },
                ScanEvent::Logs(Err(_)) => {
                    self.phase = ScanPhase::Receiving;
                    ScanAction::Receive
                },
                _ => ScanAction::Ignore,
            },
            ScanPhase::SendingLogs => match event {
                ScanEvent::Sent(_) => {
                    self.phase = ScanPhase::Receiving;
                    ScanAction::Receive
                },
                _ => ScanAction::Ignore,
            },
            ScanPhase::SendingError => match event {
                ScanEvent::Sent(ChannelState::Open) => {
                    self.phase = ScanPhase::Receiving;
                    ScanAction::Receive
                },
                _ => ScanAction::Ignore,
            },
            ScanPhase::SendingEof => match event {
                ScanEvent::Sent(ChannelState::Open) => {
                    self.phase = ScanPhase::Finished;
                    ScanAction::Finish
                },
                _ => ScanAction::Ignore,
            },
            ScanPhase::Finished => ScanAction::Ignore,
        }
    }
}

/// Once the search is over, nothing is sent any more.
pub proof fn finished_scan_is_silent<L>(event: ScanEvent<L>)
    ensures
        scanned(ScanPhase::Finished, event) == (ScanPhase::Finished, ScanAction::<L>::Ignore),
{
}

/// What a client learns of its command: the answer, or that the service is shutting down if the
/// command could not be handed over or the place for its answer was dropped.
pub fn command_outcome<A>(
    handed_over: bool,
    answer: Option<Result<A, BlockScannerError>>,
) -> (outcome: Result<A, BlockScannerError>)
    ensures
        outcome == match answer {
            Some(answer) if handed_over => answer,
            _ => Err(BlockScannerError::ServiceShutdown),
        },
{
    if !handed_over {
        return Err(BlockScannerError::ServiceShutdown);
    }
    match answer {
        Some(answer) => answer,
        None => Err(BlockScannerError::ServiceShutdown),
    }
}

/// Only those who unsubscribe and those who shut down let subscribers go, and then all of them; only
/// a shutdown stops the service.
pub proof fn commands_let_all_subscribers_go<S, C, R, H>(
    service: ServiceView<S, H>,
    command: Command<S, C, R>,
)
    ensures
        command is Unsubscribe || command is Shutdown ==> service.commanded(
            command,
        ).connections.len() == 0,
        !(command is Unsubscribe || command is Shutdown) ==> service.commanded(command)
            == service,
        service.commanded(command).shutdown <==> service.shutdown || command is Shutdown,
{
}

/// A subscription is left to be made for the sender and the event of the command.  Whoever leaves or
/// shuts down is answered at the place given, and every subscriber is handed back.  Other commands
/// leave nothing to do.
pub proof fn work_is_that_of_the_command<S, C, R, H>(
    work: Work<S, C, R, H>,
    command: Command<S, C, R>,
    connections: Seq<(ConnectionId, S, H)>,
)
    requires
        is_work_of(work, command, connections),
    ensures
        command matches Command::Subscribe { sender, tracked_event, response } ==> {
            &&& work matches Work::Subscribe { sender: to, tracked_event: event, response: place }
            &&& to == sender
            &&& event == tracked_event
            &&& place == response
        },
        command matches Command::Unsubscribe { response } ==> {
            &&& work matches Work::Done { response: place, released }
            &&& place == response
            &&& released@ == connections
        },
        command matches Command::Shutdown { response } ==> {
            &&& work matches Work::Done { response: place, released }
            &&& place == response
            &&& released@ == connections
        },
        command is Sync || command is Fetch ==> work is Nothing,
{
}

/// Subscribers are numbered from one on, in the order in which they came.
pub proof fn subscribers_are_numbered_in_order<S, H>(service: ServiceView<S, H>, i: int)
    requires
        service.wf(),
        0 <= i < service.connections.len(),
    ensures
        service.connections[i].0 == i + 1,
{
}

/// The logs that are fetched are those of the range received, between its two bounds.
pub proof fn logs_of_the_received_range_are_fetched<L>(range: Range<BlockNumber>)
    ensures
        ({
            let (phase, action) = scanned::<L>(
                ScanPhase::Receiving,
                ScanEvent::Received(Ok(range)),
            );
            &&& phase == ScanPhase::Fetching
            &&& action matches ScanAction::GetLogs(first, last)
            &&& first == range.start
            &&& last == range.end
        }),
{
}

/// Logs are sent on if there are any, all of them and in order.  A range without logs is passed
/// over, and so is one of which the logs cannot be had.
pub proof fn logs_are_sent_on<L>(logs: Vec<L>, cause: String, channel: ChannelState)
    ensures
        logs@.len() > 0 ==> scanned(ScanPhase::Fetching, ScanEvent::Logs(Ok(logs))) == (
            ScanPhase::SendingLogs,
            ScanAction::Send(Ok(logs)),
        ),
        logs@.len() == 0 ==> scanned(ScanPhase::Fetching, ScanEvent::Logs(Ok(logs))) == (
            ScanPhase::Receiving,
            ScanAction::<L>::Receive,
        ),
        scanned::<L>(ScanPhase::Fetching, ScanEvent::Logs(Err(cause))) == (
            ScanPhase::Receiving,
            ScanAction::<L>::Receive,
        ),
        scanned::<L>(ScanPhase::SendingLogs, ScanEvent::Sent(channel)) == (
            ScanPhase::Receiving,
            ScanAction::<L>::Receive,
        ),
{
}

/// Errors are sent on as they come.  After the end of the blocks nothing follows; after any other
/// error the next range is waited for.  When no more ranges come the search is over.
pub proof fn errors_are_sent_on<L>(error: BlockScannerError)
    ensures
        ({
            let (phase, action) = scanned::<L>(
                ScanPhase::Receiving,
                ScanEvent::Received(Err(error)),
            );
            let (next, reaction) = scanned::<L>(phase, ScanEvent::Sent(ChannelState::Open));
            &&& action == ScanAction::<L>::Send(Err(error))
            &&& error is Eof ==> next == ScanPhase::Finished && reaction is Finish
            &&& !(error is Eof) ==> next == ScanPhase::Receiving && reaction is Receive
        }),
        scanned::<L>(ScanPhase::Receiving, ScanEvent::Closed) == (
            ScanPhase::Finished,
            ScanAction::<L>::Finish,
        ),
{
}

} // verus!
