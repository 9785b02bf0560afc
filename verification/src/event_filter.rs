//! Which events to look for.

#[allow(unused_imports)]
use crate::text;
use crate::text::{push_hex, push_joined};
use crate::types::{Address, BlockHash, BlockRange};
use alloy::primitives::{keccak256, FixedBytes};
use alloy::rpc::types::{FilterSet, Topic, ValueOrArray};
use std::hash::Hash;
use vstd::prelude::*;
use vstd::string::*;

verus! {

/// Fixed-size bytes of [`alloy::primitives`].
#[verifier::external_type_specification]
#[verifier::external_body]
pub struct ExFixedBytes<const N: usize>(FixedBytes<N>);

/// A set of values to look for, of [`alloy::rpc::types`].
#[verifier::external_type_specification]
#[verifier::external_body]
#[verifier::reject_recursive_types(T)]
pub struct ExFilterSet<T: Eq + Hash>(FilterSet<T>);

/// The hashes that a topic holds.
pub uninterp spec fn hashes_of(topic: Topic) -> Set<Seq<u8>>;

/// The Keccak-256 hash of some bytes.
pub uninterp spec fn keccak(bytes: Seq<u8>) -> Seq<u8>;

/// An address in hexadecimal, with the capitals that make up its checksum.
pub uninterp spec fn checksummed(address: Seq<u8>) -> Seq<char>;

/// The bytes of the hashes.
pub open spec fn views(hashes: Seq<BlockHash>) -> Seq<Seq<u8>> {
    hashes.map_values(|hash: BlockHash| hash@)
}

/// Calls [`FilterSet::default`]: gives a topic without any hash.
#[verifier::external_body]
fn empty_topic() -> (topic: Topic)
    ensures
        hashes_of(topic) == Set::<Seq<u8>>::empty(),
{
    Topic::default()
}

/// Calls [`Topic::extend`]: adds the hashes to those that the topic holds.
#[verifier::external_body]
fn extend_topic(topic: Topic, hashes: Vec<BlockHash>) -> (extended: Topic)
    ensures
        hashes_of(extended) == hashes_of(topic).union(views(hashes@).to_set()),
{
    topic.extend(hashes.into_iter().map(|hash| FixedBytes::from(hash.bytes)).collect::<Vec<_>>())
}

/// Calls [`FilterSet::clone`]: gives a topic that holds the same hashes.
#[verifier::external_body]
fn clone_topic(topic: &Topic) -> (copy: Topic)
    ensures
        hashes_of(copy) == hashes_of(*topic),
{
    topic.clone()
}

/// Calls [`FilterSet::is_empty`]: tells whether the topic holds no hash.
#[verifier::external_body]
fn topic_is_empty(topic: &Topic) -> (empty: bool)
    ensures
        empty == (hashes_of(*topic) == Set::<Seq<u8>>::empty()),
{
    topic.is_empty()
}

/// Calls [`FilterSet::to_value_or_array`]: gives the hashes that the topic holds, each once and in
/// no particular order; nothing if it holds none.
#[verifier::external_body]
fn topic_hashes(topic: &Topic) -> (hashes: Option<Vec<BlockHash>>)
    ensures
        hashes is None <==> hashes_of(*topic) == Set::<Seq<u8>>::empty(),
        hashes matches Some(hashes) ==> {
            &&& hashes@.len() > 0
            &&& views(hashes@).no_duplicates()
            &&& views(hashes@).to_set() == hashes_of(*topic)
        },
{
    match topic.to_value_or_array() {
        None => None,
        Some(ValueOrArray::Value(hash)) => Some(vec![BlockHash { bytes: hash.0 }]),
        Some(ValueOrArray::Array(hashes)) => {
            Some(hashes.into_iter().map(|hash| BlockHash { bytes: hash.0 }).collect())
        },
    }
}

/// Calls [`keccak256`]: gives the hash of the bytes, which depends on the bytes alone.
#[verifier::external_body]
fn keccak_hash(bytes: &[u8]) -> (hash: BlockHash)
    ensures
        hash@ == keccak(bytes@),
{
    BlockHash { bytes: keccak256(bytes).0 }
}

/// Calls `to_string` of [`alloy::primitives::Address`]: gives the address in hexadecimal, with the
/// capitals that make up its checksum, which depends on its bytes alone.
#[verifier::external_body]
fn checksum_text(address: &Address) -> (text: String)
    ensures
        text@ == checksummed(address@),
{
    alloy::primitives::Address::from(address.bytes).to_string()
}

/// The hash that stands for an event of the given signature.
pub open spec fn signature_hash(event: Seq<char>) -> Seq<u8> {
    keccak(vstd::utf8::encode_utf8(event))
}

/// The hashes that stand for events of the given signatures.
pub open spec fn signature_hashes(events: Seq<Seq<char>>) -> Seq<Seq<u8>> {
    events.map_values(|event: Seq<char>| signature_hash(event))
}

/// A hash in hexadecimal.
pub open spec fn hash_text(hash: Seq<u8>) -> Seq<char> {
    "0x"@ + text::hex_digits(hash)
}

/// A filter in words, its hashes in the given order.
pub open spec fn filter_text(
    address: Option<Address>,
    events: Seq<Seq<char>>,
    hashes: Seq<Seq<u8>>,
) -> Seq<char> {
    let contract = match address {
        Some(address) => seq!["contract: "@ + checksummed(address@)],
        None => Seq::empty(),
    };
    let signatures = if events.len() > 0 {
        seq!["events: ["@ + text::joined(events, ", "@) + "]"@]
    } else {
        Seq::empty()
    };
    let topics = if hashes.len() > 0 {
        seq![
            "event_signatures: ["@ + text::joined(
                hashes.map_values(|hash: Seq<u8>| hash_text(hash)),
                ", "@,
            ) + "]"@,
        ]
    } else {
        Seq::empty()
    };
    "EventFilter("@ + text::joined(contract + signatures + topics, ", "@) + ")"@
}

/// Which logs a node is asked for, as a value; what is not given is not restricted.
#[verifier::ext_equal]
pub ghost struct Restriction {
    /// The contract.
    pub address: Option<Address>,
    /// The hashes of the events, one of which a log begins with.
    pub events: Option<Set<Seq<u8>>>,
    /// The blocks.
    pub blocks: Option<BlockRange>,
}

/// The restriction that lets all logs pass.
pub open spec fn no_restriction() -> Restriction {
    Restriction { address: None, events: None, blocks: None }
}

/// What to ask a node for.
pub struct Filter {
    /// Logs of this contract, or of all.
    pub address: Option<Address>,
    /// Logs of these events, or of all.
    pub event_signatures: Option<Topic>,
    /// Logs of these blocks, or of all.
    pub blocks: Option<BlockRange>,
}

impl View for Filter {
    type V = Restriction;

    open spec fn view(&self) -> Restriction {
        Restriction {
            address: self.address,
            events: match self.event_signatures {
                Some(topic) => Some(hashes_of(topic)),
                None => None,
            },
            blocks: self.blocks,
        }
    }
}

impl Filter {
    /// The filter for the given blocks, both bounds included.
    pub fn over(&self, blocks: BlockRange) -> (filter: Filter)
        ensures
            filter@ == (Restriction { blocks: Some(blocks), ..self@ }),
    {
        let event_signatures = match &self.event_signatures {
            Some(topic) => Some(clone_topic(topic)),
            None => None,
        };
        Filter { address: self.address, event_signatures, blocks: Some(blocks) }
    }
}

impl From<&EventFilter> for Filter {
    /// What to ask a node for: the contract, if there is one, and all events, if there are any.
    fn from(value: &EventFilter) -> (filter: Filter)
        ensures
            filter@ == value@.restriction(),
    {
        let events = value.all_events();
        let event_signatures = if topic_is_empty(&events) {
            None
        } else {
            Some(events)
        };
        Filter { address: value.contract_address, event_signatures, blocks: None }
    }
}

/// What `from` gives is fixed by its view; a topic is known by the hashes that it holds alone.
impl vstd::std_specs::convert::FromSpecImpl<&EventFilter> for Filter {
    open spec fn obeys_from_spec() -> bool {
        false
    }

    open spec fn from_spec(value: &EventFilter) -> Filter {
        arbitrary()
    }
}

impl From<EventFilter> for Filter {
    /// What to ask a node for: the contract, if there is one, and all events, if there are any.
    fn from(value: EventFilter) -> (filter: Filter)
        ensures
            filter@ == value@.restriction(),
    {
        Filter::from(&value)
    }
}

/// What `from` gives is fixed by its view; a topic is known by the hashes that it holds alone.
impl vstd::std_specs::convert::FromSpecImpl<EventFilter> for Filter {
    open spec fn obeys_from_spec() -> bool {
        false
    }

    open spec fn from_spec(value: EventFilter) -> Filter {
        arbitrary()
    }
}

/// Type representing filters to apply when fetching events from the chain.
pub struct EventFilter {
    /// Contract address to filter events from. If None, events from all contracts will be tracked.
    pub contract_address: Option<Address>,
    /// Human-readable event signatures, e.g. "Transfer(address,address,uint256)".
    pub events: Vec<String>,
    /// Event signature hashes, e.g. `0x123...`.
    pub event_signatures: Topic,
}

/// A filter, as a value.
#[verifier::ext_equal]
pub ghost struct FilterView {
    pub contract_address: Option<Address>,
    pub events: Seq<Seq<char>>,
    pub event_signatures: Set<Seq<u8>>,
}

impl View for EventFilter {
    type V = FilterView;

    open spec fn view(&self) -> FilterView {
        FilterView {
            contract_address: self.contract_address,
            events: text::views(self.events@),
            event_signatures: hashes_of(self.event_signatures),
        }
    }
}

impl FilterView {
    /// The hashes of all events to look for.
    pub open spec fn all_events(self) -> Set<Seq<u8>> {
        self.event_signatures.union(signature_hashes(self.events).to_set())
    }

    /// What a node is asked for: the contract, if there is one, and all events, if there are any.
    pub open spec fn restriction(self) -> Restriction {
        Restriction {
            address: self.contract_address,
            events: if self.all_events() == Set::<Seq<u8>>::empty() {
                None
            } else {
                Some(self.all_events())
            },
            blocks: None,
        }
    }
}

/// The filter that lets all events of all contracts pass.
pub open spec fn no_filter() -> FilterView {
    FilterView { contract_address: None, events: Seq::empty(), event_signatures: Set::empty() }
}

impl Default for EventFilter {
    fn default() -> (filter: Self)
        ensures
            filter@ == no_filter(),
    {
        Self::new()
    }
}

impl EventFilter {
    /// Creates a new [`EventFilter`].
    #[must_use]
    pub fn new() -> (filter: Self)
        ensures
            filter@ == no_filter(),
    {
        let filter = EventFilter {
            contract_address: None,
            events: Vec::new(),
            event_signatures: empty_topic(),
        };
        assert(filter@ =~= no_filter());
        filter
    }

    /// Sets the contract address to filter events from.
    /// If not set, events from all contracts will be tracked.
    #[must_use]
    pub fn with_contract_address(self, contract_address: Address) -> (filter: Self)
        ensures
            filter@ == (FilterView { contract_address: Some(contract_address), ..self@ }),
    {
        EventFilter { contract_address: Some(contract_address), ..self }
    }

    /// Sets the event signature to filter specific events.
    /// If neither events nor event signature hashes are set, all events from the specified
    /// contract(s) will be tracked.  An empty signature is passed over.
    #[must_use]
    pub fn with_event(self, event: &str) -> (filter: Self)
        ensures
            filter@ == (if event@.len() == 0 {
                self@
            } else {
                FilterView { events: self@.events.push(event@), ..self@ }
            }),
    {
        let mut filter = self;
        if !event.is_empty() {
            filter.events.push(event.to_string());
            assert(filter@.events =~= self@.events.push(event@));
        }
        filter
    }

    /// Sets the event signatures to filter specific events.
    /// If neither events nor event signature hashes are set, all events from the specified
    /// contract(s) will be tracked.
    #[must_use]
    pub fn with_events(self, events: Vec<String>) -> (filter: Self)
        ensures
            filter@ == (FilterView { events: self@.events + text::views(events@), ..self@ }),
    {
        let mut filter = self;
        let ghost more = events@;
        let mut events = events;
        filter.events.append(&mut events);
        assert(filter@.events =~= self@.events + text::views(more));
        filter
    }

    /// Sets the event signature hash to filter specific events.
    /// If neither event signature hashes nor events are set, all events from the specified
    /// contract(s) will be tracked.
    #[must_use]
    pub fn with_event_signature(self, event_signature: BlockHash) -> (filter: Self)
        ensures
            filter@ == (FilterView {
                event_signatures: self@.event_signatures.insert(event_signature@),
                ..self@
            }),
    {
        let mut hashes: Vec<BlockHash> = Vec::new();
        hashes.push(event_signature);
        assert(views(hashes@)[0] == event_signature@);
        assert(views(hashes@).to_set() =~= Set::empty().insert(event_signature@));
        let event_signatures = extend_topic(self.event_signatures, hashes);
        assert(hashes_of(event_signatures) =~= self@.event_signatures.insert(event_signature@));
        EventFilter {
            contract_address: self.contract_address,
            events: self.events,
            event_signatures,
        }
    }

    /// Sets the event signature hashes to filter specific events.
    /// If neither event signature hashes nor events are set, all events from the specified
    /// contract(s) will be tracked.
    #[must_use]
    pub fn with_event_signatures(self, event_signatures: Vec<BlockHash>) -> (filter: Self)
        ensures
            filter@ == (FilterView {
                event_signatures: self@.event_signatures.union(views(event_signatures@).to_set()),
                ..self@
            }),
    {
        EventFilter {
            contract_address: self.contract_address,
            events: self.events,
            event_signatures: extend_topic(self.event_signatures, event_signatures),
        }
    }

    /// Returns a [`Topic`] containing all event signature hashes.
    /// If neither events nor event signature hashes are set, an empty [`Topic`] is returned.
    #[must_use]
    pub fn all_events(&self) -> (topic: Topic)
        ensures
            hashes_of(topic) == self@.all_events(),
    {
        let mut hashes: Vec<BlockHash> = Vec::new();
        let mut i: usize = 0;
        while i < self.events.len()
            invariant
                i <= self.events.len(),
                views(hashes@) == signature_hashes(self@.events).take(i as int),
            decreases self.events.len() - i,
        {
            let ghost before = hashes@;
            let hash = keccak_hash(self.events[i].as_str().as_bytes());
            hashes.push(hash);
            assert(views(hashes@) =~= views(before).push(hash@));
            assert(hash@ == signature_hashes(self@.events)[i as int]);
            assert(views(hashes@) =~= signature_hashes(self@.events).take(i + 1));
            i = i + 1;
        }
        assert(views(hashes@) =~= signature_hashes(self@.events));
        extend_topic(clone_topic(&self.event_signatures), hashes)
    }

    /// The filter in words, its hashes being these, in this order.
    pub fn text_with(&self, hashes: &Vec<BlockHash>) -> (words: String)
        ensures
            words@ == filter_text(self@.contract_address, self@.events, views(hashes@)),
    {
        let mut parts: Vec<String> = Vec::new();
        if let Some(address) = &self.contract_address {
            let mut part = "contract: ".to_string();
            part.append(checksum_text(address).as_str());
            parts.push(part);
        }
        let ghost contract = match self.contract_address {
            Some(address) => seq!["contract: "@ + checksummed(address@)],
            None => Seq::empty(),
        };
        assert(text::views(parts@) =~= contract);
        if self.events.len() > 0 {
            let mut part = "events: [".to_string();
            push_joined(&mut part, &self.events, ", ");
            part.append("]");
            assert(part@ =~= "events: ["@ + text::joined(self@.events, ", "@) + "]"@);
            parts.push(part);
        }
        let ghost signatures = if self@.events.len() > 0 {
            seq!["events: ["@ + text::joined(self@.events, ", "@) + "]"@]
        } else {
            Seq::empty()
        };
        assert(text::views(parts@) =~= contract + signatures);
        let ghost texts = views(hashes@).map_values(|hash: Seq<u8>| hash_text(hash));
        if hashes.len() > 0 {
            let mut hash_texts: Vec<String> = Vec::new();
            let mut i: usize = 0;
            while i < hashes.len()
                invariant
                    i <= hashes.len(),
                    texts == views(hashes@).map_values(|hash: Seq<u8>| hash_text(hash)),
                    text::views(hash_texts@) == texts.take(i as int),
                decreases hashes.len() - i,
            {
                let mut hash_text = "0x".to_string();
                push_hex(&mut hash_text, &hashes[i].bytes);
                let ghost before = hash_texts@;
                assert(hash_text@ == texts[i as int]);
                hash_texts.push(hash_text);
                assert(text::views(hash_texts@) =~= text::views(before).push(texts[i as int]));
                assert(text::views(hash_texts@) =~= texts.take(i + 1));
                i = i + 1;
            }
            assert(text::views(hash_texts@) =~= texts);
            let mut part = "event_signatures: [".to_string();
            push_joined(&mut part, &hash_texts, ", ");
            part.append("]");
            assert(part@ =~= "event_signatures: ["@ + text::joined(texts, ", "@) + "]"@);
            parts.push(part);
        }
        let ghost topics = if views(hashes@).len() > 0 {
            seq!["event_signatures: ["@ + text::joined(texts, ", "@) + "]"@]
        } else {
            Seq::empty()
        };
        assert(text::views(parts@) =~= contract + signatures + topics);
        let mut words = "EventFilter(".to_string();
        push_joined(&mut words, &parts, ", ");
        words.append(")");
        words
    }

    /// The filter in words.  Its hashes come in no particular order.
    pub fn to_text(&self) -> (words: String)
        ensures
            exists|hashes: Seq<Seq<u8>>|
                {
                    &&& hashes.no_duplicates()
                    &&& hashes.to_set() == self@.event_signatures
                    &&& words@ == #[trigger] filter_text(
                        self@.contract_address,
                        self@.events,
                        hashes,
                    )
                },
    {
        match topic_hashes(&self.event_signatures) {
            Some(hashes) => {
                let words = self.text_with(&hashes);
                assert(words@ == filter_text(
                    self@.contract_address,
                    self@.events,
                    views(hashes@),
                ));
                words
            },
            None => {
                let hashes: Vec<BlockHash> = Vec::new();
                let words = self.text_with(&hashes);
                assert(views(hashes@) =~= Seq::empty());
                assert(views(hashes@).to_set() =~= Set::empty());
                words
            },
        }
    }
}

/// The hashes of all events are those given and those of the signatures given.
proof fn lemma_all_events(filter: FilterView, hash: Seq<u8>)
    ensures
        filter.all_events().contains(hash) <==> filter.event_signatures.contains(hash) || exists|
            i: int,
        |
            0 <= i < filter.events.len() && hash == signature_hash(#[trigger] filter.events[i]),
        filter.all_events() == Set::<Seq<u8>>::empty() <==> filter.event_signatures == Set::<
            Seq<u8>,
        >::empty() && filter.events.len() == 0,
{
    let hashes = signature_hashes(filter.events);
    if exists|i: int|
        0 <= i < filter.events.len() && hash == signature_hash(#[trigger] filter.events[i]) {
        let i = choose|i: int|
            0 <= i < filter.events.len() && hash == signature_hash(#[trigger] filter.events[i]);
        assert(hashes[i] == hash);
    }
    if hashes.contains(hash) {
        let i = choose|i: int| 0 <= i < hashes.len() && hashes[i] == hash;
        assert(signature_hash(filter.events[i]) == hash);
    }
    if filter.events.len() > 0 {
        assert(hashes[0] == signature_hash(filter.events[0]));
        assert(filter.all_events().contains(hashes[0]));
    } else {
        assert(hashes =~= Seq::empty());
        assert(filter.all_events() =~= filter.event_signatures);
    }
    if filter.all_events() == Set::<Seq<u8>>::empty() {
        assert forall|h: Seq<u8>| !filter.event_signatures.contains(h) by {
            assert(!filter.all_events().contains(h));
        }
        assert(filter.event_signatures =~= Set::empty());
    }
}

/// A node is asked for the logs of a contract if and only if the filter has one, and then of that
/// one; it is asked for the logs of certain events if and only if the filter has an event or a
/// hash, and then of exactly those whose hash, or whose signature, the filter was given.  The
/// filter that was given nothing asks for all logs, and no filter asks for certain blocks.
pub proof fn filter_asks_for_what_it_was_given(filter: FilterView)
    ensures
        filter.restriction().address == filter.contract_address,
        filter.restriction().events is Some <==> filter.events.len() > 0
            || filter.event_signatures != Set::<Seq<u8>>::empty(),
        filter.restriction().events matches Some(events) ==> forall|hash: Seq<u8>| #[trigger]
            events.contains(hash) <==> filter.event_signatures.contains(hash) || exists|i: int|
            0 <= i < filter.events.len() && hash == signature_hash(#[trigger] filter.events[i]),
        filter.restriction().blocks is None,
        no_filter().restriction() == no_restriction(),
{
    lemma_all_events(filter, Seq::empty());
    lemma_all_events(no_filter(), Seq::empty());
    assert forall|hash: Seq<u8>| #[trigger]
        filter.all_events().contains(hash) <==> filter.event_signatures.contains(hash) || exists|
            i: int,
        |
            0 <= i < filter.events.len() && hash == signature_hash(#[trigger] filter.events[i]) by {
        lemma_all_events(filter, hash);
    }
}

/// An event is looked for by the hash of its signature, and each by its own.
pub proof fn event_is_looked_for_by_its_hash(events: Seq<Seq<char>>, i: int)
    requires
        0 <= i < events.len(),
    ensures
        signature_hash(events[i]) == keccak(vstd::utf8::encode_utf8(events[i])),
        signature_hashes(events).len() == events.len(),
        signature_hashes(events)[i] == signature_hash(events[i]),
{
}

/// Without settings a filter names no contract and no event, and a node is asked for all logs.
pub proof fn empty_filter_lets_all_pass(hash: Seq<u8>)
    ensures
        no_filter().contract_address is None,
        no_filter().events.len() == 0,
        !no_filter().event_signatures.contains(hash),
        no_restriction().address is None,
        no_restriction().events is None,
        no_restriction().blocks is None,
{
}

/// In words a filter names its contract, its events and its hashes, in this order and as far as it
/// has them.
pub proof fn filter_names_what_it_has(address: Address, event: Seq<char>, hash: Seq<u8>)
    ensures
        filter_text(None, Seq::empty(), Seq::empty()) == "EventFilter("@ + ")"@,
        filter_text(Some(address), Seq::empty(), Seq::empty()) == "EventFilter("@ + ("contract: "@
            + checksummed(address@)) + ")"@,
        filter_text(None, seq![event], Seq::empty()) == "EventFilter("@ + ("events: ["@ + event
            + "]"@) + ")"@,
        filter_text(None, Seq::empty(), seq![hash]) == "EventFilter("@ + ("event_signatures: ["@
            + hash_text(hash) + "]"@) + ")"@,
        filter_text(Some(address), seq![event], seq![hash]) == "EventFilter("@ + ("contract: "@
            + checksummed(address@)) + ", "@ + ("events: ["@ + event + "]"@) + ", "@ + (
        "event_signatures: ["@ + hash_text(hash) + "]"@) + ")"@,
        hash_text(hash) == "0x"@ + text::hex_digits(hash),
{
    let contract = "contract: "@ + checksummed(address@);
    let signatures = "events: ["@ + event + "]"@;
    let topics = "event_signatures: ["@ + hash_text(hash) + "]"@;
    let none = Seq::<Seq<char>>::empty();
    assert(seq![hash].map_values(|hash: Seq<u8>| hash_text(hash)) =~= seq![hash_text(hash)]);
    assert(none + none + none =~= none);
    assert(seq![contract] + none + none =~= seq![contract]);
    assert(none + seq![signatures] + none =~= seq![signatures]);
    assert(none + none + seq![topics] =~= seq![topics]);
    let all = seq![contract] + seq![signatures] + seq![topics];
    text::parts_are_joined_in_order(seq![contract], signatures, ", "@);
    text::parts_are_joined_in_order(seq![contract, signatures], topics, ", "@);
    assert(seq![contract].push(signatures) =~= seq![contract, signatures]);
    assert(seq![contract, signatures].push(topics) =~= all);
    assert("EventFilter("@ + Seq::<char>::empty() + ")"@ =~= "EventFilter("@ + ")"@);
    assert(filter_text(Some(address), seq![event], seq![hash]) =~= "EventFilter("@ + contract
        + ", "@ + signatures + ", "@ + topics + ")"@);
}

} // verus!
