//! The reflector: reads descriptor events off a queue and says which
//! descriptors to fetch and which messages to delete.

use vstd::prelude::*;
use vstd::string::*;
use crate::descriptor_store::intake_writes;
use crate::descriptor_store::writes_for;
use crate::descriptor_store::StoreWrites;
use crate::fluid::descriptor::DescriptorKind;
use crate::fluid::descriptor::IdentifiableDescriptor;
use crate::text::decimal;
use crate::text::decimal_string;

verus! {

/// The time between two polls of the queue, in milliseconds.
pub const INGEST_INTERVAL_MILLIS: u64 = 30000;

/// How long a received message stays hidden from other readers, in seconds.
pub const VISIBILITY_TIMEOUT_SECONDS: i32 = 10;

/// The news that a descriptor was written: where to fetch it, and its kind.
#[derive(Clone, Debug, PartialEq, Eq)]
pub struct DescriptorEvent {
    pub event_type: String,
    pub descriptor_uri: String,
    pub kind: String,
    pub revision: u32,
}

/// An event in its envelope.
#[derive(Clone, Debug, PartialEq, Eq)]
pub struct EnvelopedEvent {
    pub event_id: String,
    pub event_type: String,
    pub payload: DescriptorEvent,
    pub resource: Option<String>,
    pub time: Option<String>,
}

/// The body of a queue message, as far as it could be read.
#[derive(Clone, Debug, PartialEq, Eq)]
pub enum MessageBody {
    /// The message has no body.
    Absent,
    /// The body is no event; the text says why.
    Malformed(String),
    /// The body is this event.
    Event(EnvelopedEvent),
}

/// One message as it came off the queue.
#[derive(Clone, Debug, PartialEq, Eq)]
pub struct QueueMessage {
    pub receipt_handle: Option<String>,
    pub message_id: Option<String>,
    pub body: MessageBody,
}

/// A descriptor to fetch, with the kind to read it as.
#[derive(Clone, Debug, PartialEq, Eq)]
pub struct DescriptorLoad {
    pub kind: DescriptorKind,
    pub descriptor_uri: String,
}

/// One entry of a batch deletion.
#[derive(Clone, Debug, PartialEq, Eq)]
pub struct Deletion {
    pub id: String,
    pub receipt_handle: String,
}

/// What to do with one batch of messages. The host fetches and stores each
/// of `loads`, in their order, and notes for each whether it went through;
/// a load that fails does not keep the later ones from being tried. With
/// those notes `deletions_after` says which messages to delete.
#[derive(Clone, Debug, PartialEq, Eq)]
pub struct IngestPlan {
    pub loads: Vec<DescriptorLoad>,
    /// The kinds of the events that were passed over because their kind is
    /// not known, for the log.
    pub unsupported: Vec<String>,
    /// Why each malformed body could not be read, for the log.
    pub malformed: Vec<String>,
}

/// A message body as a mathematical value. Of an event only the kind and
/// the address count.
pub ghost enum MessageBodyView {
    Absent,
    Malformed(Seq<char>),
    Event { kind: Seq<char>, descriptor_uri: Seq<char> },
}

/// A queue message as a mathematical value.
pub ghost struct QueueMessageView {
    pub receipt_handle: Option<Seq<char>>,
    pub message_id: Option<Seq<char>>,
    pub body: MessageBodyView,
}

/// A load as a mathematical value.
pub ghost struct DescriptorLoadView {
    pub kind: DescriptorKind,
    pub descriptor_uri: Seq<char>,
}

/// A deletion as a mathematical value.
pub ghost struct DeletionView {
    pub id: Seq<char>,
    pub receipt_handle: Seq<char>,
}

impl View for MessageBody {
    type V = MessageBodyView;

    open spec fn view(&self) -> MessageBodyView {
        match self {
            MessageBody::Absent => MessageBodyView::Absent,
            MessageBody::Malformed(cause) => MessageBodyView::Malformed(cause@),
            MessageBody::Event(event) => MessageBodyView::Event {
                kind: event.payload.kind@,
                descriptor_uri: event.payload.descriptor_uri@,
            },
        }
    }
}

impl View for QueueMessage {
    type V = QueueMessageView;

    open spec fn view(&self) -> QueueMessageView {
        QueueMessageView {
            receipt_handle: match self.receipt_handle {
                Some(handle) => Some(handle@),
                None => None,
            },
            message_id: match self.message_id {
                Some(id) => Some(id@),
                None => None,
            },
            body: self.body@,
        }
    }
}

impl DeepView for QueueMessage {
    type V = QueueMessageView;

    open spec fn deep_view(&self) -> QueueMessageView {
        self.view()
    }
}

impl View for DescriptorLoad {
    type V = DescriptorLoadView;

    open spec fn view(&self) -> DescriptorLoadView {
        DescriptorLoadView { kind: self.kind, descriptor_uri: self.descriptor_uri@ }
    }
}

impl DeepView for DescriptorLoad {
    type V = DescriptorLoadView;

    open spec fn deep_view(&self) -> DescriptorLoadView {
        self.view()
    }
}

impl View for Deletion {
    type V = DeletionView;

    open spec fn view(&self) -> DeletionView {
        DeletionView { id: self.id@, receipt_handle: self.receipt_handle@ }
    }
}

impl DeepView for Deletion {
    type V = DeletionView;

    open spec fn deep_view(&self) -> DeletionView {
        self.view()
    }
}

/// The load that a message asks for: one for an event of a known kind, none
/// for any other message.
pub open spec fn load_of(message: QueueMessageView) -> Option<DescriptorLoadView> {
    match message.body {
        MessageBodyView::Event { kind, descriptor_uri } => match DescriptorKind::from_tag(kind) {
            Some(kind) => Some(DescriptorLoadView { kind, descriptor_uri }),
            None => None,
        },
        _ => None,
    }
}

/// The loads that a run of messages asks for, in the order of the messages.
pub open spec fn loads_of(messages: Seq<QueueMessageView>) -> Seq<DescriptorLoadView> {
    messages.filter_map(|message: QueueMessageView| load_of(message))
}

/// The kind of a message's event where that kind is not known, and none
/// for any other message.
pub open spec fn unsupported_kind_of(message: QueueMessageView) -> Option<Seq<char>> {
    match message.body {
        MessageBodyView::Event { kind, descriptor_uri } => match DescriptorKind::from_tag(kind) {
            Some(_) => None,
            None => Some(kind),
        },
        _ => None,
    }
}

/// The unknown kinds in a run of messages, in the order of the messages.
pub open spec fn unsupported_of(messages: Seq<QueueMessageView>) -> Seq<Seq<char>> {
    messages.filter_map(|message: QueueMessageView| unsupported_kind_of(message))
}

/// Why a message's body could not be read, and none for a message whose
/// body could be read or is absent.
pub open spec fn malformed_cause_of(message: QueueMessageView) -> Option<Seq<char>> {
    match message.body {
        MessageBodyView::Malformed(cause) => Some(cause),
        _ => None,
    }
}

/// Why the malformed bodies in a run of messages could not be read, in the
/// order of the messages.
pub open spec fn malformed_of(messages: Seq<QueueMessageView>) -> Seq<Seq<char>> {
    messages.filter_map(|message: QueueMessageView| malformed_cause_of(message))
}

/// The deletion entry for the message at `index`: none without a receipt
/// handle; else under the message's id, or under its index where it has no
/// id.
pub open spec fn deletion_of(message: QueueMessageView, index: nat) -> Option<DeletionView> {
    match message.receipt_handle {
        Some(receipt_handle) => Some(
            DeletionView {
                id: match message.message_id {
                    Some(id) => id,
                    None => decimal(index),
                },
                receipt_handle,
            },
        ),
        None => None,
    }
}

/// Whether the load at `position` is noted as having gone through. A load
/// without a note did not.
pub open spec fn went_through(loaded: Seq<bool>, position: int) -> bool {
    0 <= position < loaded.len() && loaded[position]
}

/// The place that the load of the message at `index` has among the loads
/// of the batch: as many loads come before it as earlier messages ask for.
pub open spec fn load_position(messages: Seq<QueueMessageView>, index: int) -> int {
    loads_of(messages.take(index)).len() as int
}

/// Whether the message at `index` is done with: its body was read or is
/// absent, and the load that it asks for, if it asks for one, went through.
pub open spec fn settled(messages: Seq<QueueMessageView>, loaded: Seq<bool>, index: int) -> bool {
    &&& !(messages[index].body is Malformed)
    &&& load_of(messages[index]) is Some ==> went_through(
        loaded,
        load_position(messages, index),
    )
}

/// The deletion entries for the settled messages among the first `upto`,
/// in the order of the messages.
pub open spec fn deletions_among(
    messages: Seq<QueueMessageView>,
    loaded: Seq<bool>,
    upto: int,
) -> Seq<DeletionView>
    decreases upto,
{
    if upto <= 0 {
        Seq::empty()
    } else {
        let earlier = deletions_among(messages, loaded, upto - 1);
        if settled(messages, loaded, upto - 1) {
            match deletion_of(messages[upto - 1], (upto - 1) as nat) {
                Some(entry) => earlier.push(entry),
                None => earlier,
            }
        } else {
            earlier
        }
    }
}

/// The deletion entries for a batch, given which loads went through: one
/// for each settled message that has a receipt handle, in the order of the
/// messages. A message that is not settled stays on the queue and is
/// handed out again.
pub open spec fn deletions_for(messages: Seq<QueueMessageView>, loaded: Seq<bool>) -> Seq<
    DeletionView,
> {
    deletions_among(messages, loaded, messages.len() as int)
}

/// A settled message with a receipt handle is deleted, whatever became of
/// the other messages of its batch.
pub proof fn lemma_settled_message_is_deleted(
    messages: Seq<QueueMessageView>,
    loaded: Seq<bool>,
    index: int,
)
    requires
        0 <= index < messages.len(),
        settled(messages, loaded, index),
        messages[index].receipt_handle is Some,
    ensures
        deletions_for(messages, loaded).contains(deletion_of(messages[index], index as nat)->0),
{
    lemma_deleted_among(messages, loaded, index, messages.len() as int);
}

proof fn lemma_deleted_among(
    messages: Seq<QueueMessageView>,
    loaded: Seq<bool>,
    index: int,
    upto: int,
)
    requires
        0 <= index < upto <= messages.len(),
        settled(messages, loaded, index),
        messages[index].receipt_handle is Some,
    ensures
        deletions_among(messages, loaded, upto).contains(
            deletion_of(messages[index], index as nat)->0,
        ),
    decreases upto,
{
    let entry = deletion_of(messages[index], index as nat)->0;
    let earlier = deletions_among(messages, loaded, upto - 1);
    let all = deletions_among(messages, loaded, upto);
    if index == upto - 1 {
        assert(all[earlier.len() as int] == entry);
    } else {
        lemma_deleted_among(messages, loaded, index, upto - 1);
        let at = choose|at: int| 0 <= at < earlier.len() && earlier[at] == entry;
        assert(all[at] == entry);
    }
}

/// Nothing is deleted but settled messages: every entry of the deletions
/// is the entry of a settled message.
pub proof fn lemma_only_settled_messages_are_deleted(
    messages: Seq<QueueMessageView>,
    loaded: Seq<bool>,
    entry: DeletionView,
)
    requires
        deletions_for(messages, loaded).contains(entry),
    ensures
        exists|index: int|
            0 <= index < messages.len() && settled(messages, loaded, index) && deletion_of(
                messages[index],
                index as nat,
            ) == Some(entry),
{
    lemma_only_settled_among(messages, loaded, entry, messages.len() as int);
}

proof fn lemma_only_settled_among(
    messages: Seq<QueueMessageView>,
    loaded: Seq<bool>,
    entry: DeletionView,
    upto: int,
)
    requires
        0 <= upto <= messages.len(),
        deletions_among(messages, loaded, upto).contains(entry),
    ensures
        exists|index: int|
            0 <= index < upto && settled(messages, loaded, index) && deletion_of(
                messages[index],
                index as nat,
            ) == Some(entry),
    decreases upto,
{
    let all = deletions_among(messages, loaded, upto);
    let at = choose|at: int| 0 <= at < all.len() && all[at] == entry;
    if upto > 0 {
        let earlier = deletions_among(messages, loaded, upto - 1);
        if at < earlier.len() {
            lemma_only_settled_among(messages, loaded, entry, upto - 1);
        }
    }
}

/// Reads queue messages and plans what to do with them.
pub struct DescriptorEventWatcher {}

impl DescriptorEventWatcher {
    /// A watcher; it keeps nothing between calls.
    pub fn new() -> (r: DescriptorEventWatcher) {
        DescriptorEventWatcher {  }
    }

    /// Plans one batch. Every message is read, whatever became of the
    /// ones before it. Each event of a known kind gives a load; an event of
    /// another kind and a body that is no event are noted for the log and
    /// give none.
    pub fn ingest_set(&self, messages: &Vec<QueueMessage>) -> (plan: IngestPlan)
        ensures
            plan.loads.deep_view() == loads_of(messages.deep_view()),
            plan.unsupported.deep_view() == unsupported_of(messages.deep_view()),
            plan.malformed.deep_view() == malformed_of(messages.deep_view()),
    {
        let ghost all = messages.deep_view();
        let ghost pick = |message: QueueMessageView| load_of(message);
        let ghost pass = |message: QueueMessageView| unsupported_kind_of(message);
        let ghost fail = |message: QueueMessageView| malformed_cause_of(message);
        let mut loads: Vec<DescriptorLoad> = Vec::new();
        let mut unsupported: Vec<String> = Vec::new();
        let mut malformed: Vec<String> = Vec::new();
        let mut i: usize = 0;
        while i < messages.len()
            invariant
                i <= messages.len(),
                all == messages.deep_view(),
                pick == |message: QueueMessageView| load_of(message),
                pass == |message: QueueMessageView| unsupported_kind_of(message),
                fail == |message: QueueMessageView| malformed_cause_of(message),
                loads.deep_view() == all.take(i as int).filter_map(pick),
                unsupported.deep_view() == all.take(i as int).filter_map(pass),
                malformed.deep_view() == all.take(i as int).filter_map(fail),
            decreases messages.len() - i,
        {
            proof {
                all.lemma_filter_map_take_succ(pick, i as int);
                all.lemma_filter_map_take_succ(pass, i as int);
                all.lemma_filter_map_take_succ(fail, i as int);
            }
            match &messages[i].body {
                MessageBody::Malformed(cause) => {
                    malformed.push(cause.clone());
                },
                MessageBody::Absent => {},
                MessageBody::Event(event) => {
                    match DescriptorKind::parse(event.payload.kind.as_str()) {
                        Some(kind) => {
                            let load = DescriptorLoad {
                                kind,
                                descriptor_uri: event.payload.descriptor_uri.clone(),
                            };
                            loads.push(load);
                        },
                        None => {
                            unsupported.push(event.payload.kind.clone());
                        },
                    }
                },
            }
            i = i + 1;
        }
        assert(all.take(messages.len() as int) =~= all);
        IngestPlan { loads, unsupported, malformed }
    }

    /// Says which messages to delete once the loads of a batch were tried.
    /// `loaded` notes for each load of the plan, in the plan's order,
    /// whether it went through. The result holds, in the order of the
    /// messages, an entry for each message with a receipt handle whose body
    /// was read or is absent and whose load, if it asks for one, went
    /// through. A message with a malformed body or a failed load gets no
    /// entry, so that the queue hands it out again; the messages around it
    /// are deleted all the same.
    pub fn deletions_after(&self, messages: &Vec<QueueMessage>, loaded: &Vec<bool>) -> (r: Vec<
        Deletion,
    >)
        ensures
            r.deep_view() == deletions_for(messages.deep_view(), loaded@),
    {
        let ghost all = messages.deep_view();
        let ghost pick = |message: QueueMessageView| load_of(message);
        let mut deletions: Vec<Deletion> = Vec::new();
        let mut position: usize = 0;
        let mut i: usize = 0;
        while i < messages.len()
            invariant
                i <= messages.len(),
                all == messages.deep_view(),
                pick == |message: QueueMessageView| load_of(message),
                position <= i,
                position == all.take(i as int).filter_map(pick).len(),
                deletions.deep_view() == deletions_among(all, loaded@, i as int),
            decreases messages.len() - i,
        {
            let message = &messages[i];
            proof {
                all.lemma_filter_map_take_succ(pick, i as int);
            }
            let done = match &message.body {
                MessageBody::Malformed(_) => false,
                MessageBody::Absent => true,
                MessageBody::Event(event) => {
                    match DescriptorKind::parse(event.payload.kind.as_str()) {
                        Some(_) => {
                            let went = position < loaded.len() && loaded[position];
                            position = position + 1;
                            went
                        },
                        None => true,
                    }
                },
            };
            if done {
                match &message.receipt_handle {
                    Some(receipt_handle) => {
                        let id = match &message.message_id {
                            Some(id) => id.clone(),
                            None => decimal_string(i),
                        };
                        deletions.push(Deletion { id, receipt_handle: receipt_handle.clone() });
                    },
                    None => {},
                }
            }
            i = i + 1;
        }
        deletions
    }

    /// Says where a fetched descriptor and its deployment state go: the
    /// descriptor under the key of its kind and id, then the state
    /// `Pending` under the key of its id.
    pub fn load_upstream_descriptor<D: IdentifiableDescriptor>(&self, descriptor: &D) -> (r:
        StoreWrites)
        ensures
            r@ == intake_writes(descriptor.spec_kind(), descriptor.spec_id()),
    {
        writes_for(descriptor)
    }
}

} // verus!
