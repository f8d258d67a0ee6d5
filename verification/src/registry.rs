//! The device registry: what is known of each device, rebuilt from the
//! events that the driver reports.

use std::collections::BTreeMap;
use vstd::prelude::*;
use crate::notification::Notification;
use crate::notification::NotificationType;
use crate::value_id::ValueID;

verus! {

/// What is known of one device: its values, in the order in which they were
/// discovered.
#[derive(Debug)]
pub struct Node {
    /// The device's identifier within its network.
    pub id: u8,
    /// The values discovered so far.
    pub values: Vec<ValueID>,
}

/// Why an event could not be taken into the registry.
#[derive(Clone, Copy, Debug, PartialEq, Eq, Structural)]
pub enum RegistryError {
    /// A value was reported for a device that the registry has no record of.
    UnknownNode(u8),
}

/// An event of a sequence that the registry refused.
#[derive(Clone, Copy, Debug, PartialEq, Eq, Structural)]
pub struct Rejected {
    /// The position of the event in the sequence.
    pub index: usize,
    /// Why it was refused.
    pub error: RegistryError,
}

/// The values of one device, in the order of their discovery.
pub type Values = Seq<ValueID>;

/// The registry as a mathematical map: each known device with its values.
pub type Records = Map<u8, Values>;

/// What one event does to the records.
///
/// A new device gets an empty record, which replaces any record it had. A
/// discovered value is appended to the record of its device, and is refused
/// where the device has none. No other event changes anything.
pub open spec fn effect(records: Records, event: Notification) -> Result<Records, RegistryError> {
    match event.notification_type {
        NotificationType::NodeNew => Ok(records.insert(event.node_id, Seq::empty())),
        NotificationType::ValueAdded => if records.contains_key(event.node_id) {
            Ok(records.insert(event.node_id, records[event.node_id].push(event.value_id)))
        } else {
            Err(RegistryError::UnknownNode(event.node_id))
        },
        _ => Ok(records),
    }
}

/// What a sequence of events does to the records, taken in order: the
/// records after the last event, or the error of the first event that is
/// refused.
pub open spec fn fold(records: Records, events: Seq<Notification>) -> Result<
    Records,
    RegistryError,
>
    decreases events.len(),
{
    if events.len() == 0 {
        Ok(records)
    } else {
        match fold(records, events.drop_last()) {
            Ok(before) => effect(before, events.last()),
            Err(e) => Err(e),
        }
    }
}

/// Once a beginning of a sequence of events is refused, so is the whole
/// sequence, with the same error.
pub proof fn lemma_fold_stops_at_first_error(
    records: Records,
    events: Seq<Notification>,
    n: int,
    error: RegistryError,
)
    requires
        0 <= n <= events.len(),
        fold(records, events.take(n)) == Err::<Records, RegistryError>(error),
    ensures
        fold(records, events) == Err::<Records, RegistryError>(error),
    decreases events.len() - n,
{
    if n == events.len() {
        assert(events.take(n) =~= events);
    } else {
        assert(events.take(n + 1).drop_last() =~= events.take(n));
        lemma_fold_stops_at_first_error(records, events, n + 1, error);
    }
}

/// A device that is reported as new and then has two values reported ends
/// up with a record that holds exactly these two values, in the order of
/// their discovery, whatever the registry held before.
pub proof fn lemma_values_are_kept_in_order(
    records: Records,
    node: Notification,
    first: Notification,
    second: Notification,
)
    requires
        node.notification_type == NotificationType::NodeNew,
        first.notification_type == NotificationType::ValueAdded,
        second.notification_type == NotificationType::ValueAdded,
        first.node_id == node.node_id,
        second.node_id == node.node_id,
    ensures
        fold(records, seq![node, first, second]) == Ok::<Records, RegistryError>(
            records.insert(node.node_id, seq![first.value_id, second.value_id]),
        ),
{
    let events = seq![node, first, second];
    let two = seq![node, first];
    let one = seq![node];
    assert(events.drop_last() =~= two);
    assert(two.drop_last() =~= one);
    assert(one.drop_last() =~= Seq::<Notification>::empty());
    reveal_with_fuel(fold, 4);
    let r1 = records.insert(node.node_id, Seq::<ValueID>::empty());
    assert(fold(records, one) == Ok::<Records, RegistryError>(r1));
    let r2 = r1.insert(node.node_id, r1[node.node_id].push(first.value_id));
    assert(fold(records, two) == Ok::<Records, RegistryError>(r2));
    let r3 = r2.insert(node.node_id, r2[node.node_id].push(second.value_id));
    assert(fold(records, events) == Ok::<Records, RegistryError>(r3));
    assert(r2[node.node_id].push(second.value_id) =~= seq![first.value_id, second.value_id]);
    assert(r3 =~= records.insert(node.node_id, seq![first.value_id, second.value_id]));
}

/// The known devices, each under its identifier.
#[derive(Debug)]
pub struct Registry {
    nodes: BTreeMap<u8, Node>,
}

impl View for Registry {
    type V = Map<u8, Seq<ValueID>>;

    closed spec fn view(&self) -> Map<u8, Seq<ValueID>> {
        self.nodes@.map_values(|node: Node| node.values@)
    }
}

impl Registry {
    /// Every record is kept under the identifier that it holds.
    #[verifier::type_invariant]
    spec fn keyed_by_id(&self) -> bool {
        forall|id: u8| #[trigger] self.nodes@.contains_key(id) ==> self.nodes@[id].id == id
    }

    /// Takes the map out of the registry, which is left empty, so that the
    /// map can be changed on its own.
    fn take_nodes(&mut self) -> (nodes: BTreeMap<u8, Node>)
        ensures
            nodes == old(self).nodes,
            final(self).nodes@ == Map::<u8, Node>::empty(),
    {
        let mut nodes: BTreeMap<u8, Node> = BTreeMap::new();
        std::mem::swap(&mut self.nodes, &mut nodes);
        nodes
    }

    /// Puts a map into the registry, in place of the one it holds.
    fn put_nodes(&mut self, nodes: BTreeMap<u8, Node>)
        requires
            forall|id: u8| #[trigger] nodes@.contains_key(id) ==> nodes@[id].id == id,
        ensures
            final(self).nodes == nodes,
    {
        let mut nodes = nodes;
        std::mem::swap(&mut self.nodes, &mut nodes);
    }

    /// A registry that knows no device.
    pub fn new() -> (registry: Registry)
        ensures
            registry@ == Map::<u8, Seq<ValueID>>::empty(),
    {
        let registry = Registry { nodes: BTreeMap::new() };
        assert(registry@ =~= Map::<u8, Seq<ValueID>>::empty());
        registry
    }

    /// The number of known devices.
    pub fn len(&self) -> (n: usize)
        ensures
            n == self@.len(),
            self@.dom().finite(),
    {
        assert(self@.dom() =~= self.nodes@.dom());
        self.nodes.len()
    }

    /// Whether the device `id` is known.
    pub fn contains(&self, id: u8) -> (known: bool)
        ensures
            known == self@.contains_key(id),
    {
        self.nodes.contains_key(&id)
    }

    /// The record of the device `id`, if it is known.
    pub fn get(&self, id: u8) -> (record: Option<&Node>)
        ensures
            match record {
                Some(node) => self@.contains_key(id) && node.id == id && node.values@ == self@[id],
                None => !self@.contains_key(id),
            },
    {
        proof {
            use_type_invariant(self);
        }
        self.nodes.get(&id)
    }

    /// Gives the device `id` an empty record, in place of any it had.
    pub fn insert_node(&mut self, id: u8)
        ensures
            final(self)@ == old(self)@.insert(id, Seq::empty()),
    {
        proof {
            use_type_invariant(&*self);
        }
        let mut nodes = self.take_nodes();
        nodes.insert(id, Node { id, values: Vec::new() });
        self.put_nodes(nodes);
        assert(self@ =~= old(self)@.insert(id, Seq::empty()));
    }

    /// Appends `value` to the record of the device `id`. Where the device
    /// has no record, nothing changes and the error names the device.
    pub fn add_value(&mut self, id: u8, value: ValueID) -> (r: Result<(), RegistryError>)
        ensures
            old(self)@.contains_key(id) ==> r is Ok && final(self)@ == old(self)@.insert(
                id,
                old(self)@[id].push(value),
            ),
            !old(self)@.contains_key(id) ==> r == Err::<(), RegistryError>(
                RegistryError::UnknownNode(id),
            ) && final(self)@ == old(self)@,
    {
        proof {
            use_type_invariant(&*self);
        }
        let mut nodes = self.take_nodes();
        let found = nodes.remove(&id);
        let r = match found {
            Some(node) => {
                let mut node = node;
                node.values.push(value);
                nodes.insert(id, node);
                Ok(())
            },
            None => Err(RegistryError::UnknownNode(id)),
        };
        self.put_nodes(nodes);
        assert(old(self)@.contains_key(id) ==> self@ =~= old(self)@.insert(
            id,
            old(self)@[id].push(value),
        ));
        assert(!old(self)@.contains_key(id) ==> self@ =~= old(self)@);
        r
    }

    /// Takes one event into the registry. Where the event is refused,
    /// nothing changes.
    pub fn apply(&mut self, event: &Notification) -> (r: Result<(), RegistryError>)
        ensures
            match effect(old(self)@, *event) {
                Ok(records) => r is Ok && final(self)@ == records,
                Err(e) => r == Err::<(), RegistryError>(e) && final(self)@ == old(self)@,
            },
    {
        match event.notification_type {
            NotificationType::NodeNew => {
                self.insert_node(event.node_id);
                Ok(())
            },
            NotificationType::ValueAdded => self.add_value(event.node_id, event.value_id),
            _ => Ok(()),
        }
    }

    /// Takes a sequence of events into the registry, in order, and stops at
    /// the first that is refused: the events before it have been taken in,
    /// and the error tells which event it was and why it was refused.
    pub fn apply_all(&mut self, events: &Vec<Notification>) -> (r: Result<(), Rejected>)
        ensures
            match r {
                Ok(()) => fold(old(self)@, events@) == Ok::<Records, RegistryError>(final(self)@),
                Err(rejected) => {
                    &&& rejected.index < events.len()
                    &&& fold(old(self)@, events@.take(rejected.index as int)) == Ok::<
                        Records,
                        RegistryError,
                    >(final(self)@)
                    &&& effect(final(self)@, events[rejected.index as int]) == Err::<
                        Records,
                        RegistryError,
                    >(rejected.error)
                    &&& fold(old(self)@, events@) == Err::<Records, RegistryError>(rejected.error)
                },
            },
    {
        let ghost start = self@;
        let mut i: usize = 0;
        assert(events@.take(0) =~= Seq::<Notification>::empty());
        while i < events.len()
            invariant
                i <= events.len(),
                start == old(self)@,
                fold(start, events@.take(i as int)) == Ok::<Records, RegistryError>(self@),
            decreases events.len() - i,
        {
            assert(events@.take(i + 1).drop_last() =~= events@.take(i as int));
            match self.apply(&events[i]) {
                Ok(()) => {},
                Err(error) => {
                    proof {
                        lemma_fold_stops_at_first_error(start, events@, i + 1, error);
                    }
                    return Err(Rejected { index: i, error });
                },
            }
            i += 1;
        }
        assert(events@.take(i as int) =~= events@);
        Ok(())
    }
}

} // verus!
