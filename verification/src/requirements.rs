//! Delivery requirements and the transport operations they resolve to.

use vstd::prelude::*;

verus! {

/// The reliability and ordering contract requested for one outbound message.
///
/// A stream id names an independent ordering lane; `None` is the default lane.
#[derive(Clone, Copy, Debug, PartialEq, Eq, Hash)]
pub enum DeliveryRequirement {
    /// Fire and forget: may be lost, duplicated or reordered.
    Unreliable,
    /// Unreliable, and stale packets of the lane are dropped on arrival.
    UnreliableSequenced(Option<u8>),
    /// Arrival is guaranteed, order is not.
    Reliable,
    /// Reliable, and stale packets of the lane are dropped on arrival.
    ReliableSequenced(Option<u8>),
    /// Reliable, and delivered in sending order within the lane.
    ReliableOrdered(Option<u8>),
    /// The strongest guarantee the transport has, on the default lane.
    Default,
}

/// Whether the engine retransmits a packet until it has arrived.
#[derive(Clone, Copy, Debug, PartialEq, Eq, Hash)]
pub enum DeliveryGuarantee {
    /// The packet may or may not arrive.
    Unreliable,
    /// The packet arrives, or the failure surfaces.
    Reliable,
}

/// How the engine arranges the packets of one lane on arrival.
#[derive(Clone, Copy, Debug, PartialEq, Eq, Hash)]
pub enum ArrivalOrder {
    /// No arranging.
    Unordered,
    /// Packets older than the newest seen in the lane are dropped.
    Sequenced(Option<u8>),
    /// Packets of the lane are handed over in sending order.
    Ordered(Option<u8>),
}

/// The one send operation of the transport engine that a requirement
/// resolves to. The engine has these five and no other.
#[derive(Clone, Copy, Debug, PartialEq, Eq, Hash)]
pub enum TransportOperation {
    /// Unreliable, no arranging.
    Unreliable,
    /// Unreliable, sequenced within the lane.
    UnreliableSequenced(Option<u8>),
    /// Reliable, no arranging.
    ReliableUnordered,
    /// Reliable, sequenced within the lane.
    ReliableSequenced(Option<u8>),
    /// Reliable, ordered within the lane.
    ReliableOrdered(Option<u8>),
}

impl TransportOperation {
    /// Whether the operation retransmits until the packet has arrived.
    pub open spec fn spec_delivery(self) -> DeliveryGuarantee {
        match self {
            TransportOperation::Unreliable
            | TransportOperation::UnreliableSequenced(_) => DeliveryGuarantee::Unreliable,
            _ => DeliveryGuarantee::Reliable,
        }
    }

    /// How the operation has the packets of its lane arranged on arrival.
    pub open spec fn spec_order(self) -> ArrivalOrder {
        match self {
            TransportOperation::Unreliable | TransportOperation::ReliableUnordered => ArrivalOrder::Unordered,
            TransportOperation::UnreliableSequenced(lane)
            | TransportOperation::ReliableSequenced(lane) => ArrivalOrder::Sequenced(lane),
            TransportOperation::ReliableOrdered(lane) => ArrivalOrder::Ordered(lane),
        }
    }

    /// Whether the operation retransmits until the packet has arrived.
    pub fn delivery(&self) -> (delivery: DeliveryGuarantee)
        ensures
            delivery == self.spec_delivery(),
    {
        match self {
            TransportOperation::Unreliable => DeliveryGuarantee::Unreliable,
            TransportOperation::UnreliableSequenced(_) => DeliveryGuarantee::Unreliable,
            TransportOperation::ReliableUnordered => DeliveryGuarantee::Reliable,
            TransportOperation::ReliableSequenced(_) => DeliveryGuarantee::Reliable,
            TransportOperation::ReliableOrdered(_) => DeliveryGuarantee::Reliable,
        }
    }

    /// How the operation has the packets of its lane arranged on arrival.
    pub fn order(&self) -> (order: ArrivalOrder)
        ensures
            order == self.spec_order(),
    {
        match self {
            TransportOperation::Unreliable => ArrivalOrder::Unordered,
            TransportOperation::UnreliableSequenced(lane) => ArrivalOrder::Sequenced(*lane),
            TransportOperation::ReliableUnordered => ArrivalOrder::Unordered,
            TransportOperation::ReliableSequenced(lane) => ArrivalOrder::Sequenced(*lane),
            TransportOperation::ReliableOrdered(lane) => ArrivalOrder::Ordered(*lane),
        }
    }
}

impl DeliveryRequirement {
    /// Whether the requirement asks for guaranteed arrival.
    pub open spec fn is_reliable(self) -> bool {
        !(self is Unreliable || self is UnreliableSequenced)
    }

    /// The arrangement on arrival that the requirement asks for.
    pub open spec fn arrival_order(self) -> ArrivalOrder {
        match self {
            DeliveryRequirement::Unreliable | DeliveryRequirement::Reliable => ArrivalOrder::Unordered,
            DeliveryRequirement::UnreliableSequenced(lane)
            | DeliveryRequirement::ReliableSequenced(lane) => ArrivalOrder::Sequenced(lane),
            DeliveryRequirement::ReliableOrdered(lane) => ArrivalOrder::Ordered(lane),
            DeliveryRequirement::Default => ArrivalOrder::Ordered(Option::None),
        }
    }

    /// The transport operation of the requirement.
    pub open spec fn spec_operation(self) -> TransportOperation {
        match self {
            DeliveryRequirement::Unreliable => TransportOperation::Unreliable,
            DeliveryRequirement::UnreliableSequenced(lane) => TransportOperation::UnreliableSequenced(lane),
            DeliveryRequirement::Reliable => TransportOperation::ReliableUnordered,
            DeliveryRequirement::ReliableSequenced(lane) => TransportOperation::ReliableSequenced(lane),
            DeliveryRequirement::ReliableOrdered(lane) => TransportOperation::ReliableOrdered(lane),
            DeliveryRequirement::Default => TransportOperation::ReliableOrdered(Option::None),
        }
    }

    /// Resolves the requirement to its transport operation. Every requirement
    /// has exactly one; there is no failure.
    pub fn operation(&self) -> (op: TransportOperation)
        ensures
            op == self.spec_operation(),
    {
        match self {
            DeliveryRequirement::Unreliable => TransportOperation::Unreliable,
            DeliveryRequirement::UnreliableSequenced(lane) => TransportOperation::UnreliableSequenced(
                *lane,
            ),
            DeliveryRequirement::Reliable => TransportOperation::ReliableUnordered,
            DeliveryRequirement::ReliableSequenced(lane) => TransportOperation::ReliableSequenced(*lane),
            DeliveryRequirement::ReliableOrdered(lane) => TransportOperation::ReliableOrdered(*lane),
            DeliveryRequirement::Default => TransportOperation::ReliableOrdered(Option::None),
        }
    }
}

impl Default for DeliveryRequirement {
    fn default() -> (requirement: DeliveryRequirement)
        ensures
            requirement == DeliveryRequirement::Default,
    {
        DeliveryRequirement::Default
    }
}

/// Resolving is a function of the requirement alone: equal requirements
/// resolve to equal operations.
pub proof fn lemma_operation_deterministic(a: DeliveryRequirement, b: DeliveryRequirement)
    requires
        a == b,
    ensures
        a.spec_operation() == b.spec_operation(),
{
}

/// `Default` resolves to what `ReliableOrdered` on the default lane resolves
/// to: the reliable, ordered operation with no explicit lane.
pub proof fn lemma_default_is_reliable_ordered()
    ensures
        DeliveryRequirement::Default.spec_operation()
            == DeliveryRequirement::ReliableOrdered(Option::None).spec_operation(),
        DeliveryRequirement::Default.spec_operation() == TransportOperation::ReliableOrdered(
            Option::None,
        ),
{
}

/// The operation gives what the requirement asks for: it is reliable exactly
/// when the requirement is, and arranges arrivals as the requirement says, on
/// the requirement's lane.
pub proof fn lemma_operation_meets_requirement(requirement: DeliveryRequirement)
    ensures
        requirement.spec_operation().spec_delivery() == DeliveryGuarantee::Reliable
            <==> requirement.is_reliable(),
        requirement.spec_operation().spec_order() == requirement.arrival_order(),
{
}

/// Apart from `Default` and `ReliableOrdered` on the default lane, no two
/// requirements share an operation.
pub proof fn lemma_operation_tells_requirements_apart(a: DeliveryRequirement, b: DeliveryRequirement)
    requires
        a.spec_operation() == b.spec_operation(),
        !(a is Default),
        !(b is Default),
    ensures
        a == b,
{
}

} // verus!
