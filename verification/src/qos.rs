//! The QoS aggregate: one optional slot per policy.  A slot is absent when
//! the policy was never explicitly set or was set to its canonical default;
//! the two cases are deliberately not distinguished here.

use vstd::prelude::*;
use crate::policy::Durability;
use crate::policy::DurabilityService;
use crate::policy::Presentation;
use crate::policy::Deadline;
use crate::policy::LatencyBudget;
use crate::policy::Ownership;
use crate::policy::OwnershipStrength;
use crate::policy::Liveliness;
use crate::policy::TimeBasedFilter;
use crate::policy::Reliability;
use crate::policy::TransportPriority;
use crate::policy::Lifespan;
use crate::policy::DestinationOrder;
use crate::policy::History;
use crate::policy::ResourceLimits;
use crate::policy::WriterDataLifecycle;
use crate::policy::ReaderDataLifecycle;
use crate::policy::WriterBatching;
use crate::policy::TypeConsistency;
use crate::policy::EntityName;
use crate::policy::IgnoreLocal;
use crate::props::Properties;
use crate::props::PropView;

verus! {

/// Mathematical view of a full aggregate: every slot as plain mathematics.
pub ghost struct QosV {
    pub user_data: Option<Seq<u8>>,
    pub topic_data: Option<Seq<u8>>,
    pub group_data: Option<Seq<u8>>,
    pub durability: Option<Durability>,
    pub durability_service: Option<DurabilityService>,
    pub presentation: Option<Presentation>,
    pub deadline: Option<Deadline>,
    pub latency_budget: Option<LatencyBudget>,
    pub ownership: Option<Ownership>,
    pub ownership_strength: Option<OwnershipStrength>,
    pub liveliness: Option<Liveliness>,
    pub time_based_filter: Option<TimeBasedFilter>,
    pub partition: Option<Seq<Seq<char>>>,
    pub reliability: Option<Reliability>,
    pub transport_priority: Option<TransportPriority>,
    pub lifespan: Option<Lifespan>,
    pub destination_order: Option<DestinationOrder>,
    pub history: Option<History>,
    pub resource_limits: Option<ResourceLimits>,
    pub writer_data_lifecycle: Option<WriterDataLifecycle>,
    pub reader_data_lifecycle: Option<ReaderDataLifecycle>,
    pub writer_batching: Option<WriterBatching>,
    pub type_consistency: Option<TypeConsistency>,
    pub entity_name: Option<Seq<char>>,
    pub properties: Option<Seq<PropView>>,
    pub ignore_local: Option<IgnoreLocal>,
    pub data_representation: Option<Seq<u16>>,
}

/// The aggregate of all QoS policies of one entity.
#[derive(Debug, Clone)]
pub struct Qos {
    pub user_data: Option<Vec<u8>>,
    pub topic_data: Option<Vec<u8>>,
    pub group_data: Option<Vec<u8>>,
    pub durability: Option<Durability>,
    pub durability_service: Option<DurabilityService>,
    pub presentation: Option<Presentation>,
    pub deadline: Option<Deadline>,
    pub latency_budget: Option<LatencyBudget>,
    pub ownership: Option<Ownership>,
    pub ownership_strength: Option<OwnershipStrength>,
    pub liveliness: Option<Liveliness>,
    pub time_based_filter: Option<TimeBasedFilter>,
    pub partition: Option<Vec<String>>,
    pub reliability: Option<Reliability>,
    pub transport_priority: Option<TransportPriority>,
    pub lifespan: Option<Lifespan>,
    pub destination_order: Option<DestinationOrder>,
    pub history: Option<History>,
    pub resource_limits: Option<ResourceLimits>,
    pub writer_data_lifecycle: Option<WriterDataLifecycle>,
    pub reader_data_lifecycle: Option<ReaderDataLifecycle>,
    pub writer_batching: Option<WriterBatching>,
    pub type_consistency: Option<TypeConsistency>,
    pub entity_name: Option<EntityName>,
    pub properties: Option<Properties>,
    pub ignore_local: Option<IgnoreLocal>,
    pub data_representation: Option<Vec<u16>>,
}

impl View for Qos {
    type V = QosV;

    open spec fn view(&self) -> QosV {
        QosV {
            user_data: self.user_data.deep_view(),
            topic_data: self.topic_data.deep_view(),
            group_data: self.group_data.deep_view(),
            durability: self.durability.deep_view(),
            durability_service: self.durability_service.deep_view(),
            presentation: self.presentation.deep_view(),
            deadline: self.deadline.deep_view(),
            latency_budget: self.latency_budget.deep_view(),
            ownership: self.ownership.deep_view(),
            ownership_strength: self.ownership_strength.deep_view(),
            liveliness: self.liveliness.deep_view(),
            time_based_filter: self.time_based_filter.deep_view(),
            partition: self.partition.deep_view(),
            reliability: self.reliability.deep_view(),
            transport_priority: self.transport_priority.deep_view(),
            lifespan: self.lifespan.deep_view(),
            destination_order: self.destination_order.deep_view(),
            history: self.history.deep_view(),
            resource_limits: self.resource_limits.deep_view(),
            writer_data_lifecycle: self.writer_data_lifecycle.deep_view(),
            reader_data_lifecycle: self.reader_data_lifecycle.deep_view(),
            writer_batching: self.writer_batching.deep_view(),
            type_consistency: self.type_consistency.deep_view(),
            entity_name: self.entity_name.deep_view(),
            properties: self.properties.deep_view(),
            ignore_local: self.ignore_local.deep_view(),
            data_representation: self.data_representation.deep_view(),
        }
    }
}

/// The fully-absent aggregate: no policy explicitly set.
pub open spec fn spec_qos_absent() -> QosV {
    QosV {
        user_data: None,
        topic_data: None,
        group_data: None,
        durability: None,
        durability_service: None,
        presentation: None,
        deadline: None,
        latency_budget: None,
        ownership: None,
        ownership_strength: None,
        liveliness: None,
        time_based_filter: None,
        partition: None,
        reliability: None,
        transport_priority: None,
        lifespan: None,
        destination_order: None,
        history: None,
        resource_limits: None,
        writer_data_lifecycle: None,
        reader_data_lifecycle: None,
        writer_batching: None,
        type_consistency: None,
        entity_name: None,
        properties: None,
        ignore_local: None,
        data_representation: None,
    }
}

/// Every policy slot is populated.
pub open spec fn spec_qos_all_set(q: QosV) -> bool {
    &&& q.user_data is Some
    &&& q.topic_data is Some
    &&& q.group_data is Some
    &&& q.durability is Some
    &&& q.durability_service is Some
    &&& q.presentation is Some
    &&& q.deadline is Some
    &&& q.latency_budget is Some
    &&& q.ownership is Some
    &&& q.ownership_strength is Some
    &&& q.liveliness is Some
    &&& q.time_based_filter is Some
    &&& q.partition is Some
    &&& q.reliability is Some
    &&& q.transport_priority is Some
    &&& q.lifespan is Some
    &&& q.destination_order is Some
    &&& q.history is Some
    &&& q.resource_limits is Some
    &&& q.writer_data_lifecycle is Some
    &&& q.reader_data_lifecycle is Some
    &&& q.writer_batching is Some
    &&& q.type_consistency is Some
    &&& q.entity_name is Some
    &&& q.properties is Some
    &&& q.ignore_local is Some
    &&& q.data_representation is Some
}

impl Qos {
    /// Aggregate with every policy slot absent.
    pub fn new() -> (r: Qos)
        ensures
            r@ == spec_qos_absent(),
    {
        Qos {
            user_data: None,
            topic_data: None,
            group_data: None,
            durability: None,
            durability_service: None,
            presentation: None,
            deadline: None,
            latency_budget: None,
            ownership: None,
            ownership_strength: None,
            liveliness: None,
            time_based_filter: None,
            partition: None,
            reliability: None,
            transport_priority: None,
            lifespan: None,
            destination_order: None,
            history: None,
            resource_limits: None,
            writer_data_lifecycle: None,
            reader_data_lifecycle: None,
            writer_batching: None,
            type_consistency: None,
            entity_name: None,
            properties: None,
            ignore_local: None,
            data_representation: None,
        }
    }
}

fn bytes_eq(x: &Vec<u8>, y: &Vec<u8>) -> (r: bool)
    ensures
        r == (x.deep_view() == y.deep_view()),
{
    if x.len() != y.len() {
        proof {
            assert(x.deep_view().len() != y.deep_view().len());
        }
        return false;
    }
    let n = x.len();
    let mut i: usize = 0;
    while i < n
        invariant
            n == x@.len(),
            n == y@.len(),
            i <= n,
            forall|m: int| 0 <= m < i ==> x@[m] == y@[m],
        decreases n - i,
    {
        if x[i] != y[i] {
            proof {
                assert(x.deep_view()[i as int] != y.deep_view()[i as int]);
            }
            return false;
        }
        i += 1;
    }
    proof {
        assert(x.deep_view() =~= y.deep_view());
    }
    true
}

fn u16s_eq(x: &Vec<u16>, y: &Vec<u16>) -> (r: bool)
    ensures
        r == (x.deep_view() == y.deep_view()),
{
    if x.len() != y.len() {
        proof {
            assert(x.deep_view().len() != y.deep_view().len());
        }
        return false;
    }
    let n = x.len();
    let mut i: usize = 0;
    while i < n
        invariant
            n == x@.len(),
            n == y@.len(),
            i <= n,
            forall|m: int| 0 <= m < i ==> x@[m] == y@[m],
        decreases n - i,
    {
        if x[i] != y[i] {
            proof {
                assert(x.deep_view()[i as int] != y.deep_view()[i as int]);
            }
            return false;
        }
        i += 1;
    }
    proof {
        assert(x.deep_view() =~= y.deep_view());
    }
    true
}

fn strings_eq(x: &Vec<String>, y: &Vec<String>) -> (r: bool)
    ensures
        r == (x.deep_view() == y.deep_view()),
{
    if x.len() != y.len() {
        proof {
            assert(x.deep_view().len() != y.deep_view().len());
        }
        return false;
    }
    let n = x.len();
    let mut i: usize = 0;
    while i < n
        invariant
            n == x@.len(),
            n == y@.len(),
            i <= n,
            forall|m: int| 0 <= m < i ==> #[trigger] x.deep_view()[m] == y.deep_view()[m],
        decreases n - i,
    {
        if !x[i].eq(&y[i]) {
            proof {
                assert(x.deep_view()[i as int] != y.deep_view()[i as int]);
            }
            return false;
        }
        i += 1;
    }
    proof {
        assert(x.deep_view() =~= y.deep_view());
    }
    true
}

fn opt_bytes_eq(a: &Option<Vec<u8>>, b: &Option<Vec<u8>>) -> (r: bool)
    ensures
        r == (a.deep_view() == b.deep_view()),
{
    match (a, b) {
        (Some(x), Some(y)) => bytes_eq(x, y),
        (None, None) => true,
        _ => false,
    }
}

fn opt_u16s_eq(a: &Option<Vec<u16>>, b: &Option<Vec<u16>>) -> (r: bool)
    ensures
        r == (a.deep_view() == b.deep_view()),
{
    match (a, b) {
        (Some(x), Some(y)) => u16s_eq(x, y),
        (None, None) => true,
        _ => false,
    }
}

fn opt_strings_eq(a: &Option<Vec<String>>, b: &Option<Vec<String>>) -> (r: bool)
    ensures
        r == (a.deep_view() == b.deep_view()),
{
    match (a, b) {
        (Some(x), Some(y)) => strings_eq(x, y),
        (None, None) => true,
        _ => false,
    }
}

fn opt_entity_name_eq(a: &Option<EntityName>, b: &Option<EntityName>) -> (r: bool)
    ensures
        r == (a.deep_view() == b.deep_view()),
{
    match (a, b) {
        (Some(x), Some(y)) => x.name.eq(&y.name),
        (None, None) => true,
        _ => false,
    }
}

fn opt_properties_eq(a: &Option<Properties>, b: &Option<Properties>) -> (r: bool)
    ensures
        r == (a.deep_view() == b.deep_view()),
{
    match (a, b) {
        (Some(x), Some(y)) => x.eq(y),
        (None, None) => true,
        _ => false,
    }
}

impl Qos {
    fn kinds_eq(&self, other: &Qos) -> (r: bool)
        ensures
            r == (self@.durability == other@.durability && self@.durability_service
                == other@.durability_service && self@.presentation == other@.presentation
                && self@.deadline == other@.deadline && self@.latency_budget
                == other@.latency_budget && self@.ownership == other@.ownership
                && self@.ownership_strength == other@.ownership_strength),
    {
        (match (&self.durability, &other.durability) {
            (Some(x), Some(y)) => *x == *y,
            (None, None) => true,
            _ => false,
        }) && (match (&self.durability_service, &other.durability_service) {
            (Some(x), Some(y)) => *x == *y,
            (None, None) => true,
            _ => false,
        }) && (match (&self.presentation, &other.presentation) {
            (Some(x), Some(y)) => *x == *y,
            (None, None) => true,
            _ => false,
        }) && (match (&self.deadline, &other.deadline) {
            (Some(x), Some(y)) => *x == *y,
            (None, None) => true,
            _ => false,
        }) && (match (&self.latency_budget, &other.latency_budget) {
            (Some(x), Some(y)) => *x == *y,
            (None, None) => true,
            _ => false,
        }) && (match (&self.ownership, &other.ownership) {
            (Some(x), Some(y)) => *x == *y,
            (None, None) => true,
            _ => false,
        }) && (match (&self.ownership_strength, &other.ownership_strength) {
            (Some(x), Some(y)) => *x == *y,
            (None, None) => true,
            _ => false,
        })
    }

    fn timings_eq(&self, other: &Qos) -> (r: bool)
        ensures
            r == (self@.liveliness == other@.liveliness && self@.time_based_filter
                == other@.time_based_filter && self@.reliability == other@.reliability
                && self@.transport_priority == other@.transport_priority && self@.lifespan
                == other@.lifespan && self@.destination_order == other@.destination_order
                && self@.history == other@.history),
    {
        (match (&self.liveliness, &other.liveliness) {
            (Some(x), Some(y)) => *x == *y,
            (None, None) => true,
            _ => false,
        }) && (match (&self.time_based_filter, &other.time_based_filter) {
            (Some(x), Some(y)) => *x == *y,
            (None, None) => true,
            _ => false,
        }) && (match (&self.reliability, &other.reliability) {
            (Some(x), Some(y)) => *x == *y,
            (None, None) => true,
            _ => false,
        }) && (match (&self.transport_priority, &other.transport_priority) {
            (Some(x), Some(y)) => *x == *y,
            (None, None) => true,
            _ => false,
        }) && (match (&self.lifespan, &other.lifespan) {
            (Some(x), Some(y)) => *x == *y,
            (None, None) => true,
            _ => false,
        }) && (match (&self.destination_order, &other.destination_order) {
            (Some(x), Some(y)) => *x == *y,
            (None, None) => true,
            _ => false,
        }) && (match (&self.history, &other.history) {
            (Some(x), Some(y)) => *x == *y,
            (None, None) => true,
            _ => false,
        })
    }

    fn limits_eq(&self, other: &Qos) -> (r: bool)
        ensures
            r == (self@.resource_limits == other@.resource_limits && self@.writer_data_lifecycle
                == other@.writer_data_lifecycle && self@.reader_data_lifecycle
                == other@.reader_data_lifecycle && self@.writer_batching == other@.writer_batching
                && self@.type_consistency == other@.type_consistency && self@.ignore_local
                == other@.ignore_local),
    {
        (match (&self.resource_limits, &other.resource_limits) {
            (Some(x), Some(y)) => *x == *y,
            (None, None) => true,
            _ => false,
        }) && (match (&self.writer_data_lifecycle, &other.writer_data_lifecycle) {
            (Some(x), Some(y)) => *x == *y,
            (None, None) => true,
            _ => false,
        }) && (match (&self.reader_data_lifecycle, &other.reader_data_lifecycle) {
            (Some(x), Some(y)) => *x == *y,
            (None, None) => true,
            _ => false,
        }) && (match (&self.writer_batching, &other.writer_batching) {
            (Some(x), Some(y)) => *x == *y,
            (None, None) => true,
            _ => false,
        }) && (match (&self.type_consistency, &other.type_consistency) {
            (Some(x), Some(y)) => *x == *y,
            (None, None) => true,
            _ => false,
        }) && (match (&self.ignore_local, &other.ignore_local) {
            (Some(x), Some(y)) => *x == *y,
            (None, None) => true,
            _ => false,
        })
    }

    fn buffers_eq(&self, other: &Qos) -> (r: bool)
        ensures
            r == (self@.user_data == other@.user_data && self@.topic_data == other@.topic_data
                && self@.group_data == other@.group_data && self@.partition == other@.partition
                && self@.entity_name == other@.entity_name && self@.properties
                == other@.properties && self@.data_representation == other@.data_representation),
    {
        opt_bytes_eq(&self.user_data, &other.user_data) && opt_bytes_eq(
            &self.topic_data,
            &other.topic_data,
        ) && opt_bytes_eq(&self.group_data, &other.group_data) && opt_strings_eq(
            &self.partition,
            &other.partition,
        ) && opt_entity_name_eq(&self.entity_name, &other.entity_name) && opt_properties_eq(
            &self.properties,
            &other.properties,
        ) && opt_u16s_eq(&self.data_representation, &other.data_representation)
    }
}

impl PartialEq for Qos {
    fn eq(&self, other: &Qos) -> (r: bool) {
        self.kinds_eq(other) && self.timings_eq(other) && self.limits_eq(other) && self.buffers_eq(
            other,
        )
    }
}

impl vstd::std_specs::cmp::PartialEqSpecImpl for Qos {
    open spec fn obeys_eq_spec() -> bool {
        true
    }

    open spec fn eq_spec(&self, other: &Qos) -> bool {
        self@ == other@
    }
}

/// True exactly when no policy slot of `qos` is populated.
pub fn assert_no_policies_set(qos: &Qos) -> (r: bool)
    ensures
        r == (qos@ == spec_qos_absent()),
{
    qos.user_data.is_none() && qos.topic_data.is_none() && qos.group_data.is_none()
        && qos.durability.is_none() && qos.durability_service.is_none()
        && qos.presentation.is_none() && qos.deadline.is_none() && qos.latency_budget.is_none()
        && qos.ownership.is_none() && qos.ownership_strength.is_none() && qos.liveliness.is_none()
        && qos.time_based_filter.is_none() && qos.partition.is_none() && qos.reliability.is_none()
        && qos.transport_priority.is_none() && qos.lifespan.is_none()
        && qos.destination_order.is_none() && qos.history.is_none()
        && qos.resource_limits.is_none() && qos.writer_data_lifecycle.is_none()
        && qos.reader_data_lifecycle.is_none() && qos.writer_batching.is_none()
        && qos.type_consistency.is_none() && qos.entity_name.is_none()
        && qos.properties.is_none() && qos.ignore_local.is_none()
        && qos.data_representation.is_none()
}

/// True exactly when every policy slot of `qos` is populated.
pub fn assert_all_policies_set(qos: &Qos) -> (r: bool)
    ensures
        r == spec_qos_all_set(qos@),
{
    qos.user_data.is_some() && qos.topic_data.is_some() && qos.group_data.is_some()
        && qos.durability.is_some() && qos.durability_service.is_some()
        && qos.presentation.is_some() && qos.deadline.is_some() && qos.latency_budget.is_some()
        && qos.ownership.is_some() && qos.ownership_strength.is_some() && qos.liveliness.is_some()
        && qos.time_based_filter.is_some() && qos.partition.is_some() && qos.reliability.is_some()
        && qos.transport_priority.is_some() && qos.lifespan.is_some()
        && qos.destination_order.is_some() && qos.history.is_some()
        && qos.resource_limits.is_some() && qos.writer_data_lifecycle.is_some()
        && qos.reader_data_lifecycle.is_some() && qos.writer_batching.is_some()
        && qos.type_consistency.is_some() && qos.entity_name.is_some()
        && qos.properties.is_some() && qos.ignore_local.is_some()
        && qos.data_representation.is_some()
}

} // verus!
