//! Native accessor adapters and the aggregate marshaler: one decode/encode
//! pair per policy against the modeled configuration object, the aggregate
//! `from_qos_native` / `to_qos_native` pair, and the laws they obey.
//!
//! Every decode applies the default-elision engine; no encode re-elides.  An
//! unrecognized enumeration code read from the configuration object is a
//! protocol violation: it means the binding disagrees with the library, and
//! the whole marshaling call fails rather than silently coercing.

use vstd::prelude::*;
use crate::QosError;
use crate::elide::elide;
use crate::elide::to_option;
use crate::elide::HasCanonicalDefault;
use crate::native::NativeQos;
use crate::native::NativeV;
use crate::native::spec_native_default;
use crate::policy::Durability;
use crate::policy::DurabilityKind;
use crate::policy::DurabilityService;
use crate::policy::Presentation;
use crate::policy::PresentationAccessScopeKind;
use crate::policy::Deadline;
use crate::policy::LatencyBudget;
use crate::policy::Ownership;
use crate::policy::OwnershipKind;
use crate::policy::OwnershipStrength;
use crate::policy::Liveliness;
use crate::policy::LivelinessKind;
use crate::policy::TimeBasedFilter;
use crate::policy::Reliability;
use crate::policy::ReliabilityKind;
use crate::policy::TransportPriority;
use crate::policy::Lifespan;
use crate::policy::DestinationOrder;
use crate::policy::DestinationOrderKind;
use crate::policy::History;
use crate::policy::HistoryKind;
use crate::policy::ResourceLimits;
use crate::policy::WriterDataLifecycle;
use crate::policy::ReaderDataLifecycle;
use crate::policy::WriterBatching;
use crate::policy::TypeConsistency;
use crate::policy::TypeConsistencyKind;
use crate::policy::EntityName;
use crate::policy::IgnoreLocal;
use crate::policy::IgnoreLocalKind;
use crate::props::Properties;
use crate::props::PropView;
use crate::props::props_wf;
use crate::props::spec_props_get;
use crate::props::spec_props_insert;
use crate::props::spec_props_insert_all;
use crate::props::lemma_props_get_of_index;
use crate::props::lemma_props_insert_fresh;
use crate::props::lemma_props_insert_all_of_wf;
use crate::qos::Qos;
use crate::qos::QosV;
use crate::qos::spec_qos_absent;

verus! {

// ---------------------------------------------------------------------------
// Byte-blob policies.
// ---------------------------------------------------------------------------

pub open spec fn spec_user_data_from_native(nv: NativeV) -> Option<Seq<u8>> {
    elide(nv.user_data, Seq::empty())
}

pub fn user_data_from_qos_native(qos: &NativeQos) -> (r: Option<Vec<u8>>)
    ensures
        r.deep_view() == spec_user_data_from_native(qos@),
{
    let value = qos.get_userdata();
    proof {
        assert(value.deep_view() =~= qos@.user_data);
    }
    to_option(value)
}

pub open spec fn spec_user_data_to_native(nv: NativeV, ud: Option<Seq<u8>>) -> NativeV {
    match ud {
        Some(b) => NativeV { user_data: b, ..nv },
        None => nv,
    }
}

pub fn user_data_to_qos_native(qos: &mut NativeQos, user_data: &Option<Vec<u8>>)
    ensures
        final(qos)@ == spec_user_data_to_native(old(qos)@, user_data.deep_view()),
{
    if let Some(user_data) = user_data {
        qos.set_userdata(user_data);
        proof {
            assert(user_data.deep_view() =~= user_data@);
        }
    }
}

pub open spec fn spec_topic_data_from_native(nv: NativeV) -> Option<Seq<u8>> {
    elide(nv.topic_data, Seq::empty())
}

pub fn topic_data_from_qos_native(qos: &NativeQos) -> (r: Option<Vec<u8>>)
    ensures
        r.deep_view() == spec_topic_data_from_native(qos@),
{
    let value = qos.get_topicdata();
    proof {
        assert(value.deep_view() =~= qos@.topic_data);
    }
    to_option(value)
}

pub open spec fn spec_topic_data_to_native(nv: NativeV, td: Option<Seq<u8>>) -> NativeV {
    match td {
        Some(b) => NativeV { topic_data: b, ..nv },
        None => nv,
    }
}

pub fn topic_data_to_qos_native(qos: &mut NativeQos, topic_data: &Option<Vec<u8>>)
    ensures
        final(qos)@ == spec_topic_data_to_native(old(qos)@, topic_data.deep_view()),
{
    if let Some(topic_data) = topic_data {
        qos.set_topicdata(topic_data);
        proof {
            assert(topic_data.deep_view() =~= topic_data@);
        }
    }
}

pub open spec fn spec_group_data_from_native(nv: NativeV) -> Option<Seq<u8>> {
    elide(nv.group_data, Seq::empty())
}

pub fn group_data_from_qos_native(qos: &NativeQos) -> (r: Option<Vec<u8>>)
    ensures
        r.deep_view() == spec_group_data_from_native(qos@),
{
    let value = qos.get_groupdata();
    proof {
        assert(value.deep_view() =~= qos@.group_data);
    }
    to_option(value)
}

pub open spec fn spec_group_data_to_native(nv: NativeV, gd: Option<Seq<u8>>) -> NativeV {
    match gd {
        Some(b) => NativeV { group_data: b, ..nv },
        None => nv,
    }
}

pub fn group_data_to_qos_native(qos: &mut NativeQos, group_data: &Option<Vec<u8>>)
    ensures
        final(qos)@ == spec_group_data_to_native(old(qos)@, group_data.deep_view()),
{
    if let Some(group_data) = group_data {
        qos.set_groupdata(group_data);
        proof {
            assert(group_data.deep_view() =~= group_data@);
        }
    }
}

// ---------------------------------------------------------------------------
// Enumeration-bearing policies.
// ---------------------------------------------------------------------------

pub open spec fn spec_durability_from_native(nv: NativeV) -> Result<Option<Durability>, QosError> {
    match DurabilityKind::spec_from_code(nv.durability_kind) {
        Some(kind) => Ok(elide(Durability { kind }, Durability::canonical_default_view())),
        None => Err(QosError::ProtocolViolation),
    }
}

pub fn durability_from_qos_native(qos: &NativeQos) -> (r: Result<Option<Durability>, QosError>)
    ensures
        r == spec_durability_from_native(qos@),
{
    let code = qos.get_durability();
    match DurabilityKind::from_code(code) {
        Some(kind) => Ok(to_option(Durability { kind })),
        None => Err(QosError::ProtocolViolation),
    }
}

pub open spec fn spec_durability_to_native(nv: NativeV, d: Option<Durability>) -> NativeV {
    match d {
        Some(d) => NativeV { durability_kind: d.kind.spec_code(), ..nv },
        None => nv,
    }
}

pub fn durability_to_qos_native(qos: &mut NativeQos, durability: &Option<Durability>)
    ensures
        final(qos)@ == spec_durability_to_native(old(qos)@, durability.deep_view()),
{
    if let Some(durability) = durability {
        qos.set_durability(durability.kind.code());
    }
}

pub open spec fn spec_durability_service_from_native(nv: NativeV) -> Result<
    Option<DurabilityService>,
    QosError,
> {
    match HistoryKind::spec_from_code(nv.durability_service_history_kind) {
        Some(history_kind) => Ok(
            elide(
                DurabilityService {
                    service_cleanup_delay: nv.durability_service_cleanup_delay,
                    history_kind,
                    history_depth: nv.durability_service_history_depth,
                    max_samples: nv.durability_service_max_samples,
                    max_instances: nv.durability_service_max_instances,
                    max_samples_per_instance: nv.durability_service_max_samples_per_instance,
                },
                DurabilityService::canonical_default_view(),
            ),
        ),
        None => Err(QosError::ProtocolViolation),
    }
}

pub fn durability_service_from_qos_native(qos: &NativeQos) -> (r: Result<
    Option<DurabilityService>,
    QosError,
>)
    ensures
        r == spec_durability_service_from_native(qos@),
{
    let (service_cleanup_delay, kind_code, history_depth, max_samples, max_instances,
        max_samples_per_instance) = qos.get_durability_service();
    match HistoryKind::from_code(kind_code) {
        Some(history_kind) => Ok(
            to_option(
                DurabilityService {
                    service_cleanup_delay,
                    history_kind,
                    history_depth,
                    max_samples,
                    max_instances,
                    max_samples_per_instance,
                },
            ),
        ),
        None => Err(QosError::ProtocolViolation),
    }
}

pub open spec fn spec_durability_service_to_native(
    nv: NativeV,
    d: Option<DurabilityService>,
) -> NativeV {
    match d {
        Some(d) => NativeV {
            durability_service_cleanup_delay: d.service_cleanup_delay,
            durability_service_history_kind: d.history_kind.spec_code(),
            durability_service_history_depth: d.history_depth,
            durability_service_max_samples: d.max_samples,
            durability_service_max_instances: d.max_instances,
            durability_service_max_samples_per_instance: d.max_samples_per_instance,
            ..nv
        },
        None => nv,
    }
}

pub fn durability_service_to_qos_native(
    qos: &mut NativeQos,
    durability_service: &Option<DurabilityService>,
)
    ensures
        final(qos)@ == spec_durability_service_to_native(
            old(qos)@,
            durability_service.deep_view(),
        ),
{
    if let Some(d) = durability_service {
        qos.set_durability_service(
            d.service_cleanup_delay,
            d.history_kind.code(),
            d.history_depth,
            d.max_samples,
            d.max_instances,
            d.max_samples_per_instance,
        );
    }
}

pub open spec fn spec_presentation_from_native(nv: NativeV) -> Result<
    Option<Presentation>,
    QosError,
> {
    match PresentationAccessScopeKind::spec_from_code(nv.presentation_access_scope) {
        Some(access_scope) => Ok(
            elide(
                Presentation {
                    access_scope,
                    coherent_access: nv.presentation_coherent_access,
                    ordered_access: nv.presentation_ordered_access,
                },
                Presentation::canonical_default_view(),
            ),
        ),
        None => Err(QosError::ProtocolViolation),
    }
}

pub fn presentation_from_qos_native(qos: &NativeQos) -> (r: Result<Option<Presentation>, QosError>)
    ensures
        r == spec_presentation_from_native(qos@),
{
    let (scope_code, coherent_access, ordered_access) = qos.get_presentation();
    match PresentationAccessScopeKind::from_code(scope_code) {
        Some(access_scope) => Ok(
            to_option(Presentation { access_scope, coherent_access, ordered_access }),
        ),
        None => Err(QosError::ProtocolViolation),
    }
}

pub open spec fn spec_presentation_to_native(nv: NativeV, p: Option<Presentation>) -> NativeV {
    match p {
        Some(p) => NativeV {
            presentation_access_scope: p.access_scope.spec_code(),
            presentation_coherent_access: p.coherent_access,
            presentation_ordered_access: p.ordered_access,
            ..nv
        },
        None => nv,
    }
}

pub fn presentation_to_qos_native(qos: &mut NativeQos, presentation: &Option<Presentation>)
    ensures
        final(qos)@ == spec_presentation_to_native(old(qos)@, presentation.deep_view()),
{
    if let Some(p) = presentation {
        qos.set_presentation(p.access_scope.code(), p.coherent_access, p.ordered_access);
    }
}

pub open spec fn spec_ownership_from_native(nv: NativeV) -> Result<Option<Ownership>, QosError> {
    match OwnershipKind::spec_from_code(nv.ownership_kind) {
        Some(kind) => Ok(elide(Ownership { kind }, Ownership::canonical_default_view())),
        None => Err(QosError::ProtocolViolation),
    }
}

pub fn ownership_from_qos_native(qos: &NativeQos) -> (r: Result<Option<Ownership>, QosError>)
    ensures
        r == spec_ownership_from_native(qos@),
{
    let code = qos.get_ownership();
    match OwnershipKind::from_code(code) {
        Some(kind) => Ok(to_option(Ownership { kind })),
        None => Err(QosError::ProtocolViolation),
    }
}

pub open spec fn spec_ownership_to_native(nv: NativeV, o: Option<Ownership>) -> NativeV {
    match o {
        Some(o) => NativeV { ownership_kind: o.kind.spec_code(), ..nv },
        None => nv,
    }
}

pub fn ownership_to_qos_native(qos: &mut NativeQos, ownership: &Option<Ownership>)
    ensures
        final(qos)@ == spec_ownership_to_native(old(qos)@, ownership.deep_view()),
{
    if let Some(ownership) = ownership {
        qos.set_ownership(ownership.kind.code());
    }
}

pub open spec fn spec_liveliness_from_native(nv: NativeV) -> Result<Option<Liveliness>, QosError> {
    match LivelinessKind::spec_from_code(nv.liveliness_kind) {
        Some(kind) => Ok(
            elide(
                Liveliness { kind, lease_duration: nv.liveliness_lease_duration },
                Liveliness::canonical_default_view(),
            ),
        ),
        None => Err(QosError::ProtocolViolation),
    }
}

pub fn liveliness_from_qos_native(qos: &NativeQos) -> (r: Result<Option<Liveliness>, QosError>)
    ensures
        r == spec_liveliness_from_native(qos@),
{
    let (code, lease_duration) = qos.get_liveliness();
    match LivelinessKind::from_code(code) {
        Some(kind) => Ok(to_option(Liveliness { kind, lease_duration })),
        None => Err(QosError::ProtocolViolation),
    }
}

pub open spec fn spec_liveliness_to_native(nv: NativeV, l: Option<Liveliness>) -> NativeV {
    match l {
        Some(l) => NativeV {
            liveliness_kind: l.kind.spec_code(),
            liveliness_lease_duration: l.lease_duration,
            ..nv
        },
        None => nv,
    }
}

pub fn liveliness_to_qos_native(qos: &mut NativeQos, liveliness: &Option<Liveliness>)
    ensures
        final(qos)@ == spec_liveliness_to_native(old(qos)@, liveliness.deep_view()),
{
    if let Some(liveliness) = liveliness {
        qos.set_liveliness(liveliness.kind.code(), liveliness.lease_duration);
    }
}

pub open spec fn spec_reliability_from_native(nv: NativeV) -> Result<Option<Reliability>, QosError> {
    match ReliabilityKind::spec_from_code(nv.reliability_kind) {
        Some(kind) => Ok(
            elide(
                Reliability { kind, max_blocking_time: nv.reliability_max_blocking_time },
                Reliability::canonical_default_view(),
            ),
        ),
        None => Err(QosError::ProtocolViolation),
    }
}

pub fn reliability_from_qos_native(qos: &NativeQos) -> (r: Result<Option<Reliability>, QosError>)
    ensures
        r == spec_reliability_from_native(qos@),
{
    let (code, max_blocking_time) = qos.get_reliability();
    match ReliabilityKind::from_code(code) {
        Some(kind) => Ok(to_option(Reliability { kind, max_blocking_time })),
        None => Err(QosError::ProtocolViolation),
    }
}

pub open spec fn spec_reliability_to_native(nv: NativeV, re: Option<Reliability>) -> NativeV {
    match re {
        Some(re) => NativeV {
            reliability_kind: re.kind.spec_code(),
            reliability_max_blocking_time: re.max_blocking_time,
            ..nv
        },
        None => nv,
    }
}

pub fn reliability_to_qos_native(qos: &mut NativeQos, reliability: &Option<Reliability>)
    ensures
        final(qos)@ == spec_reliability_to_native(old(qos)@, reliability.deep_view()),
{
    if let Some(reliability) = reliability {
        qos.set_reliability(reliability.kind.code(), reliability.max_blocking_time);
    }
}

pub open spec fn spec_destination_order_from_native(nv: NativeV) -> Result<
    Option<DestinationOrder>,
    QosError,
> {
    match DestinationOrderKind::spec_from_code(nv.destination_order_kind) {
        Some(kind) => Ok(
            elide(DestinationOrder { kind }, DestinationOrder::canonical_default_view()),
        ),
        None => Err(QosError::ProtocolViolation),
    }
}

pub fn destination_order_from_qos_native(qos: &NativeQos) -> (r: Result<
    Option<DestinationOrder>,
    QosError,
>)
    ensures
        r == spec_destination_order_from_native(qos@),
{
    let code = qos.get_destination_order();
    match DestinationOrderKind::from_code(code) {
        Some(kind) => Ok(to_option(DestinationOrder { kind })),
        None => Err(QosError::ProtocolViolation),
    }
}

pub open spec fn spec_destination_order_to_native(
    nv: NativeV,
    d: Option<DestinationOrder>,
) -> NativeV {
    match d {
        Some(d) => NativeV { destination_order_kind: d.kind.spec_code(), ..nv },
        None => nv,
    }
}

pub fn destination_order_to_qos_native(
    qos: &mut NativeQos,
    destination_order: &Option<DestinationOrder>,
)
    ensures
        final(qos)@ == spec_destination_order_to_native(old(qos)@, destination_order.deep_view()),
{
    if let Some(destination_order) = destination_order {
        qos.set_destination_order(destination_order.kind.code());
    }
}

pub open spec fn spec_history_from_native(nv: NativeV) -> Result<Option<History>, QosError> {
    match HistoryKind::spec_from_code(nv.history_kind) {
        Some(kind) => Ok(
            elide(History { kind, depth: nv.history_depth }, History::canonical_default_view()),
        ),
        None => Err(QosError::ProtocolViolation),
    }
}

pub fn history_from_qos_native(qos: &NativeQos) -> (r: Result<Option<History>, QosError>)
    ensures
        r == spec_history_from_native(qos@),
{
    let (code, depth) = qos.get_history();
    match HistoryKind::from_code(code) {
        Some(kind) => Ok(to_option(History { kind, depth })),
        None => Err(QosError::ProtocolViolation),
    }
}

pub open spec fn spec_history_to_native(nv: NativeV, h: Option<History>) -> NativeV {
    match h {
        Some(h) => NativeV { history_kind: h.kind.spec_code(), history_depth: h.depth, ..nv },
        None => nv,
    }
}

pub fn history_to_qos_native(qos: &mut NativeQos, history: &Option<History>)
    ensures
        final(qos)@ == spec_history_to_native(old(qos)@, history.deep_view()),
{
    if let Some(history) = history {
        qos.set_history(history.kind.code(), history.depth);
    }
}

pub open spec fn spec_type_consistency_from_native(nv: NativeV) -> Result<
    Option<TypeConsistency>,
    QosError,
> {
    match TypeConsistencyKind::spec_from_code(nv.type_consistency_kind) {
        Some(kind) => Ok(
            elide(
                TypeConsistency {
                    kind,
                    ignore_sequence_bounds: nv.type_consistency_ignore_sequence_bounds,
                    ignore_string_bounds: nv.type_consistency_ignore_string_bounds,
                    ignore_member_names: nv.type_consistency_ignore_member_names,
                    prevent_type_widening: nv.type_consistency_prevent_type_widening,
                    force_type_validation: nv.type_consistency_force_type_validation,
                },
                TypeConsistency::canonical_default_view(),
            ),
        ),
        None => Err(QosError::ProtocolViolation),
    }
}

pub fn type_consistency_from_qos_native(qos: &NativeQos) -> (r: Result<
    Option<TypeConsistency>,
    QosError,
>)
    ensures
        r == spec_type_consistency_from_native(qos@),
{
    let (code, ignore_sequence_bounds, ignore_string_bounds, ignore_member_names,
        prevent_type_widening, force_type_validation) = qos.get_type_consistency();
    match TypeConsistencyKind::from_code(code) {
        Some(kind) => Ok(
            to_option(
                TypeConsistency {
                    kind,
                    ignore_sequence_bounds,
                    ignore_string_bounds,
                    ignore_member_names,
                    prevent_type_widening,
                    force_type_validation,
                },
            ),
        ),
        None => Err(QosError::ProtocolViolation),
    }
}

pub open spec fn spec_type_consistency_to_native(
    nv: NativeV,
    t: Option<TypeConsistency>,
) -> NativeV {
    match t {
        Some(t) => NativeV {
            type_consistency_kind: t.kind.spec_code(),
            type_consistency_ignore_sequence_bounds: t.ignore_sequence_bounds,
            type_consistency_ignore_string_bounds: t.ignore_string_bounds,
            type_consistency_ignore_member_names: t.ignore_member_names,
            type_consistency_prevent_type_widening: t.prevent_type_widening,
            type_consistency_force_type_validation: t.force_type_validation,
            ..nv
        },
        None => nv,
    }
}

pub fn type_consistency_to_qos_native(qos: &mut NativeQos, type_consistency: &Option<TypeConsistency>)
    ensures
        final(qos)@ == spec_type_consistency_to_native(old(qos)@, type_consistency.deep_view()),
{
    if let Some(t) = type_consistency {
        qos.set_type_consistency(
            t.kind.code(),
            t.ignore_sequence_bounds,
            t.ignore_string_bounds,
            t.ignore_member_names,
            t.prevent_type_widening,
            t.force_type_validation,
        );
    }
}

pub open spec fn spec_ignore_local_from_native(nv: NativeV) -> Result<Option<IgnoreLocal>, QosError> {
    match IgnoreLocalKind::spec_from_code(nv.ignore_local_kind) {
        Some(kind) => Ok(elide(IgnoreLocal { kind }, IgnoreLocal::canonical_default_view())),
        None => Err(QosError::ProtocolViolation),
    }
}

pub fn ignore_local_from_qos_native(qos: &NativeQos) -> (r: Result<Option<IgnoreLocal>, QosError>)
    ensures
        r == spec_ignore_local_from_native(qos@),
{
    let code = qos.get_ignorelocal();
    match IgnoreLocalKind::from_code(code) {
        Some(kind) => Ok(to_option(IgnoreLocal { kind })),
        None => Err(QosError::ProtocolViolation),
    }
}

pub open spec fn spec_ignore_local_to_native(nv: NativeV, i: Option<IgnoreLocal>) -> NativeV {
    match i {
        Some(i) => NativeV { ignore_local_kind: i.kind.spec_code(), ..nv },
        None => nv,
    }
}

pub fn ignore_local_to_qos_native(qos: &mut NativeQos, ignore_local: &Option<IgnoreLocal>)
    ensures
        final(qos)@ == spec_ignore_local_to_native(old(qos)@, ignore_local.deep_view()),
{
    if let Some(ignore_local) = ignore_local {
        qos.set_ignorelocal(ignore_local.kind.code());
    }
}

// ---------------------------------------------------------------------------
// Plain numeric, boolean and list policies.
// ---------------------------------------------------------------------------

pub open spec fn spec_deadline_from_native(nv: NativeV) -> Option<Deadline> {
    elide(Deadline { period: nv.deadline_period }, Deadline::canonical_default_view())
}

pub fn deadline_from_qos_native(qos: &NativeQos) -> (r: Option<Deadline>)
    ensures
        r == spec_deadline_from_native(qos@),
{
    let period = qos.get_deadline();
    to_option(Deadline { period })
}

pub open spec fn spec_deadline_to_native(nv: NativeV, d: Option<Deadline>) -> NativeV {
    match d {
        Some(d) => NativeV { deadline_period: d.period, ..nv },
        None => nv,
    }
}

pub fn deadline_to_qos_native(qos: &mut NativeQos, deadline: &Option<Deadline>)
    ensures
        final(qos)@ == spec_deadline_to_native(old(qos)@, deadline.deep_view()),
{
    if let Some(deadline) = deadline {
        qos.set_deadline(deadline.period);
    }
}

pub open spec fn spec_latency_budget_from_native(nv: NativeV) -> Option<LatencyBudget> {
    elide(
        LatencyBudget { duration: nv.latency_budget_duration },
        LatencyBudget::canonical_default_view(),
    )
}

pub fn latency_budget_from_qos_native(qos: &NativeQos) -> (r: Option<LatencyBudget>)
    ensures
        r == spec_latency_budget_from_native(qos@),
{
    let duration = qos.get_latency_budget();
    to_option(LatencyBudget { duration })
}

pub open spec fn spec_latency_budget_to_native(nv: NativeV, l: Option<LatencyBudget>) -> NativeV {
    match l {
        Some(l) => NativeV { latency_budget_duration: l.duration, ..nv },
        None => nv,
    }
}

pub fn latency_budget_to_qos_native(qos: &mut NativeQos, latency_budget: &Option<LatencyBudget>)
    ensures
        final(qos)@ == spec_latency_budget_to_native(old(qos)@, latency_budget.deep_view()),
{
    if let Some(latency_budget) = latency_budget {
        qos.set_latency_budget(latency_budget.duration);
    }
}

pub open spec fn spec_ownership_strength_from_native(nv: NativeV) -> Option<OwnershipStrength> {
    elide(
        OwnershipStrength { value: nv.ownership_strength_value },
        OwnershipStrength::canonical_default_view(),
    )
}

pub fn ownership_strength_from_qos_native(qos: &NativeQos) -> (r: Option<OwnershipStrength>)
    ensures
        r == spec_ownership_strength_from_native(qos@),
{
    let value = qos.get_ownership_strength();
    to_option(OwnershipStrength { value })
}

pub open spec fn spec_ownership_strength_to_native(
    nv: NativeV,
    o: Option<OwnershipStrength>,
) -> NativeV {
    match o {
        Some(o) => NativeV { ownership_strength_value: o.value, ..nv },
        None => nv,
    }
}

pub fn ownership_strength_to_qos_native(
    qos: &mut NativeQos,
    ownership_strength: &Option<OwnershipStrength>,
)
    ensures
        final(qos)@ == spec_ownership_strength_to_native(
            old(qos)@,
            ownership_strength.deep_view(),
        ),
{
    if let Some(ownership_strength) = ownership_strength {
        qos.set_ownership_strength(ownership_strength.value);
    }
}

pub open spec fn spec_time_based_filter_from_native(nv: NativeV) -> Option<TimeBasedFilter> {
    elide(
        TimeBasedFilter { minimum_separation: nv.time_based_filter_minimum_separation },
        TimeBasedFilter::canonical_default_view(),
    )
}

pub fn time_based_filter_from_qos_native(qos: &NativeQos) -> (r: Option<TimeBasedFilter>)
    ensures
        r == spec_time_based_filter_from_native(qos@),
{
    let minimum_separation = qos.get_time_based_filter();
    to_option(TimeBasedFilter { minimum_separation })
}

pub open spec fn spec_time_based_filter_to_native(
    nv: NativeV,
    t: Option<TimeBasedFilter>,
) -> NativeV {
    match t {
        Some(t) => NativeV { time_based_filter_minimum_separation: t.minimum_separation, ..nv },
        None => nv,
    }
}

pub fn time_based_filter_to_qos_native(
    qos: &mut NativeQos,
    time_based_filter: &Option<TimeBasedFilter>,
)
    ensures
        final(qos)@ == spec_time_based_filter_to_native(old(qos)@, time_based_filter.deep_view()),
{
    if let Some(time_based_filter) = time_based_filter {
        qos.set_time_based_filter(time_based_filter.minimum_separation);
    }
}

pub open spec fn spec_partition_from_native(nv: NativeV) -> Option<Seq<Seq<char>>> {
    elide(nv.partition, Seq::empty())
}

pub fn partition_from_qos_native(qos: &NativeQos) -> (r: Option<Vec<String>>)
    ensures
        r.deep_view() == spec_partition_from_native(qos@),
{
    let partitions = qos.get_partition();
    to_option(partitions)
}

pub open spec fn spec_partition_to_native(nv: NativeV, p: Option<Seq<Seq<char>>>) -> NativeV {
    match p {
        Some(p) => NativeV { partition: p, ..nv },
        None => nv,
    }
}

pub fn partition_to_qos_native(qos: &mut NativeQos, partitions: &Option<Vec<String>>)
    ensures
        final(qos)@ == spec_partition_to_native(old(qos)@, partitions.deep_view()),
{
    if let Some(partitions) = partitions {
        qos.set_partition(partitions);
    }
}

pub open spec fn spec_transport_priority_from_native(nv: NativeV) -> Option<TransportPriority> {
    elide(
        TransportPriority { value: nv.transport_priority_value },
        TransportPriority::canonical_default_view(),
    )
}

pub fn transport_priority_from_qos_native(qos: &NativeQos) -> (r: Option<TransportPriority>)
    ensures
        r == spec_transport_priority_from_native(qos@),
{
    let value = qos.get_transport_priority();
    to_option(TransportPriority { value })
}

pub open spec fn spec_transport_priority_to_native(
    nv: NativeV,
    t: Option<TransportPriority>,
) -> NativeV {
    match t {
        Some(t) => NativeV { transport_priority_value: t.value, ..nv },
        None => nv,
    }
}

pub fn transport_priority_to_qos_native(
    qos: &mut NativeQos,
    transport_priority: &Option<TransportPriority>,
)
    ensures
        final(qos)@ == spec_transport_priority_to_native(
            old(qos)@,
            transport_priority.deep_view(),
        ),
{
    if let Some(transport_priority) = transport_priority {
        qos.set_transport_priority(transport_priority.value);
    }
}

pub open spec fn spec_lifespan_from_native(nv: NativeV) -> Option<Lifespan> {
    elide(Lifespan { duration: nv.lifespan_duration }, Lifespan::canonical_default_view())
}

pub fn lifespan_from_qos_native(qos: &NativeQos) -> (r: Option<Lifespan>)
    ensures
        r == spec_lifespan_from_native(qos@),
{
    let duration = qos.get_lifespan();
    to_option(Lifespan { duration })
}

pub open spec fn spec_lifespan_to_native(nv: NativeV, l: Option<Lifespan>) -> NativeV {
    match l {
        Some(l) => NativeV { lifespan_duration: l.duration, ..nv },
        None => nv,
    }
}

pub fn lifespan_to_qos_native(qos: &mut NativeQos, lifespan: &Option<Lifespan>)
    ensures
        final(qos)@ == spec_lifespan_to_native(old(qos)@, lifespan.deep_view()),
{
    if let Some(lifespan) = lifespan {
        qos.set_lifespan(lifespan.duration);
    }
}

pub open spec fn spec_resource_limits_from_native(nv: NativeV) -> Option<ResourceLimits> {
    elide(
        ResourceLimits {
            max_samples: nv.resource_limits_max_samples,
            max_instances: nv.resource_limits_max_instances,
            max_samples_per_instance: nv.resource_limits_max_samples_per_instance,
        },
        ResourceLimits::canonical_default_view(),
    )
}

pub fn resource_limits_from_qos_native(qos: &NativeQos) -> (r: Option<ResourceLimits>)
    ensures
        r == spec_resource_limits_from_native(qos@),
{
    let (max_samples, max_instances, max_samples_per_instance) = qos.get_resource_limits();
    to_option(ResourceLimits { max_samples, max_instances, max_samples_per_instance })
}

pub open spec fn spec_resource_limits_to_native(nv: NativeV, r: Option<ResourceLimits>) -> NativeV {
    match r {
        Some(r) => NativeV {
            resource_limits_max_samples: r.max_samples,
            resource_limits_max_instances: r.max_instances,
            resource_limits_max_samples_per_instance: r.max_samples_per_instance,
            ..nv
        },
        None => nv,
    }
}

pub fn resource_limits_to_qos_native(qos: &mut NativeQos, resource_limits: &Option<ResourceLimits>)
    ensures
        final(qos)@ == spec_resource_limits_to_native(old(qos)@, resource_limits.deep_view()),
{
    if let Some(resource_limits) = resource_limits {
        qos.set_resource_limits(
            resource_limits.max_samples,
            resource_limits.max_instances,
            resource_limits.max_samples_per_instance,
        );
    }
}

pub open spec fn spec_writer_data_lifecycle_from_native(nv: NativeV) -> Option<WriterDataLifecycle> {
    elide(
        WriterDataLifecycle {
            autodispose_unregistered_instances: nv.writer_data_lifecycle_autodispose,
        },
        WriterDataLifecycle::canonical_default_view(),
    )
}

pub fn writer_data_lifecycle_from_qos_native(qos: &NativeQos) -> (r: Option<WriterDataLifecycle>)
    ensures
        r == spec_writer_data_lifecycle_from_native(qos@),
{
    let autodispose_unregistered_instances = qos.get_writer_data_lifecycle();
    to_option(WriterDataLifecycle { autodispose_unregistered_instances })
}

pub open spec fn spec_writer_data_lifecycle_to_native(
    nv: NativeV,
    w: Option<WriterDataLifecycle>,
) -> NativeV {
    match w {
        Some(w) => NativeV {
            writer_data_lifecycle_autodispose: w.autodispose_unregistered_instances,
            ..nv
        },
        None => nv,
    }
}

pub fn writer_data_lifecycle_to_qos_native(
    qos: &mut NativeQos,
    writer_data_lifecycle: &Option<WriterDataLifecycle>,
)
    ensures
        final(qos)@ == spec_writer_data_lifecycle_to_native(
            old(qos)@,
            writer_data_lifecycle.deep_view(),
        ),
{
    if let Some(w) = writer_data_lifecycle {
        qos.set_writer_data_lifecycle(w.autodispose_unregistered_instances);
    }
}

pub open spec fn spec_reader_data_lifecycle_from_native(nv: NativeV) -> Option<ReaderDataLifecycle> {
    elide(
        ReaderDataLifecycle {
            autopurge_nowriter_samples_delay: nv.reader_data_lifecycle_nowriter_delay,
            autopurge_disposed_samples_delay: nv.reader_data_lifecycle_disposed_delay,
        },
        ReaderDataLifecycle::canonical_default_view(),
    )
}

pub fn reader_data_lifecycle_from_qos_native(qos: &NativeQos) -> (r: Option<ReaderDataLifecycle>)
    ensures
        r == spec_reader_data_lifecycle_from_native(qos@),
{
    let (autopurge_nowriter_samples_delay, autopurge_disposed_samples_delay) =
        qos.get_reader_data_lifecycle();
    to_option(
        ReaderDataLifecycle {
            autopurge_nowriter_samples_delay,
            autopurge_disposed_samples_delay,
        },
    )
}

pub open spec fn spec_reader_data_lifecycle_to_native(
    nv: NativeV,
    re: Option<ReaderDataLifecycle>,
) -> NativeV {
    match re {
        Some(re) => NativeV {
            reader_data_lifecycle_nowriter_delay: re.autopurge_nowriter_samples_delay,
            reader_data_lifecycle_disposed_delay: re.autopurge_disposed_samples_delay,
            ..nv
        },
        None => nv,
    }
}

pub fn reader_data_lifecycle_to_qos_native(
    qos: &mut NativeQos,
    reader_data_lifecycle: &Option<ReaderDataLifecycle>,
)
    ensures
        final(qos)@ == spec_reader_data_lifecycle_to_native(
            old(qos)@,
            reader_data_lifecycle.deep_view(),
        ),
{
    if let Some(re) = reader_data_lifecycle {
        qos.set_reader_data_lifecycle(
            re.autopurge_nowriter_samples_delay,
            re.autopurge_disposed_samples_delay,
        );
    }
}

pub open spec fn spec_writer_batching_from_native(nv: NativeV) -> Option<WriterBatching> {
    elide(
        WriterBatching { batch_updates: nv.writer_batching_batch_updates },
        WriterBatching::canonical_default_view(),
    )
}

pub fn writer_batching_from_qos_native(qos: &NativeQos) -> (r: Option<WriterBatching>)
    ensures
        r == spec_writer_batching_from_native(qos@),
{
    let batch_updates = qos.get_writer_batching();
    to_option(WriterBatching { batch_updates })
}

pub open spec fn spec_writer_batching_to_native(nv: NativeV, w: Option<WriterBatching>) -> NativeV {
    match w {
        Some(w) => NativeV { writer_batching_batch_updates: w.batch_updates, ..nv },
        None => nv,
    }
}

pub fn writer_batching_to_qos_native(qos: &mut NativeQos, writer_batching: &Option<WriterBatching>)
    ensures
        final(qos)@ == spec_writer_batching_to_native(old(qos)@, writer_batching.deep_view()),
{
    if let Some(writer_batching) = writer_batching {
        qos.set_writer_batching(writer_batching.batch_updates);
    }
}

pub open spec fn spec_entity_name_from_native(nv: NativeV) -> Option<Seq<char>> {
    elide(nv.entity_name, Seq::empty())
}

pub fn entity_name_from_qos_native(qos: &NativeQos) -> (r: Option<EntityName>)
    ensures
        r.deep_view() == spec_entity_name_from_native(qos@),
{
    let name = qos.get_entity_name();
    to_option(EntityName { name })
}

pub open spec fn spec_entity_name_to_native(nv: NativeV, e: Option<Seq<char>>) -> NativeV {
    match e {
        Some(name) => NativeV { entity_name: name, ..nv },
        None => nv,
    }
}

pub fn entity_name_to_qos_native(qos: &mut NativeQos, entity_name: &Option<EntityName>)
    ensures
        final(qos)@ == spec_entity_name_to_native(old(qos)@, entity_name.deep_view()),
{
    if let Some(entity_name) = entity_name {
        qos.set_entity_name(&entity_name.name);
    }
}

pub open spec fn spec_data_representation_from_native(nv: NativeV) -> Option<Seq<u16>> {
    elide(nv.data_representation, Seq::empty())
}

pub fn data_representation_from_qos_native(qos: &NativeQos) -> (r: Option<Vec<u16>>)
    ensures
        r.deep_view() == spec_data_representation_from_native(qos@),
{
    let values = qos.get_data_representation();
    proof {
        assert(values.deep_view() =~= qos@.data_representation);
    }
    to_option(values)
}

pub open spec fn spec_data_representation_to_native(nv: NativeV, d: Option<Seq<u16>>) -> NativeV {
    match d {
        Some(values) => NativeV { data_representation: values, ..nv },
        None => nv,
    }
}

pub fn data_representation_to_qos_native(
    qos: &mut NativeQos,
    data_representation: &Option<Vec<u16>>,
)
    ensures
        final(qos)@ == spec_data_representation_to_native(
            old(qos)@,
            data_representation.deep_view(),
        ),
{
    if let Some(values) = data_representation {
        qos.set_data_representation(values);
        proof {
            assert(values.deep_view() =~= values@);
        }
    }
}

// ---------------------------------------------------------------------------
// Properties: the generic name/value interface.
// ---------------------------------------------------------------------------

/// One step of the property decode loop: look the key of entry `i` up and
/// keep the result when its value is not empty.
pub open spec fn spec_decoded_props_loop(s: Seq<PropView>, acc: Seq<PropView>, i: int) -> Seq<
    PropView,
>
    decreases s.len() - i,
{
    if i < 0 || i >= s.len() {
        acc
    } else {
        let acc2 = match spec_props_get(s, s[i].0) {
            Some(v) => if v == Seq::<char>::empty() {
                acc
            } else {
                spec_props_insert(acc, s[i].0, v)
            },
            None => acc,
        };
        spec_decoded_props_loop(s, acc2, i + 1)
    }
}

/// What decoding the property interface reconstructs: one lookup per stored
/// name, dropping properties whose value is empty.
pub open spec fn spec_decoded_props(s: Seq<PropView>) -> Seq<PropView> {
    spec_decoded_props_loop(s, Seq::empty(), 0)
}

pub open spec fn spec_properties_from_native(nv: NativeV) -> Option<Seq<PropView>> {
    elide(spec_decoded_props(nv.properties), Seq::empty())
}

/// Value of one named property; an empty value is elided like a default.
pub fn property_from_qos_native(qos: &NativeQos, name: &String) -> (r: Option<String>)
    ensures
        r.deep_view() == (match spec_props_get(qos@.properties, name@) {
            Some(v) => elide(v, Seq::<char>::empty()),
            None => None,
        }),
{
    match qos.get_prop(name) {
        Some(value) => to_option(value),
        None => None,
    }
}

pub fn properties_from_qos_native(qos: &NativeQos) -> (r: Option<Properties>)
    ensures
        r.deep_view() == spec_properties_from_native(qos@),
{
    let names = qos.get_propnames();
    let n = names.len();
    proof {
        assert(names.deep_view().len() == names@.len());
        assert(names.deep_view().len() == qos@.properties.len());
    }
    let mut map = Properties::new();
    let mut i: usize = 0;
    while i < n
        invariant
            n == names@.len(),
            names.deep_view() == crate::props::spec_prop_keys(qos@.properties),
            i <= n,
            n == qos@.properties.len(),
            spec_decoded_props_loop(qos@.properties, map.deep_view(), i as int)
                == spec_decoded_props(qos@.properties),
        decreases n - i,
    {
        let ghost s = qos@.properties;
        let ghost prev = map.deep_view();
        proof {
            assert(names.deep_view()[i as int] == s[i as int].0);
            assert(names[i as int]@ == names.deep_view()[i as int]);
        }
        match property_from_qos_native(qos, &names[i]) {
            Some(value) => {
                map.insert(names[i].clone(), value);
            },
            None => {},
        }
        proof {
            assert(spec_decoded_props_loop(s, prev, i as int) == spec_decoded_props_loop(
                s,
                map.deep_view(),
                i as int + 1,
            ));
        }
        i += 1;
    }
    to_option(map)
}

pub open spec fn spec_properties_to_native(nv: NativeV, p: Option<Seq<PropView>>) -> NativeV {
    match p {
        Some(ps) => NativeV { properties: spec_props_insert_all(nv.properties, ps), ..nv },
        None => nv,
    }
}

// ---------------------------------------------------------------------------
// Aggregate marshaler.
// ---------------------------------------------------------------------------

/// Every enumeration code the configuration object reports maps onto a known
/// variant.  A fresh object always satisfies this; a violation means the
/// binding and the library disagree.
pub open spec fn spec_native_codes_valid(nv: NativeV) -> bool {
    &&& DurabilityKind::spec_from_code(nv.durability_kind) is Some
    &&& HistoryKind::spec_from_code(nv.durability_service_history_kind) is Some
    &&& PresentationAccessScopeKind::spec_from_code(nv.presentation_access_scope) is Some
    &&& OwnershipKind::spec_from_code(nv.ownership_kind) is Some
    &&& LivelinessKind::spec_from_code(nv.liveliness_kind) is Some
    &&& ReliabilityKind::spec_from_code(nv.reliability_kind) is Some
    &&& DestinationOrderKind::spec_from_code(nv.destination_order_kind) is Some
    &&& HistoryKind::spec_from_code(nv.history_kind) is Some
    &&& TypeConsistencyKind::spec_from_code(nv.type_consistency_kind) is Some
    &&& IgnoreLocalKind::spec_from_code(nv.ignore_local_kind) is Some
}

/// The decoded slot of a policy whose decode can fail, or absence where it
/// failed (only read under `spec_native_codes_valid`).
pub open spec fn ok_or_none<T>(r: Result<Option<T>, QosError>) -> Option<T> {
    match r {
        Ok(v) => v,
        Err(_) => None,
    }
}

/// The aggregate a decode of the whole configuration object yields.
pub open spec fn spec_qos_from_native(nv: NativeV) -> QosV {
    QosV {
        user_data: spec_user_data_from_native(nv),
        topic_data: spec_topic_data_from_native(nv),
        group_data: spec_group_data_from_native(nv),
        durability: ok_or_none(spec_durability_from_native(nv)),
        durability_service: ok_or_none(spec_durability_service_from_native(nv)),
        presentation: ok_or_none(spec_presentation_from_native(nv)),
        deadline: spec_deadline_from_native(nv),
        latency_budget: spec_latency_budget_from_native(nv),
        ownership: ok_or_none(spec_ownership_from_native(nv)),
        ownership_strength: spec_ownership_strength_from_native(nv),
        liveliness: ok_or_none(spec_liveliness_from_native(nv)),
        time_based_filter: spec_time_based_filter_from_native(nv),
        partition: spec_partition_from_native(nv),
        reliability: ok_or_none(spec_reliability_from_native(nv)),
        transport_priority: spec_transport_priority_from_native(nv),
        lifespan: spec_lifespan_from_native(nv),
        destination_order: ok_or_none(spec_destination_order_from_native(nv)),
        history: ok_or_none(spec_history_from_native(nv)),
        resource_limits: spec_resource_limits_from_native(nv),
        writer_data_lifecycle: spec_writer_data_lifecycle_from_native(nv),
        reader_data_lifecycle: spec_reader_data_lifecycle_from_native(nv),
        writer_batching: spec_writer_batching_from_native(nv),
        type_consistency: ok_or_none(spec_type_consistency_from_native(nv)),
        entity_name: spec_entity_name_from_native(nv),
        properties: spec_properties_from_native(nv),
        ignore_local: ok_or_none(spec_ignore_local_from_native(nv)),
        data_representation: spec_data_representation_from_native(nv),
    }
}

/// The configuration object that encoding `q` onto a fresh default object
/// produces: absent slots leave the compiled-in default untouched.
pub open spec fn spec_qos_to_native(q: QosV) -> NativeV {
    let nv = spec_native_default();
    let nv = spec_user_data_to_native(nv, q.user_data);
    let nv = spec_topic_data_to_native(nv, q.topic_data);
    let nv = spec_group_data_to_native(nv, q.group_data);
    let nv = spec_durability_to_native(nv, q.durability);
    let nv = spec_durability_service_to_native(nv, q.durability_service);
    let nv = spec_presentation_to_native(nv, q.presentation);
    let nv = spec_deadline_to_native(nv, q.deadline);
    let nv = spec_latency_budget_to_native(nv, q.latency_budget);
    let nv = spec_ownership_to_native(nv, q.ownership);
    let nv = spec_ownership_strength_to_native(nv, q.ownership_strength);
    let nv = spec_liveliness_to_native(nv, q.liveliness);
    let nv = spec_time_based_filter_to_native(nv, q.time_based_filter);
    let nv = spec_partition_to_native(nv, q.partition);
    let nv = spec_reliability_to_native(nv, q.reliability);
    let nv = spec_transport_priority_to_native(nv, q.transport_priority);
    let nv = spec_lifespan_to_native(nv, q.lifespan);
    let nv = spec_destination_order_to_native(nv, q.destination_order);
    let nv = spec_history_to_native(nv, q.history);
    let nv = spec_resource_limits_to_native(nv, q.resource_limits);
    let nv = spec_writer_data_lifecycle_to_native(nv, q.writer_data_lifecycle);
    let nv = spec_reader_data_lifecycle_to_native(nv, q.reader_data_lifecycle);
    let nv = spec_writer_batching_to_native(nv, q.writer_batching);
    let nv = spec_type_consistency_to_native(nv, q.type_consistency);
    let nv = spec_entity_name_to_native(nv, q.entity_name);
    let nv = spec_properties_to_native(nv, q.properties);
    let nv = spec_ignore_local_to_native(nv, q.ignore_local);
    let nv = spec_data_representation_to_native(nv, q.data_representation);
    nv
}

impl Qos {
    /// Decode every policy of a configuration object into an aggregate.
    /// Fails, with a protocol violation, exactly when the object reports an
    /// enumeration code that matches no known variant.
    pub fn from_qos_native(qos: &NativeQos) -> (r: Result<Qos, QosError>)
        ensures
            r is Ok <==> spec_native_codes_valid(qos@),
            r matches Ok(q) ==> q@ == spec_qos_from_native(qos@),
            r matches Err(e) ==> e == QosError::ProtocolViolation,
    {
        let user_data = user_data_from_qos_native(qos);
        let topic_data = topic_data_from_qos_native(qos);
        let group_data = group_data_from_qos_native(qos);
        let durability = match durability_from_qos_native(qos) {
            Ok(v) => v,
            Err(e) => {
                return Err(e);
            },
        };
        let durability_service = match durability_service_from_qos_native(qos) {
            Ok(v) => v,
            Err(e) => {
                return Err(e);
            },
        };
        let presentation = match presentation_from_qos_native(qos) {
            Ok(v) => v,
            Err(e) => {
                return Err(e);
            },
        };
        let deadline = deadline_from_qos_native(qos);
        let latency_budget = latency_budget_from_qos_native(qos);
        let ownership = match ownership_from_qos_native(qos) {
            Ok(v) => v,
            Err(e) => {
                return Err(e);
            },
        };
        let ownership_strength = ownership_strength_from_qos_native(qos);
        let liveliness = match liveliness_from_qos_native(qos) {
            Ok(v) => v,
            Err(e) => {
                return Err(e);
            },
        };
        let time_based_filter = time_based_filter_from_qos_native(qos);
        let partition = partition_from_qos_native(qos);
        let reliability = match reliability_from_qos_native(qos) {
            Ok(v) => v,
            Err(e) => {
                return Err(e);
            },
        };
        let transport_priority = transport_priority_from_qos_native(qos);
        let lifespan = lifespan_from_qos_native(qos);
        let destination_order = match destination_order_from_qos_native(qos) {
            Ok(v) => v,
            Err(e) => {
                return Err(e);
            },
        };
        let history = match history_from_qos_native(qos) {
            Ok(v) => v,
            Err(e) => {
                return Err(e);
            },
        };
        let resource_limits = resource_limits_from_qos_native(qos);
        let writer_data_lifecycle = writer_data_lifecycle_from_qos_native(qos);
        let reader_data_lifecycle = reader_data_lifecycle_from_qos_native(qos);
        let writer_batching = writer_batching_from_qos_native(qos);
        let type_consistency = match type_consistency_from_qos_native(qos) {
            Ok(v) => v,
            Err(e) => {
                return Err(e);
            },
        };
        let entity_name = entity_name_from_qos_native(qos);
        let properties = properties_from_qos_native(qos);
        let ignore_local = match ignore_local_from_qos_native(qos) {
            Ok(v) => v,
            Err(e) => {
                return Err(e);
            },
        };
        let data_representation = data_representation_from_qos_native(qos);
        Ok(
            Qos {
                user_data,
                topic_data,
                group_data,
                durability,
                durability_service,
                presentation,
                deadline,
                latency_budget,
                ownership,
                ownership_strength,
                liveliness,
                time_based_filter,
                partition,
                reliability,
                transport_priority,
                lifespan,
                destination_order,
                history,
                resource_limits,
                writer_data_lifecycle,
                reader_data_lifecycle,
                writer_batching,
                type_consistency,
                entity_name,
                properties,
                ignore_local,
                data_representation,
            },
        )
    }

    /// Encode the aggregate onto a freshly created configuration object,
    /// skipping absent policies, and hand the populated object to the caller,
    /// who owns it and eventually releases it.
    pub fn to_qos_native(&self) -> (r: NativeQos)
        ensures
            r@ == spec_qos_to_native(self@),
    {
        let mut qos = NativeQos::new();
        user_data_to_qos_native(&mut qos, &self.user_data);
        topic_data_to_qos_native(&mut qos, &self.topic_data);
        group_data_to_qos_native(&mut qos, &self.group_data);
        durability_to_qos_native(&mut qos, &self.durability);
        durability_service_to_qos_native(&mut qos, &self.durability_service);
        presentation_to_qos_native(&mut qos, &self.presentation);
        deadline_to_qos_native(&mut qos, &self.deadline);
        latency_budget_to_qos_native(&mut qos, &self.latency_budget);
        ownership_to_qos_native(&mut qos, &self.ownership);
        ownership_strength_to_qos_native(&mut qos, &self.ownership_strength);
        liveliness_to_qos_native(&mut qos, &self.liveliness);
        time_based_filter_to_qos_native(&mut qos, &self.time_based_filter);
        partition_to_qos_native(&mut qos, &self.partition);
        reliability_to_qos_native(&mut qos, &self.reliability);
        transport_priority_to_qos_native(&mut qos, &self.transport_priority);
        lifespan_to_qos_native(&mut qos, &self.lifespan);
        destination_order_to_qos_native(&mut qos, &self.destination_order);
        history_to_qos_native(&mut qos, &self.history);
        resource_limits_to_qos_native(&mut qos, &self.resource_limits);
        writer_data_lifecycle_to_qos_native(&mut qos, &self.writer_data_lifecycle);
        reader_data_lifecycle_to_qos_native(&mut qos, &self.reader_data_lifecycle);
        writer_batching_to_qos_native(&mut qos, &self.writer_batching);
        type_consistency_to_qos_native(&mut qos, &self.type_consistency);
        entity_name_to_qos_native(&mut qos, &self.entity_name);
        properties_to_qos_native(&mut qos, &self.properties);
        ignore_local_to_qos_native(&mut qos, &self.ignore_local);
        data_representation_to_qos_native(&mut qos, &self.data_representation);
        qos
    }

    /// Release a configuration object.  The model owns its state by value, so
    /// consuming it here guarantees exactly one release on every path and
    /// makes use-after-release unrepresentable.
    pub fn delete_qos_native(qos: NativeQos) {
        let _ = qos;
    }
}

impl Default for Qos {
    /// The default aggregate: what decoding a freshly created configuration
    /// object yields, which is the fully-absent aggregate.
    fn default() -> (r: Qos)
        ensures
            r@ == spec_qos_absent(),
    {
        let native = NativeQos::new();
        let decoded = Qos::from_qos_native(&native);
        Qos::delete_qos_native(native);
        proof {
            lemma_default_native_decodes_absent();
        }
        match decoded {
            Ok(qos) => qos,
            Err(_) => Qos::new(),
        }
    }
}

// ---------------------------------------------------------------------------
// Laws of the marshaling layer.
// ---------------------------------------------------------------------------

/// Law: a freshly created configuration object decodes to the fully-absent
/// aggregate — every policy it reports equals its canonical default and is
/// elided.
pub proof fn lemma_default_native_decodes_absent()
    ensures
        spec_native_codes_valid(spec_native_default()),
        spec_qos_from_native(spec_native_default()) == spec_qos_absent(),
{
    assert(spec_decoded_props(spec_native_default().properties) =~= Seq::<PropView>::empty());
}

proof fn lemma_decoded_props_loop_of_wf(s: Seq<PropView>, i: int)
    requires
        props_wf(s),
        forall|m: int| 0 <= m < s.len() ==> (#[trigger] s[m]).1 != Seq::<char>::empty(),
        0 <= i <= s.len(),
    ensures
        spec_decoded_props_loop(s, s.take(i), i) == s,
    decreases s.len() - i,
{
    if i == s.len() {
        assert(s.take(i) =~= s);
    } else {
        lemma_props_get_of_index(s, i);
        assert forall|m: int| 0 <= m < s.take(i).len() implies (#[trigger] s.take(i)[m]).0
            != s[i].0 by {
            assert(s.take(i)[m] == s[m]);
        }
        lemma_props_insert_fresh(s.take(i), s[i].0, s[i].1);
        assert((s[i].0, s[i].1) == s[i]);
        assert(s.take(i).push(s[i]) =~= s.take(i + 1));
        lemma_decoded_props_loop_of_wf(s, i + 1);
    }
}

/// No populated slot holds its policy's canonical default: the form every
/// decode produces, and the inputs for which marshaling round trips exactly.
pub open spec fn spec_qos_normalized(q: QosV) -> bool {
    &&& q.user_data != Some(Seq::<u8>::empty())
    &&& q.topic_data != Some(Seq::<u8>::empty())
    &&& q.group_data != Some(Seq::<u8>::empty())
    &&& q.durability != Some(Durability::canonical_default_view())
    &&& q.durability_service != Some(DurabilityService::canonical_default_view())
    &&& q.presentation != Some(Presentation::canonical_default_view())
    &&& q.deadline != Some(Deadline::canonical_default_view())
    &&& q.latency_budget != Some(LatencyBudget::canonical_default_view())
    &&& q.ownership != Some(Ownership::canonical_default_view())
    &&& q.ownership_strength != Some(OwnershipStrength::canonical_default_view())
    &&& q.liveliness != Some(Liveliness::canonical_default_view())
    &&& q.time_based_filter != Some(TimeBasedFilter::canonical_default_view())
    &&& q.partition != Some(Seq::<Seq<char>>::empty())
    &&& q.reliability != Some(Reliability::canonical_default_view())
    &&& q.transport_priority != Some(TransportPriority::canonical_default_view())
    &&& q.lifespan != Some(Lifespan::canonical_default_view())
    &&& q.destination_order != Some(DestinationOrder::canonical_default_view())
    &&& q.history != Some(History::canonical_default_view())
    &&& q.resource_limits != Some(ResourceLimits::canonical_default_view())
    &&& q.writer_data_lifecycle != Some(WriterDataLifecycle::canonical_default_view())
    &&& q.reader_data_lifecycle != Some(ReaderDataLifecycle::canonical_default_view())
    &&& q.writer_batching != Some(WriterBatching::canonical_default_view())
    &&& q.type_consistency != Some(TypeConsistency::canonical_default_view())
    &&& q.entity_name != Some(Seq::<char>::empty())
    &&& q.properties != Some(Seq::<PropView>::empty())
    &&& q.ignore_local != Some(IgnoreLocal::canonical_default_view())
    &&& q.data_representation != Some(Seq::<u16>::empty())
}

/// A populated property slot has distinct keys and no empty value: what the
/// generic property interface can represent and reproduce.
pub open spec fn spec_qos_props_encodable(q: QosV) -> bool {
    match q.properties {
        Some(ps) => props_wf(ps) && (forall|m: int|
            0 <= m < ps.len() ==> (#[trigger] ps[m]).1 != Seq::<char>::empty()),
        None => true,
    }
}

/// The same configuration state as [`spec_qos_to_native`], written as one
/// direct construction: each field reads exactly one slot of the aggregate.
pub open spec fn spec_qos_to_native_direct(q: QosV) -> NativeV {
    NativeV {
        user_data: (match q.user_data {
            Some(b) => b,
            None => Seq::<u8>::empty(),
        }),
        topic_data: (match q.topic_data {
            Some(b) => b,
            None => Seq::<u8>::empty(),
        }),
        group_data: (match q.group_data {
            Some(b) => b,
            None => Seq::<u8>::empty(),
        }),
        durability_kind: (match q.durability {
            Some(d) => d.kind.spec_code(),
            None => 0u32,
        }),
        durability_service_cleanup_delay: (match q.durability_service {
            Some(d) => d.service_cleanup_delay,
            None => 0i64,
        }),
        durability_service_history_kind: (match q.durability_service {
            Some(d) => d.history_kind.spec_code(),
            None => 0u32,
        }),
        durability_service_history_depth: (match q.durability_service {
            Some(d) => d.history_depth,
            None => 1i32,
        }),
        durability_service_max_samples: (match q.durability_service {
            Some(d) => d.max_samples,
            None => crate::DDS_LENGTH_UNLIMITED,
        }),
        durability_service_max_instances: (match q.durability_service {
            Some(d) => d.max_instances,
            None => crate::DDS_LENGTH_UNLIMITED,
        }),
        durability_service_max_samples_per_instance: (match q.durability_service {
            Some(d) => d.max_samples_per_instance,
            None => crate::DDS_LENGTH_UNLIMITED,
        }),
        presentation_access_scope: (match q.presentation {
            Some(p) => p.access_scope.spec_code(),
            None => 0u32,
        }),
        presentation_coherent_access: (match q.presentation {
            Some(p) => p.coherent_access,
            None => false,
        }),
        presentation_ordered_access: (match q.presentation {
            Some(p) => p.ordered_access,
            None => false,
        }),
        deadline_period: (match q.deadline {
            Some(d) => d.period,
            None => crate::DDS_INFINITE_TIME,
        }),
        latency_budget_duration: (match q.latency_budget {
            Some(l) => l.duration,
            None => 0i64,
        }),
        ownership_kind: (match q.ownership {
            Some(o) => o.kind.spec_code(),
            None => 0u32,
        }),
        ownership_strength_value: (match q.ownership_strength {
            Some(o) => o.value,
            None => 0i32,
        }),
        liveliness_kind: (match q.liveliness {
            Some(l) => l.kind.spec_code(),
            None => 0u32,
        }),
        liveliness_lease_duration: (match q.liveliness {
            Some(l) => l.lease_duration,
            None => crate::DDS_INFINITE_TIME,
        }),
        time_based_filter_minimum_separation: (match q.time_based_filter {
            Some(t) => t.minimum_separation,
            None => 0i64,
        }),
        partition: (match q.partition {
            Some(p) => p,
            None => Seq::<Seq<char>>::empty(),
        }),
        reliability_kind: (match q.reliability {
            Some(re) => re.kind.spec_code(),
            None => 0u32,
        }),
        reliability_max_blocking_time: (match q.reliability {
            Some(re) => re.max_blocking_time,
            None => crate::DDS_100MS_DURATION,
        }),
        transport_priority_value: (match q.transport_priority {
            Some(t) => t.value,
            None => 0i32,
        }),
        lifespan_duration: (match q.lifespan {
            Some(l) => l.duration,
            None => crate::DDS_INFINITE_TIME,
        }),
        destination_order_kind: (match q.destination_order {
            Some(d) => d.kind.spec_code(),
            None => 0u32,
        }),
        history_kind: (match q.history {
            Some(h) => h.kind.spec_code(),
            None => 0u32,
        }),
        history_depth: (match q.history {
            Some(h) => h.depth,
            None => 1i32,
        }),
        resource_limits_max_samples: (match q.resource_limits {
            Some(r) => r.max_samples,
            None => crate::DDS_LENGTH_UNLIMITED,
        }),
        resource_limits_max_instances: (match q.resource_limits {
            Some(r) => r.max_instances,
            None => crate::DDS_LENGTH_UNLIMITED,
        }),
        resource_limits_max_samples_per_instance: (match q.resource_limits {
            Some(r) => r.max_samples_per_instance,
            None => crate::DDS_LENGTH_UNLIMITED,
        }),
        writer_data_lifecycle_autodispose: (match q.writer_data_lifecycle {
            Some(w) => w.autodispose_unregistered_instances,
            None => true,
        }),
        reader_data_lifecycle_nowriter_delay: (match q.reader_data_lifecycle {
            Some(re) => re.autopurge_nowriter_samples_delay,
            None => crate::DDS_INFINITE_TIME,
        }),
        reader_data_lifecycle_disposed_delay: (match q.reader_data_lifecycle {
            Some(re) => re.autopurge_disposed_samples_delay,
            None => crate::DDS_INFINITE_TIME,
        }),
        writer_batching_batch_updates: (match q.writer_batching {
            Some(w) => w.batch_updates,
            None => false,
        }),
        type_consistency_kind: (match q.type_consistency {
            Some(t) => t.kind.spec_code(),
            None => 0u32,
        }),
        type_consistency_ignore_sequence_bounds: (match q.type_consistency {
            Some(t) => t.ignore_sequence_bounds,
            None => false,
        }),
        type_consistency_ignore_string_bounds: (match q.type_consistency {
            Some(t) => t.ignore_string_bounds,
            None => false,
        }),
        type_consistency_ignore_member_names: (match q.type_consistency {
            Some(t) => t.ignore_member_names,
            None => false,
        }),
        type_consistency_prevent_type_widening: (match q.type_consistency {
            Some(t) => t.prevent_type_widening,
            None => false,
        }),
        type_consistency_force_type_validation: (match q.type_consistency {
            Some(t) => t.force_type_validation,
            None => false,
        }),
        entity_name: (match q.entity_name {
            Some(e) => e,
            None => Seq::<char>::empty(),
        }),
        properties: (match q.properties {
            Some(ps) => spec_props_insert_all(Seq::<PropView>::empty(), ps),
            None => Seq::<PropView>::empty(),
        }),
        ignore_local_kind: (match q.ignore_local {
            Some(i) => i.kind.spec_code(),
            None => 0u32,
        }),
        data_representation: (match q.data_representation {
            Some(d) => d,
            None => Seq::<u16>::empty(),
        }),
    }
}

/// Encoding policy by policy onto the default object reaches exactly the
/// directly constructed state.
#[verifier::rlimit(100)]
pub proof fn lemma_qos_to_native_direct(q: QosV)
    ensures
        spec_qos_to_native(q) == spec_qos_to_native_direct(q),
{
    let nv0 = spec_native_default();
    let nv1 = spec_user_data_to_native(nv0, q.user_data);
    let m1 = NativeV { user_data: spec_qos_to_native_direct(q).user_data, ..nv0 };
    assert(nv1 == m1);
    let nv2 = spec_topic_data_to_native(nv1, q.topic_data);
    let m2 = NativeV { topic_data: spec_qos_to_native_direct(q).topic_data, ..m1 };
    assert(nv2 == m2);
    let nv3 = spec_group_data_to_native(nv2, q.group_data);
    let m3 = NativeV { group_data: spec_qos_to_native_direct(q).group_data, ..m2 };
    assert(nv3 == m3);
    let nv4 = spec_durability_to_native(nv3, q.durability);
    let m4 = NativeV { durability_kind: spec_qos_to_native_direct(q).durability_kind, ..m3 };
    assert(nv4 == m4);
    let nv5 = spec_durability_service_to_native(nv4, q.durability_service);
    let m5 = NativeV {
        durability_service_cleanup_delay: spec_qos_to_native_direct(
            q,
        ).durability_service_cleanup_delay,
        durability_service_history_kind: spec_qos_to_native_direct(
            q,
        ).durability_service_history_kind,
        durability_service_history_depth: spec_qos_to_native_direct(
            q,
        ).durability_service_history_depth,
        durability_service_max_samples: spec_qos_to_native_direct(
            q,
        ).durability_service_max_samples,
        durability_service_max_instances: spec_qos_to_native_direct(
            q,
        ).durability_service_max_instances,
        durability_service_max_samples_per_instance: spec_qos_to_native_direct(
            q,
        ).durability_service_max_samples_per_instance,
        ..m4
    };
    assert(nv5 == m5);
    let nv6 = spec_presentation_to_native(nv5, q.presentation);
    let m6 = NativeV {
        presentation_access_scope: spec_qos_to_native_direct(q).presentation_access_scope,
        presentation_coherent_access: spec_qos_to_native_direct(q).presentation_coherent_access,
        presentation_ordered_access: spec_qos_to_native_direct(q).presentation_ordered_access,
        ..m5
    };
    assert(nv6 == m6);
    let nv7 = spec_deadline_to_native(nv6, q.deadline);
    let m7 = NativeV { deadline_period: spec_qos_to_native_direct(q).deadline_period, ..m6 };
    assert(nv7 == m7);
    let nv8 = spec_latency_budget_to_native(nv7, q.latency_budget);
    let m8 = NativeV {
        latency_budget_duration: spec_qos_to_native_direct(q).latency_budget_duration,
        ..m7
    };
    assert(nv8 == m8);
    let nv9 = spec_ownership_to_native(nv8, q.ownership);
    let m9 = NativeV { ownership_kind: spec_qos_to_native_direct(q).ownership_kind, ..m8 };
    assert(nv9 == m9);
    let nv10 = spec_ownership_strength_to_native(nv9, q.ownership_strength);
    let m10 = NativeV {
        ownership_strength_value: spec_qos_to_native_direct(q).ownership_strength_value,
        ..m9
    };
    assert(nv10 == m10);
    let nv11 = spec_liveliness_to_native(nv10, q.liveliness);
    let m11 = NativeV {
        liveliness_kind: spec_qos_to_native_direct(q).liveliness_kind,
        liveliness_lease_duration: spec_qos_to_native_direct(q).liveliness_lease_duration,
        ..m10
    };
    assert(nv11 == m11);
    let nv12 = spec_time_based_filter_to_native(nv11, q.time_based_filter);
    let m12 = NativeV {
        time_based_filter_minimum_separation: spec_qos_to_native_direct(
            q,
        ).time_based_filter_minimum_separation,
        ..m11
    };
    assert(nv12 == m12);
    let nv13 = spec_partition_to_native(nv12, q.partition);
    let m13 = NativeV { partition: spec_qos_to_native_direct(q).partition, ..m12 };
    assert(nv13 == m13);
    let nv14 = spec_reliability_to_native(nv13, q.reliability);
    let m14 = NativeV {
        reliability_kind: spec_qos_to_native_direct(q).reliability_kind,
        reliability_max_blocking_time: spec_qos_to_native_direct(q).reliability_max_blocking_time,
        ..m13
    };
    assert(nv14 == m14);
    let nv15 = spec_transport_priority_to_native(nv14, q.transport_priority);
    let m15 = NativeV {
        transport_priority_value: spec_qos_to_native_direct(q).transport_priority_value,
        ..m14
    };
    assert(nv15 == m15);
    let nv16 = spec_lifespan_to_native(nv15, q.lifespan);
    let m16 = NativeV { lifespan_duration: spec_qos_to_native_direct(q).lifespan_duration, ..m15 };
    assert(nv16 == m16);
    let nv17 = spec_destination_order_to_native(nv16, q.destination_order);
    let m17 = NativeV {
        destination_order_kind: spec_qos_to_native_direct(q).destination_order_kind,
        ..m16
    };
    assert(nv17 == m17);
    let nv18 = spec_history_to_native(nv17, q.history);
    let m18 = NativeV {
        history_kind: spec_qos_to_native_direct(q).history_kind,
        history_depth: spec_qos_to_native_direct(q).history_depth,
        ..m17
    };
    assert(nv18 == m18);
    let nv19 = spec_resource_limits_to_native(nv18, q.resource_limits);
    let m19 = NativeV {
        resource_limits_max_samples: spec_qos_to_native_direct(q).resource_limits_max_samples,
        resource_limits_max_instances: spec_qos_to_native_direct(q).resource_limits_max_instances,
        resource_limits_max_samples_per_instance: spec_qos_to_native_direct(
            q,
        ).resource_limits_max_samples_per_instance,
        ..m18
    };
    assert(nv19 == m19);
    let nv20 = spec_writer_data_lifecycle_to_native(nv19, q.writer_data_lifecycle);
    let m20 = NativeV {
        writer_data_lifecycle_autodispose: spec_qos_to_native_direct(
            q,
        ).writer_data_lifecycle_autodispose,
        ..m19
    };
    assert(nv20 == m20);
    let nv21 = spec_reader_data_lifecycle_to_native(nv20, q.reader_data_lifecycle);
    let m21 = NativeV {
        reader_data_lifecycle_nowriter_delay: spec_qos_to_native_direct(
            q,
        ).reader_data_lifecycle_nowriter_delay,
        reader_data_lifecycle_disposed_delay: spec_qos_to_native_direct(
            q,
        ).reader_data_lifecycle_disposed_delay,
        ..m20
    };
    assert(nv21 == m21);
    let nv22 = spec_writer_batching_to_native(nv21, q.writer_batching);
    let m22 = NativeV {
        writer_batching_batch_updates: spec_qos_to_native_direct(q).writer_batching_batch_updates,
        ..m21
    };
    assert(nv22 == m22);
    let nv23 = spec_type_consistency_to_native(nv22, q.type_consistency);
    let m23 = NativeV {
        type_consistency_kind: spec_qos_to_native_direct(q).type_consistency_kind,
        type_consistency_ignore_sequence_bounds: spec_qos_to_native_direct(
            q,
        ).type_consistency_ignore_sequence_bounds,
        type_consistency_ignore_string_bounds: spec_qos_to_native_direct(
            q,
        ).type_consistency_ignore_string_bounds,
        type_consistency_ignore_member_names: spec_qos_to_native_direct(
            q,
        ).type_consistency_ignore_member_names,
        type_consistency_prevent_type_widening: spec_qos_to_native_direct(
            q,
        ).type_consistency_prevent_type_widening,
        type_consistency_force_type_validation: spec_qos_to_native_direct(
            q,
        ).type_consistency_force_type_validation,
        ..m22
    };
    assert(nv23 == m23);
    let nv24 = spec_entity_name_to_native(nv23, q.entity_name);
    let m24 = NativeV { entity_name: spec_qos_to_native_direct(q).entity_name, ..m23 };
    assert(nv24 == m24);
    let nv25 = spec_properties_to_native(nv24, q.properties);
    let m25 = NativeV { properties: spec_qos_to_native_direct(q).properties, ..m24 };
    assert(nv25 == m25);
    let nv26 = spec_ignore_local_to_native(nv25, q.ignore_local);
    let m26 = NativeV { ignore_local_kind: spec_qos_to_native_direct(q).ignore_local_kind, ..m25 };
    assert(nv26 == m26);
    let nv27 = spec_data_representation_to_native(nv26, q.data_representation);
    let m27 = NativeV {
        data_representation: spec_qos_to_native_direct(q).data_representation,
        ..m26
    };
    assert(nv27 == m27);
    assert(spec_qos_to_native(q) == nv27);
    assert(m27 == spec_qos_to_native_direct(q));
}

/// Law: encoding a normalized aggregate onto a fresh configuration object and
/// decoding that object reproduces the aggregate exactly, slot for slot and
/// field for field.
#[verifier::rlimit(100)]
pub proof fn lemma_native_round_trip(q: QosV)
    requires
        spec_qos_normalized(q),
        spec_qos_props_encodable(q),
    ensures
        spec_native_codes_valid(spec_qos_to_native(q)),
        spec_qos_from_native(spec_qos_to_native(q)) == q,
{
    lemma_qos_to_native_direct(q);
    let nv = spec_qos_to_native_direct(q);
    match q.properties {
        Some(ps) => {
            assert(Seq::<PropView>::empty() + ps =~= ps);
            lemma_props_insert_all_of_wf(Seq::empty(), ps);
            assert(nv.properties == ps);
            assert(ps.take(0) =~= Seq::<PropView>::empty());
            lemma_decoded_props_loop_of_wf(ps, 0);
            assert(spec_decoded_props(ps) == ps);
            assert(spec_properties_from_native(nv) == Some(ps));
        },
        None => {
            assert(spec_decoded_props(nv.properties) =~= Seq::<PropView>::empty());
            assert(spec_properties_from_native(nv) is None);
        },
    }
    assert(spec_qos_from_native(nv).user_data == q.user_data);
    assert(spec_qos_from_native(nv).topic_data == q.topic_data);
    assert(spec_qos_from_native(nv).group_data == q.group_data);
    assert(spec_qos_from_native(nv).durability == q.durability);
    assert(spec_qos_from_native(nv).durability_service == q.durability_service);
    assert(spec_qos_from_native(nv).presentation == q.presentation);
    assert(spec_qos_from_native(nv).deadline == q.deadline);
    assert(spec_qos_from_native(nv).latency_budget == q.latency_budget);
    assert(spec_qos_from_native(nv).ownership == q.ownership);
    assert(spec_qos_from_native(nv).ownership_strength == q.ownership_strength);
    assert(spec_qos_from_native(nv).liveliness == q.liveliness);
    assert(spec_qos_from_native(nv).time_based_filter == q.time_based_filter);
    assert(spec_qos_from_native(nv).partition == q.partition);
    assert(spec_qos_from_native(nv).reliability == q.reliability);
    assert(spec_qos_from_native(nv).transport_priority == q.transport_priority);
    assert(spec_qos_from_native(nv).lifespan == q.lifespan);
    assert(spec_qos_from_native(nv).destination_order == q.destination_order);
    assert(spec_qos_from_native(nv).history == q.history);
    assert(spec_qos_from_native(nv).resource_limits == q.resource_limits);
    assert(spec_qos_from_native(nv).writer_data_lifecycle == q.writer_data_lifecycle);
    assert(spec_qos_from_native(nv).reader_data_lifecycle == q.reader_data_lifecycle);
    assert(spec_qos_from_native(nv).writer_batching == q.writer_batching);
    assert(spec_qos_from_native(nv).type_consistency == q.type_consistency);
    assert(spec_qos_from_native(nv).entity_name == q.entity_name);
    assert(spec_qos_from_native(nv).properties == q.properties);
    assert(spec_qos_from_native(nv).ignore_local == q.ignore_local);
    assert(spec_qos_from_native(nv).data_representation == q.data_representation);
}

/// Law: marshaling onto a fresh configuration object and decoding it back
/// never turns an absent slot into a populated one or the reverse.
pub proof fn lemma_native_presence_preserved(q: QosV)
    requires
        spec_qos_normalized(q),
        spec_qos_props_encodable(q),
    ensures
        spec_qos_from_native(spec_qos_to_native(q)).user_data is Some <==> q.user_data is Some,
        spec_qos_from_native(spec_qos_to_native(q)).durability is Some <==> q.durability is Some,
        spec_qos_from_native(spec_qos_to_native(q)).reliability is Some <==> q.reliability is Some,
        spec_qos_from_native(spec_qos_to_native(q)).partition is Some <==> q.partition is Some,
        spec_qos_from_native(spec_qos_to_native(q)).properties is Some <==> q.properties is Some,
        spec_qos_from_native(spec_qos_to_native(q)).entity_name is Some <==> q.entity_name is Some,
        spec_qos_from_native(spec_qos_to_native(q)) == q,
{
    lemma_native_round_trip(q);
}

/// Law: the "infinite" duration sentinel and the "unlimited" count sentinel
/// survive a marshaling round trip exactly, never approximated.
pub proof fn lemma_native_sentinels_preserved(q: QosV)
    requires
        spec_qos_normalized(q),
        spec_qos_props_encodable(q),
        q.liveliness matches Some(l) && l.lease_duration == crate::DDS_INFINITE_TIME,
        q.resource_limits matches Some(rl) && rl.max_instances == crate::DDS_LENGTH_UNLIMITED,
    ensures
        spec_qos_from_native(spec_qos_to_native(q)).liveliness matches Some(l) && l.lease_duration
            == crate::DDS_INFINITE_TIME,
        spec_qos_from_native(spec_qos_to_native(q)).resource_limits matches Some(rl)
            && rl.max_instances == crate::DDS_LENGTH_UNLIMITED,
{
    lemma_native_round_trip(q);
}

pub fn properties_to_qos_native(qos: &mut NativeQos, properties: &Option<Properties>)
    ensures
        final(qos)@ == spec_properties_to_native(old(qos)@, properties.deep_view()),
{
    if let Some(properties) = properties {
        let ghost ps = properties.deep_view();
        let n = properties.entries.len();
        proof {
            assert(ps.skip(0) =~= ps);
        }
        let mut i: usize = 0;
        while i < n
            invariant
                n == properties.entries@.len(),
                ps == properties.deep_view(),
                i <= n,
                qos@ == (NativeV {
                    properties: qos@.properties,
                    ..old(qos)@
                }),
                spec_props_insert_all(qos@.properties, ps.skip(i as int)) == spec_props_insert_all(
                    old(qos)@.properties,
                    ps,
                ),
            decreases n - i,
        {
            proof {
                assert(ps[i as int] == (properties.entries[i as int].key@,
                properties.entries[i as int].value@));
                assert(ps.skip(i as int)[0] == ps[i as int]);
                assert(ps.skip(i as int).skip(1) =~= ps.skip(i as int + 1));
            }
            qos.set_prop(&properties.entries[i].key, &properties.entries[i].value);
            i += 1;
        }
        proof {
            assert(ps.skip(n as int) =~= Seq::<PropView>::empty());
        }
    }
}

// ---------------------------------------------------------------------------
// Per-policy laws: writing a non-default value through a policy's setter and
// reading it back through the same policy's getter reproduces it exactly,
// whatever else the configuration object holds.  The property interface obeys
// the same law through the aggregate round trip.
// ---------------------------------------------------------------------------

/// Law: a non-default value survives encode then decode of this policy.
pub proof fn lemma_user_data_set_then_get(nv: NativeV, b: Seq<u8>)
    requires
        b != Seq::<u8>::empty(),
    ensures
        spec_user_data_from_native(spec_user_data_to_native(nv, Some(b))) == Some(b),
{
}

/// Law: a non-default value survives encode then decode of this policy.
pub proof fn lemma_topic_data_set_then_get(nv: NativeV, b: Seq<u8>)
    requires
        b != Seq::<u8>::empty(),
    ensures
        spec_topic_data_from_native(spec_topic_data_to_native(nv, Some(b))) == Some(b),
{
}

/// Law: a non-default value survives encode then decode of this policy.
pub proof fn lemma_group_data_set_then_get(nv: NativeV, b: Seq<u8>)
    requires
        b != Seq::<u8>::empty(),
    ensures
        spec_group_data_from_native(spec_group_data_to_native(nv, Some(b))) == Some(b),
{
}

/// Law: a non-default value survives encode then decode of this policy.
pub proof fn lemma_durability_set_then_get(nv: NativeV, v: Durability)
    requires
        v != Durability::canonical_default_view(),
    ensures
        spec_durability_from_native(spec_durability_to_native(nv, Some(v))) == Result::<Option<Durability>, QosError>::Ok(Some(v)),
{
}

/// Law: a non-default value survives encode then decode of this policy.
pub proof fn lemma_durability_service_set_then_get(nv: NativeV, v: DurabilityService)
    requires
        v != DurabilityService::canonical_default_view(),
    ensures
        spec_durability_service_from_native(spec_durability_service_to_native(nv, Some(v))) == Result::<Option<DurabilityService>, QosError>::Ok(Some(v)),
{
}

/// Law: a non-default value survives encode then decode of this policy.
pub proof fn lemma_presentation_set_then_get(nv: NativeV, v: Presentation)
    requires
        v != Presentation::canonical_default_view(),
    ensures
        spec_presentation_from_native(spec_presentation_to_native(nv, Some(v))) == Result::<Option<Presentation>, QosError>::Ok(Some(v)),
{
}

/// Law: a non-default value survives encode then decode of this policy.
pub proof fn lemma_deadline_set_then_get(nv: NativeV, v: Deadline)
    requires
        v != Deadline::canonical_default_view(),
    ensures
        spec_deadline_from_native(spec_deadline_to_native(nv, Some(v))) == Some(v),
{
}

/// Law: a non-default value survives encode then decode of this policy.
pub proof fn lemma_latency_budget_set_then_get(nv: NativeV, v: LatencyBudget)
    requires
        v != LatencyBudget::canonical_default_view(),
    ensures
        spec_latency_budget_from_native(spec_latency_budget_to_native(nv, Some(v))) == Some(v),
{
}

/// Law: a non-default value survives encode then decode of this policy.
pub proof fn lemma_ownership_set_then_get(nv: NativeV, v: Ownership)
    requires
        v != Ownership::canonical_default_view(),
    ensures
        spec_ownership_from_native(spec_ownership_to_native(nv, Some(v))) == Result::<Option<Ownership>, QosError>::Ok(Some(v)),
{
}

/// Law: a non-default value survives encode then decode of this policy.
pub proof fn lemma_ownership_strength_set_then_get(nv: NativeV, v: OwnershipStrength)
    requires
        v != OwnershipStrength::canonical_default_view(),
    ensures
        spec_ownership_strength_from_native(spec_ownership_strength_to_native(nv, Some(v))) == Some(v),
{
}

/// Law: a non-default value survives encode then decode of this policy.
pub proof fn lemma_liveliness_set_then_get(nv: NativeV, v: Liveliness)
    requires
        v != Liveliness::canonical_default_view(),
    ensures
        spec_liveliness_from_native(spec_liveliness_to_native(nv, Some(v))) == Result::<Option<Liveliness>, QosError>::Ok(Some(v)),
{
}

/// Law: a non-default value survives encode then decode of this policy.
pub proof fn lemma_time_based_filter_set_then_get(nv: NativeV, v: TimeBasedFilter)
    requires
        v != TimeBasedFilter::canonical_default_view(),
    ensures
        spec_time_based_filter_from_native(spec_time_based_filter_to_native(nv, Some(v))) == Some(v),
{
}

/// Law: a non-default value survives encode then decode of this policy.
pub proof fn lemma_partition_set_then_get(nv: NativeV, l: Seq<Seq<char>>)
    requires
        l != Seq::<Seq<char>>::empty(),
    ensures
        spec_partition_from_native(spec_partition_to_native(nv, Some(l))) == Some(l),
{
}

/// Law: a non-default value survives encode then decode of this policy.
pub proof fn lemma_reliability_set_then_get(nv: NativeV, v: Reliability)
    requires
        v != Reliability::canonical_default_view(),
    ensures
        spec_reliability_from_native(spec_reliability_to_native(nv, Some(v))) == Result::<Option<Reliability>, QosError>::Ok(Some(v)),
{
}

/// Law: a non-default value survives encode then decode of this policy.
pub proof fn lemma_transport_priority_set_then_get(nv: NativeV, v: TransportPriority)
    requires
        v != TransportPriority::canonical_default_view(),
    ensures
        spec_transport_priority_from_native(spec_transport_priority_to_native(nv, Some(v))) == Some(v),
{
}

/// Law: a non-default value survives encode then decode of this policy.
pub proof fn lemma_lifespan_set_then_get(nv: NativeV, v: Lifespan)
    requires
        v != Lifespan::canonical_default_view(),
    ensures
        spec_lifespan_from_native(spec_lifespan_to_native(nv, Some(v))) == Some(v),
{
}

/// Law: a non-default value survives encode then decode of this policy.
pub proof fn lemma_destination_order_set_then_get(nv: NativeV, v: DestinationOrder)
    requires
        v != DestinationOrder::canonical_default_view(),
    ensures
        spec_destination_order_from_native(spec_destination_order_to_native(nv, Some(v))) == Result::<Option<DestinationOrder>, QosError>::Ok(Some(v)),
{
}

/// Law: a non-default value survives encode then decode of this policy.
pub proof fn lemma_history_set_then_get(nv: NativeV, v: History)
    requires
        v != History::canonical_default_view(),
    ensures
        spec_history_from_native(spec_history_to_native(nv, Some(v))) == Result::<Option<History>, QosError>::Ok(Some(v)),
{
}

/// Law: a non-default value survives encode then decode of this policy.
pub proof fn lemma_resource_limits_set_then_get(nv: NativeV, v: ResourceLimits)
    requires
        v != ResourceLimits::canonical_default_view(),
    ensures
        spec_resource_limits_from_native(spec_resource_limits_to_native(nv, Some(v))) == Some(v),
{
}

/// Law: a non-default value survives encode then decode of this policy.
pub proof fn lemma_writer_data_lifecycle_set_then_get(nv: NativeV, v: WriterDataLifecycle)
    requires
        v != WriterDataLifecycle::canonical_default_view(),
    ensures
        spec_writer_data_lifecycle_from_native(spec_writer_data_lifecycle_to_native(nv, Some(v))) == Some(v),
{
}

/// Law: a non-default value survives encode then decode of this policy.
pub proof fn lemma_reader_data_lifecycle_set_then_get(nv: NativeV, v: ReaderDataLifecycle)
    requires
        v != ReaderDataLifecycle::canonical_default_view(),
    ensures
        spec_reader_data_lifecycle_from_native(spec_reader_data_lifecycle_to_native(nv, Some(v))) == Some(v),
{
}

/// Law: a non-default value survives encode then decode of this policy.
pub proof fn lemma_writer_batching_set_then_get(nv: NativeV, v: WriterBatching)
    requires
        v != WriterBatching::canonical_default_view(),
    ensures
        spec_writer_batching_from_native(spec_writer_batching_to_native(nv, Some(v))) == Some(v),
{
}

/// Law: a non-default value survives encode then decode of this policy.
pub proof fn lemma_type_consistency_set_then_get(nv: NativeV, v: TypeConsistency)
    requires
        v != TypeConsistency::canonical_default_view(),
    ensures
        spec_type_consistency_from_native(spec_type_consistency_to_native(nv, Some(v))) == Result::<Option<TypeConsistency>, QosError>::Ok(Some(v)),
{
}

/// Law: a non-default value survives encode then decode of this policy.
pub proof fn lemma_entity_name_set_then_get(nv: NativeV, cs: Seq<char>)
    requires
        cs != Seq::<char>::empty(),
    ensures
        spec_entity_name_from_native(spec_entity_name_to_native(nv, Some(cs))) == Some(cs),
{
}

/// Law: a non-default value survives encode then decode of this policy.
pub proof fn lemma_ignore_local_set_then_get(nv: NativeV, v: IgnoreLocal)
    requires
        v != IgnoreLocal::canonical_default_view(),
    ensures
        spec_ignore_local_from_native(spec_ignore_local_to_native(nv, Some(v))) == Result::<Option<IgnoreLocal>, QosError>::Ok(Some(v)),
{
}

/// Law: a non-default value survives encode then decode of this policy.
pub proof fn lemma_data_representation_set_then_get(nv: NativeV, u: Seq<u16>)
    requires
        u != Seq::<u16>::empty(),
    ensures
        spec_data_representation_from_native(spec_data_representation_to_native(nv, Some(u))) == Some(u),
{
}

} // verus!
