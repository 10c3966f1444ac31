//! Compact binary form of the aggregate: a schema-ordered byte sequence with
//! one presence tag per policy, independent of any configuration object.
//! Decoding a freshly encoded aggregate reproduces it exactly; malformed
//! input is reported as a serialization error, never a panic.

use vstd::prelude::*;
use vstd::utf8::encode_utf8;
use crate::QosError;
use crate::policy::Durability;
use crate::policy::DurabilityKind;
use crate::policy::DurabilityService;
use crate::policy::Presentation;
use crate::policy::PresentationAccessScopeKind;
use crate::policy::Deadline;
use crate::policy::LatencyBudget;
use crate::policy::Ownership;
use crate::policy::OwnershipKind;
use crate::policy::OwnershipStrength;
use crate::policy::Liveliness;
use crate::policy::LivelinessKind;
use crate::policy::TimeBasedFilter;
use crate::policy::Reliability;
use crate::policy::ReliabilityKind;
use crate::policy::TransportPriority;
use crate::policy::Lifespan;
use crate::policy::DestinationOrder;
use crate::policy::DestinationOrderKind;
use crate::policy::History;
use crate::policy::HistoryKind;
use crate::policy::ResourceLimits;
use crate::policy::WriterDataLifecycle;
use crate::policy::ReaderDataLifecycle;
use crate::policy::WriterBatching;
use crate::policy::TypeConsistency;
use crate::policy::TypeConsistencyKind;
use crate::policy::EntityName;
use crate::policy::IgnoreLocal;
use crate::policy::IgnoreLocalKind;
use crate::props::Properties;
use crate::props::PropView;
use crate::qos::Qos;
use crate::qos::QosV;
use crate::wire::enc_u64;
use crate::wire::enc_u32;
use crate::wire::enc_i64;
use crate::wire::enc_i32;
use crate::wire::enc_bool;
use crate::wire::enc_bytes;
use crate::wire::enc_str;
use crate::wire::enc_str_list;
use crate::wire::enc_pair_list;
use crate::wire::enc_u16_list;
use crate::wire::sp_byte;
use crate::wire::sp_u32;
use crate::wire::sp_i64;
use crate::wire::sp_i32;
use crate::wire::sp_bool;
use crate::wire::sp_bytes;
use crate::wire::sp_str;
use crate::wire::sp_str_list;
use crate::wire::sp_pair_list;
use crate::wire::sp_u16_list;
use crate::wire::strs_encodable;
use crate::wire::pairs_encodable;
use crate::wire::lemma_byte_round_trip;
use crate::wire::lemma_u32_round_trip;
use crate::wire::lemma_i64_round_trip;
use crate::wire::lemma_i32_round_trip;
use crate::wire::lemma_bool_round_trip;
use crate::wire::lemma_bytes_round_trip;
use crate::wire::lemma_str_round_trip;
use crate::wire::lemma_str_list_round_trip;
use crate::wire::lemma_pair_list_round_trip;
use crate::wire::lemma_u16_list_round_trip;
use crate::wire::write_u64;
use crate::wire::write_u32;
use crate::wire::write_i64;
use crate::wire::write_i32;
use crate::wire::write_bool;
use crate::wire::write_byte;
use crate::wire::write_bytes;
use crate::wire::write_str;
use crate::wire::write_str_list;
use crate::wire::write_pair_list;
use crate::wire::write_u16_list;
use crate::wire::read_byte;
use crate::wire::read_u32;
use crate::wire::read_i64;
use crate::wire::read_i32;
use crate::wire::read_bool;
use crate::wire::read_bytes;
use crate::wire::read_str;
use crate::wire::read_str_list;
use crate::wire::read_pair_list;
use crate::wire::read_u16_list;

verus! {

// ---------------------------------------------------------------------------
// The tagged option layer: one byte of presence, then the payload.
// ---------------------------------------------------------------------------

pub open spec fn enc_opt<T>(o: Option<T>, f: spec_fn(T) -> Seq<u8>) -> Seq<u8> {
    match o {
        None => seq![0u8],
        Some(v) => seq![1u8] + f(v),
    }
}

pub open spec fn sp_opt<T>(s: Seq<u8>, g: spec_fn(Seq<u8>) -> Option<(T, Seq<u8>)>) -> Option<
    (Option<T>, Seq<u8>),
> {
    match sp_byte(s) {
        Some((t, rest)) => if t == 0 {
            Some((Option::<T>::None, rest))
        } else if t == 1 {
            match g(rest) {
                Some((v, fin)) => Some((Some(v), fin)),
                None => None,
            }
        } else {
            None
        },
        None => None,
    }
}

/// A tagged optional payload parses back to itself whenever the payload does.
pub proof fn lemma_opt_round_trip<T>(
    o: Option<T>,
    rest: Seq<u8>,
    f: spec_fn(T) -> Seq<u8>,
    g: spec_fn(Seq<u8>) -> Option<(T, Seq<u8>)>,
)
    requires
        o matches Some(v) ==> g(f(v) + rest) == Some((v, rest)),
    ensures
        sp_opt(enc_opt(o, f) + rest, g) == Some((o, rest)),
{
    match o {
        None => {
            assert((seq![0u8] + rest).skip(1) =~= rest);
        },
        Some(v) => {
            assert(enc_opt(o, f) + rest =~= seq![1u8] + (f(v) + rest));
            assert((seq![1u8] + (f(v) + rest)).skip(1) =~= f(v) + rest);
        },
    }
}

// ---------------------------------------------------------------------------
// Per-policy payloads, at the level of the aggregate's mathematical view.
// ---------------------------------------------------------------------------

pub open spec fn enc_bin_durability(d: Durability) -> Seq<u8> {
    enc_u32(d.kind.spec_code())
}

pub open spec fn sp_bin_durability(s: Seq<u8>) -> Option<(Durability, Seq<u8>)> {
    match sp_u32(s) {
        Some((c, rest)) => match DurabilityKind::spec_from_code(c) {
            Some(kind) => Some((Durability { kind }, rest)),
            None => None,
        },
        None => None,
    }
}

pub open spec fn enc_bin_durability_service(d: DurabilityService) -> Seq<u8> {
    enc_i64(d.service_cleanup_delay) + enc_u32(d.history_kind.spec_code()) + enc_i32(
        d.history_depth,
    ) + enc_i32(d.max_samples) + enc_i32(d.max_instances) + enc_i32(d.max_samples_per_instance)
}

pub open spec fn sp_bin_durability_service(s: Seq<u8>) -> Option<(DurabilityService, Seq<u8>)> {
    match sp_i64(s) {
        Some((service_cleanup_delay, s)) => match sp_u32(s) {
            Some((c, s)) => match HistoryKind::spec_from_code(c) {
                Some(history_kind) => match sp_i32(s) {
                    Some((history_depth, s)) => match sp_i32(s) {
                        Some((max_samples, s)) => match sp_i32(s) {
                            Some((max_instances, s)) => match sp_i32(s) {
                                Some((max_samples_per_instance, s)) => Some(
                                    (
                                        DurabilityService {
                                            service_cleanup_delay,
                                            history_kind,
                                            history_depth,
                                            max_samples,
                                            max_instances,
                                            max_samples_per_instance,
                                        },
                                        s,
                                    ),
                                ),
                                None => None,
                            },
                            None => None,
                        },
                        None => None,
                    },
                    None => None,
                },
                None => None,
            },
            None => None,
        },
        None => None,
    }
}

pub open spec fn enc_bin_presentation(p: Presentation) -> Seq<u8> {
    enc_u32(p.access_scope.spec_code()) + enc_bool(p.coherent_access) + enc_bool(p.ordered_access)
}

pub open spec fn sp_bin_presentation(s: Seq<u8>) -> Option<(Presentation, Seq<u8>)> {
    match sp_u32(s) {
        Some((c, s)) => match PresentationAccessScopeKind::spec_from_code(c) {
            Some(access_scope) => match sp_bool(s) {
                Some((coherent_access, s)) => match sp_bool(s) {
                    Some((ordered_access, s)) => Some(
                        (Presentation { access_scope, coherent_access, ordered_access }, s),
                    ),
                    None => None,
                },
                None => None,
            },
            None => None,
        },
        None => None,
    }
}

pub open spec fn enc_bin_deadline(d: Deadline) -> Seq<u8> {
    enc_i64(d.period)
}

pub open spec fn sp_bin_deadline(s: Seq<u8>) -> Option<(Deadline, Seq<u8>)> {
    match sp_i64(s) {
        Some((period, rest)) => Some((Deadline { period }, rest)),
        None => None,
    }
}

pub open spec fn enc_bin_latency_budget(l: LatencyBudget) -> Seq<u8> {
    enc_i64(l.duration)
}

pub open spec fn sp_bin_latency_budget(s: Seq<u8>) -> Option<(LatencyBudget, Seq<u8>)> {
    match sp_i64(s) {
        Some((duration, rest)) => Some((LatencyBudget { duration }, rest)),
        None => None,
    }
}

pub open spec fn enc_bin_ownership(o: Ownership) -> Seq<u8> {
    enc_u32(o.kind.spec_code())
}

pub open spec fn sp_bin_ownership(s: Seq<u8>) -> Option<(Ownership, Seq<u8>)> {
    match sp_u32(s) {
        Some((c, rest)) => match OwnershipKind::spec_from_code(c) {
            Some(kind) => Some((Ownership { kind }, rest)),
            None => None,
        },
        None => None,
    }
}

pub open spec fn enc_bin_ownership_strength(o: OwnershipStrength) -> Seq<u8> {
    enc_i32(o.value)
}

pub open spec fn sp_bin_ownership_strength(s: Seq<u8>) -> Option<(OwnershipStrength, Seq<u8>)> {
    match sp_i32(s) {
        Some((value, rest)) => Some((OwnershipStrength { value }, rest)),
        None => None,
    }
}

pub open spec fn enc_bin_liveliness(l: Liveliness) -> Seq<u8> {
    enc_u32(l.kind.spec_code()) + enc_i64(l.lease_duration)
}

pub open spec fn sp_bin_liveliness(s: Seq<u8>) -> Option<(Liveliness, Seq<u8>)> {
    match sp_u32(s) {
        Some((c, s)) => match LivelinessKind::spec_from_code(c) {
            Some(kind) => match sp_i64(s) {
                Some((lease_duration, rest)) => Some((Liveliness { kind, lease_duration }, rest)),
                None => None,
            },
            None => None,
        },
        None => None,
    }
}

pub open spec fn enc_bin_time_based_filter(t: TimeBasedFilter) -> Seq<u8> {
    enc_i64(t.minimum_separation)
}

pub open spec fn sp_bin_time_based_filter(s: Seq<u8>) -> Option<(TimeBasedFilter, Seq<u8>)> {
    match sp_i64(s) {
        Some((minimum_separation, rest)) => Some((TimeBasedFilter { minimum_separation }, rest)),
        None => None,
    }
}

pub open spec fn enc_bin_reliability(re: Reliability) -> Seq<u8> {
    enc_u32(re.kind.spec_code()) + enc_i64(re.max_blocking_time)
}

pub open spec fn sp_bin_reliability(s: Seq<u8>) -> Option<(Reliability, Seq<u8>)> {
    match sp_u32(s) {
        Some((c, s)) => match ReliabilityKind::spec_from_code(c) {
            Some(kind) => match sp_i64(s) {
                Some((max_blocking_time, rest)) => Some(
                    (Reliability { kind, max_blocking_time }, rest),
                ),
                None => None,
            },
            None => None,
        },
        None => None,
    }
}

pub open spec fn enc_bin_transport_priority(t: TransportPriority) -> Seq<u8> {
    enc_i32(t.value)
}

pub open spec fn sp_bin_transport_priority(s: Seq<u8>) -> Option<(TransportPriority, Seq<u8>)> {
    match sp_i32(s) {
        Some((value, rest)) => Some((TransportPriority { value }, rest)),
        None => None,
    }
}

pub open spec fn enc_bin_lifespan(l: Lifespan) -> Seq<u8> {
    enc_i64(l.duration)
}

pub open spec fn sp_bin_lifespan(s: Seq<u8>) -> Option<(Lifespan, Seq<u8>)> {
    match sp_i64(s) {
        Some((duration, rest)) => Some((Lifespan { duration }, rest)),
        None => None,
    }
}

pub open spec fn enc_bin_destination_order(d: DestinationOrder) -> Seq<u8> {
    enc_u32(d.kind.spec_code())
}

pub open spec fn sp_bin_destination_order(s: Seq<u8>) -> Option<(DestinationOrder, Seq<u8>)> {
    match sp_u32(s) {
        Some((c, rest)) => match DestinationOrderKind::spec_from_code(c) {
            Some(kind) => Some((DestinationOrder { kind }, rest)),
            None => None,
        },
        None => None,
    }
}

pub open spec fn enc_bin_history(h: History) -> Seq<u8> {
    enc_u32(h.kind.spec_code()) + enc_i32(h.depth)
}

pub open spec fn sp_bin_history(s: Seq<u8>) -> Option<(History, Seq<u8>)> {
    match sp_u32(s) {
        Some((c, s)) => match HistoryKind::spec_from_code(c) {
            Some(kind) => match sp_i32(s) {
                Some((depth, rest)) => Some((History { kind, depth }, rest)),
                None => None,
            },
            None => None,
        },
        None => None,
    }
}

pub open spec fn enc_bin_resource_limits(r: ResourceLimits) -> Seq<u8> {
    enc_i32(r.max_samples) + enc_i32(r.max_instances) + enc_i32(r.max_samples_per_instance)
}

pub open spec fn sp_bin_resource_limits(s: Seq<u8>) -> Option<(ResourceLimits, Seq<u8>)> {
    match sp_i32(s) {
        Some((max_samples, s)) => match sp_i32(s) {
            Some((max_instances, s)) => match sp_i32(s) {
                Some((max_samples_per_instance, rest)) => Some(
                    (ResourceLimits { max_samples, max_instances, max_samples_per_instance }, rest),
                ),
                None => None,
            },
            None => None,
        },
        None => None,
    }
}

pub open spec fn enc_bin_writer_data_lifecycle(w: WriterDataLifecycle) -> Seq<u8> {
    enc_bool(w.autodispose_unregistered_instances)
}

pub open spec fn sp_bin_writer_data_lifecycle(s: Seq<u8>) -> Option<(WriterDataLifecycle, Seq<u8>)> {
    match sp_bool(s) {
        Some((autodispose_unregistered_instances, rest)) => Some(
            (WriterDataLifecycle { autodispose_unregistered_instances }, rest),
        ),
        None => None,
    }
}

pub open spec fn enc_bin_reader_data_lifecycle(re: ReaderDataLifecycle) -> Seq<u8> {
    enc_i64(re.autopurge_nowriter_samples_delay) + enc_i64(re.autopurge_disposed_samples_delay)
}

pub open spec fn sp_bin_reader_data_lifecycle(s: Seq<u8>) -> Option<(ReaderDataLifecycle, Seq<u8>)> {
    match sp_i64(s) {
        Some((autopurge_nowriter_samples_delay, s)) => match sp_i64(s) {
            Some((autopurge_disposed_samples_delay, rest)) => Some(
                (
                    ReaderDataLifecycle {
                        autopurge_nowriter_samples_delay,
                        autopurge_disposed_samples_delay,
                    },
                    rest,
                ),
            ),
            None => None,
        },
        None => None,
    }
}

pub open spec fn enc_bin_writer_batching(w: WriterBatching) -> Seq<u8> {
    enc_bool(w.batch_updates)
}

pub open spec fn sp_bin_writer_batching(s: Seq<u8>) -> Option<(WriterBatching, Seq<u8>)> {
    match sp_bool(s) {
        Some((batch_updates, rest)) => Some((WriterBatching { batch_updates }, rest)),
        None => None,
    }
}

pub open spec fn enc_bin_type_consistency(t: TypeConsistency) -> Seq<u8> {
    enc_u32(t.kind.spec_code()) + enc_bool(t.ignore_sequence_bounds) + enc_bool(
        t.ignore_string_bounds,
    ) + enc_bool(t.ignore_member_names) + enc_bool(t.prevent_type_widening) + enc_bool(
        t.force_type_validation,
    )
}

pub open spec fn sp_bin_type_consistency(s: Seq<u8>) -> Option<(TypeConsistency, Seq<u8>)> {
    match sp_u32(s) {
        Some((c, s)) => match TypeConsistencyKind::spec_from_code(c) {
            Some(kind) => match sp_bool(s) {
                Some((ignore_sequence_bounds, s)) => match sp_bool(s) {
                    Some((ignore_string_bounds, s)) => match sp_bool(s) {
                        Some((ignore_member_names, s)) => match sp_bool(s) {
                            Some((prevent_type_widening, s)) => match sp_bool(s) {
                                Some((force_type_validation, rest)) => Some(
                                    (
                                        TypeConsistency {
                                            kind,
                                            ignore_sequence_bounds,
                                            ignore_string_bounds,
                                            ignore_member_names,
                                            prevent_type_widening,
                                            force_type_validation,
                                        },
                                        rest,
                                    ),
                                ),
                                None => None,
                            },
                            None => None,
                        },
                        None => None,
                    },
                    None => None,
                },
                None => None,
            },
            None => None,
        },
        None => None,
    }
}

pub open spec fn enc_bin_ignore_local(i: IgnoreLocal) -> Seq<u8> {
    enc_u32(i.kind.spec_code())
}

pub open spec fn sp_bin_ignore_local(s: Seq<u8>) -> Option<(IgnoreLocal, Seq<u8>)> {
    match sp_u32(s) {
        Some((c, rest)) => match IgnoreLocalKind::spec_from_code(c) {
            Some(kind) => Some((IgnoreLocal { kind }, rest)),
            None => None,
        },
        None => None,
    }
}

// ---------------------------------------------------------------------------
// Tagged optional slots: writers and readers, one per policy.
// ---------------------------------------------------------------------------

fn write_opt_bytes(out: &mut Vec<u8>, o: &Option<Vec<u8>>)
    ensures
        final(out)@ == old(out)@ + enc_opt(o.deep_view(), |b: Seq<u8>| enc_bytes(b)),
{
    match o {
        None => write_byte(out, 0),
        Some(v) => {
            let ghost prev = out@;
            write_byte(out, 1);
            write_bytes(out, v);
            proof {
                assert(v.deep_view() =~= v@);
                assert(out@ =~= prev + (seq![1u8] + enc_bytes(v@)));
            }
        },
    }
}

fn read_opt_bytes(buf: &Vec<u8>, pos: usize) -> (r: Result<(Option<Vec<u8>>, usize), QosError>)
    requires
        pos <= buf@.len(),
    ensures
        match r {
            Ok((o, p2)) => pos <= p2 <= buf@.len() && sp_opt(
                buf@.skip(pos as int),
                |s: Seq<u8>| sp_bytes(s),
            ) == Some((o.deep_view(), buf@.skip(p2 as int))),
            Err(e) => e == QosError::SerializationError && sp_opt(
                buf@.skip(pos as int),
                |s: Seq<u8>| sp_bytes(s),
            ) is None,
        },
{
    let (tag, p) = match read_byte(buf, pos) {
        Ok(v) => v,
        Err(e) => {
            return Err(e);
        },
    };
    if tag == 0 {
        Ok((None, p))
    } else if tag == 1 {
        let (v, p2) = match read_bytes(buf, p) {
            Ok(v) => v,
            Err(e) => {
                return Err(e);
            },
        };
        proof {
            assert(Some(v).deep_view() == Some(v@));
        }
        Ok((Some(v), p2))
    } else {
        Err(QosError::SerializationError)
    }
}

fn write_opt_durability(out: &mut Vec<u8>, o: &Option<Durability>)
    ensures
        final(out)@ == old(out)@ + enc_opt(o.deep_view(), |v: Durability| enc_bin_durability(v)),
{
    match o {
        None => write_byte(out, 0),
        Some(v) => {
            let ghost prev = out@;
            write_byte(out, 1);
            write_u32(out, v.kind.code());
            proof {
                assert(out@ =~= prev + (seq![1u8] + enc_bin_durability(*v)));
            }
        },
    }
}

fn read_opt_durability(buf: &Vec<u8>, pos: usize) -> (r: Result<
    (Option<Durability>, usize),
    QosError,
>)
    requires
        pos <= buf@.len(),
    ensures
        match r {
            Ok((o, p2)) => pos <= p2 <= buf@.len() && sp_opt(
                buf@.skip(pos as int),
                |s: Seq<u8>| sp_bin_durability(s),
            ) == Some((o.deep_view(), buf@.skip(p2 as int))),
            Err(e) => e == QosError::SerializationError && sp_opt(
                buf@.skip(pos as int),
                |s: Seq<u8>| sp_bin_durability(s),
            ) is None,
        },
{
    let (tag, p) = match read_byte(buf, pos) {
        Ok(v) => v,
        Err(e) => {
            return Err(e);
        },
    };
    if tag == 0 {
        Ok((None, p))
    } else if tag == 1 {
        let (c, p2) = match read_u32(buf, p) {
            Ok(v) => v,
            Err(e) => {
                return Err(e);
            },
        };
        match DurabilityKind::from_code(c) {
            Some(kind) => Ok((Some(Durability { kind }), p2)),
            None => Err(QosError::SerializationError),
        }
    } else {
        Err(QosError::SerializationError)
    }
}

fn write_opt_durability_service(out: &mut Vec<u8>, o: &Option<DurabilityService>)
    ensures
        final(out)@ == old(out)@ + enc_opt(
            o.deep_view(),
            |v: DurabilityService| enc_bin_durability_service(v),
        ),
{
    match o {
        None => write_byte(out, 0),
        Some(v) => {
            let ghost prev = out@;
            write_byte(out, 1);
            write_i64(out, v.service_cleanup_delay);
            write_u32(out, v.history_kind.code());
            write_i32(out, v.history_depth);
            write_i32(out, v.max_samples);
            write_i32(out, v.max_instances);
            write_i32(out, v.max_samples_per_instance);
            proof {
                assert(out@ =~= prev + (seq![1u8] + enc_bin_durability_service(*v)));
            }
        },
    }
}

fn read_opt_durability_service(buf: &Vec<u8>, pos: usize) -> (r: Result<
    (Option<DurabilityService>, usize),
    QosError,
>)
    requires
        pos <= buf@.len(),
    ensures
        match r {
            Ok((o, p2)) => pos <= p2 <= buf@.len() && sp_opt(
                buf@.skip(pos as int),
                |s: Seq<u8>| sp_bin_durability_service(s),
            ) == Some((o.deep_view(), buf@.skip(p2 as int))),
            Err(e) => e == QosError::SerializationError && sp_opt(
                buf@.skip(pos as int),
                |s: Seq<u8>| sp_bin_durability_service(s),
            ) is None,
        },
{
    let (tag, p) = match read_byte(buf, pos) {
        Ok(v) => v,
        Err(e) => {
            return Err(e);
        },
    };
    if tag == 0 {
        return Ok((None, p));
    }
    if tag != 1 {
        return Err(QosError::SerializationError);
    }
    let (service_cleanup_delay, p) = match read_i64(buf, p) {
        Ok(v) => v,
        Err(e) => {
            return Err(e);
        },
    };
    let (c, p) = match read_u32(buf, p) {
        Ok(v) => v,
        Err(e) => {
            return Err(e);
        },
    };
    let history_kind = match HistoryKind::from_code(c) {
        Some(k) => k,
        None => {
            return Err(QosError::SerializationError);
        },
    };
    let (history_depth, p) = match read_i32(buf, p) {
        Ok(v) => v,
        Err(e) => {
            return Err(e);
        },
    };
    let (max_samples, p) = match read_i32(buf, p) {
        Ok(v) => v,
        Err(e) => {
            return Err(e);
        },
    };
    let (max_instances, p) = match read_i32(buf, p) {
        Ok(v) => v,
        Err(e) => {
            return Err(e);
        },
    };
    let (max_samples_per_instance, p) = match read_i32(buf, p) {
        Ok(v) => v,
        Err(e) => {
            return Err(e);
        },
    };
    Ok(
        (
            Some(
                DurabilityService {
                    service_cleanup_delay,
                    history_kind,
                    history_depth,
                    max_samples,
                    max_instances,
                    max_samples_per_instance,
                },
            ),
            p,
        ),
    )
}

fn write_opt_presentation(out: &mut Vec<u8>, o: &Option<Presentation>)
    ensures
        final(out)@ == old(out)@ + enc_opt(
            o.deep_view(),
            |v: Presentation| enc_bin_presentation(v),
        ),
{
    match o {
        None => write_byte(out, 0),
        Some(v) => {
            let ghost prev = out@;
            write_byte(out, 1);
            write_u32(out, v.access_scope.code());
            write_bool(out, v.coherent_access);
            write_bool(out, v.ordered_access);
            proof {
                assert(out@ =~= prev + (seq![1u8] + enc_bin_presentation(*v)));
            }
        },
    }
}

fn read_opt_presentation(buf: &Vec<u8>, pos: usize) -> (r: Result<
    (Option<Presentation>, usize),
    QosError,
>)
    requires
        pos <= buf@.len(),
    ensures
        match r {
            Ok((o, p2)) => pos <= p2 <= buf@.len() && sp_opt(
                buf@.skip(pos as int),
                |s: Seq<u8>| sp_bin_presentation(s),
            ) == Some((o.deep_view(), buf@.skip(p2 as int))),
            Err(e) => e == QosError::SerializationError && sp_opt(
                buf@.skip(pos as int),
                |s: Seq<u8>| sp_bin_presentation(s),
            ) is None,
        },
{
    let (tag, p) = match read_byte(buf, pos) {
        Ok(v) => v,
        Err(e) => {
            return Err(e);
        },
    };
    if tag == 0 {
        return Ok((None, p));
    }
    if tag != 1 {
        return Err(QosError::SerializationError);
    }
    let (c, p) = match read_u32(buf, p) {
        Ok(v) => v,
        Err(e) => {
            return Err(e);
        },
    };
    let access_scope = match PresentationAccessScopeKind::from_code(c) {
        Some(k) => k,
        None => {
            return Err(QosError::SerializationError);
        },
    };
    let (coherent_access, p) = match read_bool(buf, p) {
        Ok(v) => v,
        Err(e) => {
            return Err(e);
        },
    };
    let (ordered_access, p) = match read_bool(buf, p) {
        Ok(v) => v,
        Err(e) => {
            return Err(e);
        },
    };
    Ok((Some(Presentation { access_scope, coherent_access, ordered_access }), p))
}

fn write_opt_deadline(out: &mut Vec<u8>, o: &Option<Deadline>)
    ensures
        final(out)@ == old(out)@ + enc_opt(o.deep_view(), |v: Deadline| enc_bin_deadline(v)),
{
    match o {
        None => write_byte(out, 0),
        Some(v) => {
            let ghost prev = out@;
            write_byte(out, 1);
            write_i64(out, v.period);
            proof {
                assert(out@ =~= prev + (seq![1u8] + enc_bin_deadline(*v)));
            }
        },
    }
}

fn read_opt_deadline(buf: &Vec<u8>, pos: usize) -> (r: Result<(Option<Deadline>, usize), QosError>)
    requires
        pos <= buf@.len(),
    ensures
        match r {
            Ok((o, p2)) => pos <= p2 <= buf@.len() && sp_opt(
                buf@.skip(pos as int),
                |s: Seq<u8>| sp_bin_deadline(s),
            ) == Some((o.deep_view(), buf@.skip(p2 as int))),
            Err(e) => e == QosError::SerializationError && sp_opt(
                buf@.skip(pos as int),
                |s: Seq<u8>| sp_bin_deadline(s),
            ) is None,
        },
{
    let (tag, p) = match read_byte(buf, pos) {
        Ok(v) => v,
        Err(e) => {
            return Err(e);
        },
    };
    if tag == 0 {
        Ok((None, p))
    } else if tag == 1 {
        match read_i64(buf, p) {
            Ok((period, p2)) => Ok((Some(Deadline { period }), p2)),
            Err(e) => Err(e),
        }
    } else {
        Err(QosError::SerializationError)
    }
}

fn write_opt_latency_budget(out: &mut Vec<u8>, o: &Option<LatencyBudget>)
    ensures
        final(out)@ == old(out)@ + enc_opt(
            o.deep_view(),
            |v: LatencyBudget| enc_bin_latency_budget(v),
        ),
{
    match o {
        None => write_byte(out, 0),
        Some(v) => {
            let ghost prev = out@;
            write_byte(out, 1);
            write_i64(out, v.duration);
            proof {
                assert(out@ =~= prev + (seq![1u8] + enc_bin_latency_budget(*v)));
            }
        },
    }
}

fn read_opt_latency_budget(buf: &Vec<u8>, pos: usize) -> (r: Result<
    (Option<LatencyBudget>, usize),
    QosError,
>)
    requires
        pos <= buf@.len(),
    ensures
        match r {
            Ok((o, p2)) => pos <= p2 <= buf@.len() && sp_opt(
                buf@.skip(pos as int),
                |s: Seq<u8>| sp_bin_latency_budget(s),
            ) == Some((o.deep_view(), buf@.skip(p2 as int))),
            Err(e) => e == QosError::SerializationError && sp_opt(
                buf@.skip(pos as int),
                |s: Seq<u8>| sp_bin_latency_budget(s),
            ) is None,
        },
{
    let (tag, p) = match read_byte(buf, pos) {
        Ok(v) => v,
        Err(e) => {
            return Err(e);
        },
    };
    if tag == 0 {
        Ok((None, p))
    } else if tag == 1 {
        match read_i64(buf, p) {
            Ok((duration, p2)) => Ok((Some(LatencyBudget { duration }), p2)),
            Err(e) => Err(e),
        }
    } else {
        Err(QosError::SerializationError)
    }
}

fn write_opt_ownership(out: &mut Vec<u8>, o: &Option<Ownership>)
    ensures
        final(out)@ == old(out)@ + enc_opt(o.deep_view(), |v: Ownership| enc_bin_ownership(v)),
{
    match o {
        None => write_byte(out, 0),
        Some(v) => {
            let ghost prev = out@;
            write_byte(out, 1);
            write_u32(out, v.kind.code());
            proof {
                assert(out@ =~= prev + (seq![1u8] + enc_bin_ownership(*v)));
            }
        },
    }
}

fn read_opt_ownership(buf: &Vec<u8>, pos: usize) -> (r: Result<
    (Option<Ownership>, usize),
    QosError,
>)
    requires
        pos <= buf@.len(),
    ensures
        match r {
            Ok((o, p2)) => pos <= p2 <= buf@.len() && sp_opt(
                buf@.skip(pos as int),
                |s: Seq<u8>| sp_bin_ownership(s),
            ) == Some((o.deep_view(), buf@.skip(p2 as int))),
            Err(e) => e == QosError::SerializationError && sp_opt(
                buf@.skip(pos as int),
                |s: Seq<u8>| sp_bin_ownership(s),
            ) is None,
        },
{
    let (tag, p) = match read_byte(buf, pos) {
        Ok(v) => v,
        Err(e) => {
            return Err(e);
        },
    };
    if tag == 0 {
        Ok((None, p))
    } else if tag == 1 {
        let (c, p2) = match read_u32(buf, p) {
            Ok(v) => v,
            Err(e) => {
                return Err(e);
            },
        };
        match OwnershipKind::from_code(c) {
            Some(kind) => Ok((Some(Ownership { kind }), p2)),
            None => Err(QosError::SerializationError),
        }
    } else {
        Err(QosError::SerializationError)
    }
}

fn write_opt_ownership_strength(out: &mut Vec<u8>, o: &Option<OwnershipStrength>)
    ensures
        final(out)@ == old(out)@ + enc_opt(
            o.deep_view(),
            |v: OwnershipStrength| enc_bin_ownership_strength(v),
        ),
{
    match o {
        None => write_byte(out, 0),
        Some(v) => {
            let ghost prev = out@;
            write_byte(out, 1);
            write_i32(out, v.value);
            proof {
                assert(out@ =~= prev + (seq![1u8] + enc_bin_ownership_strength(*v)));
            }
        },
    }
}

fn read_opt_ownership_strength(buf: &Vec<u8>, pos: usize) -> (r: Result<
    (Option<OwnershipStrength>, usize),
    QosError,
>)
    requires
        pos <= buf@.len(),
    ensures
        match r {
            Ok((o, p2)) => pos <= p2 <= buf@.len() && sp_opt(
                buf@.skip(pos as int),
                |s: Seq<u8>| sp_bin_ownership_strength(s),
            ) == Some((o.deep_view(), buf@.skip(p2 as int))),
            Err(e) => e == QosError::SerializationError && sp_opt(
                buf@.skip(pos as int),
                |s: Seq<u8>| sp_bin_ownership_strength(s),
            ) is None,
        },
{
    let (tag, p) = match read_byte(buf, pos) {
        Ok(v) => v,
        Err(e) => {
            return Err(e);
        },
    };
    if tag == 0 {
        Ok((None, p))
    } else if tag == 1 {
        match read_i32(buf, p) {
            Ok((value, p2)) => Ok((Some(OwnershipStrength { value }), p2)),
            Err(e) => Err(e),
        }
    } else {
        Err(QosError::SerializationError)
    }
}

fn write_opt_liveliness(out: &mut Vec<u8>, o: &Option<Liveliness>)
    ensures
        final(out)@ == old(out)@ + enc_opt(o.deep_view(), |v: Liveliness| enc_bin_liveliness(v)),
{
    match o {
        None => write_byte(out, 0),
        Some(v) => {
            let ghost prev = out@;
            write_byte(out, 1);
            write_u32(out, v.kind.code());
            write_i64(out, v.lease_duration);
            proof {
                assert(out@ =~= prev + (seq![1u8] + enc_bin_liveliness(*v)));
            }
        },
    }
}

fn read_opt_liveliness(buf: &Vec<u8>, pos: usize) -> (r: Result<
    (Option<Liveliness>, usize),
    QosError,
>)
    requires
        pos <= buf@.len(),
    ensures
        match r {
            Ok((o, p2)) => pos <= p2 <= buf@.len() && sp_opt(
                buf@.skip(pos as int),
                |s: Seq<u8>| sp_bin_liveliness(s),
            ) == Some((o.deep_view(), buf@.skip(p2 as int))),
            Err(e) => e == QosError::SerializationError && sp_opt(
                buf@.skip(pos as int),
                |s: Seq<u8>| sp_bin_liveliness(s),
            ) is None,
        },
{
    let (tag, p) = match read_byte(buf, pos) {
        Ok(v) => v,
        Err(e) => {
            return Err(e);
        },
    };
    if tag == 0 {
        return Ok((None, p));
    }
    if tag != 1 {
        return Err(QosError::SerializationError);
    }
    let (c, p) = match read_u32(buf, p) {
        Ok(v) => v,
        Err(e) => {
            return Err(e);
        },
    };
    let kind = match LivelinessKind::from_code(c) {
        Some(k) => k,
        None => {
            return Err(QosError::SerializationError);
        },
    };
    let (lease_duration, p) = match read_i64(buf, p) {
        Ok(v) => v,
        Err(e) => {
            return Err(e);
        },
    };
    Ok((Some(Liveliness { kind, lease_duration }), p))
}

fn write_opt_time_based_filter(out: &mut Vec<u8>, o: &Option<TimeBasedFilter>)
    ensures
        final(out)@ == old(out)@ + enc_opt(
            o.deep_view(),
            |v: TimeBasedFilter| enc_bin_time_based_filter(v),
        ),
{
    match o {
        None => write_byte(out, 0),
        Some(v) => {
            let ghost prev = out@;
            write_byte(out, 1);
            write_i64(out, v.minimum_separation);
            proof {
                assert(out@ =~= prev + (seq![1u8] + enc_bin_time_based_filter(*v)));
            }
        },
    }
}

fn read_opt_time_based_filter(buf: &Vec<u8>, pos: usize) -> (r: Result<
    (Option<TimeBasedFilter>, usize),
    QosError,
>)
    requires
        pos <= buf@.len(),
    ensures
        match r {
            Ok((o, p2)) => pos <= p2 <= buf@.len() && sp_opt(
                buf@.skip(pos as int),
                |s: Seq<u8>| sp_bin_time_based_filter(s),
            ) == Some((o.deep_view(), buf@.skip(p2 as int))),
            Err(e) => e == QosError::SerializationError && sp_opt(
                buf@.skip(pos as int),
                |s: Seq<u8>| sp_bin_time_based_filter(s),
            ) is None,
        },
{
    let (tag, p) = match read_byte(buf, pos) {
        Ok(v) => v,
        Err(e) => {
            return Err(e);
        },
    };
    if tag == 0 {
        Ok((None, p))
    } else if tag == 1 {
        match read_i64(buf, p) {
            Ok((minimum_separation, p2)) => Ok((Some(TimeBasedFilter { minimum_separation }), p2)),
            Err(e) => Err(e),
        }
    } else {
        Err(QosError::SerializationError)
    }
}

fn write_opt_partition(out: &mut Vec<u8>, o: &Option<Vec<String>>)
    ensures
        final(out)@ == old(out)@ + enc_opt(o.deep_view(), |l: Seq<Seq<char>>| enc_str_list(l)),
{
    match o {
        None => write_byte(out, 0),
        Some(v) => {
            let ghost prev = out@;
            write_byte(out, 1);
            write_str_list(out, v);
            proof {
                assert(out@ =~= prev + (seq![1u8] + enc_str_list(v.deep_view())));
            }
        },
    }
}

fn read_opt_partition(buf: &Vec<u8>, pos: usize) -> (r: Result<
    (Option<Vec<String>>, usize),
    QosError,
>)
    requires
        pos <= buf@.len(),
    ensures
        match r {
            Ok((o, p2)) => pos <= p2 <= buf@.len() && sp_opt(
                buf@.skip(pos as int),
                |s: Seq<u8>| sp_str_list(s),
            ) == Some((o.deep_view(), buf@.skip(p2 as int))),
            Err(e) => e == QosError::SerializationError && sp_opt(
                buf@.skip(pos as int),
                |s: Seq<u8>| sp_str_list(s),
            ) is None,
        },
{
    let (tag, p) = match read_byte(buf, pos) {
        Ok(v) => v,
        Err(e) => {
            return Err(e);
        },
    };
    if tag == 0 {
        Ok((None, p))
    } else if tag == 1 {
        match read_str_list(buf, p) {
            Ok((v, p2)) => Ok((Some(v), p2)),
            Err(e) => Err(e),
        }
    } else {
        Err(QosError::SerializationError)
    }
}

fn write_opt_reliability(out: &mut Vec<u8>, o: &Option<Reliability>)
    ensures
        final(out)@ == old(out)@ + enc_opt(o.deep_view(), |v: Reliability| enc_bin_reliability(v)),
{
    match o {
        None => write_byte(out, 0),
        Some(v) => {
            let ghost prev = out@;
            write_byte(out, 1);
            write_u32(out, v.kind.code());
            write_i64(out, v.max_blocking_time);
            proof {
                assert(out@ =~= prev + (seq![1u8] + enc_bin_reliability(*v)));
            }
        },
    }
}

fn read_opt_reliability(buf: &Vec<u8>, pos: usize) -> (r: Result<
    (Option<Reliability>, usize),
    QosError,
>)
    requires
        pos <= buf@.len(),
    ensures
        match r {
            Ok((o, p2)) => pos <= p2 <= buf@.len() && sp_opt(
                buf@.skip(pos as int),
                |s: Seq<u8>| sp_bin_reliability(s),
            ) == Some((o.deep_view(), buf@.skip(p2 as int))),
            Err(e) => e == QosError::SerializationError && sp_opt(
                buf@.skip(pos as int),
                |s: Seq<u8>| sp_bin_reliability(s),
            ) is None,
        },
{
    let (tag, p) = match read_byte(buf, pos) {
        Ok(v) => v,
        Err(e) => {
            return Err(e);
        },
    };
    if tag == 0 {
        return Ok((None, p));
    }
    if tag != 1 {
        return Err(QosError::SerializationError);
    }
    let (c, p) = match read_u32(buf, p) {
        Ok(v) => v,
        Err(e) => {
            return Err(e);
        },
    };
    let kind = match ReliabilityKind::from_code(c) {
        Some(k) => k,
        None => {
            return Err(QosError::SerializationError);
        },
    };
    let (max_blocking_time, p) = match read_i64(buf, p) {
        Ok(v) => v,
        Err(e) => {
            return Err(e);
        },
    };
    Ok((Some(Reliability { kind, max_blocking_time }), p))
}

fn write_opt_transport_priority(out: &mut Vec<u8>, o: &Option<TransportPriority>)
    ensures
        final(out)@ == old(out)@ + enc_opt(
            o.deep_view(),
            |v: TransportPriority| enc_bin_transport_priority(v),
        ),
{
    match o {
        None => write_byte(out, 0),
        Some(v) => {
            let ghost prev = out@;
            write_byte(out, 1);
            write_i32(out, v.value);
            proof {
                assert(out@ =~= prev + (seq![1u8] + enc_bin_transport_priority(*v)));
            }
        },
    }
}

fn read_opt_transport_priority(buf: &Vec<u8>, pos: usize) -> (r: Result<
    (Option<TransportPriority>, usize),
    QosError,
>)
    requires
        pos <= buf@.len(),
    ensures
        match r {
            Ok((o, p2)) => pos <= p2 <= buf@.len() && sp_opt(
                buf@.skip(pos as int),
                |s: Seq<u8>| sp_bin_transport_priority(s),
            ) == Some((o.deep_view(), buf@.skip(p2 as int))),
            Err(e) => e == QosError::SerializationError && sp_opt(
                buf@.skip(pos as int),
                |s: Seq<u8>| sp_bin_transport_priority(s),
            ) is None,
        },
{
    let (tag, p) = match read_byte(buf, pos) {
        Ok(v) => v,
        Err(e) => {
            return Err(e);
        },
    };
    if tag == 0 {
        Ok((None, p))
    } else if tag == 1 {
        match read_i32(buf, p) {
            Ok((value, p2)) => Ok((Some(TransportPriority { value }), p2)),
            Err(e) => Err(e),
        }
    } else {
        Err(QosError::SerializationError)
    }
}

fn write_opt_lifespan(out: &mut Vec<u8>, o: &Option<Lifespan>)
    ensures
        final(out)@ == old(out)@ + enc_opt(o.deep_view(), |v: Lifespan| enc_bin_lifespan(v)),
{
    match o {
        None => write_byte(out, 0),
        Some(v) => {
            let ghost prev = out@;
            write_byte(out, 1);
            write_i64(out, v.duration);
            proof {
                assert(out@ =~= prev + (seq![1u8] + enc_bin_lifespan(*v)));
            }
        },
    }
}

fn read_opt_lifespan(buf: &Vec<u8>, pos: usize) -> (r: Result<(Option<Lifespan>, usize), QosError>)
    requires
        pos <= buf@.len(),
    ensures
        match r {
            Ok((o, p2)) => pos <= p2 <= buf@.len() && sp_opt(
                buf@.skip(pos as int),
                |s: Seq<u8>| sp_bin_lifespan(s),
            ) == Some((o.deep_view(), buf@.skip(p2 as int))),
            Err(e) => e == QosError::SerializationError && sp_opt(
                buf@.skip(pos as int),
                |s: Seq<u8>| sp_bin_lifespan(s),
            ) is None,
        },
{
    let (tag, p) = match read_byte(buf, pos) {
        Ok(v) => v,
        Err(e) => {
            return Err(e);
        },
    };
    if tag == 0 {
        Ok((None, p))
    } else if tag == 1 {
        match read_i64(buf, p) {
            Ok((duration, p2)) => Ok((Some(Lifespan { duration }), p2)),
            Err(e) => Err(e),
        }
    } else {
        Err(QosError::SerializationError)
    }
}

fn write_opt_destination_order(out: &mut Vec<u8>, o: &Option<DestinationOrder>)
    ensures
        final(out)@ == old(out)@ + enc_opt(
            o.deep_view(),
            |v: DestinationOrder| enc_bin_destination_order(v),
        ),
{
    match o {
        None => write_byte(out, 0),
        Some(v) => {
            let ghost prev = out@;
            write_byte(out, 1);
            write_u32(out, v.kind.code());
            proof {
                assert(out@ =~= prev + (seq![1u8] + enc_bin_destination_order(*v)));
            }
        },
    }
}

fn read_opt_destination_order(buf: &Vec<u8>, pos: usize) -> (r: Result<
    (Option<DestinationOrder>, usize),
    QosError,
>)
    requires
        pos <= buf@.len(),
    ensures
        match r {
            Ok((o, p2)) => pos <= p2 <= buf@.len() && sp_opt(
                buf@.skip(pos as int),
                |s: Seq<u8>| sp_bin_destination_order(s),
            ) == Some((o.deep_view(), buf@.skip(p2 as int))),
            Err(e) => e == QosError::SerializationError && sp_opt(
                buf@.skip(pos as int),
                |s: Seq<u8>| sp_bin_destination_order(s),
            ) is None,
        },
{
    let (tag, p) = match read_byte(buf, pos) {
        Ok(v) => v,
        Err(e) => {
            return Err(e);
        },
    };
    if tag == 0 {
        Ok((None, p))
    } else if tag == 1 {
        let (c, p2) = match read_u32(buf, p) {
            Ok(v) => v,
            Err(e) => {
                return Err(e);
            },
        };
        match DestinationOrderKind::from_code(c) {
            Some(kind) => Ok((Some(DestinationOrder { kind }), p2)),
            None => Err(QosError::SerializationError),
        }
    } else {
        Err(QosError::SerializationError)
    }
}

fn write_opt_history(out: &mut Vec<u8>, o: &Option<History>)
    ensures
        final(out)@ == old(out)@ + enc_opt(o.deep_view(), |v: History| enc_bin_history(v)),
{
    match o {
        None => write_byte(out, 0),
        Some(v) => {
            let ghost prev = out@;
            write_byte(out, 1);
            write_u32(out, v.kind.code());
            write_i32(out, v.depth);
            proof {
                assert(out@ =~= prev + (seq![1u8] + enc_bin_history(*v)));
            }
        },
    }
}

fn read_opt_history(buf: &Vec<u8>, pos: usize) -> (r: Result<(Option<History>, usize), QosError>)
    requires
        pos <= buf@.len(),
    ensures
        match r {
            Ok((o, p2)) => pos <= p2 <= buf@.len() && sp_opt(
                buf@.skip(pos as int),
                |s: Seq<u8>| sp_bin_history(s),
            ) == Some((o.deep_view(), buf@.skip(p2 as int))),
            Err(e) => e == QosError::SerializationError && sp_opt(
                buf@.skip(pos as int),
                |s: Seq<u8>| sp_bin_history(s),
            ) is None,
        },
{
    let (tag, p) = match read_byte(buf, pos) {
        Ok(v) => v,
        Err(e) => {
            return Err(e);
        },
    };
    if tag == 0 {
        return Ok((None, p));
    }
    if tag != 1 {
        return Err(QosError::SerializationError);
    }
    let (c, p) = match read_u32(buf, p) {
        Ok(v) => v,
        Err(e) => {
            return Err(e);
        },
    };
    let kind = match HistoryKind::from_code(c) {
        Some(k) => k,
        None => {
            return Err(QosError::SerializationError);
        },
    };
    let (depth, p) = match read_i32(buf, p) {
        Ok(v) => v,
        Err(e) => {
            return Err(e);
        },
    };
    Ok((Some(History { kind, depth }), p))
}

fn write_opt_resource_limits(out: &mut Vec<u8>, o: &Option<ResourceLimits>)
    ensures
        final(out)@ == old(out)@ + enc_opt(
            o.deep_view(),
            |v: ResourceLimits| enc_bin_resource_limits(v),
        ),
{
    match o {
        None => write_byte(out, 0),
        Some(v) => {
            let ghost prev = out@;
            write_byte(out, 1);
            write_i32(out, v.max_samples);
            write_i32(out, v.max_instances);
            write_i32(out, v.max_samples_per_instance);
            proof {
                assert(out@ =~= prev + (seq![1u8] + enc_bin_resource_limits(*v)));
            }
        },
    }
}

fn read_opt_resource_limits(buf: &Vec<u8>, pos: usize) -> (r: Result<
    (Option<ResourceLimits>, usize),
    QosError,
>)
    requires
        pos <= buf@.len(),
    ensures
        match r {
            Ok((o, p2)) => pos <= p2 <= buf@.len() && sp_opt(
                buf@.skip(pos as int),
                |s: Seq<u8>| sp_bin_resource_limits(s),
            ) == Some((o.deep_view(), buf@.skip(p2 as int))),
            Err(e) => e == QosError::SerializationError && sp_opt(
                buf@.skip(pos as int),
                |s: Seq<u8>| sp_bin_resource_limits(s),
            ) is None,
        },
{
    let (tag, p) = match read_byte(buf, pos) {
        Ok(v) => v,
        Err(e) => {
            return Err(e);
        },
    };
    if tag == 0 {
        return Ok((None, p));
    }
    if tag != 1 {
        return Err(QosError::SerializationError);
    }
    let (max_samples, p) = match read_i32(buf, p) {
        Ok(v) => v,
        Err(e) => {
            return Err(e);
        },
    };
    let (max_instances, p) = match read_i32(buf, p) {
        Ok(v) => v,
        Err(e) => {
            return Err(e);
        },
    };
    let (max_samples_per_instance, p) = match read_i32(buf, p) {
        Ok(v) => v,
        Err(e) => {
            return Err(e);
        },
    };
    Ok((Some(ResourceLimits { max_samples, max_instances, max_samples_per_instance }), p))
}

fn write_opt_writer_data_lifecycle(out: &mut Vec<u8>, o: &Option<WriterDataLifecycle>)
    ensures
        final(out)@ == old(out)@ + enc_opt(
            o.deep_view(),
            |v: WriterDataLifecycle| enc_bin_writer_data_lifecycle(v),
        ),
{
    match o {
        None => write_byte(out, 0),
        Some(v) => {
            let ghost prev = out@;
            write_byte(out, 1);
            write_bool(out, v.autodispose_unregistered_instances);
            proof {
                assert(out@ =~= prev + (seq![1u8] + enc_bin_writer_data_lifecycle(*v)));
            }
        },
    }
}

fn read_opt_writer_data_lifecycle(buf: &Vec<u8>, pos: usize) -> (r: Result<
    (Option<WriterDataLifecycle>, usize),
    QosError,
>)
    requires
        pos <= buf@.len(),
    ensures
        match r {
            Ok((o, p2)) => pos <= p2 <= buf@.len() && sp_opt(
                buf@.skip(pos as int),
                |s: Seq<u8>| sp_bin_writer_data_lifecycle(s),
            ) == Some((o.deep_view(), buf@.skip(p2 as int))),
            Err(e) => e == QosError::SerializationError && sp_opt(
                buf@.skip(pos as int),
                |s: Seq<u8>| sp_bin_writer_data_lifecycle(s),
            ) is None,
        },
{
    let (tag, p) = match read_byte(buf, pos) {
        Ok(v) => v,
        Err(e) => {
            return Err(e);
        },
    };
    if tag == 0 {
        Ok((None, p))
    } else if tag == 1 {
        match read_bool(buf, p) {
            Ok((autodispose_unregistered_instances, p2)) => Ok(
                (Some(WriterDataLifecycle { autodispose_unregistered_instances }), p2),
            ),
            Err(e) => Err(e),
        }
    } else {
        Err(QosError::SerializationError)
    }
}

fn write_opt_reader_data_lifecycle(out: &mut Vec<u8>, o: &Option<ReaderDataLifecycle>)
    ensures
        final(out)@ == old(out)@ + enc_opt(
            o.deep_view(),
            |v: ReaderDataLifecycle| enc_bin_reader_data_lifecycle(v),
        ),
{
    match o {
        None => write_byte(out, 0),
        Some(v) => {
            let ghost prev = out@;
            write_byte(out, 1);
            write_i64(out, v.autopurge_nowriter_samples_delay);
            write_i64(out, v.autopurge_disposed_samples_delay);
            proof {
                assert(out@ =~= prev + (seq![1u8] + enc_bin_reader_data_lifecycle(*v)));
            }
        },
    }
}

fn read_opt_reader_data_lifecycle(buf: &Vec<u8>, pos: usize) -> (r: Result<
    (Option<ReaderDataLifecycle>, usize),
    QosError,
>)
    requires
        pos <= buf@.len(),
    ensures
        match r {
            Ok((o, p2)) => pos <= p2 <= buf@.len() && sp_opt(
                buf@.skip(pos as int),
                |s: Seq<u8>| sp_bin_reader_data_lifecycle(s),
            ) == Some((o.deep_view(), buf@.skip(p2 as int))),
            Err(e) => e == QosError::SerializationError && sp_opt(
                buf@.skip(pos as int),
                |s: Seq<u8>| sp_bin_reader_data_lifecycle(s),
            ) is None,
        },
{
    let (tag, p) = match read_byte(buf, pos) {
        Ok(v) => v,
        Err(e) => {
            return Err(e);
        },
    };
    if tag == 0 {
        return Ok((None, p));
    }
    if tag != 1 {
        return Err(QosError::SerializationError);
    }
    let (autopurge_nowriter_samples_delay, p) = match read_i64(buf, p) {
        Ok(v) => v,
        Err(e) => {
            return Err(e);
        },
    };
    let (autopurge_disposed_samples_delay, p) = match read_i64(buf, p) {
        Ok(v) => v,
        Err(e) => {
            return Err(e);
        },
    };
    Ok(
        (
            Some(
                ReaderDataLifecycle {
                    autopurge_nowriter_samples_delay,
                    autopurge_disposed_samples_delay,
                },
            ),
            p,
        ),
    )
}

fn write_opt_writer_batching(out: &mut Vec<u8>, o: &Option<WriterBatching>)
    ensures
        final(out)@ == old(out)@ + enc_opt(
            o.deep_view(),
            |v: WriterBatching| enc_bin_writer_batching(v),
        ),
{
    match o {
        None => write_byte(out, 0),
        Some(v) => {
            let ghost prev = out@;
            write_byte(out, 1);
            write_bool(out, v.batch_updates);
            proof {
                assert(out@ =~= prev + (seq![1u8] + enc_bin_writer_batching(*v)));
            }
        },
    }
}

fn read_opt_writer_batching(buf: &Vec<u8>, pos: usize) -> (r: Result<
    (Option<WriterBatching>, usize),
    QosError,
>)
    requires
        pos <= buf@.len(),
    ensures
        match r {
            Ok((o, p2)) => pos <= p2 <= buf@.len() && sp_opt(
                buf@.skip(pos as int),
                |s: Seq<u8>| sp_bin_writer_batching(s),
            ) == Some((o.deep_view(), buf@.skip(p2 as int))),
            Err(e) => e == QosError::SerializationError && sp_opt(
                buf@.skip(pos as int),
                |s: Seq<u8>| sp_bin_writer_batching(s),
            ) is None,
        },
{
    let (tag, p) = match read_byte(buf, pos) {
        Ok(v) => v,
        Err(e) => {
            return Err(e);
        },
    };
    if tag == 0 {
        Ok((None, p))
    } else if tag == 1 {
        match read_bool(buf, p) {
            Ok((batch_updates, p2)) => Ok((Some(WriterBatching { batch_updates }), p2)),
            Err(e) => Err(e),
        }
    } else {
        Err(QosError::SerializationError)
    }
}

#[verifier::rlimit(50)]
#[verifier::spinoff_prover]
fn write_opt_type_consistency(out: &mut Vec<u8>, o: &Option<TypeConsistency>)
    ensures
        final(out)@ == old(out)@ + enc_opt(
            o.deep_view(),
            |v: TypeConsistency| enc_bin_type_consistency(v),
        ),
{
    match o {
        None => write_byte(out, 0),
        Some(v) => {
            let ghost prev = out@;
            write_byte(out, 1);
            write_u32(out, v.kind.code());
            write_bool(out, v.ignore_sequence_bounds);
            write_bool(out, v.ignore_string_bounds);
            write_bool(out, v.ignore_member_names);
            write_bool(out, v.prevent_type_widening);
            write_bool(out, v.force_type_validation);
            proof {
                assert(out@ =~= prev + (seq![1u8] + enc_bin_type_consistency(*v)));
            }
        },
    }
}

fn read_opt_type_consistency(buf: &Vec<u8>, pos: usize) -> (r: Result<
    (Option<TypeConsistency>, usize),
    QosError,
>)
    requires
        pos <= buf@.len(),
    ensures
        match r {
            Ok((o, p2)) => pos <= p2 <= buf@.len() && sp_opt(
                buf@.skip(pos as int),
                |s: Seq<u8>| sp_bin_type_consistency(s),
            ) == Some((o.deep_view(), buf@.skip(p2 as int))),
            Err(e) => e == QosError::SerializationError && sp_opt(
                buf@.skip(pos as int),
                |s: Seq<u8>| sp_bin_type_consistency(s),
            ) is None,
        },
{
    let (tag, p) = match read_byte(buf, pos) {
        Ok(v) => v,
        Err(e) => {
            return Err(e);
        },
    };
    if tag == 0 {
        return Ok((None, p));
    }
    if tag != 1 {
        return Err(QosError::SerializationError);
    }
    let (c, p) = match read_u32(buf, p) {
        Ok(v) => v,
        Err(e) => {
            return Err(e);
        },
    };
    let kind = match TypeConsistencyKind::from_code(c) {
        Some(k) => k,
        None => {
            return Err(QosError::SerializationError);
        },
    };
    let (ignore_sequence_bounds, p) = match read_bool(buf, p) {
        Ok(v) => v,
        Err(e) => {
            return Err(e);
        },
    };
    let (ignore_string_bounds, p) = match read_bool(buf, p) {
        Ok(v) => v,
        Err(e) => {
            return Err(e);
        },
    };
    let (ignore_member_names, p) = match read_bool(buf, p) {
        Ok(v) => v,
        Err(e) => {
            return Err(e);
        },
    };
    let (prevent_type_widening, p) = match read_bool(buf, p) {
        Ok(v) => v,
        Err(e) => {
            return Err(e);
        },
    };
    let (force_type_validation, p) = match read_bool(buf, p) {
        Ok(v) => v,
        Err(e) => {
            return Err(e);
        },
    };
    Ok(
        (
            Some(
                TypeConsistency {
                    kind,
                    ignore_sequence_bounds,
                    ignore_string_bounds,
                    ignore_member_names,
                    prevent_type_widening,
                    force_type_validation,
                },
            ),
            p,
        ),
    )
}

fn write_opt_entity_name(out: &mut Vec<u8>, o: &Option<EntityName>)
    ensures
        final(out)@ == old(out)@ + enc_opt(o.deep_view(), |cs: Seq<char>| enc_str(cs)),
{
    match o {
        None => write_byte(out, 0),
        Some(v) => {
            let ghost prev = out@;
            write_byte(out, 1);
            write_str(out, &v.name);
            proof {
                assert(out@ =~= prev + (seq![1u8] + enc_str(v.name@)));
            }
        },
    }
}

fn read_opt_entity_name(buf: &Vec<u8>, pos: usize) -> (r: Result<
    (Option<EntityName>, usize),
    QosError,
>)
    requires
        pos <= buf@.len(),
    ensures
        match r {
            Ok((o, p2)) => pos <= p2 <= buf@.len() && sp_opt(
                buf@.skip(pos as int),
                |s: Seq<u8>| sp_str(s),
            ) == Some((o.deep_view(), buf@.skip(p2 as int))),
            Err(e) => e == QosError::SerializationError && sp_opt(
                buf@.skip(pos as int),
                |s: Seq<u8>| sp_str(s),
            ) is None,
        },
{
    let (tag, p) = match read_byte(buf, pos) {
        Ok(v) => v,
        Err(e) => {
            return Err(e);
        },
    };
    if tag == 0 {
        Ok((None, p))
    } else if tag == 1 {
        match read_str(buf, p) {
            Ok((name, p2)) => Ok((Some(EntityName { name }), p2)),
            Err(e) => Err(e),
        }
    } else {
        Err(QosError::SerializationError)
    }
}

fn write_opt_properties(out: &mut Vec<u8>, o: &Option<Properties>)
    ensures
        final(out)@ == old(out)@ + enc_opt(o.deep_view(), |l: Seq<PropView>| enc_pair_list(l)),
{
    match o {
        None => write_byte(out, 0),
        Some(v) => {
            let ghost prev = out@;
            write_byte(out, 1);
            write_pair_list(out, v);
            proof {
                assert(out@ =~= prev + (seq![1u8] + enc_pair_list(v.deep_view())));
            }
        },
    }
}

fn read_opt_properties(buf: &Vec<u8>, pos: usize) -> (r: Result<
    (Option<Properties>, usize),
    QosError,
>)
    requires
        pos <= buf@.len(),
    ensures
        match r {
            Ok((o, p2)) => pos <= p2 <= buf@.len() && sp_opt(
                buf@.skip(pos as int),
                |s: Seq<u8>| sp_pair_list(s),
            ) == Some((o.deep_view(), buf@.skip(p2 as int))),
            Err(e) => e == QosError::SerializationError && sp_opt(
                buf@.skip(pos as int),
                |s: Seq<u8>| sp_pair_list(s),
            ) is None,
        },
{
    let (tag, p) = match read_byte(buf, pos) {
        Ok(v) => v,
        Err(e) => {
            return Err(e);
        },
    };
    if tag == 0 {
        Ok((None, p))
    } else if tag == 1 {
        match read_pair_list(buf, p) {
            Ok((v, p2)) => Ok((Some(v), p2)),
            Err(e) => Err(e),
        }
    } else {
        Err(QosError::SerializationError)
    }
}

fn write_opt_ignore_local(out: &mut Vec<u8>, o: &Option<IgnoreLocal>)
    ensures
        final(out)@ == old(out)@ + enc_opt(o.deep_view(), |v: IgnoreLocal| enc_bin_ignore_local(v)),
{
    match o {
        None => write_byte(out, 0),
        Some(v) => {
            let ghost prev = out@;
            write_byte(out, 1);
            write_u32(out, v.kind.code());
            proof {
                assert(out@ =~= prev + (seq![1u8] + enc_bin_ignore_local(*v)));
            }
        },
    }
}

fn read_opt_ignore_local(buf: &Vec<u8>, pos: usize) -> (r: Result<
    (Option<IgnoreLocal>, usize),
    QosError,
>)
    requires
        pos <= buf@.len(),
    ensures
        match r {
            Ok((o, p2)) => pos <= p2 <= buf@.len() && sp_opt(
                buf@.skip(pos as int),
                |s: Seq<u8>| sp_bin_ignore_local(s),
            ) == Some((o.deep_view(), buf@.skip(p2 as int))),
            Err(e) => e == QosError::SerializationError && sp_opt(
                buf@.skip(pos as int),
                |s: Seq<u8>| sp_bin_ignore_local(s),
            ) is None,
        },
{
    let (tag, p) = match read_byte(buf, pos) {
        Ok(v) => v,
        Err(e) => {
            return Err(e);
        },
    };
    if tag == 0 {
        Ok((None, p))
    } else if tag == 1 {
        let (c, p2) = match read_u32(buf, p) {
            Ok(v) => v,
            Err(e) => {
                return Err(e);
            },
        };
        match IgnoreLocalKind::from_code(c) {
            Some(kind) => Ok((Some(IgnoreLocal { kind }), p2)),
            None => Err(QosError::SerializationError),
        }
    } else {
        Err(QosError::SerializationError)
    }
}

fn write_opt_data_representation(out: &mut Vec<u8>, o: &Option<Vec<u16>>)
    ensures
        final(out)@ == old(out)@ + enc_opt(o.deep_view(), |l: Seq<u16>| enc_u16_list(l)),
{
    match o {
        None => write_byte(out, 0),
        Some(v) => {
            let ghost prev = out@;
            write_byte(out, 1);
            write_u16_list(out, v);
            proof {
                assert(v.deep_view() =~= v@);
                assert(out@ =~= prev + (seq![1u8] + enc_u16_list(v@)));
            }
        },
    }
}

fn read_opt_data_representation(buf: &Vec<u8>, pos: usize) -> (r: Result<
    (Option<Vec<u16>>, usize),
    QosError,
>)
    requires
        pos <= buf@.len(),
    ensures
        match r {
            Ok((o, p2)) => pos <= p2 <= buf@.len() && sp_opt(
                buf@.skip(pos as int),
                |s: Seq<u8>| sp_u16_list(s),
            ) == Some((o.deep_view(), buf@.skip(p2 as int))),
            Err(e) => e == QosError::SerializationError && sp_opt(
                buf@.skip(pos as int),
                |s: Seq<u8>| sp_u16_list(s),
            ) is None,
        },
{
    let (tag, p) = match read_byte(buf, pos) {
        Ok(v) => v,
        Err(e) => {
            return Err(e);
        },
    };
    if tag == 0 {
        Ok((None, p))
    } else if tag == 1 {
        match read_u16_list(buf, p) {
            Ok((v, p2)) => {
                proof {
                    assert(Some(v).deep_view() == Some(v@));
                }
                Ok((Some(v), p2))
            },
            Err(e) => Err(e),
        }
    } else {
        Err(QosError::SerializationError)
    }
}

// ---------------------------------------------------------------------------
// Per-policy payload round trips.
// ---------------------------------------------------------------------------

proof fn lemma_bin_durability_rt(v: Durability, rest: Seq<u8>)
    ensures
        sp_bin_durability(enc_bin_durability(v) + rest) == Some((v, rest)),
{
    lemma_u32_round_trip(v.kind.spec_code(), rest);
    assert(DurabilityKind::spec_from_code(v.kind.spec_code()) == Some(v.kind));
    assert(Durability { kind: v.kind } == v);
}

proof fn lemma_bin_durability_service_rt(v: DurabilityService, rest: Seq<u8>)
    ensures
        sp_bin_durability_service(enc_bin_durability_service(v) + rest) == Some((v, rest)),
{
    let r5 = enc_i32(v.max_samples_per_instance) + rest;
    let r4 = enc_i32(v.max_instances) + r5;
    let r3 = enc_i32(v.max_samples) + r4;
    let r2 = enc_i32(v.history_depth) + r3;
    let r1 = enc_u32(v.history_kind.spec_code()) + r2;
    assert(enc_bin_durability_service(v) + rest =~= enc_i64(v.service_cleanup_delay) + r1);
    lemma_i64_round_trip(v.service_cleanup_delay, r1);
    lemma_u32_round_trip(v.history_kind.spec_code(), r2);
    assert(HistoryKind::spec_from_code(v.history_kind.spec_code()) == Some(v.history_kind));
    lemma_i32_round_trip(v.history_depth, r3);
    lemma_i32_round_trip(v.max_samples, r4);
    lemma_i32_round_trip(v.max_instances, r5);
    lemma_i32_round_trip(v.max_samples_per_instance, rest);
    assert(DurabilityService {
        service_cleanup_delay: v.service_cleanup_delay,
        history_kind: v.history_kind,
        history_depth: v.history_depth,
        max_samples: v.max_samples,
        max_instances: v.max_instances,
        max_samples_per_instance: v.max_samples_per_instance,
    } == v);
}

proof fn lemma_bin_presentation_rt(v: Presentation, rest: Seq<u8>)
    ensures
        sp_bin_presentation(enc_bin_presentation(v) + rest) == Some((v, rest)),
{
    let r2 = enc_bool(v.ordered_access) + rest;
    let r1 = enc_bool(v.coherent_access) + r2;
    assert(enc_bin_presentation(v) + rest =~= enc_u32(v.access_scope.spec_code()) + r1);
    lemma_u32_round_trip(v.access_scope.spec_code(), r1);
    assert(PresentationAccessScopeKind::spec_from_code(v.access_scope.spec_code()) == Some(
        v.access_scope,
    ));
    lemma_bool_round_trip(v.coherent_access, r2);
    lemma_bool_round_trip(v.ordered_access, rest);
    assert(Presentation {
        access_scope: v.access_scope,
        coherent_access: v.coherent_access,
        ordered_access: v.ordered_access,
    } == v);
}

proof fn lemma_bin_deadline_rt(v: Deadline, rest: Seq<u8>)
    ensures
        sp_bin_deadline(enc_bin_deadline(v) + rest) == Some((v, rest)),
{
    lemma_i64_round_trip(v.period, rest);
    assert(Deadline { period: v.period } == v);
}

proof fn lemma_bin_latency_budget_rt(v: LatencyBudget, rest: Seq<u8>)
    ensures
        sp_bin_latency_budget(enc_bin_latency_budget(v) + rest) == Some((v, rest)),
{
    lemma_i64_round_trip(v.duration, rest);
    assert(LatencyBudget { duration: v.duration } == v);
}

proof fn lemma_bin_ownership_rt(v: Ownership, rest: Seq<u8>)
    ensures
        sp_bin_ownership(enc_bin_ownership(v) + rest) == Some((v, rest)),
{
    lemma_u32_round_trip(v.kind.spec_code(), rest);
    assert(OwnershipKind::spec_from_code(v.kind.spec_code()) == Some(v.kind));
    assert(Ownership { kind: v.kind } == v);
}

proof fn lemma_bin_ownership_strength_rt(v: OwnershipStrength, rest: Seq<u8>)
    ensures
        sp_bin_ownership_strength(enc_bin_ownership_strength(v) + rest) == Some((v, rest)),
{
    lemma_i32_round_trip(v.value, rest);
    assert(OwnershipStrength { value: v.value } == v);
}

proof fn lemma_bin_liveliness_rt(v: Liveliness, rest: Seq<u8>)
    ensures
        sp_bin_liveliness(enc_bin_liveliness(v) + rest) == Some((v, rest)),
{
    let r1 = enc_i64(v.lease_duration) + rest;
    assert(enc_bin_liveliness(v) + rest =~= enc_u32(v.kind.spec_code()) + r1);
    lemma_u32_round_trip(v.kind.spec_code(), r1);
    assert(LivelinessKind::spec_from_code(v.kind.spec_code()) == Some(v.kind));
    lemma_i64_round_trip(v.lease_duration, rest);
    assert(Liveliness { kind: v.kind, lease_duration: v.lease_duration } == v);
}

proof fn lemma_bin_time_based_filter_rt(v: TimeBasedFilter, rest: Seq<u8>)
    ensures
        sp_bin_time_based_filter(enc_bin_time_based_filter(v) + rest) == Some((v, rest)),
{
    lemma_i64_round_trip(v.minimum_separation, rest);
    assert(TimeBasedFilter { minimum_separation: v.minimum_separation } == v);
}

proof fn lemma_bin_reliability_rt(v: Reliability, rest: Seq<u8>)
    ensures
        sp_bin_reliability(enc_bin_reliability(v) + rest) == Some((v, rest)),
{
    let r1 = enc_i64(v.max_blocking_time) + rest;
    assert(enc_bin_reliability(v) + rest =~= enc_u32(v.kind.spec_code()) + r1);
    lemma_u32_round_trip(v.kind.spec_code(), r1);
    assert(ReliabilityKind::spec_from_code(v.kind.spec_code()) == Some(v.kind));
    lemma_i64_round_trip(v.max_blocking_time, rest);
    assert(Reliability { kind: v.kind, max_blocking_time: v.max_blocking_time } == v);
}

proof fn lemma_bin_transport_priority_rt(v: TransportPriority, rest: Seq<u8>)
    ensures
        sp_bin_transport_priority(enc_bin_transport_priority(v) + rest) == Some((v, rest)),
{
    lemma_i32_round_trip(v.value, rest);
    assert(TransportPriority { value: v.value } == v);
}

proof fn lemma_bin_lifespan_rt(v: Lifespan, rest: Seq<u8>)
    ensures
        sp_bin_lifespan(enc_bin_lifespan(v) + rest) == Some((v, rest)),
{
    lemma_i64_round_trip(v.duration, rest);
    assert(Lifespan { duration: v.duration } == v);
}

proof fn lemma_bin_destination_order_rt(v: DestinationOrder, rest: Seq<u8>)
    ensures
        sp_bin_destination_order(enc_bin_destination_order(v) + rest) == Some((v, rest)),
{
    lemma_u32_round_trip(v.kind.spec_code(), rest);
    assert(DestinationOrderKind::spec_from_code(v.kind.spec_code()) == Some(v.kind));
    assert(DestinationOrder { kind: v.kind } == v);
}

proof fn lemma_bin_history_rt(v: History, rest: Seq<u8>)
    ensures
        sp_bin_history(enc_bin_history(v) + rest) == Some((v, rest)),
{
    let r1 = enc_i32(v.depth) + rest;
    assert(enc_bin_history(v) + rest =~= enc_u32(v.kind.spec_code()) + r1);
    lemma_u32_round_trip(v.kind.spec_code(), r1);
    assert(HistoryKind::spec_from_code(v.kind.spec_code()) == Some(v.kind));
    lemma_i32_round_trip(v.depth, rest);
    assert(History { kind: v.kind, depth: v.depth } == v);
}

proof fn lemma_bin_resource_limits_rt(v: ResourceLimits, rest: Seq<u8>)
    ensures
        sp_bin_resource_limits(enc_bin_resource_limits(v) + rest) == Some((v, rest)),
{
    let r2 = enc_i32(v.max_samples_per_instance) + rest;
    let r1 = enc_i32(v.max_instances) + r2;
    assert(enc_bin_resource_limits(v) + rest =~= enc_i32(v.max_samples) + r1);
    lemma_i32_round_trip(v.max_samples, r1);
    lemma_i32_round_trip(v.max_instances, r2);
    lemma_i32_round_trip(v.max_samples_per_instance, rest);
    assert(ResourceLimits {
        max_samples: v.max_samples,
        max_instances: v.max_instances,
        max_samples_per_instance: v.max_samples_per_instance,
    } == v);
}

proof fn lemma_bin_writer_data_lifecycle_rt(v: WriterDataLifecycle, rest: Seq<u8>)
    ensures
        sp_bin_writer_data_lifecycle(enc_bin_writer_data_lifecycle(v) + rest) == Some((v, rest)),
{
    lemma_bool_round_trip(v.autodispose_unregistered_instances, rest);
    assert(WriterDataLifecycle {
        autodispose_unregistered_instances: v.autodispose_unregistered_instances,
    } == v);
}

proof fn lemma_bin_reader_data_lifecycle_rt(v: ReaderDataLifecycle, rest: Seq<u8>)
    ensures
        sp_bin_reader_data_lifecycle(enc_bin_reader_data_lifecycle(v) + rest) == Some((v, rest)),
{
    let r1 = enc_i64(v.autopurge_disposed_samples_delay) + rest;
    assert(enc_bin_reader_data_lifecycle(v) + rest =~= enc_i64(v.autopurge_nowriter_samples_delay)
        + r1);
    lemma_i64_round_trip(v.autopurge_nowriter_samples_delay, r1);
    lemma_i64_round_trip(v.autopurge_disposed_samples_delay, rest);
    assert(ReaderDataLifecycle {
        autopurge_nowriter_samples_delay: v.autopurge_nowriter_samples_delay,
        autopurge_disposed_samples_delay: v.autopurge_disposed_samples_delay,
    } == v);
}

proof fn lemma_bin_writer_batching_rt(v: WriterBatching, rest: Seq<u8>)
    ensures
        sp_bin_writer_batching(enc_bin_writer_batching(v) + rest) == Some((v, rest)),
{
    lemma_bool_round_trip(v.batch_updates, rest);
    assert(WriterBatching { batch_updates: v.batch_updates } == v);
}

#[verifier::rlimit(100)]
#[verifier::spinoff_prover]
proof fn lemma_bin_type_consistency_rt(v: TypeConsistency, rest: Seq<u8>)
    ensures
        sp_bin_type_consistency(enc_bin_type_consistency(v) + rest) == Some((v, rest)),
{
    let r5 = enc_bool(v.force_type_validation) + rest;
    let r4 = enc_bool(v.prevent_type_widening) + r5;
    let r3 = enc_bool(v.ignore_member_names) + r4;
    let r2 = enc_bool(v.ignore_string_bounds) + r3;
    let r1 = enc_bool(v.ignore_sequence_bounds) + r2;
    let e1 = enc_u32(v.kind.spec_code());
    let e2 = enc_bool(v.ignore_sequence_bounds);
    let e3 = enc_bool(v.ignore_string_bounds);
    let e4 = enc_bool(v.ignore_member_names);
    let e5 = enc_bool(v.prevent_type_widening);
    let e6 = enc_bool(v.force_type_validation);
    assert((e5 + e6) + rest =~= r4);
    assert((e4 + (e5 + e6)) + rest =~= r3);
    assert((e3 + (e4 + (e5 + e6))) + rest =~= r2);
    assert((e2 + (e3 + (e4 + (e5 + e6)))) + rest =~= r1);
    assert(enc_bin_type_consistency(v) =~= e1 + (e2 + (e3 + (e4 + (e5 + e6)))));
    assert(enc_bin_type_consistency(v) + rest =~= e1 + r1);
    lemma_u32_round_trip(v.kind.spec_code(), r1);
    assert(TypeConsistencyKind::spec_from_code(v.kind.spec_code()) == Some(v.kind));
    lemma_bool_round_trip(v.ignore_sequence_bounds, r2);
    lemma_bool_round_trip(v.ignore_string_bounds, r3);
    lemma_bool_round_trip(v.ignore_member_names, r4);
    lemma_bool_round_trip(v.prevent_type_widening, r5);
    lemma_bool_round_trip(v.force_type_validation, rest);
    assert(TypeConsistency {
        kind: v.kind,
        ignore_sequence_bounds: v.ignore_sequence_bounds,
        ignore_string_bounds: v.ignore_string_bounds,
        ignore_member_names: v.ignore_member_names,
        prevent_type_widening: v.prevent_type_widening,
        force_type_validation: v.force_type_validation,
    } == v);
}

proof fn lemma_bin_ignore_local_rt(v: IgnoreLocal, rest: Seq<u8>)
    ensures
        sp_bin_ignore_local(enc_bin_ignore_local(v) + rest) == Some((v, rest)),
{
    lemma_u32_round_trip(v.kind.spec_code(), rest);
    assert(IgnoreLocalKind::spec_from_code(v.kind.spec_code()) == Some(v.kind));
    assert(IgnoreLocal { kind: v.kind } == v);
}

// ---------------------------------------------------------------------------
// The whole aggregate: schema order, one tagged slot per policy.
// ---------------------------------------------------------------------------

/// Every variable-length slot is small enough for its length prefix: the only
/// machine limit the binary form imposes.
pub open spec fn spec_qos_wire_encodable(q: QosV) -> bool {
    &&& (q.user_data matches Some(b) ==> b.len() <= u64::MAX)
    &&& (q.topic_data matches Some(b) ==> b.len() <= u64::MAX)
    &&& (q.group_data matches Some(b) ==> b.len() <= u64::MAX)
    &&& (q.partition matches Some(l) ==> strs_encodable(l))
    &&& (q.entity_name matches Some(cs) ==> encode_utf8(cs).len() <= u64::MAX)
    &&& (q.properties matches Some(l) ==> pairs_encodable(l))
    &&& (q.data_representation matches Some(l) ==> l.len() <= u64::MAX)
}

pub open spec fn enc_bin_a(q: QosV) -> Seq<u8> {
    enc_opt(q.user_data, |b: Seq<u8>| enc_bytes(b)) + (enc_opt(q.topic_data, |b: Seq<u8>| enc_bytes(b))
        + (enc_opt(q.group_data, |b: Seq<u8>| enc_bytes(b)) + (enc_opt(
        q.durability,
        |v: Durability| enc_bin_durability(v),
    ) + (enc_opt(q.durability_service, |v: DurabilityService| enc_bin_durability_service(v)) + (
    enc_opt(q.presentation, |v: Presentation| enc_bin_presentation(v)) + enc_opt(
        q.deadline,
        |v: Deadline| enc_bin_deadline(v),
    ))))))
}

pub open spec fn enc_bin_b1(q: QosV) -> Seq<u8> {
    enc_opt(q.latency_budget, |v: LatencyBudget| enc_bin_latency_budget(v)) + (enc_opt(
        q.ownership,
        |v: Ownership| enc_bin_ownership(v),
    ) + (enc_opt(q.ownership_strength, |v: OwnershipStrength| enc_bin_ownership_strength(v))
        + enc_opt(q.liveliness, |v: Liveliness| enc_bin_liveliness(v))))
}

pub open spec fn enc_bin_b2(q: QosV) -> Seq<u8> {
    enc_opt(q.time_based_filter, |v: TimeBasedFilter| enc_bin_time_based_filter(v)) + (enc_opt(
        q.partition,
        |l: Seq<Seq<char>>| enc_str_list(l),
    ) + enc_opt(q.reliability, |v: Reliability| enc_bin_reliability(v)))
}

pub open spec fn enc_bin_b(q: QosV) -> Seq<u8> {
    enc_bin_b1(q) + enc_bin_b2(q)
}

pub open spec fn enc_bin_c1(q: QosV) -> Seq<u8> {
    enc_opt(q.transport_priority, |v: TransportPriority| enc_bin_transport_priority(v)) + (enc_opt(
        q.lifespan,
        |v: Lifespan| enc_bin_lifespan(v),
    ) + (enc_opt(q.destination_order, |v: DestinationOrder| enc_bin_destination_order(v)) + enc_opt(
        q.history,
        |v: History| enc_bin_history(v),
    )))
}

pub open spec fn enc_bin_c2(q: QosV) -> Seq<u8> {
    enc_opt(q.resource_limits, |v: ResourceLimits| enc_bin_resource_limits(v)) + (enc_opt(
        q.writer_data_lifecycle,
        |v: WriterDataLifecycle| enc_bin_writer_data_lifecycle(v),
    ) + enc_opt(q.reader_data_lifecycle, |v: ReaderDataLifecycle| enc_bin_reader_data_lifecycle(v)))
}

pub open spec fn enc_bin_c(q: QosV) -> Seq<u8> {
    enc_bin_c1(q) + enc_bin_c2(q)
}

pub open spec fn enc_bin_d1(q: QosV) -> Seq<u8> {
    enc_opt(q.writer_batching, |v: WriterBatching| enc_bin_writer_batching(v)) + (enc_opt(
        q.type_consistency,
        |v: TypeConsistency| enc_bin_type_consistency(v),
    ) + enc_opt(q.entity_name, |cs: Seq<char>| enc_str(cs)))
}

pub open spec fn enc_bin_d2(q: QosV) -> Seq<u8> {
    enc_opt(q.properties, |l: Seq<PropView>| enc_pair_list(l)) + (enc_opt(
        q.ignore_local,
        |v: IgnoreLocal| enc_bin_ignore_local(v),
    ) + enc_opt(q.data_representation, |l: Seq<u16>| enc_u16_list(l)))
}

pub open spec fn enc_bin_d(q: QosV) -> Seq<u8> {
    enc_bin_d1(q) + enc_bin_d2(q)
}

/// The binary image of an aggregate.
pub open spec fn enc_bin_qos(q: QosV) -> Seq<u8> {
    enc_bin_a(q) + (enc_bin_b(q) + (enc_bin_c(q) + enc_bin_d(q)))
}

pub open spec fn sp_bin_a(s: Seq<u8>) -> Option<
    (
        (
            Option<Seq<u8>>,
            Option<Seq<u8>>,
            Option<Seq<u8>>,
            Option<Durability>,
            Option<DurabilityService>,
            Option<Presentation>,
            Option<Deadline>,
        ),
        Seq<u8>,
    ),
> {
    match sp_opt(s, |s2: Seq<u8>| sp_bytes(s2)) {
        Some((user_data, s)) => match sp_opt(s, |s2: Seq<u8>| sp_bytes(s2)) {
            Some((topic_data, s)) => match sp_opt(s, |s2: Seq<u8>| sp_bytes(s2)) {
                Some((group_data, s)) => match sp_opt(s, |s2: Seq<u8>| sp_bin_durability(s2)) {
                    Some((durability, s)) => match sp_opt(
                        s,
                        |s2: Seq<u8>| sp_bin_durability_service(s2),
                    ) {
                        Some((durability_service, s)) => match sp_opt(
                            s,
                            |s2: Seq<u8>| sp_bin_presentation(s2),
                        ) {
                            Some((presentation, s)) => match sp_opt(
                                s,
                                |s2: Seq<u8>| sp_bin_deadline(s2),
                            ) {
                                Some((deadline, s)) => Some(
                                    (
                                        (
                                            user_data,
                                            topic_data,
                                            group_data,
                                            durability,
                                            durability_service,
                                            presentation,
                                            deadline,
                                        ),
                                        s,
                                    ),
                                ),
                                None => None,
                            },
                            None => None,
                        },
                        None => None,
                    },
                    None => None,
                },
                None => None,
            },
            None => None,
        },
        None => None,
    }
}

pub open spec fn sp_bin_b1(s: Seq<u8>) -> Option<
    (
        (Option<LatencyBudget>, Option<Ownership>, Option<OwnershipStrength>, Option<Liveliness>),
        Seq<u8>,
    ),
> {
    match sp_opt(s, |s2: Seq<u8>| sp_bin_latency_budget(s2)) {
        Some((latency_budget, s)) => match sp_opt(s, |s2: Seq<u8>| sp_bin_ownership(s2)) {
            Some((ownership, s)) => match sp_opt(s, |s2: Seq<u8>| sp_bin_ownership_strength(s2)) {
                Some((ownership_strength, s)) => match sp_opt(
                    s,
                    |s2: Seq<u8>| sp_bin_liveliness(s2),
                ) {
                    Some((liveliness, s)) => Some(
                        ((latency_budget, ownership, ownership_strength, liveliness), s),
                    ),
                    None => None,
                },
                None => None,
            },
            None => None,
        },
        None => None,
    }
}

pub open spec fn sp_bin_b2(s: Seq<u8>) -> Option<
    ((Option<TimeBasedFilter>, Option<Seq<Seq<char>>>, Option<Reliability>), Seq<u8>),
> {
    match sp_opt(s, |s2: Seq<u8>| sp_bin_time_based_filter(s2)) {
        Some((time_based_filter, s)) => match sp_opt(s, |s2: Seq<u8>| sp_str_list(s2)) {
            Some((partition, s)) => match sp_opt(s, |s2: Seq<u8>| sp_bin_reliability(s2)) {
                Some((reliability, s)) => Some(((time_based_filter, partition, reliability), s)),
                None => None,
            },
            None => None,
        },
        None => None,
    }
}

pub open spec fn sp_bin_b(s: Seq<u8>) -> Option<
    (
        (
            Option<LatencyBudget>,
            Option<Ownership>,
            Option<OwnershipStrength>,
            Option<Liveliness>,
            Option<TimeBasedFilter>,
            Option<Seq<Seq<char>>>,
            Option<Reliability>,
        ),
        Seq<u8>,
    ),
> {
    match sp_bin_b1(s) {
        Some((t1, s)) => match sp_bin_b2(s) {
            Some((t2, s)) => Some(((t1.0, t1.1, t1.2, t1.3, t2.0, t2.1, t2.2), s)),
            None => None,
        },
        None => None,
    }
}

pub open spec fn sp_bin_c1(s: Seq<u8>) -> Option<
    (
        (Option<TransportPriority>, Option<Lifespan>, Option<DestinationOrder>, Option<History>),
        Seq<u8>,
    ),
> {
    match sp_opt(s, |s2: Seq<u8>| sp_bin_transport_priority(s2)) {
        Some((transport_priority, s)) => match sp_opt(s, |s2: Seq<u8>| sp_bin_lifespan(s2)) {
            Some((lifespan, s)) => match sp_opt(s, |s2: Seq<u8>| sp_bin_destination_order(s2)) {
                Some((destination_order, s)) => match sp_opt(s, |s2: Seq<u8>| sp_bin_history(s2)) {
                    Some((history, s)) => Some(
                        ((transport_priority, lifespan, destination_order, history), s),
                    ),
                    None => None,
                },
                None => None,
            },
            None => None,
        },
        None => None,
    }
}

pub open spec fn sp_bin_c2(s: Seq<u8>) -> Option<
    (
        (Option<ResourceLimits>, Option<WriterDataLifecycle>, Option<ReaderDataLifecycle>),
        Seq<u8>,
    ),
> {
    match sp_opt(s, |s2: Seq<u8>| sp_bin_resource_limits(s2)) {
        Some((resource_limits, s)) => match sp_opt(
            s,
            |s2: Seq<u8>| sp_bin_writer_data_lifecycle(s2),
        ) {
            Some((writer_data_lifecycle, s)) => match sp_opt(
                s,
                |s2: Seq<u8>| sp_bin_reader_data_lifecycle(s2),
            ) {
                Some((reader_data_lifecycle, s)) => Some(
                    ((resource_limits, writer_data_lifecycle, reader_data_lifecycle), s),
                ),
                None => None,
            },
            None => None,
        },
        None => None,
    }
}

pub open spec fn sp_bin_c(s: Seq<u8>) -> Option<
    (
        (
            Option<TransportPriority>,
            Option<Lifespan>,
            Option<DestinationOrder>,
            Option<History>,
            Option<ResourceLimits>,
            Option<WriterDataLifecycle>,
            Option<ReaderDataLifecycle>,
        ),
        Seq<u8>,
    ),
> {
    match sp_bin_c1(s) {
        Some((t1, s)) => match sp_bin_c2(s) {
            Some((t2, s)) => Some(((t1.0, t1.1, t1.2, t1.3, t2.0, t2.1, t2.2), s)),
            None => None,
        },
        None => None,
    }
}

pub open spec fn sp_bin_d1(s: Seq<u8>) -> Option<
    ((Option<WriterBatching>, Option<TypeConsistency>, Option<Seq<char>>), Seq<u8>),
> {
    match sp_opt(s, |s2: Seq<u8>| sp_bin_writer_batching(s2)) {
        Some((writer_batching, s)) => match sp_opt(s, |s2: Seq<u8>| sp_bin_type_consistency(s2)) {
            Some((type_consistency, s)) => match sp_opt(s, |s2: Seq<u8>| sp_str(s2)) {
                Some((entity_name, s)) => Some(
                    ((writer_batching, type_consistency, entity_name), s),
                ),
                None => None,
            },
            None => None,
        },
        None => None,
    }
}

pub open spec fn sp_bin_d2(s: Seq<u8>) -> Option<
    ((Option<Seq<PropView>>, Option<IgnoreLocal>, Option<Seq<u16>>), Seq<u8>),
> {
    match sp_opt(s, |s2: Seq<u8>| sp_pair_list(s2)) {
        Some((properties, s)) => match sp_opt(s, |s2: Seq<u8>| sp_bin_ignore_local(s2)) {
            Some((ignore_local, s)) => match sp_opt(s, |s2: Seq<u8>| sp_u16_list(s2)) {
                Some((data_representation, s)) => Some(
                    ((properties, ignore_local, data_representation), s),
                ),
                None => None,
            },
            None => None,
        },
        None => None,
    }
}

pub open spec fn sp_bin_d(s: Seq<u8>) -> Option<
    (
        (
            Option<WriterBatching>,
            Option<TypeConsistency>,
            Option<Seq<char>>,
            Option<Seq<PropView>>,
            Option<IgnoreLocal>,
            Option<Seq<u16>>,
        ),
        Seq<u8>,
    ),
> {
    match sp_bin_d1(s) {
        Some((t1, s)) => match sp_bin_d2(s) {
            Some((t2, s)) => Some(((t1.0, t1.1, t1.2, t2.0, t2.1, t2.2), s)),
            None => None,
        },
        None => None,
    }
}

/// What the binary decoder accepts: the parsed aggregate and the unconsumed
/// remainder.
pub open spec fn sp_bin_qos(s: Seq<u8>) -> Option<(QosV, Seq<u8>)> {
    match sp_bin_a(s) {
        Some((a, s)) => match sp_bin_b(s) {
            Some((b, s)) => match sp_bin_c(s) {
                Some((c, s)) => match sp_bin_d(s) {
                    Some((d, s)) => Some(
                        (
                            QosV {
                                user_data: a.0,
                                topic_data: a.1,
                                group_data: a.2,
                                durability: a.3,
                                durability_service: a.4,
                                presentation: a.5,
                                deadline: a.6,
                                latency_budget: b.0,
                                ownership: b.1,
                                ownership_strength: b.2,
                                liveliness: b.3,
                                time_based_filter: b.4,
                                partition: b.5,
                                reliability: b.6,
                                transport_priority: c.0,
                                lifespan: c.1,
                                destination_order: c.2,
                                history: c.3,
                                resource_limits: c.4,
                                writer_data_lifecycle: c.5,
                                reader_data_lifecycle: c.6,
                                writer_batching: d.0,
                                type_consistency: d.1,
                                entity_name: d.2,
                                properties: d.3,
                                ignore_local: d.4,
                                data_representation: d.5,
                            },
                            s,
                        ),
                    ),
                    None => None,
                },
                None => None,
            },
            None => None,
        },
        None => None,
    }
}

/// The aggregate a whole binary document denotes: defined exactly when the
/// document parses and nothing is left over.
pub open spec fn sp_bin_qos_total(s: Seq<u8>) -> Option<QosV> {
    match sp_bin_qos(s) {
        Some((q, rem)) => if rem.len() == 0 {
            Some(q)
        } else {
            None
        },
        None => None,
    }
}

#[verifier::rlimit(100)]
#[verifier::spinoff_prover]
proof fn lemma_bin_a_rt(q: QosV, rest: Seq<u8>)
    requires
        spec_qos_wire_encodable(q),
    ensures
        sp_bin_a(enc_bin_a(q) + rest) == Some(
            (
                (
                    q.user_data,
                    q.topic_data,
                    q.group_data,
                    q.durability,
                    q.durability_service,
                    q.presentation,
                    q.deadline,
                ),
                rest,
            ),
        ),
{
    let e1 = enc_opt(q.user_data, |b: Seq<u8>| enc_bytes(b));
    let e2 = enc_opt(q.topic_data, |b: Seq<u8>| enc_bytes(b));
    let e3 = enc_opt(q.group_data, |b: Seq<u8>| enc_bytes(b));
    let e4 = enc_opt(q.durability, |v: Durability| enc_bin_durability(v));
    let e5 = enc_opt(q.durability_service, |v: DurabilityService| enc_bin_durability_service(v));
    let e6 = enc_opt(q.presentation, |v: Presentation| enc_bin_presentation(v));
    let e7 = enc_opt(q.deadline, |v: Deadline| enc_bin_deadline(v));
    let r7 = rest;
    let r6 = e7 + r7;
    let r5 = e6 + r6;
    let r4 = e5 + r5;
    let r3 = e4 + r4;
    let r2 = e3 + r3;
    let r1 = e2 + r2;
    assert(enc_bin_a(q) + rest =~= e1 + r1);
    match q.user_data {
        Some(b) => lemma_bytes_round_trip(b, r1),
        None => {},
    }
    lemma_opt_round_trip(q.user_data, r1, |b: Seq<u8>| enc_bytes(b), |s2: Seq<u8>| sp_bytes(s2));
    match q.topic_data {
        Some(b) => lemma_bytes_round_trip(b, r2),
        None => {},
    }
    lemma_opt_round_trip(q.topic_data, r2, |b: Seq<u8>| enc_bytes(b), |s2: Seq<u8>| sp_bytes(s2));
    match q.group_data {
        Some(b) => lemma_bytes_round_trip(b, r3),
        None => {},
    }
    lemma_opt_round_trip(q.group_data, r3, |b: Seq<u8>| enc_bytes(b), |s2: Seq<u8>| sp_bytes(s2));
    match q.durability {
        Some(v) => lemma_bin_durability_rt(v, r4),
        None => {},
    }
    lemma_opt_round_trip(
        q.durability,
        r4,
        |v: Durability| enc_bin_durability(v),
        |s2: Seq<u8>| sp_bin_durability(s2),
    );
    match q.durability_service {
        Some(v) => lemma_bin_durability_service_rt(v, r5),
        None => {},
    }
    lemma_opt_round_trip(
        q.durability_service,
        r5,
        |v: DurabilityService| enc_bin_durability_service(v),
        |s2: Seq<u8>| sp_bin_durability_service(s2),
    );
    match q.presentation {
        Some(v) => lemma_bin_presentation_rt(v, r6),
        None => {},
    }
    lemma_opt_round_trip(
        q.presentation,
        r6,
        |v: Presentation| enc_bin_presentation(v),
        |s2: Seq<u8>| sp_bin_presentation(s2),
    );
    match q.deadline {
        Some(v) => lemma_bin_deadline_rt(v, r7),
        None => {},
    }
    lemma_opt_round_trip(
        q.deadline,
        r7,
        |v: Deadline| enc_bin_deadline(v),
        |s2: Seq<u8>| sp_bin_deadline(s2),
    );
}

#[verifier::rlimit(100)]
#[verifier::spinoff_prover]
proof fn lemma_bin_b1_rt(q: QosV, rest: Seq<u8>)
    ensures
        sp_bin_b1(enc_bin_b1(q) + rest) == Some(
            ((q.latency_budget, q.ownership, q.ownership_strength, q.liveliness), rest),
        ),
{
    let e1 = enc_opt(q.latency_budget, |v: LatencyBudget| enc_bin_latency_budget(v));
    let e2 = enc_opt(q.ownership, |v: Ownership| enc_bin_ownership(v));
    let e3 = enc_opt(q.ownership_strength, |v: OwnershipStrength| enc_bin_ownership_strength(v));
    let e4 = enc_opt(q.liveliness, |v: Liveliness| enc_bin_liveliness(v));
    let r4 = rest;
    let r3 = e4 + r4;
    let r2 = e3 + r3;
    let r1 = e2 + r2;
    assert((e3 + e4) + rest =~= r2);
    assert((e2 + (e3 + e4)) + rest =~= r1);
    assert(enc_bin_b1(q) + rest =~= e1 + r1);
    assert(sp_opt(e1 + r1, |s2: Seq<u8>| sp_bin_latency_budget(s2)) == Some(
        (q.latency_budget, r1),
    )) by {
        match q.latency_budget {
            Some(v) => lemma_bin_latency_budget_rt(v, r1),
            None => {},
        }
        lemma_opt_round_trip(
            q.latency_budget,
            r1,
            |v: LatencyBudget| enc_bin_latency_budget(v),
            |s2: Seq<u8>| sp_bin_latency_budget(s2),
        );
    }
    assert(sp_opt(r1, |s2: Seq<u8>| sp_bin_ownership(s2)) == Some((q.ownership, r2))) by {
        match q.ownership {
            Some(v) => lemma_bin_ownership_rt(v, r2),
            None => {},
        }
        lemma_opt_round_trip(
            q.ownership,
            r2,
            |v: Ownership| enc_bin_ownership(v),
            |s2: Seq<u8>| sp_bin_ownership(s2),
        );
    }
    assert(sp_opt(r2, |s2: Seq<u8>| sp_bin_ownership_strength(s2)) == Some(
        (q.ownership_strength, r3),
    )) by {
        match q.ownership_strength {
            Some(v) => lemma_bin_ownership_strength_rt(v, r3),
            None => {},
        }
        lemma_opt_round_trip(
            q.ownership_strength,
            r3,
            |v: OwnershipStrength| enc_bin_ownership_strength(v),
            |s2: Seq<u8>| sp_bin_ownership_strength(s2),
        );
    }
    assert(sp_opt(r3, |s2: Seq<u8>| sp_bin_liveliness(s2)) == Some((q.liveliness, r4))) by {
        match q.liveliness {
            Some(v) => lemma_bin_liveliness_rt(v, r4),
            None => {},
        }
        lemma_opt_round_trip(
            q.liveliness,
            r4,
            |v: Liveliness| enc_bin_liveliness(v),
            |s2: Seq<u8>| sp_bin_liveliness(s2),
        );
    }
}

#[verifier::rlimit(100)]
#[verifier::spinoff_prover]
proof fn lemma_bin_b2_rt(q: QosV, rest: Seq<u8>)
    requires
        spec_qos_wire_encodable(q),
    ensures
        sp_bin_b2(enc_bin_b2(q) + rest) == Some(
            ((q.time_based_filter, q.partition, q.reliability), rest),
        ),
{
    let e1 = enc_opt(q.time_based_filter, |v: TimeBasedFilter| enc_bin_time_based_filter(v));
    let e2 = enc_opt(q.partition, |l: Seq<Seq<char>>| enc_str_list(l));
    let e3 = enc_opt(q.reliability, |v: Reliability| enc_bin_reliability(v));
    let r3 = rest;
    let r2 = e3 + r3;
    let r1 = e2 + r2;
    assert((e2 + e3) + rest =~= r1);
    assert(enc_bin_b2(q) + rest =~= e1 + r1);
    match q.time_based_filter {
        Some(v) => lemma_bin_time_based_filter_rt(v, r1),
        None => {},
    }
    lemma_opt_round_trip(
        q.time_based_filter,
        r1,
        |v: TimeBasedFilter| enc_bin_time_based_filter(v),
        |s2: Seq<u8>| sp_bin_time_based_filter(s2),
    );
    match q.partition {
        Some(l) => lemma_str_list_round_trip(l, r2),
        None => {},
    }
    lemma_opt_round_trip(
        q.partition,
        r2,
        |l: Seq<Seq<char>>| enc_str_list(l),
        |s2: Seq<u8>| sp_str_list(s2),
    );
    match q.reliability {
        Some(v) => lemma_bin_reliability_rt(v, r3),
        None => {},
    }
    lemma_opt_round_trip(
        q.reliability,
        r3,
        |v: Reliability| enc_bin_reliability(v),
        |s2: Seq<u8>| sp_bin_reliability(s2),
    );
}

#[verifier::rlimit(100)]
#[verifier::spinoff_prover]
proof fn lemma_bin_b_rt(q: QosV, rest: Seq<u8>)
    requires
        spec_qos_wire_encodable(q),
    ensures
        sp_bin_b(enc_bin_b(q) + rest) == Some(
            (
                (
                    q.latency_budget,
                    q.ownership,
                    q.ownership_strength,
                    q.liveliness,
                    q.time_based_filter,
                    q.partition,
                    q.reliability,
                ),
                rest,
            ),
        ),
{
    assert(enc_bin_b(q) + rest =~= enc_bin_b1(q) + (enc_bin_b2(q) + rest));
    lemma_bin_b1_rt(q, enc_bin_b2(q) + rest);
    lemma_bin_b2_rt(q, rest);
}

#[verifier::rlimit(100)]
#[verifier::spinoff_prover]
proof fn lemma_bin_c1_rt(q: QosV, rest: Seq<u8>)
    ensures
        sp_bin_c1(enc_bin_c1(q) + rest) == Some(
            ((q.transport_priority, q.lifespan, q.destination_order, q.history), rest),
        ),
{
    let e1 = enc_opt(q.transport_priority, |v: TransportPriority| enc_bin_transport_priority(v));
    let e2 = enc_opt(q.lifespan, |v: Lifespan| enc_bin_lifespan(v));
    let e3 = enc_opt(q.destination_order, |v: DestinationOrder| enc_bin_destination_order(v));
    let e4 = enc_opt(q.history, |v: History| enc_bin_history(v));
    let r4 = rest;
    let r3 = e4 + r4;
    let r2 = e3 + r3;
    let r1 = e2 + r2;
    assert((e3 + e4) + rest =~= r2);
    assert((e2 + (e3 + e4)) + rest =~= r1);
    assert(enc_bin_c1(q) + rest =~= e1 + r1);
    match q.transport_priority {
        Some(v) => lemma_bin_transport_priority_rt(v, r1),
        None => {},
    }
    lemma_opt_round_trip(
        q.transport_priority,
        r1,
        |v: TransportPriority| enc_bin_transport_priority(v),
        |s2: Seq<u8>| sp_bin_transport_priority(s2),
    );
    match q.lifespan {
        Some(v) => lemma_bin_lifespan_rt(v, r2),
        None => {},
    }
    lemma_opt_round_trip(
        q.lifespan,
        r2,
        |v: Lifespan| enc_bin_lifespan(v),
        |s2: Seq<u8>| sp_bin_lifespan(s2),
    );
    match q.destination_order {
        Some(v) => lemma_bin_destination_order_rt(v, r3),
        None => {},
    }
    lemma_opt_round_trip(
        q.destination_order,
        r3,
        |v: DestinationOrder| enc_bin_destination_order(v),
        |s2: Seq<u8>| sp_bin_destination_order(s2),
    );
    match q.history {
        Some(v) => lemma_bin_history_rt(v, r4),
        None => {},
    }
    lemma_opt_round_trip(
        q.history,
        r4,
        |v: History| enc_bin_history(v),
        |s2: Seq<u8>| sp_bin_history(s2),
    );
}

#[verifier::rlimit(100)]
#[verifier::spinoff_prover]
proof fn lemma_bin_c2_rt(q: QosV, rest: Seq<u8>)
    ensures
        sp_bin_c2(enc_bin_c2(q) + rest) == Some(
            ((q.resource_limits, q.writer_data_lifecycle, q.reader_data_lifecycle), rest),
        ),
{
    let e1 = enc_opt(q.resource_limits, |v: ResourceLimits| enc_bin_resource_limits(v));
    let e2 = enc_opt(
        q.writer_data_lifecycle,
        |v: WriterDataLifecycle| enc_bin_writer_data_lifecycle(v),
    );
    let e3 = enc_opt(
        q.reader_data_lifecycle,
        |v: ReaderDataLifecycle| enc_bin_reader_data_lifecycle(v),
    );
    let r3 = rest;
    let r2 = e3 + r3;
    let r1 = e2 + r2;
    assert((e2 + e3) + rest =~= r1);
    assert(enc_bin_c2(q) + rest =~= e1 + r1);
    match q.resource_limits {
        Some(v) => lemma_bin_resource_limits_rt(v, r1),
        None => {},
    }
    lemma_opt_round_trip(
        q.resource_limits,
        r1,
        |v: ResourceLimits| enc_bin_resource_limits(v),
        |s2: Seq<u8>| sp_bin_resource_limits(s2),
    );
    match q.writer_data_lifecycle {
        Some(v) => lemma_bin_writer_data_lifecycle_rt(v, r2),
        None => {},
    }
    lemma_opt_round_trip(
        q.writer_data_lifecycle,
        r2,
        |v: WriterDataLifecycle| enc_bin_writer_data_lifecycle(v),
        |s2: Seq<u8>| sp_bin_writer_data_lifecycle(s2),
    );
    match q.reader_data_lifecycle {
        Some(v) => lemma_bin_reader_data_lifecycle_rt(v, r3),
        None => {},
    }
    lemma_opt_round_trip(
        q.reader_data_lifecycle,
        r3,
        |v: ReaderDataLifecycle| enc_bin_reader_data_lifecycle(v),
        |s2: Seq<u8>| sp_bin_reader_data_lifecycle(s2),
    );
}

#[verifier::rlimit(100)]
#[verifier::spinoff_prover]
proof fn lemma_bin_c_rt(q: QosV, rest: Seq<u8>)
    ensures
        sp_bin_c(enc_bin_c(q) + rest) == Some(
            (
                (
                    q.transport_priority,
                    q.lifespan,
                    q.destination_order,
                    q.history,
                    q.resource_limits,
                    q.writer_data_lifecycle,
                    q.reader_data_lifecycle,
                ),
                rest,
            ),
        ),
{
    assert(enc_bin_c(q) + rest =~= enc_bin_c1(q) + (enc_bin_c2(q) + rest));
    lemma_bin_c1_rt(q, enc_bin_c2(q) + rest);
    lemma_bin_c2_rt(q, rest);
}

#[verifier::rlimit(100)]
#[verifier::spinoff_prover]
proof fn lemma_bin_d1_rt(q: QosV, rest: Seq<u8>)
    requires
        spec_qos_wire_encodable(q),
    ensures
        sp_bin_d1(enc_bin_d1(q) + rest) == Some(
            ((q.writer_batching, q.type_consistency, q.entity_name), rest),
        ),
{
    let e1 = enc_opt(q.writer_batching, |v: WriterBatching| enc_bin_writer_batching(v));
    let e2 = enc_opt(q.type_consistency, |v: TypeConsistency| enc_bin_type_consistency(v));
    let e3 = enc_opt(q.entity_name, |cs: Seq<char>| enc_str(cs));
    let r3 = rest;
    let r2 = e3 + r3;
    let r1 = e2 + r2;
    assert((e2 + e3) + rest =~= r1);
    assert(enc_bin_d1(q) + rest =~= e1 + r1);
    match q.writer_batching {
        Some(v) => lemma_bin_writer_batching_rt(v, r1),
        None => {},
    }
    lemma_opt_round_trip(
        q.writer_batching,
        r1,
        |v: WriterBatching| enc_bin_writer_batching(v),
        |s2: Seq<u8>| sp_bin_writer_batching(s2),
    );
    match q.type_consistency {
        Some(v) => lemma_bin_type_consistency_rt(v, r2),
        None => {},
    }
    lemma_opt_round_trip(
        q.type_consistency,
        r2,
        |v: TypeConsistency| enc_bin_type_consistency(v),
        |s2: Seq<u8>| sp_bin_type_consistency(s2),
    );
    match q.entity_name {
        Some(cs) => lemma_str_round_trip(cs, r3),
        None => {},
    }
    lemma_opt_round_trip(q.entity_name, r3, |cs: Seq<char>| enc_str(cs), |s2: Seq<u8>| sp_str(s2));
}

#[verifier::rlimit(100)]
#[verifier::spinoff_prover]
proof fn lemma_bin_d2_rt(q: QosV, rest: Seq<u8>)
    requires
        spec_qos_wire_encodable(q),
    ensures
        sp_bin_d2(enc_bin_d2(q) + rest) == Some(
            ((q.properties, q.ignore_local, q.data_representation), rest),
        ),
{
    let e1 = enc_opt(q.properties, |l: Seq<PropView>| enc_pair_list(l));
    let e2 = enc_opt(q.ignore_local, |v: IgnoreLocal| enc_bin_ignore_local(v));
    let e3 = enc_opt(q.data_representation, |l: Seq<u16>| enc_u16_list(l));
    let r3 = rest;
    let r2 = e3 + r3;
    let r1 = e2 + r2;
    assert((e2 + e3) + rest =~= r1);
    assert(enc_bin_d2(q) + rest =~= e1 + r1);
    match q.properties {
        Some(l) => lemma_pair_list_round_trip(l, r1),
        None => {},
    }
    lemma_opt_round_trip(
        q.properties,
        r1,
        |l: Seq<PropView>| enc_pair_list(l),
        |s2: Seq<u8>| sp_pair_list(s2),
    );
    match q.ignore_local {
        Some(v) => lemma_bin_ignore_local_rt(v, r2),
        None => {},
    }
    lemma_opt_round_trip(
        q.ignore_local,
        r2,
        |v: IgnoreLocal| enc_bin_ignore_local(v),
        |s2: Seq<u8>| sp_bin_ignore_local(s2),
    );
    match q.data_representation {
        Some(l) => lemma_u16_list_round_trip(l, r3),
        None => {},
    }
    lemma_opt_round_trip(
        q.data_representation,
        r3,
        |l: Seq<u16>| enc_u16_list(l),
        |s2: Seq<u8>| sp_u16_list(s2),
    );
}

#[verifier::rlimit(100)]
#[verifier::spinoff_prover]
proof fn lemma_bin_d_rt(q: QosV, rest: Seq<u8>)
    requires
        spec_qos_wire_encodable(q),
    ensures
        sp_bin_d(enc_bin_d(q) + rest) == Some(
            (
                (
                    q.writer_batching,
                    q.type_consistency,
                    q.entity_name,
                    q.properties,
                    q.ignore_local,
                    q.data_representation,
                ),
                rest,
            ),
        ),
{
    assert(enc_bin_d(q) + rest =~= enc_bin_d1(q) + (enc_bin_d2(q) + rest));
    lemma_bin_d1_rt(q, enc_bin_d2(q) + rest);
    lemma_bin_d2_rt(q, rest);
}

/// Law: decoding a freshly encoded aggregate, in the binary form, reproduces
/// it exactly — absent slots stay absent, populated slots keep every field,
/// and the numeric sentinels come back unchanged.
pub proof fn lemma_binary_round_trip(q: QosV)
    requires
        spec_qos_wire_encodable(q),
    ensures
        sp_bin_qos_total(enc_bin_qos(q)) == Some(q),
{
    let rd = Seq::<u8>::empty();
    let rc = enc_bin_d(q) + rd;
    let rb = enc_bin_c(q) + rc;
    let ra = enc_bin_b(q) + rb;
    assert(enc_bin_qos(q) =~= enc_bin_a(q) + ra);
    lemma_bin_a_rt(q, ra);
    lemma_bin_b_rt(q, rb);
    lemma_bin_c_rt(q, rc);
    lemma_bin_d_rt(q, rd);
    assert(sp_bin_qos(enc_bin_qos(q)) == Some(
        (
            QosV {
                user_data: q.user_data,
                topic_data: q.topic_data,
                group_data: q.group_data,
                durability: q.durability,
                durability_service: q.durability_service,
                presentation: q.presentation,
                deadline: q.deadline,
                latency_budget: q.latency_budget,
                ownership: q.ownership,
                ownership_strength: q.ownership_strength,
                liveliness: q.liveliness,
                time_based_filter: q.time_based_filter,
                partition: q.partition,
                reliability: q.reliability,
                transport_priority: q.transport_priority,
                lifespan: q.lifespan,
                destination_order: q.destination_order,
                history: q.history,
                resource_limits: q.resource_limits,
                writer_data_lifecycle: q.writer_data_lifecycle,
                reader_data_lifecycle: q.reader_data_lifecycle,
                writer_batching: q.writer_batching,
                type_consistency: q.type_consistency,
                entity_name: q.entity_name,
                properties: q.properties,
                ignore_local: q.ignore_local,
                data_representation: q.data_representation,
            },
            rd,
        ),
    ));
}

#[verifier::rlimit(100)]
#[verifier::spinoff_prover]
fn write_bin_a(out: &mut Vec<u8>, q: &Qos)
    ensures
        final(out)@ == old(out)@ + enc_bin_a(q@),
{
    let ghost base = out@;
    let ghost e1 = enc_opt(q@.user_data, |b: Seq<u8>| enc_bytes(b));
    let ghost e2 = enc_opt(q@.topic_data, |b: Seq<u8>| enc_bytes(b));
    let ghost e3 = enc_opt(q@.group_data, |b: Seq<u8>| enc_bytes(b));
    let ghost e4 = enc_opt(q@.durability, |v: Durability| enc_bin_durability(v));
    let ghost e5 = enc_opt(q@.durability_service, |v: DurabilityService| enc_bin_durability_service(v));
    let ghost e6 = enc_opt(q@.presentation, |v: Presentation| enc_bin_presentation(v));
    let ghost e7 = enc_opt(q@.deadline, |v: Deadline| enc_bin_deadline(v));
    write_opt_bytes(out, &q.user_data);
    write_opt_bytes(out, &q.topic_data);
    proof {
        assert(out@ =~= base + (e1 + e2));
    }
    write_opt_bytes(out, &q.group_data);
    proof {
        assert(out@ =~= base + ((e1 + e2) + e3));
    }
    write_opt_durability(out, &q.durability);
    proof {
        assert(out@ =~= base + (((e1 + e2) + e3) + e4));
    }
    write_opt_durability_service(out, &q.durability_service);
    proof {
        assert(out@ =~= base + ((((e1 + e2) + e3) + e4) + e5));
    }
    write_opt_presentation(out, &q.presentation);
    proof {
        assert(out@ =~= base + (((((e1 + e2) + e3) + e4) + e5) + e6));
    }
    write_opt_deadline(out, &q.deadline);
    proof {
        let left7 = ((((((e1 + e2) + e3) + e4) + e5) + e6) + e7);
        assert(out@ =~= base + left7);
        assert(left7 =~= (((((e1 + e2) + e3) + e4) + e5) + (e6 + e7)));
        assert(left7 =~= ((((e1 + e2) + e3) + e4) + (e5 + (e6 + e7))));
        assert(left7 =~= (((e1 + e2) + e3) + (e4 + (e5 + (e6 + e7)))));
        assert(left7 =~= ((e1 + e2) + (e3 + (e4 + (e5 + (e6 + e7))))));
        assert(left7 =~= (e1 + (e2 + (e3 + (e4 + (e5 + (e6 + e7)))))));
        assert(left7 =~= enc_bin_a(q@));
    }
}

#[verifier::rlimit(100)]
#[verifier::spinoff_prover]
fn write_bin_b(out: &mut Vec<u8>, q: &Qos)
    ensures
        final(out)@ == old(out)@ + enc_bin_b(q@),
{
    let ghost base = out@;
    write_opt_latency_budget(out, &q.latency_budget);
    write_opt_ownership(out, &q.ownership);
    write_opt_ownership_strength(out, &q.ownership_strength);
    write_opt_liveliness(out, &q.liveliness);
    proof {
        assert(out@ =~= base + enc_bin_b1(q@));
    }
    let ghost mid = out@;
    write_opt_time_based_filter(out, &q.time_based_filter);
    write_opt_partition(out, &q.partition);
    write_opt_reliability(out, &q.reliability);
    proof {
        assert(out@ =~= mid + enc_bin_b2(q@));
        assert(out@ =~= base + enc_bin_b(q@));
    }
}

#[verifier::rlimit(100)]
#[verifier::spinoff_prover]
fn write_bin_c(out: &mut Vec<u8>, q: &Qos)
    ensures
        final(out)@ == old(out)@ + enc_bin_c(q@),
{
    let ghost base = out@;
    write_opt_transport_priority(out, &q.transport_priority);
    write_opt_lifespan(out, &q.lifespan);
    write_opt_destination_order(out, &q.destination_order);
    write_opt_history(out, &q.history);
    proof {
        assert(out@ =~= base + enc_bin_c1(q@));
    }
    let ghost mid = out@;
    write_opt_resource_limits(out, &q.resource_limits);
    write_opt_writer_data_lifecycle(out, &q.writer_data_lifecycle);
    write_opt_reader_data_lifecycle(out, &q.reader_data_lifecycle);
    proof {
        assert(out@ =~= mid + enc_bin_c2(q@));
        assert(out@ =~= base + enc_bin_c(q@));
    }
}

#[verifier::rlimit(100)]
#[verifier::spinoff_prover]
fn write_bin_d(out: &mut Vec<u8>, q: &Qos)
    ensures
        final(out)@ == old(out)@ + enc_bin_d(q@),
{
    let ghost base = out@;
    write_opt_writer_batching(out, &q.writer_batching);
    write_opt_type_consistency(out, &q.type_consistency);
    write_opt_entity_name(out, &q.entity_name);
    proof {
        assert(out@ =~= base + enc_bin_d1(q@));
    }
    let ghost mid = out@;
    write_opt_properties(out, &q.properties);
    write_opt_ignore_local(out, &q.ignore_local);
    write_opt_data_representation(out, &q.data_representation);
    proof {
        assert(out@ =~= mid + enc_bin_d2(q@));
        assert(out@ =~= base + enc_bin_d(q@));
    }
}

#[verifier::rlimit(100)]
#[verifier::spinoff_prover]
fn read_bin_a(buf: &Vec<u8>, pos: usize) -> (r: Result<
    (
        (
            Option<Vec<u8>>,
            Option<Vec<u8>>,
            Option<Vec<u8>>,
            Option<Durability>,
            Option<DurabilityService>,
            Option<Presentation>,
            Option<Deadline>,
        ),
        usize,
    ),
    QosError,
>)
    requires
        pos <= buf@.len(),
    ensures
        match r {
            Ok((t, p2)) => pos <= p2 <= buf@.len() && sp_bin_a(buf@.skip(pos as int)) == Some(
                (
                    (
                        t.0.deep_view(),
                        t.1.deep_view(),
                        t.2.deep_view(),
                        t.3.deep_view(),
                        t.4.deep_view(),
                        t.5.deep_view(),
                        t.6.deep_view(),
                    ),
                    buf@.skip(p2 as int),
                ),
            ),
            Err(e) => e == QosError::SerializationError && sp_bin_a(buf@.skip(pos as int)) is None,
        },
{
    let (user_data, p) = match read_opt_bytes(buf, pos) {
        Ok(v) => v,
        Err(e) => {
            return Err(e);
        },
    };
    let (topic_data, p) = match read_opt_bytes(buf, p) {
        Ok(v) => v,
        Err(e) => {
            return Err(e);
        },
    };
    let (group_data, p) = match read_opt_bytes(buf, p) {
        Ok(v) => v,
        Err(e) => {
            return Err(e);
        },
    };
    let (durability, p) = match read_opt_durability(buf, p) {
        Ok(v) => v,
        Err(e) => {
            return Err(e);
        },
    };
    let (durability_service, p) = match read_opt_durability_service(buf, p) {
        Ok(v) => v,
        Err(e) => {
            return Err(e);
        },
    };
    let (presentation, p) = match read_opt_presentation(buf, p) {
        Ok(v) => v,
        Err(e) => {
            return Err(e);
        },
    };
    let (deadline, p) = match read_opt_deadline(buf, p) {
        Ok(v) => v,
        Err(e) => {
            return Err(e);
        },
    };
    Ok(
        (
            (user_data, topic_data, group_data, durability, durability_service, presentation,
            deadline),
            p,
        ),
    )
}

#[verifier::rlimit(100)]
#[verifier::spinoff_prover]
fn read_bin_b(buf: &Vec<u8>, pos: usize) -> (r: Result<
    (
        (
            Option<LatencyBudget>,
            Option<Ownership>,
            Option<OwnershipStrength>,
            Option<Liveliness>,
            Option<TimeBasedFilter>,
            Option<Vec<String>>,
            Option<Reliability>,
        ),
        usize,
    ),
    QosError,
>)
    requires
        pos <= buf@.len(),
    ensures
        match r {
            Ok((t, p2)) => pos <= p2 <= buf@.len() && sp_bin_b(buf@.skip(pos as int)) == Some(
                (
                    (
                        t.0.deep_view(),
                        t.1.deep_view(),
                        t.2.deep_view(),
                        t.3.deep_view(),
                        t.4.deep_view(),
                        t.5.deep_view(),
                        t.6.deep_view(),
                    ),
                    buf@.skip(p2 as int),
                ),
            ),
            Err(e) => e == QosError::SerializationError && sp_bin_b(buf@.skip(pos as int)) is None,
        },
{
    let (latency_budget, p) = match read_opt_latency_budget(buf, pos) {
        Ok(v) => v,
        Err(e) => {
            return Err(e);
        },
    };
    let (ownership, p) = match read_opt_ownership(buf, p) {
        Ok(v) => v,
        Err(e) => {
            return Err(e);
        },
    };
    let (ownership_strength, p) = match read_opt_ownership_strength(buf, p) {
        Ok(v) => v,
        Err(e) => {
            return Err(e);
        },
    };
    let (liveliness, p) = match read_opt_liveliness(buf, p) {
        Ok(v) => v,
        Err(e) => {
            return Err(e);
        },
    };
    let (time_based_filter, p) = match read_opt_time_based_filter(buf, p) {
        Ok(v) => v,
        Err(e) => {
            return Err(e);
        },
    };
    let (partition, p) = match read_opt_partition(buf, p) {
        Ok(v) => v,
        Err(e) => {
            return Err(e);
        },
    };
    let (reliability, p) = match read_opt_reliability(buf, p) {
        Ok(v) => v,
        Err(e) => {
            return Err(e);
        },
    };
    Ok(
        (
            (latency_budget, ownership, ownership_strength, liveliness, time_based_filter,
            partition, reliability),
            p,
        ),
    )
}

#[verifier::rlimit(100)]
#[verifier::spinoff_prover]
fn read_bin_c(buf: &Vec<u8>, pos: usize) -> (r: Result<
    (
        (
            Option<TransportPriority>,
            Option<Lifespan>,
            Option<DestinationOrder>,
            Option<History>,
            Option<ResourceLimits>,
            Option<WriterDataLifecycle>,
            Option<ReaderDataLifecycle>,
        ),
        usize,
    ),
    QosError,
>)
    requires
        pos <= buf@.len(),
    ensures
        match r {
            Ok((t, p2)) => pos <= p2 <= buf@.len() && sp_bin_c(buf@.skip(pos as int)) == Some(
                (
                    (
                        t.0.deep_view(),
                        t.1.deep_view(),
                        t.2.deep_view(),
                        t.3.deep_view(),
                        t.4.deep_view(),
                        t.5.deep_view(),
                        t.6.deep_view(),
                    ),
                    buf@.skip(p2 as int),
                ),
            ),
            Err(e) => e == QosError::SerializationError && sp_bin_c(buf@.skip(pos as int)) is None,
        },
{
    let (transport_priority, p) = match read_opt_transport_priority(buf, pos) {
        Ok(v) => v,
        Err(e) => {
            return Err(e);
        },
    };
    let (lifespan, p) = match read_opt_lifespan(buf, p) {
        Ok(v) => v,
        Err(e) => {
            return Err(e);
        },
    };
    let (destination_order, p) = match read_opt_destination_order(buf, p) {
        Ok(v) => v,
        Err(e) => {
            return Err(e);
        },
    };
    let (history, p) = match read_opt_history(buf, p) {
        Ok(v) => v,
        Err(e) => {
            return Err(e);
        },
    };
    let (resource_limits, p) = match read_opt_resource_limits(buf, p) {
        Ok(v) => v,
        Err(e) => {
            return Err(e);
        },
    };
    let (writer_data_lifecycle, p) = match read_opt_writer_data_lifecycle(buf, p) {
        Ok(v) => v,
        Err(e) => {
            return Err(e);
        },
    };
    let (reader_data_lifecycle, p) = match read_opt_reader_data_lifecycle(buf, p) {
        Ok(v) => v,
        Err(e) => {
            return Err(e);
        },
    };
    Ok(
        (
            (transport_priority, lifespan, destination_order, history, resource_limits,
            writer_data_lifecycle, reader_data_lifecycle),
            p,
        ),
    )
}

#[verifier::rlimit(100)]
#[verifier::spinoff_prover]
fn read_bin_d(buf: &Vec<u8>, pos: usize) -> (r: Result<
    (
        (
            Option<WriterBatching>,
            Option<TypeConsistency>,
            Option<EntityName>,
            Option<Properties>,
            Option<IgnoreLocal>,
            Option<Vec<u16>>,
        ),
        usize,
    ),
    QosError,
>)
    requires
        pos <= buf@.len(),
    ensures
        match r {
            Ok((t, p2)) => pos <= p2 <= buf@.len() && sp_bin_d(buf@.skip(pos as int)) == Some(
                (
                    (
                        t.0.deep_view(),
                        t.1.deep_view(),
                        t.2.deep_view(),
                        t.3.deep_view(),
                        t.4.deep_view(),
                        t.5.deep_view(),
                    ),
                    buf@.skip(p2 as int),
                ),
            ),
            Err(e) => e == QosError::SerializationError && sp_bin_d(buf@.skip(pos as int)) is None,
        },
{
    let (writer_batching, p) = match read_opt_writer_batching(buf, pos) {
        Ok(v) => v,
        Err(e) => {
            return Err(e);
        },
    };
    let (type_consistency, p) = match read_opt_type_consistency(buf, p) {
        Ok(v) => v,
        Err(e) => {
            return Err(e);
        },
    };
    let (entity_name, p) = match read_opt_entity_name(buf, p) {
        Ok(v) => v,
        Err(e) => {
            return Err(e);
        },
    };
    let (properties, p) = match read_opt_properties(buf, p) {
        Ok(v) => v,
        Err(e) => {
            return Err(e);
        },
    };
    let (ignore_local, p) = match read_opt_ignore_local(buf, p) {
        Ok(v) => v,
        Err(e) => {
            return Err(e);
        },
    };
    let (data_representation, p) = match read_opt_data_representation(buf, p) {
        Ok(v) => v,
        Err(e) => {
            return Err(e);
        },
    };
    Ok(
        (
            (writer_batching, type_consistency, entity_name, properties, ignore_local,
            data_representation),
            p,
        ),
    )
}

impl Qos {
    /// Encode the aggregate to its compact binary form.
    #[verifier::rlimit(100)]
    #[verifier::spinoff_prover]
    pub fn encode_binary(&self) -> (r: Vec<u8>)
        ensures
            r@ == enc_bin_qos(self@),
    {
        let mut out: Vec<u8> = Vec::new();
        write_bin_a(&mut out, self);
        write_bin_b(&mut out, self);
        write_bin_c(&mut out, self);
        write_bin_d(&mut out, self);
        proof {
            assert(out@ =~= enc_bin_qos(self@));
        }
        out
    }

    /// Decode the compact binary form.  Returns a serialization error, with
    /// no other effect, on any input that is not exactly an encoded
    /// aggregate.
    #[verifier::rlimit(100)]
#[verifier::spinoff_prover]
    pub fn decode_binary(buf: &Vec<u8>) -> (r: Result<Qos, QosError>)
        ensures
            r matches Ok(q) ==> sp_bin_qos_total(buf@) == Some(q@),
            r matches Err(e) ==> e == QosError::SerializationError && sp_bin_qos_total(
                buf@,
            ) is None,
    {
        proof {
            assert(buf@.skip(0) =~= buf@);
        }
        let (a, p) = match read_bin_a(buf, 0) {
            Ok(v) => v,
            Err(e) => {
                return Err(e);
            },
        };
        let (b, p) = match read_bin_b(buf, p) {
            Ok(v) => v,
            Err(e) => {
                return Err(e);
            },
        };
        let (c, p) = match read_bin_c(buf, p) {
            Ok(v) => v,
            Err(e) => {
                return Err(e);
            },
        };
        let (d, p) = match read_bin_d(buf, p) {
            Ok(v) => v,
            Err(e) => {
                return Err(e);
            },
        };
        if p != buf.len() {
            return Err(QosError::SerializationError);
        }
        let (user_data, topic_data, group_data, durability, durability_service, presentation,
        deadline) = a;
        let (latency_budget, ownership, ownership_strength, liveliness, time_based_filter,
        partition, reliability) = b;
        let (transport_priority, lifespan, destination_order, history, resource_limits,
        writer_data_lifecycle, reader_data_lifecycle) = c;
        let (writer_batching, type_consistency, entity_name, properties, ignore_local,
        data_representation) = d;
        Ok(
            Qos {
                user_data,
                topic_data,
                group_data,
                durability,
                durability_service,
                presentation,
                deadline,
                latency_budget,
                ownership,
                ownership_strength,
                liveliness,
                time_based_filter,
                partition,
                reliability,
                transport_priority,
                lifespan,
                destination_order,
                history,
                resource_limits,
                writer_data_lifecycle,
                reader_data_lifecycle,
                writer_batching,
                type_consistency,
                entity_name,
                properties,
                ignore_local,
                data_representation,
            },
        )
    }
}

} // verus!
