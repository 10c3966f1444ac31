//! Per-policy payloads of the text form: each present policy is rendered as
//! `name{field=value,...}` and parsed back exactly.

use vstd::prelude::*;
use vstd::utf8::encode_utf8;
use vstd::string::StringSliceAdditionalSpecFns;
use crate::QosError;
use crate::policy::Durability;
use crate::policy::DurabilityKind;
use crate::policy::DurabilityService;
use crate::policy::Presentation;
use crate::policy::PresentationAccessScopeKind;
use crate::policy::Deadline;
use crate::policy::LatencyBudget;
use crate::policy::Ownership;
use crate::policy::OwnershipKind;
use crate::policy::OwnershipStrength;
use crate::policy::Liveliness;
use crate::policy::LivelinessKind;
use crate::policy::TimeBasedFilter;
use crate::policy::Reliability;
use crate::policy::ReliabilityKind;
use crate::policy::TransportPriority;
use crate::policy::Lifespan;
use crate::policy::DestinationOrder;
use crate::policy::DestinationOrderKind;
use crate::policy::History;
use crate::policy::HistoryKind;
use crate::policy::ResourceLimits;
use crate::policy::WriterDataLifecycle;
use crate::policy::ReaderDataLifecycle;
use crate::policy::WriterBatching;
use crate::policy::TypeConsistency;
use crate::policy::TypeConsistencyKind;
use crate::policy::EntityName;
use crate::policy::IgnoreLocal;
use crate::policy::IgnoreLocalKind;
use crate::props::Properties;
use crate::props::PropView;
use crate::qos::Qos;
use crate::qos::QosV;
use crate::text::dec_u64;
use crate::text::dec_i64;
use crate::text::is_digit;
use crate::text::enc_tbool;
use crate::text::enc_traw;
use crate::text::enc_tstr;
use crate::text::enc_tstrlist;
use crate::text::enc_tpairlist;
use crate::text::enc_tu16list;
use crate::text::sp_udec;
use crate::text::sp_idec;
use crate::text::sp_exact;
use crate::text::sp_lit;
use crate::text::sp_tbool;
use crate::text::sp_traw;
use crate::text::sp_tstr;
use crate::text::sp_tstrlist;
use crate::text::sp_tpairlist;
use crate::text::sp_tu16list;
use crate::text::lemma_udec_round_trip;
use crate::text::lemma_idec_round_trip;
use crate::text::lemma_exact_round_trip;
use crate::text::lemma_lit_round_trip;
use crate::text::lemma_tbool_round_trip;
use crate::text::lemma_traw_round_trip;
use crate::text::lemma_tstr_round_trip;
use crate::text::lemma_tstrlist_round_trip;
use crate::text::lemma_tpairlist_round_trip;
use crate::text::lemma_tu16list_round_trip;
use crate::text::write_udec;
use crate::text::write_idec;
use crate::text::write_tbool;
use crate::text::write_traw;
use crate::text::write_tstr;
use crate::text::write_tstrlist;
use crate::text::write_tpairlist;
use crate::text::write_tu16list;
use crate::text::write_lit;
use crate::text::read_udec;
use crate::text::read_idec;
use crate::text::read_tbool;
use crate::text::read_traw;
use crate::text::read_tstr;
use crate::text::read_tstrlist;
use crate::text::read_tpairlist;
use crate::text::read_tu16list;
use crate::text::read_exact;
use crate::text::expect_lit;

verus! {

pub open spec fn enc_txt_user_data(b: Seq<u8>) -> Seq<u8> {
    "user_data{value=".spec_bytes() + enc_traw(b) + seq![125u8]
}

pub open spec fn sp_txt_user_data(s: Seq<u8>) -> Option<(Seq<u8>, Seq<u8>)> {
    match sp_lit(s, "user_data{value=".spec_bytes()) {
        Some(s) => match sp_traw(s) {
            Some((value_v, s)) => match sp_exact(s, 125) {
                Some(s) => Some((value_v, s))
                ,None => None,
            }
            ,None => None,
        }
        ,None => None,
    }
}

pub open spec fn enc_txt_topic_data(b: Seq<u8>) -> Seq<u8> {
    "topic_data{value=".spec_bytes() + enc_traw(b) + seq![125u8]
}

pub open spec fn sp_txt_topic_data(s: Seq<u8>) -> Option<(Seq<u8>, Seq<u8>)> {
    match sp_lit(s, "topic_data{value=".spec_bytes()) {
        Some(s) => match sp_traw(s) {
            Some((value_v, s)) => match sp_exact(s, 125) {
                Some(s) => Some((value_v, s))
                ,None => None,
            }
            ,None => None,
        }
        ,None => None,
    }
}

pub open spec fn enc_txt_group_data(b: Seq<u8>) -> Seq<u8> {
    "group_data{value=".spec_bytes() + enc_traw(b) + seq![125u8]
}

pub open spec fn sp_txt_group_data(s: Seq<u8>) -> Option<(Seq<u8>, Seq<u8>)> {
    match sp_lit(s, "group_data{value=".spec_bytes()) {
        Some(s) => match sp_traw(s) {
            Some((value_v, s)) => match sp_exact(s, 125) {
                Some(s) => Some((value_v, s))
                ,None => None,
            }
            ,None => None,
        }
        ,None => None,
    }
}

pub open spec fn enc_txt_durability(v: Durability) -> Seq<u8> {
    "durability{kind=".spec_bytes() + dec_u64(v.kind.spec_code() as u64) + seq![125u8]
}

pub open spec fn sp_txt_durability(s: Seq<u8>) -> Option<(Durability, Seq<u8>)> {
    match sp_lit(s, "durability{kind=".spec_bytes()) {
        Some(s) => match sp_udec(s) {
            Some((u, s)) => if u <= u32::MAX as u64 {
                match DurabilityKind::spec_from_code(u as u32) {
                    Some(kind) => match sp_exact(s, 125) {
                        Some(s) => Some((Durability { kind }, s))
                        ,None => None,
                    }
                    ,None => None,
                }
            } else {
                None
            },
            None => None,
        }
        ,None => None,
    }
}

pub open spec fn enc_txt_durability_service(v: DurabilityService) -> Seq<u8> {
    "durability_service{service_cleanup_delay=".spec_bytes() + dec_i64(v.service_cleanup_delay) + seq![44u8] + "history_kind=".spec_bytes() + dec_u64(v.history_kind.spec_code() as u64) + seq![44u8] + "history_depth=".spec_bytes() + dec_i64(v.history_depth as i64) + seq![44u8] + "max_samples=".spec_bytes() + dec_i64(v.max_samples as i64) + seq![44u8] + "max_instances=".spec_bytes() + dec_i64(v.max_instances as i64) + seq![44u8] + "max_samples_per_instance=".spec_bytes() + dec_i64(v.max_samples_per_instance as i64) + seq![125u8]
}

pub open spec fn sp_txt_durability_service(s: Seq<u8>) -> Option<(DurabilityService, Seq<u8>)> {
    match sp_lit(s, "durability_service{service_cleanup_delay=".spec_bytes()) {
        Some(s) => match sp_idec(s) {
            Some((service_cleanup_delay, s)) => match sp_exact(s, 44) {
                Some(s) => match sp_lit(s, "history_kind=".spec_bytes()) {
                    Some(s) => match sp_udec(s) {
                        Some((u, s)) => if u <= u32::MAX as u64 {
                            match HistoryKind::spec_from_code(u as u32) {
                                Some(history_kind) => match sp_exact(s, 44) {
                                    Some(s) => match sp_lit(s, "history_depth=".spec_bytes()) {
                                        Some(s) => match sp_idec(s) {
                                            Some((w, s)) => if i32::MIN <= w <= i32::MAX {
                                                let history_depth = w as i32;
                                                match sp_exact(s, 44) {
                                                    Some(s) => match sp_lit(s, "max_samples=".spec_bytes()) {
                                                        Some(s) => match sp_idec(s) {
                                                            Some((w, s)) => if i32::MIN <= w <= i32::MAX {
                                                                let max_samples = w as i32;
                                                                match sp_exact(s, 44) {
                                                                    Some(s) => match sp_lit(s, "max_instances=".spec_bytes()) {
                                                                        Some(s) => match sp_idec(s) {
                                                                            Some((w, s)) => if i32::MIN <= w <= i32::MAX {
                                                                                let max_instances = w as i32;
                                                                                match sp_exact(s, 44) {
                                                                                    Some(s) => match sp_lit(s, "max_samples_per_instance=".spec_bytes()) {
                                                                                        Some(s) => match sp_idec(s) {
                                                                                            Some((w, s)) => if i32::MIN <= w <= i32::MAX {
                                                                                                let max_samples_per_instance = w as i32;
                                                                                                match sp_exact(s, 125) {
                                                                                                    Some(s) => Some((DurabilityService { service_cleanup_delay, history_kind, history_depth, max_samples, max_instances, max_samples_per_instance }, s))
                                                                                                    ,None => None,
                                                                                                }
                                                                                            } else {
                                                                                                None
                                                                                            },
                                                                                            None => None,
                                                                                        }
                                                                                        ,None => None,
                                                                                    }
                                                                                    ,None => None,
                                                                                }
                                                                            } else {
                                                                                None
                                                                            },
                                                                            None => None,
                                                                        }
                                                                        ,None => None,
                                                                    }
                                                                    ,None => None,
                                                                }
                                                            } else {
                                                                None
                                                            },
                                                            None => None,
                                                        }
                                                        ,None => None,
                                                    }
                                                    ,None => None,
                                                }
                                            } else {
                                                None
                                            },
                                            None => None,
                                        }
                                        ,None => None,
                                    }
                                    ,None => None,
                                }
                                ,None => None,
                            }
                        } else {
                            None
                        },
                        None => None,
                    }
                    ,None => None,
                }
                ,None => None,
            }
            ,None => None,
        }
        ,None => None,
    }
}

pub open spec fn enc_txt_presentation(v: Presentation) -> Seq<u8> {
    "presentation{access_scope=".spec_bytes() + dec_u64(v.access_scope.spec_code() as u64) + seq![44u8] + "coherent_access=".spec_bytes() + enc_tbool(v.coherent_access) + ",ordered_access=".spec_bytes() + enc_tbool(v.ordered_access) + seq![125u8]
}

pub open spec fn sp_txt_presentation(s: Seq<u8>) -> Option<(Presentation, Seq<u8>)> {
    match sp_lit(s, "presentation{access_scope=".spec_bytes()) {
        Some(s) => match sp_udec(s) {
            Some((u, s)) => if u <= u32::MAX as u64 {
                match PresentationAccessScopeKind::spec_from_code(u as u32) {
                    Some(access_scope) => match sp_exact(s, 44) {
                        Some(s) => match sp_lit(s, "coherent_access=".spec_bytes()) {
                            Some(s) => match sp_tbool(s) {
                                Some((coherent_access, s)) => match sp_lit(s, ",ordered_access=".spec_bytes()) {
                                    Some(s) => match sp_tbool(s) {
                                        Some((ordered_access, s)) => match sp_exact(s, 125) {
                                            Some(s) => Some((Presentation { access_scope, coherent_access, ordered_access }, s))
                                            ,None => None,
                                        }
                                        ,None => None,
                                    }
                                    ,None => None,
                                }
                                ,None => None,
                            }
                            ,None => None,
                        }
                        ,None => None,
                    }
                    ,None => None,
                }
            } else {
                None
            },
            None => None,
        }
        ,None => None,
    }
}

pub open spec fn enc_txt_deadline(v: Deadline) -> Seq<u8> {
    "deadline{period=".spec_bytes() + dec_i64(v.period) + seq![125u8]
}

pub open spec fn sp_txt_deadline(s: Seq<u8>) -> Option<(Deadline, Seq<u8>)> {
    match sp_lit(s, "deadline{period=".spec_bytes()) {
        Some(s) => match sp_idec(s) {
            Some((period, s)) => match sp_exact(s, 125) {
                Some(s) => Some((Deadline { period }, s))
                ,None => None,
            }
            ,None => None,
        }
        ,None => None,
    }
}

pub open spec fn enc_txt_latency_budget(v: LatencyBudget) -> Seq<u8> {
    "latency_budget{duration=".spec_bytes() + dec_i64(v.duration) + seq![125u8]
}

pub open spec fn sp_txt_latency_budget(s: Seq<u8>) -> Option<(LatencyBudget, Seq<u8>)> {
    match sp_lit(s, "latency_budget{duration=".spec_bytes()) {
        Some(s) => match sp_idec(s) {
            Some((duration, s)) => match sp_exact(s, 125) {
                Some(s) => Some((LatencyBudget { duration }, s))
                ,None => None,
            }
            ,None => None,
        }
        ,None => None,
    }
}

pub open spec fn enc_txt_ownership(v: Ownership) -> Seq<u8> {
    "ownership{kind=".spec_bytes() + dec_u64(v.kind.spec_code() as u64) + seq![125u8]
}

pub open spec fn sp_txt_ownership(s: Seq<u8>) -> Option<(Ownership, Seq<u8>)> {
    match sp_lit(s, "ownership{kind=".spec_bytes()) {
        Some(s) => match sp_udec(s) {
            Some((u, s)) => if u <= u32::MAX as u64 {
                match OwnershipKind::spec_from_code(u as u32) {
                    Some(kind) => match sp_exact(s, 125) {
                        Some(s) => Some((Ownership { kind }, s))
                        ,None => None,
                    }
                    ,None => None,
                }
            } else {
                None
            },
            None => None,
        }
        ,None => None,
    }
}

pub open spec fn enc_txt_ownership_strength(v: OwnershipStrength) -> Seq<u8> {
    "ownership_strength{value=".spec_bytes() + dec_i64(v.value as i64) + seq![125u8]
}

pub open spec fn sp_txt_ownership_strength(s: Seq<u8>) -> Option<(OwnershipStrength, Seq<u8>)> {
    match sp_lit(s, "ownership_strength{value=".spec_bytes()) {
        Some(s) => match sp_idec(s) {
            Some((w, s)) => if i32::MIN <= w <= i32::MAX {
                let value = w as i32;
                match sp_exact(s, 125) {
                    Some(s) => Some((OwnershipStrength { value }, s))
                    ,None => None,
                }
            } else {
                None
            },
            None => None,
        }
        ,None => None,
    }
}

pub open spec fn enc_txt_liveliness(v: Liveliness) -> Seq<u8> {
    "liveliness{kind=".spec_bytes() + dec_u64(v.kind.spec_code() as u64) + seq![44u8] + "lease_duration=".spec_bytes() + dec_i64(v.lease_duration) + seq![125u8]
}

pub open spec fn sp_txt_liveliness(s: Seq<u8>) -> Option<(Liveliness, Seq<u8>)> {
    match sp_lit(s, "liveliness{kind=".spec_bytes()) {
        Some(s) => match sp_udec(s) {
            Some((u, s)) => if u <= u32::MAX as u64 {
                match LivelinessKind::spec_from_code(u as u32) {
                    Some(kind) => match sp_exact(s, 44) {
                        Some(s) => match sp_lit(s, "lease_duration=".spec_bytes()) {
                            Some(s) => match sp_idec(s) {
                                Some((lease_duration, s)) => match sp_exact(s, 125) {
                                    Some(s) => Some((Liveliness { kind, lease_duration }, s))
                                    ,None => None,
                                }
                                ,None => None,
                            }
                            ,None => None,
                        }
                        ,None => None,
                    }
                    ,None => None,
                }
            } else {
                None
            },
            None => None,
        }
        ,None => None,
    }
}

pub open spec fn enc_txt_time_based_filter(v: TimeBasedFilter) -> Seq<u8> {
    "time_based_filter{minimum_separation=".spec_bytes() + dec_i64(v.minimum_separation) + seq![125u8]
}

pub open spec fn sp_txt_time_based_filter(s: Seq<u8>) -> Option<(TimeBasedFilter, Seq<u8>)> {
    match sp_lit(s, "time_based_filter{minimum_separation=".spec_bytes()) {
        Some(s) => match sp_idec(s) {
            Some((minimum_separation, s)) => match sp_exact(s, 125) {
                Some(s) => Some((TimeBasedFilter { minimum_separation }, s))
                ,None => None,
            }
            ,None => None,
        }
        ,None => None,
    }
}

pub open spec fn enc_txt_partition(l: Seq<Seq<char>>) -> Seq<u8> {
    "partition{values=".spec_bytes() + enc_tstrlist(l) + seq![125u8]
}

pub open spec fn sp_txt_partition(s: Seq<u8>) -> Option<(Seq<Seq<char>>, Seq<u8>)> {
    match sp_lit(s, "partition{values=".spec_bytes()) {
        Some(s) => match sp_tstrlist(s) {
            Some((values_v, s)) => match sp_exact(s, 125) {
                Some(s) => Some((values_v, s))
                ,None => None,
            }
            ,None => None,
        }
        ,None => None,
    }
}

pub open spec fn enc_txt_reliability(v: Reliability) -> Seq<u8> {
    "reliability{kind=".spec_bytes() + dec_u64(v.kind.spec_code() as u64) + seq![44u8] + "max_blocking_time=".spec_bytes() + dec_i64(v.max_blocking_time) + seq![125u8]
}

pub open spec fn sp_txt_reliability(s: Seq<u8>) -> Option<(Reliability, Seq<u8>)> {
    match sp_lit(s, "reliability{kind=".spec_bytes()) {
        Some(s) => match sp_udec(s) {
            Some((u, s)) => if u <= u32::MAX as u64 {
                match ReliabilityKind::spec_from_code(u as u32) {
                    Some(kind) => match sp_exact(s, 44) {
                        Some(s) => match sp_lit(s, "max_blocking_time=".spec_bytes()) {
                            Some(s) => match sp_idec(s) {
                                Some((max_blocking_time, s)) => match sp_exact(s, 125) {
                                    Some(s) => Some((Reliability { kind, max_blocking_time }, s))
                                    ,None => None,
                                }
                                ,None => None,
                            }
                            ,None => None,
                        }
                        ,None => None,
                    }
                    ,None => None,
                }
            } else {
                None
            },
            None => None,
        }
        ,None => None,
    }
}

pub open spec fn enc_txt_transport_priority(v: TransportPriority) -> Seq<u8> {
    "transport_priority{value=".spec_bytes() + dec_i64(v.value as i64) + seq![125u8]
}

pub open spec fn sp_txt_transport_priority(s: Seq<u8>) -> Option<(TransportPriority, Seq<u8>)> {
    match sp_lit(s, "transport_priority{value=".spec_bytes()) {
        Some(s) => match sp_idec(s) {
            Some((w, s)) => if i32::MIN <= w <= i32::MAX {
                let value = w as i32;
                match sp_exact(s, 125) {
                    Some(s) => Some((TransportPriority { value }, s))
                    ,None => None,
                }
            } else {
                None
            },
            None => None,
        }
        ,None => None,
    }
}

pub open spec fn enc_txt_lifespan(v: Lifespan) -> Seq<u8> {
    "lifespan{duration=".spec_bytes() + dec_i64(v.duration) + seq![125u8]
}

pub open spec fn sp_txt_lifespan(s: Seq<u8>) -> Option<(Lifespan, Seq<u8>)> {
    match sp_lit(s, "lifespan{duration=".spec_bytes()) {
        Some(s) => match sp_idec(s) {
            Some((duration, s)) => match sp_exact(s, 125) {
                Some(s) => Some((Lifespan { duration }, s))
                ,None => None,
            }
            ,None => None,
        }
        ,None => None,
    }
}

pub open spec fn enc_txt_destination_order(v: DestinationOrder) -> Seq<u8> {
    "destination_order{kind=".spec_bytes() + dec_u64(v.kind.spec_code() as u64) + seq![125u8]
}

pub open spec fn sp_txt_destination_order(s: Seq<u8>) -> Option<(DestinationOrder, Seq<u8>)> {
    match sp_lit(s, "destination_order{kind=".spec_bytes()) {
        Some(s) => match sp_udec(s) {
            Some((u, s)) => if u <= u32::MAX as u64 {
                match DestinationOrderKind::spec_from_code(u as u32) {
                    Some(kind) => match sp_exact(s, 125) {
                        Some(s) => Some((DestinationOrder { kind }, s))
                        ,None => None,
                    }
                    ,None => None,
                }
            } else {
                None
            },
            None => None,
        }
        ,None => None,
    }
}

pub open spec fn enc_txt_history(v: History) -> Seq<u8> {
    "history{kind=".spec_bytes() + dec_u64(v.kind.spec_code() as u64) + seq![44u8] + "depth=".spec_bytes() + dec_i64(v.depth as i64) + seq![125u8]
}

pub open spec fn sp_txt_history(s: Seq<u8>) -> Option<(History, Seq<u8>)> {
    match sp_lit(s, "history{kind=".spec_bytes()) {
        Some(s) => match sp_udec(s) {
            Some((u, s)) => if u <= u32::MAX as u64 {
                match HistoryKind::spec_from_code(u as u32) {
                    Some(kind) => match sp_exact(s, 44) {
                        Some(s) => match sp_lit(s, "depth=".spec_bytes()) {
                            Some(s) => match sp_idec(s) {
                                Some((w, s)) => if i32::MIN <= w <= i32::MAX {
                                    let depth = w as i32;
                                    match sp_exact(s, 125) {
                                        Some(s) => Some((History { kind, depth }, s))
                                        ,None => None,
                                    }
                                } else {
                                    None
                                },
                                None => None,
                            }
                            ,None => None,
                        }
                        ,None => None,
                    }
                    ,None => None,
                }
            } else {
                None
            },
            None => None,
        }
        ,None => None,
    }
}

pub open spec fn enc_txt_resource_limits(v: ResourceLimits) -> Seq<u8> {
    "resource_limits{max_samples=".spec_bytes() + dec_i64(v.max_samples as i64) + seq![44u8] + "max_instances=".spec_bytes() + dec_i64(v.max_instances as i64) + seq![44u8] + "max_samples_per_instance=".spec_bytes() + dec_i64(v.max_samples_per_instance as i64) + seq![125u8]
}

pub open spec fn sp_txt_resource_limits(s: Seq<u8>) -> Option<(ResourceLimits, Seq<u8>)> {
    match sp_lit(s, "resource_limits{max_samples=".spec_bytes()) {
        Some(s) => match sp_idec(s) {
            Some((w, s)) => if i32::MIN <= w <= i32::MAX {
                let max_samples = w as i32;
                match sp_exact(s, 44) {
                    Some(s) => match sp_lit(s, "max_instances=".spec_bytes()) {
                        Some(s) => match sp_idec(s) {
                            Some((w, s)) => if i32::MIN <= w <= i32::MAX {
                                let max_instances = w as i32;
                                match sp_exact(s, 44) {
                                    Some(s) => match sp_lit(s, "max_samples_per_instance=".spec_bytes()) {
                                        Some(s) => match sp_idec(s) {
                                            Some((w, s)) => if i32::MIN <= w <= i32::MAX {
                                                let max_samples_per_instance = w as i32;
                                                match sp_exact(s, 125) {
                                                    Some(s) => Some((ResourceLimits { max_samples, max_instances, max_samples_per_instance }, s))
                                                    ,None => None,
                                                }
                                            } else {
                                                None
                                            },
                                            None => None,
                                        }
                                        ,None => None,
                                    }
                                    ,None => None,
                                }
                            } else {
                                None
                            },
                            None => None,
                        }
                        ,None => None,
                    }
                    ,None => None,
                }
            } else {
                None
            },
            None => None,
        }
        ,None => None,
    }
}

pub open spec fn enc_txt_writer_data_lifecycle(v: WriterDataLifecycle) -> Seq<u8> {
    "writer_data_lifecycle{autodispose_unregistered_instances=".spec_bytes() + enc_tbool(v.autodispose_unregistered_instances) + seq![125u8]
}

pub open spec fn sp_txt_writer_data_lifecycle(s: Seq<u8>) -> Option<(WriterDataLifecycle, Seq<u8>)> {
    match sp_lit(s, "writer_data_lifecycle{autodispose_unregistered_instances=".spec_bytes()) {
        Some(s) => match sp_tbool(s) {
            Some((autodispose_unregistered_instances, s)) => match sp_exact(s, 125) {
                Some(s) => Some((WriterDataLifecycle { autodispose_unregistered_instances }, s))
                ,None => None,
            }
            ,None => None,
        }
        ,None => None,
    }
}

pub open spec fn enc_txt_reader_data_lifecycle(v: ReaderDataLifecycle) -> Seq<u8> {
    "reader_data_lifecycle{autopurge_nowriter_samples_delay=".spec_bytes() + dec_i64(v.autopurge_nowriter_samples_delay) + seq![44u8] + "autopurge_disposed_samples_delay=".spec_bytes() + dec_i64(v.autopurge_disposed_samples_delay) + seq![125u8]
}

pub open spec fn sp_txt_reader_data_lifecycle(s: Seq<u8>) -> Option<(ReaderDataLifecycle, Seq<u8>)> {
    match sp_lit(s, "reader_data_lifecycle{autopurge_nowriter_samples_delay=".spec_bytes()) {
        Some(s) => match sp_idec(s) {
            Some((autopurge_nowriter_samples_delay, s)) => match sp_exact(s, 44) {
                Some(s) => match sp_lit(s, "autopurge_disposed_samples_delay=".spec_bytes()) {
                    Some(s) => match sp_idec(s) {
                        Some((autopurge_disposed_samples_delay, s)) => match sp_exact(s, 125) {
                            Some(s) => Some((ReaderDataLifecycle { autopurge_nowriter_samples_delay, autopurge_disposed_samples_delay }, s))
                            ,None => None,
                        }
                        ,None => None,
                    }
                    ,None => None,
                }
                ,None => None,
            }
            ,None => None,
        }
        ,None => None,
    }
}

pub open spec fn enc_txt_writer_batching(v: WriterBatching) -> Seq<u8> {
    "writer_batching{batch_updates=".spec_bytes() + enc_tbool(v.batch_updates) + seq![125u8]
}

pub open spec fn sp_txt_writer_batching(s: Seq<u8>) -> Option<(WriterBatching, Seq<u8>)> {
    match sp_lit(s, "writer_batching{batch_updates=".spec_bytes()) {
        Some(s) => match sp_tbool(s) {
            Some((batch_updates, s)) => match sp_exact(s, 125) {
                Some(s) => Some((WriterBatching { batch_updates }, s))
                ,None => None,
            }
            ,None => None,
        }
        ,None => None,
    }
}

pub open spec fn enc_txt_type_consistency(v: TypeConsistency) -> Seq<u8> {
    "type_consistency{kind=".spec_bytes() + dec_u64(v.kind.spec_code() as u64) + seq![44u8] + "ignore_sequence_bounds=".spec_bytes() + enc_tbool(v.ignore_sequence_bounds) + ",ignore_string_bounds=".spec_bytes() + enc_tbool(v.ignore_string_bounds) + ",ignore_member_names=".spec_bytes() + enc_tbool(v.ignore_member_names) + ",prevent_type_widening=".spec_bytes() + enc_tbool(v.prevent_type_widening) + ",force_type_validation=".spec_bytes() + enc_tbool(v.force_type_validation) + seq![125u8]
}

pub open spec fn sp_txt_type_consistency(s: Seq<u8>) -> Option<(TypeConsistency, Seq<u8>)> {
    match sp_lit(s, "type_consistency{kind=".spec_bytes()) {
        Some(s) => match sp_udec(s) {
            Some((u, s)) => if u <= u32::MAX as u64 {
                match TypeConsistencyKind::spec_from_code(u as u32) {
                    Some(kind) => match sp_exact(s, 44) {
                        Some(s) => match sp_lit(s, "ignore_sequence_bounds=".spec_bytes()) {
                            Some(s) => match sp_tbool(s) {
                                Some((ignore_sequence_bounds, s)) => match sp_lit(s, ",ignore_string_bounds=".spec_bytes()) {
                                    Some(s) => match sp_tbool(s) {
                                        Some((ignore_string_bounds, s)) => match sp_lit(s, ",ignore_member_names=".spec_bytes()) {
                                            Some(s) => match sp_tbool(s) {
                                                Some((ignore_member_names, s)) => match sp_lit(s, ",prevent_type_widening=".spec_bytes()) {
                                                    Some(s) => match sp_tbool(s) {
                                                        Some((prevent_type_widening, s)) => match sp_lit(s, ",force_type_validation=".spec_bytes()) {
                                                            Some(s) => match sp_tbool(s) {
                                                                Some((force_type_validation, s)) => match sp_exact(s, 125) {
                                                                    Some(s) => Some((TypeConsistency { kind, ignore_sequence_bounds, ignore_string_bounds, ignore_member_names, prevent_type_widening, force_type_validation }, s))
                                                                    ,None => None,
                                                                }
                                                                ,None => None,
                                                            }
                                                            ,None => None,
                                                        }
                                                        ,None => None,
                                                    }
                                                    ,None => None,
                                                }
                                                ,None => None,
                                            }
                                            ,None => None,
                                        }
                                        ,None => None,
                                    }
                                    ,None => None,
                                }
                                ,None => None,
                            }
                            ,None => None,
                        }
                        ,None => None,
                    }
                    ,None => None,
                }
            } else {
                None
            },
            None => None,
        }
        ,None => None,
    }
}

pub open spec fn enc_txt_entity_name(cs: Seq<char>) -> Seq<u8> {
    "entity_name{name=".spec_bytes() + enc_tstr(cs) + seq![125u8]
}

pub open spec fn sp_txt_entity_name(s: Seq<u8>) -> Option<(Seq<char>, Seq<u8>)> {
    match sp_lit(s, "entity_name{name=".spec_bytes()) {
        Some(s) => match sp_tstr(s) {
            Some((name_v, s)) => match sp_exact(s, 125) {
                Some(s) => Some((name_v, s))
                ,None => None,
            }
            ,None => None,
        }
        ,None => None,
    }
}

pub open spec fn enc_txt_properties(l: Seq<PropView>) -> Seq<u8> {
    "properties{entries=".spec_bytes() + enc_tpairlist(l) + seq![125u8]
}

pub open spec fn sp_txt_properties(s: Seq<u8>) -> Option<(Seq<PropView>, Seq<u8>)> {
    match sp_lit(s, "properties{entries=".spec_bytes()) {
        Some(s) => match sp_tpairlist(s) {
            Some((entries_v, s)) => match sp_exact(s, 125) {
                Some(s) => Some((entries_v, s))
                ,None => None,
            }
            ,None => None,
        }
        ,None => None,
    }
}

pub open spec fn enc_txt_ignore_local(v: IgnoreLocal) -> Seq<u8> {
    "ignore_local{kind=".spec_bytes() + dec_u64(v.kind.spec_code() as u64) + seq![125u8]
}

pub open spec fn sp_txt_ignore_local(s: Seq<u8>) -> Option<(IgnoreLocal, Seq<u8>)> {
    match sp_lit(s, "ignore_local{kind=".spec_bytes()) {
        Some(s) => match sp_udec(s) {
            Some((u, s)) => if u <= u32::MAX as u64 {
                match IgnoreLocalKind::spec_from_code(u as u32) {
                    Some(kind) => match sp_exact(s, 125) {
                        Some(s) => Some((IgnoreLocal { kind }, s))
                        ,None => None,
                    }
                    ,None => None,
                }
            } else {
                None
            },
            None => None,
        }
        ,None => None,
    }
}

pub open spec fn enc_txt_data_representation(u: Seq<u16>) -> Seq<u8> {
    "data_representation{values=".spec_bytes() + enc_tu16list(u) + seq![125u8]
}

pub open spec fn sp_txt_data_representation(s: Seq<u8>) -> Option<(Seq<u16>, Seq<u8>)> {
    match sp_lit(s, "data_representation{values=".spec_bytes()) {
        Some(s) => match sp_tu16list(s) {
            Some((values_v, s)) => match sp_exact(s, 125) {
                Some(s) => Some((values_v, s))
                ,None => None,
            }
            ,None => None,
        }
        ,None => None,
    }
}

#[verifier::rlimit(100)]
#[verifier::spinoff_prover]
proof fn lemma_txt_user_data_rt(b: Seq<u8>, rest: Seq<u8>)
    requires
        b.len() <= u64::MAX,
    ensures
        sp_txt_user_data(enc_txt_user_data(b) + rest) == Some((b, rest)),
{
    let t0 = "user_data{value=".spec_bytes();
    let t1 = enc_traw(b);
    let t2 = seq![125u8];
    let u3 = rest;
    let u2 = t2 + u3;
    let u1 = t1 + u2;
    assert((t0 + t1 + t2) + u3 =~= (t0 + t1) + u2);
    assert((t0 + t1) + u2 =~= (t0) + u1);
    assert(enc_txt_user_data(b) + rest =~= t0 + u1);
    lemma_lit_round_trip("user_data{value=".spec_bytes(), u1);
    lemma_traw_round_trip(b, u2);
    lemma_exact_round_trip(125u8, u3);
}

#[verifier::rlimit(100)]
#[verifier::spinoff_prover]
proof fn lemma_txt_topic_data_rt(b: Seq<u8>, rest: Seq<u8>)
    requires
        b.len() <= u64::MAX,
    ensures
        sp_txt_topic_data(enc_txt_topic_data(b) + rest) == Some((b, rest)),
{
    let t0 = "topic_data{value=".spec_bytes();
    let t1 = enc_traw(b);
    let t2 = seq![125u8];
    let u3 = rest;
    let u2 = t2 + u3;
    let u1 = t1 + u2;
    assert((t0 + t1 + t2) + u3 =~= (t0 + t1) + u2);
    assert((t0 + t1) + u2 =~= (t0) + u1);
    assert(enc_txt_topic_data(b) + rest =~= t0 + u1);
    lemma_lit_round_trip("topic_data{value=".spec_bytes(), u1);
    lemma_traw_round_trip(b, u2);
    lemma_exact_round_trip(125u8, u3);
}

#[verifier::rlimit(100)]
#[verifier::spinoff_prover]
proof fn lemma_txt_group_data_rt(b: Seq<u8>, rest: Seq<u8>)
    requires
        b.len() <= u64::MAX,
    ensures
        sp_txt_group_data(enc_txt_group_data(b) + rest) == Some((b, rest)),
{
    let t0 = "group_data{value=".spec_bytes();
    let t1 = enc_traw(b);
    let t2 = seq![125u8];
    let u3 = rest;
    let u2 = t2 + u3;
    let u1 = t1 + u2;
    assert((t0 + t1 + t2) + u3 =~= (t0 + t1) + u2);
    assert((t0 + t1) + u2 =~= (t0) + u1);
    assert(enc_txt_group_data(b) + rest =~= t0 + u1);
    lemma_lit_round_trip("group_data{value=".spec_bytes(), u1);
    lemma_traw_round_trip(b, u2);
    lemma_exact_round_trip(125u8, u3);
}

#[verifier::rlimit(100)]
#[verifier::spinoff_prover]
proof fn lemma_txt_durability_rt(v: Durability, rest: Seq<u8>)
    ensures
        sp_txt_durability(enc_txt_durability(v) + rest) == Some((v, rest)),
{
    let t0 = "durability{kind=".spec_bytes();
    let t1 = dec_u64(v.kind.spec_code() as u64);
    let t2 = seq![125u8];
    let u3 = rest;
    let u2 = t2 + u3;
    let u1 = t1 + u2;
    assert((t0 + t1 + t2) + u3 =~= (t0 + t1) + u2);
    assert((t0 + t1) + u2 =~= (t0) + u1);
    assert(enc_txt_durability(v) + rest =~= t0 + u1);
    lemma_lit_round_trip("durability{kind=".spec_bytes(), u1);
    assert(!is_digit(u2[0]));
    lemma_udec_round_trip(v.kind.spec_code() as u64, u2);
    assert(DurabilityKind::spec_from_code(v.kind.spec_code()) == Some(v.kind));
    lemma_exact_round_trip(125u8, u3);
    assert((Durability { kind: v.kind }) == v);
}

#[verifier::rlimit(100)]
#[verifier::spinoff_prover]
proof fn lemma_txt_durability_service_rt(v: DurabilityService, rest: Seq<u8>)
    ensures
        sp_txt_durability_service(enc_txt_durability_service(v) + rest) == Some((v, rest)),
{
    let t0 = "durability_service{service_cleanup_delay=".spec_bytes();
    let t1 = dec_i64(v.service_cleanup_delay);
    let t2 = seq![44u8];
    let t3 = "history_kind=".spec_bytes();
    let t4 = dec_u64(v.history_kind.spec_code() as u64);
    let t5 = seq![44u8];
    let t6 = "history_depth=".spec_bytes();
    let t7 = dec_i64(v.history_depth as i64);
    let t8 = seq![44u8];
    let t9 = "max_samples=".spec_bytes();
    let t10 = dec_i64(v.max_samples as i64);
    let t11 = seq![44u8];
    let t12 = "max_instances=".spec_bytes();
    let t13 = dec_i64(v.max_instances as i64);
    let t14 = seq![44u8];
    let t15 = "max_samples_per_instance=".spec_bytes();
    let t16 = dec_i64(v.max_samples_per_instance as i64);
    let t17 = seq![125u8];
    let u18 = rest;
    let u17 = t17 + u18;
    let u16 = t16 + u17;
    let u15 = t15 + u16;
    let u14 = t14 + u15;
    let u13 = t13 + u14;
    let u12 = t12 + u13;
    let u11 = t11 + u12;
    let u10 = t10 + u11;
    let u9 = t9 + u10;
    let u8 = t8 + u9;
    let u7 = t7 + u8;
    let u6 = t6 + u7;
    let u5 = t5 + u6;
    let u4 = t4 + u5;
    let u3 = t3 + u4;
    let u2 = t2 + u3;
    let u1 = t1 + u2;
    assert((t0 + t1 + t2 + t3 + t4 + t5 + t6 + t7 + t8 + t9 + t10 + t11 + t12 + t13 + t14 + t15 + t16 + t17) + u18 =~= (t0 + t1 + t2 + t3 + t4 + t5 + t6 + t7 + t8 + t9 + t10 + t11 + t12 + t13 + t14 + t15 + t16) + u17);
    assert((t0 + t1 + t2 + t3 + t4 + t5 + t6 + t7 + t8 + t9 + t10 + t11 + t12 + t13 + t14 + t15 + t16) + u17 =~= (t0 + t1 + t2 + t3 + t4 + t5 + t6 + t7 + t8 + t9 + t10 + t11 + t12 + t13 + t14 + t15) + u16);
    assert((t0 + t1 + t2 + t3 + t4 + t5 + t6 + t7 + t8 + t9 + t10 + t11 + t12 + t13 + t14 + t15) + u16 =~= (t0 + t1 + t2 + t3 + t4 + t5 + t6 + t7 + t8 + t9 + t10 + t11 + t12 + t13 + t14) + u15);
    assert((t0 + t1 + t2 + t3 + t4 + t5 + t6 + t7 + t8 + t9 + t10 + t11 + t12 + t13 + t14) + u15 =~= (t0 + t1 + t2 + t3 + t4 + t5 + t6 + t7 + t8 + t9 + t10 + t11 + t12 + t13) + u14);
    assert((t0 + t1 + t2 + t3 + t4 + t5 + t6 + t7 + t8 + t9 + t10 + t11 + t12 + t13) + u14 =~= (t0 + t1 + t2 + t3 + t4 + t5 + t6 + t7 + t8 + t9 + t10 + t11 + t12) + u13);
    assert((t0 + t1 + t2 + t3 + t4 + t5 + t6 + t7 + t8 + t9 + t10 + t11 + t12) + u13 =~= (t0 + t1 + t2 + t3 + t4 + t5 + t6 + t7 + t8 + t9 + t10 + t11) + u12);
    assert((t0 + t1 + t2 + t3 + t4 + t5 + t6 + t7 + t8 + t9 + t10 + t11) + u12 =~= (t0 + t1 + t2 + t3 + t4 + t5 + t6 + t7 + t8 + t9 + t10) + u11);
    assert((t0 + t1 + t2 + t3 + t4 + t5 + t6 + t7 + t8 + t9 + t10) + u11 =~= (t0 + t1 + t2 + t3 + t4 + t5 + t6 + t7 + t8 + t9) + u10);
    assert((t0 + t1 + t2 + t3 + t4 + t5 + t6 + t7 + t8 + t9) + u10 =~= (t0 + t1 + t2 + t3 + t4 + t5 + t6 + t7 + t8) + u9);
    assert((t0 + t1 + t2 + t3 + t4 + t5 + t6 + t7 + t8) + u9 =~= (t0 + t1 + t2 + t3 + t4 + t5 + t6 + t7) + u8);
    assert((t0 + t1 + t2 + t3 + t4 + t5 + t6 + t7) + u8 =~= (t0 + t1 + t2 + t3 + t4 + t5 + t6) + u7);
    assert((t0 + t1 + t2 + t3 + t4 + t5 + t6) + u7 =~= (t0 + t1 + t2 + t3 + t4 + t5) + u6);
    assert((t0 + t1 + t2 + t3 + t4 + t5) + u6 =~= (t0 + t1 + t2 + t3 + t4) + u5);
    assert((t0 + t1 + t2 + t3 + t4) + u5 =~= (t0 + t1 + t2 + t3) + u4);
    assert((t0 + t1 + t2 + t3) + u4 =~= (t0 + t1 + t2) + u3);
    assert((t0 + t1 + t2) + u3 =~= (t0 + t1) + u2);
    assert((t0 + t1) + u2 =~= (t0) + u1);
    assert(enc_txt_durability_service(v) + rest =~= t0 + u1);
    lemma_lit_round_trip("durability_service{service_cleanup_delay=".spec_bytes(), u1);
    assert(!is_digit(u2[0]));
    lemma_idec_round_trip(v.service_cleanup_delay, u2);
    lemma_exact_round_trip(44u8, u3);
    lemma_lit_round_trip("history_kind=".spec_bytes(), u4);
    assert(!is_digit(u5[0]));
    lemma_udec_round_trip(v.history_kind.spec_code() as u64, u5);
    assert(HistoryKind::spec_from_code(v.history_kind.spec_code()) == Some(v.history_kind));
    lemma_exact_round_trip(44u8, u6);
    lemma_lit_round_trip("history_depth=".spec_bytes(), u7);
    assert(!is_digit(u8[0]));
    lemma_idec_round_trip(v.history_depth as i64, u8);
    lemma_exact_round_trip(44u8, u9);
    lemma_lit_round_trip("max_samples=".spec_bytes(), u10);
    assert(!is_digit(u11[0]));
    lemma_idec_round_trip(v.max_samples as i64, u11);
    lemma_exact_round_trip(44u8, u12);
    lemma_lit_round_trip("max_instances=".spec_bytes(), u13);
    assert(!is_digit(u14[0]));
    lemma_idec_round_trip(v.max_instances as i64, u14);
    lemma_exact_round_trip(44u8, u15);
    lemma_lit_round_trip("max_samples_per_instance=".spec_bytes(), u16);
    assert(!is_digit(u17[0]));
    lemma_idec_round_trip(v.max_samples_per_instance as i64, u17);
    lemma_exact_round_trip(125u8, u18);
    assert((DurabilityService { service_cleanup_delay: v.service_cleanup_delay, history_kind: v.history_kind, history_depth: v.history_depth, max_samples: v.max_samples, max_instances: v.max_instances, max_samples_per_instance: v.max_samples_per_instance }) == v);
}

#[verifier::rlimit(100)]
#[verifier::spinoff_prover]
proof fn lemma_txt_presentation_rt(v: Presentation, rest: Seq<u8>)
    ensures
        sp_txt_presentation(enc_txt_presentation(v) + rest) == Some((v, rest)),
{
    let t0 = "presentation{access_scope=".spec_bytes();
    let t1 = dec_u64(v.access_scope.spec_code() as u64);
    let t2 = seq![44u8];
    let t3 = "coherent_access=".spec_bytes();
    let t4 = enc_tbool(v.coherent_access);
    let t5 = ",ordered_access=".spec_bytes();
    let t6 = enc_tbool(v.ordered_access);
    let t7 = seq![125u8];
    let u8 = rest;
    let u7 = t7 + u8;
    let u6 = t6 + u7;
    let u5 = t5 + u6;
    let u4 = t4 + u5;
    let u3 = t3 + u4;
    let u2 = t2 + u3;
    let u1 = t1 + u2;
    assert((t0 + t1 + t2 + t3 + t4 + t5 + t6 + t7) + u8 =~= (t0 + t1 + t2 + t3 + t4 + t5 + t6) + u7);
    assert((t0 + t1 + t2 + t3 + t4 + t5 + t6) + u7 =~= (t0 + t1 + t2 + t3 + t4 + t5) + u6);
    assert((t0 + t1 + t2 + t3 + t4 + t5) + u6 =~= (t0 + t1 + t2 + t3 + t4) + u5);
    assert((t0 + t1 + t2 + t3 + t4) + u5 =~= (t0 + t1 + t2 + t3) + u4);
    assert((t0 + t1 + t2 + t3) + u4 =~= (t0 + t1 + t2) + u3);
    assert((t0 + t1 + t2) + u3 =~= (t0 + t1) + u2);
    assert((t0 + t1) + u2 =~= (t0) + u1);
    assert(enc_txt_presentation(v) + rest =~= t0 + u1);
    lemma_lit_round_trip("presentation{access_scope=".spec_bytes(), u1);
    assert(!is_digit(u2[0]));
    lemma_udec_round_trip(v.access_scope.spec_code() as u64, u2);
    assert(PresentationAccessScopeKind::spec_from_code(v.access_scope.spec_code()) == Some(v.access_scope));
    lemma_exact_round_trip(44u8, u3);
    lemma_lit_round_trip("coherent_access=".spec_bytes(), u4);
    lemma_tbool_round_trip(v.coherent_access, u5);
    lemma_lit_round_trip(",ordered_access=".spec_bytes(), u6);
    lemma_tbool_round_trip(v.ordered_access, u7);
    lemma_exact_round_trip(125u8, u8);
    assert((Presentation { access_scope: v.access_scope, coherent_access: v.coherent_access, ordered_access: v.ordered_access }) == v);
}

#[verifier::rlimit(100)]
#[verifier::spinoff_prover]
proof fn lemma_txt_deadline_rt(v: Deadline, rest: Seq<u8>)
    ensures
        sp_txt_deadline(enc_txt_deadline(v) + rest) == Some((v, rest)),
{
    let t0 = "deadline{period=".spec_bytes();
    let t1 = dec_i64(v.period);
    let t2 = seq![125u8];
    let u3 = rest;
    let u2 = t2 + u3;
    let u1 = t1 + u2;
    assert((t0 + t1 + t2) + u3 =~= (t0 + t1) + u2);
    assert((t0 + t1) + u2 =~= (t0) + u1);
    assert(enc_txt_deadline(v) + rest =~= t0 + u1);
    lemma_lit_round_trip("deadline{period=".spec_bytes(), u1);
    assert(!is_digit(u2[0]));
    lemma_idec_round_trip(v.period, u2);
    lemma_exact_round_trip(125u8, u3);
    assert((Deadline { period: v.period }) == v);
}

#[verifier::rlimit(100)]
#[verifier::spinoff_prover]
proof fn lemma_txt_latency_budget_rt(v: LatencyBudget, rest: Seq<u8>)
    ensures
        sp_txt_latency_budget(enc_txt_latency_budget(v) + rest) == Some((v, rest)),
{
    let t0 = "latency_budget{duration=".spec_bytes();
    let t1 = dec_i64(v.duration);
    let t2 = seq![125u8];
    let u3 = rest;
    let u2 = t2 + u3;
    let u1 = t1 + u2;
    assert((t0 + t1 + t2) + u3 =~= (t0 + t1) + u2);
    assert((t0 + t1) + u2 =~= (t0) + u1);
    assert(enc_txt_latency_budget(v) + rest =~= t0 + u1);
    lemma_lit_round_trip("latency_budget{duration=".spec_bytes(), u1);
    assert(!is_digit(u2[0]));
    lemma_idec_round_trip(v.duration, u2);
    lemma_exact_round_trip(125u8, u3);
    assert((LatencyBudget { duration: v.duration }) == v);
}

#[verifier::rlimit(100)]
#[verifier::spinoff_prover]
proof fn lemma_txt_ownership_rt(v: Ownership, rest: Seq<u8>)
    ensures
        sp_txt_ownership(enc_txt_ownership(v) + rest) == Some((v, rest)),
{
    let t0 = "ownership{kind=".spec_bytes();
    let t1 = dec_u64(v.kind.spec_code() as u64);
    let t2 = seq![125u8];
    let u3 = rest;
    let u2 = t2 + u3;
    let u1 = t1 + u2;
    assert((t0 + t1 + t2) + u3 =~= (t0 + t1) + u2);
    assert((t0 + t1) + u2 =~= (t0) + u1);
    assert(enc_txt_ownership(v) + rest =~= t0 + u1);
    lemma_lit_round_trip("ownership{kind=".spec_bytes(), u1);
    assert(!is_digit(u2[0]));
    lemma_udec_round_trip(v.kind.spec_code() as u64, u2);
    assert(OwnershipKind::spec_from_code(v.kind.spec_code()) == Some(v.kind));
    lemma_exact_round_trip(125u8, u3);
    assert((Ownership { kind: v.kind }) == v);
}

#[verifier::rlimit(100)]
#[verifier::spinoff_prover]
proof fn lemma_txt_ownership_strength_rt(v: OwnershipStrength, rest: Seq<u8>)
    ensures
        sp_txt_ownership_strength(enc_txt_ownership_strength(v) + rest) == Some((v, rest)),
{
    let t0 = "ownership_strength{value=".spec_bytes();
    let t1 = dec_i64(v.value as i64);
    let t2 = seq![125u8];
    let u3 = rest;
    let u2 = t2 + u3;
    let u1 = t1 + u2;
    assert((t0 + t1 + t2) + u3 =~= (t0 + t1) + u2);
    assert((t0 + t1) + u2 =~= (t0) + u1);
    assert(enc_txt_ownership_strength(v) + rest =~= t0 + u1);
    lemma_lit_round_trip("ownership_strength{value=".spec_bytes(), u1);
    assert(!is_digit(u2[0]));
    lemma_idec_round_trip(v.value as i64, u2);
    lemma_exact_round_trip(125u8, u3);
    assert((OwnershipStrength { value: v.value }) == v);
}

#[verifier::rlimit(100)]
#[verifier::spinoff_prover]
proof fn lemma_txt_liveliness_rt(v: Liveliness, rest: Seq<u8>)
    ensures
        sp_txt_liveliness(enc_txt_liveliness(v) + rest) == Some((v, rest)),
{
    let t0 = "liveliness{kind=".spec_bytes();
    let t1 = dec_u64(v.kind.spec_code() as u64);
    let t2 = seq![44u8];
    let t3 = "lease_duration=".spec_bytes();
    let t4 = dec_i64(v.lease_duration);
    let t5 = seq![125u8];
    let u6 = rest;
    let u5 = t5 + u6;
    let u4 = t4 + u5;
    let u3 = t3 + u4;
    let u2 = t2 + u3;
    let u1 = t1 + u2;
    assert((t0 + t1 + t2 + t3 + t4 + t5) + u6 =~= (t0 + t1 + t2 + t3 + t4) + u5);
    assert((t0 + t1 + t2 + t3 + t4) + u5 =~= (t0 + t1 + t2 + t3) + u4);
    assert((t0 + t1 + t2 + t3) + u4 =~= (t0 + t1 + t2) + u3);
    assert((t0 + t1 + t2) + u3 =~= (t0 + t1) + u2);
    assert((t0 + t1) + u2 =~= (t0) + u1);
    assert(enc_txt_liveliness(v) + rest =~= t0 + u1);
    lemma_lit_round_trip("liveliness{kind=".spec_bytes(), u1);
    assert(!is_digit(u2[0]));
    lemma_udec_round_trip(v.kind.spec_code() as u64, u2);
    assert(LivelinessKind::spec_from_code(v.kind.spec_code()) == Some(v.kind));
    lemma_exact_round_trip(44u8, u3);
    lemma_lit_round_trip("lease_duration=".spec_bytes(), u4);
    assert(!is_digit(u5[0]));
    lemma_idec_round_trip(v.lease_duration, u5);
    lemma_exact_round_trip(125u8, u6);
    assert((Liveliness { kind: v.kind, lease_duration: v.lease_duration }) == v);
}

#[verifier::rlimit(100)]
#[verifier::spinoff_prover]
proof fn lemma_txt_time_based_filter_rt(v: TimeBasedFilter, rest: Seq<u8>)
    ensures
        sp_txt_time_based_filter(enc_txt_time_based_filter(v) + rest) == Some((v, rest)),
{
    let t0 = "time_based_filter{minimum_separation=".spec_bytes();
    let t1 = dec_i64(v.minimum_separation);
    let t2 = seq![125u8];
    let u3 = rest;
    let u2 = t2 + u3;
    let u1 = t1 + u2;
    assert((t0 + t1 + t2) + u3 =~= (t0 + t1) + u2);
    assert((t0 + t1) + u2 =~= (t0) + u1);
    assert(enc_txt_time_based_filter(v) + rest =~= t0 + u1);
    lemma_lit_round_trip("time_based_filter{minimum_separation=".spec_bytes(), u1);
    assert(!is_digit(u2[0]));
    lemma_idec_round_trip(v.minimum_separation, u2);
    lemma_exact_round_trip(125u8, u3);
    assert((TimeBasedFilter { minimum_separation: v.minimum_separation }) == v);
}

#[verifier::rlimit(100)]
#[verifier::spinoff_prover]
proof fn lemma_txt_partition_rt(l: Seq<Seq<char>>, rest: Seq<u8>)
    requires
        crate::wire::strs_encodable(l),
    ensures
        sp_txt_partition(enc_txt_partition(l) + rest) == Some((l, rest)),
{
    let t0 = "partition{values=".spec_bytes();
    let t1 = enc_tstrlist(l);
    let t2 = seq![125u8];
    let u3 = rest;
    let u2 = t2 + u3;
    let u1 = t1 + u2;
    assert((t0 + t1 + t2) + u3 =~= (t0 + t1) + u2);
    assert((t0 + t1) + u2 =~= (t0) + u1);
    assert(enc_txt_partition(l) + rest =~= t0 + u1);
    lemma_lit_round_trip("partition{values=".spec_bytes(), u1);
    assert(!is_digit(u2[0]));
    lemma_tstrlist_round_trip(l, u2);
    lemma_exact_round_trip(125u8, u3);
}

#[verifier::rlimit(100)]
#[verifier::spinoff_prover]
proof fn lemma_txt_reliability_rt(v: Reliability, rest: Seq<u8>)
    ensures
        sp_txt_reliability(enc_txt_reliability(v) + rest) == Some((v, rest)),
{
    let t0 = "reliability{kind=".spec_bytes();
    let t1 = dec_u64(v.kind.spec_code() as u64);
    let t2 = seq![44u8];
    let t3 = "max_blocking_time=".spec_bytes();
    let t4 = dec_i64(v.max_blocking_time);
    let t5 = seq![125u8];
    let u6 = rest;
    let u5 = t5 + u6;
    let u4 = t4 + u5;
    let u3 = t3 + u4;
    let u2 = t2 + u3;
    let u1 = t1 + u2;
    assert((t0 + t1 + t2 + t3 + t4 + t5) + u6 =~= (t0 + t1 + t2 + t3 + t4) + u5);
    assert((t0 + t1 + t2 + t3 + t4) + u5 =~= (t0 + t1 + t2 + t3) + u4);
    assert((t0 + t1 + t2 + t3) + u4 =~= (t0 + t1 + t2) + u3);
    assert((t0 + t1 + t2) + u3 =~= (t0 + t1) + u2);
    assert((t0 + t1) + u2 =~= (t0) + u1);
    assert(enc_txt_reliability(v) + rest =~= t0 + u1);
    lemma_lit_round_trip("reliability{kind=".spec_bytes(), u1);
    assert(!is_digit(u2[0]));
    lemma_udec_round_trip(v.kind.spec_code() as u64, u2);
    assert(ReliabilityKind::spec_from_code(v.kind.spec_code()) == Some(v.kind));
    lemma_exact_round_trip(44u8, u3);
    lemma_lit_round_trip("max_blocking_time=".spec_bytes(), u4);
    assert(!is_digit(u5[0]));
    lemma_idec_round_trip(v.max_blocking_time, u5);
    lemma_exact_round_trip(125u8, u6);
    assert((Reliability { kind: v.kind, max_blocking_time: v.max_blocking_time }) == v);
}

#[verifier::rlimit(100)]
#[verifier::spinoff_prover]
proof fn lemma_txt_transport_priority_rt(v: TransportPriority, rest: Seq<u8>)
    ensures
        sp_txt_transport_priority(enc_txt_transport_priority(v) + rest) == Some((v, rest)),
{
    let t0 = "transport_priority{value=".spec_bytes();
    let t1 = dec_i64(v.value as i64);
    let t2 = seq![125u8];
    let u3 = rest;
    let u2 = t2 + u3;
    let u1 = t1 + u2;
    assert((t0 + t1 + t2) + u3 =~= (t0 + t1) + u2);
    assert((t0 + t1) + u2 =~= (t0) + u1);
    assert(enc_txt_transport_priority(v) + rest =~= t0 + u1);
    lemma_lit_round_trip("transport_priority{value=".spec_bytes(), u1);
    assert(!is_digit(u2[0]));
    lemma_idec_round_trip(v.value as i64, u2);
    lemma_exact_round_trip(125u8, u3);
    assert((TransportPriority { value: v.value }) == v);
}

#[verifier::rlimit(100)]
#[verifier::spinoff_prover]
proof fn lemma_txt_lifespan_rt(v: Lifespan, rest: Seq<u8>)
    ensures
        sp_txt_lifespan(enc_txt_lifespan(v) + rest) == Some((v, rest)),
{
    let t0 = "lifespan{duration=".spec_bytes();
    let t1 = dec_i64(v.duration);
    let t2 = seq![125u8];
    let u3 = rest;
    let u2 = t2 + u3;
    let u1 = t1 + u2;
    assert((t0 + t1 + t2) + u3 =~= (t0 + t1) + u2);
    assert((t0 + t1) + u2 =~= (t0) + u1);
    assert(enc_txt_lifespan(v) + rest =~= t0 + u1);
    lemma_lit_round_trip("lifespan{duration=".spec_bytes(), u1);
    assert(!is_digit(u2[0]));
    lemma_idec_round_trip(v.duration, u2);
    lemma_exact_round_trip(125u8, u3);
    assert((Lifespan { duration: v.duration }) == v);
}

#[verifier::rlimit(100)]
#[verifier::spinoff_prover]
proof fn lemma_txt_destination_order_rt(v: DestinationOrder, rest: Seq<u8>)
    ensures
        sp_txt_destination_order(enc_txt_destination_order(v) + rest) == Some((v, rest)),
{
    let t0 = "destination_order{kind=".spec_bytes();
    let t1 = dec_u64(v.kind.spec_code() as u64);
    let t2 = seq![125u8];
    let u3 = rest;
    let u2 = t2 + u3;
    let u1 = t1 + u2;
    assert((t0 + t1 + t2) + u3 =~= (t0 + t1) + u2);
    assert((t0 + t1) + u2 =~= (t0) + u1);
    assert(enc_txt_destination_order(v) + rest =~= t0 + u1);
    lemma_lit_round_trip("destination_order{kind=".spec_bytes(), u1);
    assert(!is_digit(u2[0]));
    lemma_udec_round_trip(v.kind.spec_code() as u64, u2);
    assert(DestinationOrderKind::spec_from_code(v.kind.spec_code()) == Some(v.kind));
    lemma_exact_round_trip(125u8, u3);
    assert((DestinationOrder { kind: v.kind }) == v);
}

#[verifier::rlimit(100)]
#[verifier::spinoff_prover]
proof fn lemma_txt_history_rt(v: History, rest: Seq<u8>)
    ensures
        sp_txt_history(enc_txt_history(v) + rest) == Some((v, rest)),
{
    let t0 = "history{kind=".spec_bytes();
    let t1 = dec_u64(v.kind.spec_code() as u64);
    let t2 = seq![44u8];
    let t3 = "depth=".spec_bytes();
    let t4 = dec_i64(v.depth as i64);
    let t5 = seq![125u8];
    let u6 = rest;
    let u5 = t5 + u6;
    let u4 = t4 + u5;
    let u3 = t3 + u4;
    let u2 = t2 + u3;
    let u1 = t1 + u2;
    assert((t0 + t1 + t2 + t3 + t4 + t5) + u6 =~= (t0 + t1 + t2 + t3 + t4) + u5);
    assert((t0 + t1 + t2 + t3 + t4) + u5 =~= (t0 + t1 + t2 + t3) + u4);
    assert((t0 + t1 + t2 + t3) + u4 =~= (t0 + t1 + t2) + u3);
    assert((t0 + t1 + t2) + u3 =~= (t0 + t1) + u2);
    assert((t0 + t1) + u2 =~= (t0) + u1);
    assert(enc_txt_history(v) + rest =~= t0 + u1);
    lemma_lit_round_trip("history{kind=".spec_bytes(), u1);
    assert(!is_digit(u2[0]));
    lemma_udec_round_trip(v.kind.spec_code() as u64, u2);
    assert(HistoryKind::spec_from_code(v.kind.spec_code()) == Some(v.kind));
    lemma_exact_round_trip(44u8, u3);
    lemma_lit_round_trip("depth=".spec_bytes(), u4);
    assert(!is_digit(u5[0]));
    lemma_idec_round_trip(v.depth as i64, u5);
    lemma_exact_round_trip(125u8, u6);
    assert((History { kind: v.kind, depth: v.depth }) == v);
}

#[verifier::rlimit(100)]
#[verifier::spinoff_prover]
proof fn lemma_txt_resource_limits_rt(v: ResourceLimits, rest: Seq<u8>)
    ensures
        sp_txt_resource_limits(enc_txt_resource_limits(v) + rest) == Some((v, rest)),
{
    let t0 = "resource_limits{max_samples=".spec_bytes();
    let t1 = dec_i64(v.max_samples as i64);
    let t2 = seq![44u8];
    let t3 = "max_instances=".spec_bytes();
    let t4 = dec_i64(v.max_instances as i64);
    let t5 = seq![44u8];
    let t6 = "max_samples_per_instance=".spec_bytes();
    let t7 = dec_i64(v.max_samples_per_instance as i64);
    let t8 = seq![125u8];
    let u9 = rest;
    let u8 = t8 + u9;
    let u7 = t7 + u8;
    let u6 = t6 + u7;
    let u5 = t5 + u6;
    let u4 = t4 + u5;
    let u3 = t3 + u4;
    let u2 = t2 + u3;
    let u1 = t1 + u2;
    assert((t0 + t1 + t2 + t3 + t4 + t5 + t6 + t7 + t8) + u9 =~= (t0 + t1 + t2 + t3 + t4 + t5 + t6 + t7) + u8);
    assert((t0 + t1 + t2 + t3 + t4 + t5 + t6 + t7) + u8 =~= (t0 + t1 + t2 + t3 + t4 + t5 + t6) + u7);
    assert((t0 + t1 + t2 + t3 + t4 + t5 + t6) + u7 =~= (t0 + t1 + t2 + t3 + t4 + t5) + u6);
    assert((t0 + t1 + t2 + t3 + t4 + t5) + u6 =~= (t0 + t1 + t2 + t3 + t4) + u5);
    assert((t0 + t1 + t2 + t3 + t4) + u5 =~= (t0 + t1 + t2 + t3) + u4);
    assert((t0 + t1 + t2 + t3) + u4 =~= (t0 + t1 + t2) + u3);
    assert((t0 + t1 + t2) + u3 =~= (t0 + t1) + u2);
    assert((t0 + t1) + u2 =~= (t0) + u1);
    assert(enc_txt_resource_limits(v) + rest =~= t0 + u1);
    lemma_lit_round_trip("resource_limits{max_samples=".spec_bytes(), u1);
    assert(!is_digit(u2[0]));
    lemma_idec_round_trip(v.max_samples as i64, u2);
    lemma_exact_round_trip(44u8, u3);
    lemma_lit_round_trip("max_instances=".spec_bytes(), u4);
    assert(!is_digit(u5[0]));
    lemma_idec_round_trip(v.max_instances as i64, u5);
    lemma_exact_round_trip(44u8, u6);
    lemma_lit_round_trip("max_samples_per_instance=".spec_bytes(), u7);
    assert(!is_digit(u8[0]));
    lemma_idec_round_trip(v.max_samples_per_instance as i64, u8);
    lemma_exact_round_trip(125u8, u9);
    assert((ResourceLimits { max_samples: v.max_samples, max_instances: v.max_instances, max_samples_per_instance: v.max_samples_per_instance }) == v);
}

#[verifier::rlimit(100)]
#[verifier::spinoff_prover]
proof fn lemma_txt_writer_data_lifecycle_rt(v: WriterDataLifecycle, rest: Seq<u8>)
    ensures
        sp_txt_writer_data_lifecycle(enc_txt_writer_data_lifecycle(v) + rest) == Some((v, rest)),
{
    let t0 = "writer_data_lifecycle{autodispose_unregistered_instances=".spec_bytes();
    let t1 = enc_tbool(v.autodispose_unregistered_instances);
    let t2 = seq![125u8];
    let u3 = rest;
    let u2 = t2 + u3;
    let u1 = t1 + u2;
    assert((t0 + t1 + t2) + u3 =~= (t0 + t1) + u2);
    assert((t0 + t1) + u2 =~= (t0) + u1);
    assert(enc_txt_writer_data_lifecycle(v) + rest =~= t0 + u1);
    lemma_lit_round_trip("writer_data_lifecycle{autodispose_unregistered_instances=".spec_bytes(), u1);
    lemma_tbool_round_trip(v.autodispose_unregistered_instances, u2);
    lemma_exact_round_trip(125u8, u3);
    assert((WriterDataLifecycle { autodispose_unregistered_instances: v.autodispose_unregistered_instances }) == v);
}

#[verifier::rlimit(100)]
#[verifier::spinoff_prover]
proof fn lemma_txt_reader_data_lifecycle_rt(v: ReaderDataLifecycle, rest: Seq<u8>)
    ensures
        sp_txt_reader_data_lifecycle(enc_txt_reader_data_lifecycle(v) + rest) == Some((v, rest)),
{
    let t0 = "reader_data_lifecycle{autopurge_nowriter_samples_delay=".spec_bytes();
    let t1 = dec_i64(v.autopurge_nowriter_samples_delay);
    let t2 = seq![44u8];
    let t3 = "autopurge_disposed_samples_delay=".spec_bytes();
    let t4 = dec_i64(v.autopurge_disposed_samples_delay);
    let t5 = seq![125u8];
    let u6 = rest;
    let u5 = t5 + u6;
    let u4 = t4 + u5;
    let u3 = t3 + u4;
    let u2 = t2 + u3;
    let u1 = t1 + u2;
    assert((t0 + t1 + t2 + t3 + t4 + t5) + u6 =~= (t0 + t1 + t2 + t3 + t4) + u5);
    assert((t0 + t1 + t2 + t3 + t4) + u5 =~= (t0 + t1 + t2 + t3) + u4);
    assert((t0 + t1 + t2 + t3) + u4 =~= (t0 + t1 + t2) + u3);
    assert((t0 + t1 + t2) + u3 =~= (t0 + t1) + u2);
    assert((t0 + t1) + u2 =~= (t0) + u1);
    assert(enc_txt_reader_data_lifecycle(v) + rest =~= t0 + u1);
    lemma_lit_round_trip("reader_data_lifecycle{autopurge_nowriter_samples_delay=".spec_bytes(), u1);
    assert(!is_digit(u2[0]));
    lemma_idec_round_trip(v.autopurge_nowriter_samples_delay, u2);
    lemma_exact_round_trip(44u8, u3);
    lemma_lit_round_trip("autopurge_disposed_samples_delay=".spec_bytes(), u4);
    assert(!is_digit(u5[0]));
    lemma_idec_round_trip(v.autopurge_disposed_samples_delay, u5);
    lemma_exact_round_trip(125u8, u6);
    assert((ReaderDataLifecycle { autopurge_nowriter_samples_delay: v.autopurge_nowriter_samples_delay, autopurge_disposed_samples_delay: v.autopurge_disposed_samples_delay }) == v);
}

#[verifier::rlimit(100)]
#[verifier::spinoff_prover]
proof fn lemma_txt_writer_batching_rt(v: WriterBatching, rest: Seq<u8>)
    ensures
        sp_txt_writer_batching(enc_txt_writer_batching(v) + rest) == Some((v, rest)),
{
    let t0 = "writer_batching{batch_updates=".spec_bytes();
    let t1 = enc_tbool(v.batch_updates);
    let t2 = seq![125u8];
    let u3 = rest;
    let u2 = t2 + u3;
    let u1 = t1 + u2;
    assert((t0 + t1 + t2) + u3 =~= (t0 + t1) + u2);
    assert((t0 + t1) + u2 =~= (t0) + u1);
    assert(enc_txt_writer_batching(v) + rest =~= t0 + u1);
    lemma_lit_round_trip("writer_batching{batch_updates=".spec_bytes(), u1);
    lemma_tbool_round_trip(v.batch_updates, u2);
    lemma_exact_round_trip(125u8, u3);
    assert((WriterBatching { batch_updates: v.batch_updates }) == v);
}

#[verifier::rlimit(100)]
#[verifier::spinoff_prover]
proof fn lemma_txt_type_consistency_rt(v: TypeConsistency, rest: Seq<u8>)
    ensures
        sp_txt_type_consistency(enc_txt_type_consistency(v) + rest) == Some((v, rest)),
{
    let t0 = "type_consistency{kind=".spec_bytes();
    let t1 = dec_u64(v.kind.spec_code() as u64);
    let t2 = seq![44u8];
    let t3 = "ignore_sequence_bounds=".spec_bytes();
    let t4 = enc_tbool(v.ignore_sequence_bounds);
    let t5 = ",ignore_string_bounds=".spec_bytes();
    let t6 = enc_tbool(v.ignore_string_bounds);
    let t7 = ",ignore_member_names=".spec_bytes();
    let t8 = enc_tbool(v.ignore_member_names);
    let t9 = ",prevent_type_widening=".spec_bytes();
    let t10 = enc_tbool(v.prevent_type_widening);
    let t11 = ",force_type_validation=".spec_bytes();
    let t12 = enc_tbool(v.force_type_validation);
    let t13 = seq![125u8];
    let u14 = rest;
    let u13 = t13 + u14;
    let u12 = t12 + u13;
    let u11 = t11 + u12;
    let u10 = t10 + u11;
    let u9 = t9 + u10;
    let u8 = t8 + u9;
    let u7 = t7 + u8;
    let u6 = t6 + u7;
    let u5 = t5 + u6;
    let u4 = t4 + u5;
    let u3 = t3 + u4;
    let u2 = t2 + u3;
    let u1 = t1 + u2;
    assert((t0 + t1 + t2 + t3 + t4 + t5 + t6 + t7 + t8 + t9 + t10 + t11 + t12 + t13) + u14 =~= (t0 + t1 + t2 + t3 + t4 + t5 + t6 + t7 + t8 + t9 + t10 + t11 + t12) + u13);
    assert((t0 + t1 + t2 + t3 + t4 + t5 + t6 + t7 + t8 + t9 + t10 + t11 + t12) + u13 =~= (t0 + t1 + t2 + t3 + t4 + t5 + t6 + t7 + t8 + t9 + t10 + t11) + u12);
    assert((t0 + t1 + t2 + t3 + t4 + t5 + t6 + t7 + t8 + t9 + t10 + t11) + u12 =~= (t0 + t1 + t2 + t3 + t4 + t5 + t6 + t7 + t8 + t9 + t10) + u11);
    assert((t0 + t1 + t2 + t3 + t4 + t5 + t6 + t7 + t8 + t9 + t10) + u11 =~= (t0 + t1 + t2 + t3 + t4 + t5 + t6 + t7 + t8 + t9) + u10);
    assert((t0 + t1 + t2 + t3 + t4 + t5 + t6 + t7 + t8 + t9) + u10 =~= (t0 + t1 + t2 + t3 + t4 + t5 + t6 + t7 + t8) + u9);
    assert((t0 + t1 + t2 + t3 + t4 + t5 + t6 + t7 + t8) + u9 =~= (t0 + t1 + t2 + t3 + t4 + t5 + t6 + t7) + u8);
    assert((t0 + t1 + t2 + t3 + t4 + t5 + t6 + t7) + u8 =~= (t0 + t1 + t2 + t3 + t4 + t5 + t6) + u7);
    assert((t0 + t1 + t2 + t3 + t4 + t5 + t6) + u7 =~= (t0 + t1 + t2 + t3 + t4 + t5) + u6);
    assert((t0 + t1 + t2 + t3 + t4 + t5) + u6 =~= (t0 + t1 + t2 + t3 + t4) + u5);
    assert((t0 + t1 + t2 + t3 + t4) + u5 =~= (t0 + t1 + t2 + t3) + u4);
    assert((t0 + t1 + t2 + t3) + u4 =~= (t0 + t1 + t2) + u3);
    assert((t0 + t1 + t2) + u3 =~= (t0 + t1) + u2);
    assert((t0 + t1) + u2 =~= (t0) + u1);
    assert(enc_txt_type_consistency(v) + rest =~= t0 + u1);
    lemma_lit_round_trip("type_consistency{kind=".spec_bytes(), u1);
    assert(!is_digit(u2[0]));
    lemma_udec_round_trip(v.kind.spec_code() as u64, u2);
    assert(TypeConsistencyKind::spec_from_code(v.kind.spec_code()) == Some(v.kind));
    lemma_exact_round_trip(44u8, u3);
    lemma_lit_round_trip("ignore_sequence_bounds=".spec_bytes(), u4);
    lemma_tbool_round_trip(v.ignore_sequence_bounds, u5);
    lemma_lit_round_trip(",ignore_string_bounds=".spec_bytes(), u6);
    lemma_tbool_round_trip(v.ignore_string_bounds, u7);
    lemma_lit_round_trip(",ignore_member_names=".spec_bytes(), u8);
    lemma_tbool_round_trip(v.ignore_member_names, u9);
    lemma_lit_round_trip(",prevent_type_widening=".spec_bytes(), u10);
    lemma_tbool_round_trip(v.prevent_type_widening, u11);
    lemma_lit_round_trip(",force_type_validation=".spec_bytes(), u12);
    lemma_tbool_round_trip(v.force_type_validation, u13);
    lemma_exact_round_trip(125u8, u14);
    assert((TypeConsistency { kind: v.kind, ignore_sequence_bounds: v.ignore_sequence_bounds, ignore_string_bounds: v.ignore_string_bounds, ignore_member_names: v.ignore_member_names, prevent_type_widening: v.prevent_type_widening, force_type_validation: v.force_type_validation }) == v);
}

#[verifier::rlimit(100)]
#[verifier::spinoff_prover]
proof fn lemma_txt_entity_name_rt(cs: Seq<char>, rest: Seq<u8>)
    requires
        encode_utf8(cs).len() <= u64::MAX,
    ensures
        sp_txt_entity_name(enc_txt_entity_name(cs) + rest) == Some((cs, rest)),
{
    let t0 = "entity_name{name=".spec_bytes();
    let t1 = enc_tstr(cs);
    let t2 = seq![125u8];
    let u3 = rest;
    let u2 = t2 + u3;
    let u1 = t1 + u2;
    assert((t0 + t1 + t2) + u3 =~= (t0 + t1) + u2);
    assert((t0 + t1) + u2 =~= (t0) + u1);
    assert(enc_txt_entity_name(cs) + rest =~= t0 + u1);
    lemma_lit_round_trip("entity_name{name=".spec_bytes(), u1);
    lemma_tstr_round_trip(cs, u2);
    lemma_exact_round_trip(125u8, u3);
}

#[verifier::rlimit(100)]
#[verifier::spinoff_prover]
proof fn lemma_txt_properties_rt(l: Seq<PropView>, rest: Seq<u8>)
    requires
        crate::wire::pairs_encodable(l),
    ensures
        sp_txt_properties(enc_txt_properties(l) + rest) == Some((l, rest)),
{
    let t0 = "properties{entries=".spec_bytes();
    let t1 = enc_tpairlist(l);
    let t2 = seq![125u8];
    let u3 = rest;
    let u2 = t2 + u3;
    let u1 = t1 + u2;
    assert((t0 + t1 + t2) + u3 =~= (t0 + t1) + u2);
    assert((t0 + t1) + u2 =~= (t0) + u1);
    assert(enc_txt_properties(l) + rest =~= t0 + u1);
    lemma_lit_round_trip("properties{entries=".spec_bytes(), u1);
    assert(!is_digit(u2[0]));
    lemma_tpairlist_round_trip(l, u2);
    lemma_exact_round_trip(125u8, u3);
}

#[verifier::rlimit(100)]
#[verifier::spinoff_prover]
proof fn lemma_txt_ignore_local_rt(v: IgnoreLocal, rest: Seq<u8>)
    ensures
        sp_txt_ignore_local(enc_txt_ignore_local(v) + rest) == Some((v, rest)),
{
    let t0 = "ignore_local{kind=".spec_bytes();
    let t1 = dec_u64(v.kind.spec_code() as u64);
    let t2 = seq![125u8];
    let u3 = rest;
    let u2 = t2 + u3;
    let u1 = t1 + u2;
    assert((t0 + t1 + t2) + u3 =~= (t0 + t1) + u2);
    assert((t0 + t1) + u2 =~= (t0) + u1);
    assert(enc_txt_ignore_local(v) + rest =~= t0 + u1);
    lemma_lit_round_trip("ignore_local{kind=".spec_bytes(), u1);
    assert(!is_digit(u2[0]));
    lemma_udec_round_trip(v.kind.spec_code() as u64, u2);
    assert(IgnoreLocalKind::spec_from_code(v.kind.spec_code()) == Some(v.kind));
    lemma_exact_round_trip(125u8, u3);
    assert((IgnoreLocal { kind: v.kind }) == v);
}

#[verifier::rlimit(100)]
#[verifier::spinoff_prover]
proof fn lemma_txt_data_representation_rt(u: Seq<u16>, rest: Seq<u8>)
    requires
        u.len() <= u64::MAX,
    ensures
        sp_txt_data_representation(enc_txt_data_representation(u) + rest) == Some((u, rest)),
{
    let t0 = "data_representation{values=".spec_bytes();
    let t1 = enc_tu16list(u);
    let t2 = seq![125u8];
    let u3 = rest;
    let u2 = t2 + u3;
    let u1 = t1 + u2;
    assert((t0 + t1 + t2) + u3 =~= (t0 + t1) + u2);
    assert((t0 + t1) + u2 =~= (t0) + u1);
    assert(enc_txt_data_representation(u) + rest =~= t0 + u1);
    lemma_lit_round_trip("data_representation{values=".spec_bytes(), u1);
    assert(!is_digit(u2[0]));
    lemma_tu16list_round_trip(u, u2);
    lemma_exact_round_trip(125u8, u3);
}

#[verifier::rlimit(100)]
#[verifier::spinoff_prover]
pub(crate) fn write_txt_user_data(out: &mut Vec<u8>, x: &Vec<u8>)
    ensures
        final(out)@ == old(out)@ + enc_txt_user_data(x@),
{
    let ghost base = out@;
    write_lit(out, "user_data{value=");
    proof { assert(out@ =~= base + ("user_data{value=".spec_bytes())); }
    write_traw(out, x);
    proof { assert(out@ =~= base + ("user_data{value=".spec_bytes() + enc_traw(x@))); }
    out.push(125);
    proof { assert(out@ =~= base + ("user_data{value=".spec_bytes() + enc_traw(x@) + seq![125u8])); }
}

#[verifier::rlimit(100)]
#[verifier::spinoff_prover]
pub(crate) fn read_txt_user_data(buf: &Vec<u8>, pos: usize) -> (r: Result<(Vec<u8>, usize), QosError>)
    requires
        pos <= buf@.len(),
    ensures
        match r {
            Ok((y, p2)) => pos <= p2 <= buf@.len() && sp_txt_user_data(buf@.skip(pos as int)) == Some(
                (y@, buf@.skip(p2 as int)),
            ),
            Err(e) => e == QosError::SerializationError && sp_txt_user_data(
                buf@.skip(pos as int),
            ) is None,
        },
{
    let p = pos;
    let p = match expect_lit(buf, p, "user_data{value=") { Ok(x) => x, Err(e) => { return Err(e); } };
    let (value, p) = match read_traw(buf, p) { Ok(x) => x, Err(e) => { return Err(e); } };
    let p = match read_exact(buf, p, 125) { Ok(x) => x, Err(e) => { return Err(e); } };
    Ok((value, p))
}

#[verifier::rlimit(100)]
#[verifier::spinoff_prover]
pub(crate) fn write_txt_topic_data(out: &mut Vec<u8>, x: &Vec<u8>)
    ensures
        final(out)@ == old(out)@ + enc_txt_topic_data(x@),
{
    let ghost base = out@;
    write_lit(out, "topic_data{value=");
    proof { assert(out@ =~= base + ("topic_data{value=".spec_bytes())); }
    write_traw(out, x);
    proof { assert(out@ =~= base + ("topic_data{value=".spec_bytes() + enc_traw(x@))); }
    out.push(125);
    proof { assert(out@ =~= base + ("topic_data{value=".spec_bytes() + enc_traw(x@) + seq![125u8])); }
}

#[verifier::rlimit(100)]
#[verifier::spinoff_prover]
pub(crate) fn read_txt_topic_data(buf: &Vec<u8>, pos: usize) -> (r: Result<(Vec<u8>, usize), QosError>)
    requires
        pos <= buf@.len(),
    ensures
        match r {
            Ok((y, p2)) => pos <= p2 <= buf@.len() && sp_txt_topic_data(buf@.skip(pos as int)) == Some(
                (y@, buf@.skip(p2 as int)),
            ),
            Err(e) => e == QosError::SerializationError && sp_txt_topic_data(
                buf@.skip(pos as int),
            ) is None,
        },
{
    let p = pos;
    let p = match expect_lit(buf, p, "topic_data{value=") { Ok(x) => x, Err(e) => { return Err(e); } };
    let (value, p) = match read_traw(buf, p) { Ok(x) => x, Err(e) => { return Err(e); } };
    let p = match read_exact(buf, p, 125) { Ok(x) => x, Err(e) => { return Err(e); } };
    Ok((value, p))
}

#[verifier::rlimit(100)]
#[verifier::spinoff_prover]
pub(crate) fn write_txt_group_data(out: &mut Vec<u8>, x: &Vec<u8>)
    ensures
        final(out)@ == old(out)@ + enc_txt_group_data(x@),
{
    let ghost base = out@;
    write_lit(out, "group_data{value=");
    proof { assert(out@ =~= base + ("group_data{value=".spec_bytes())); }
    write_traw(out, x);
    proof { assert(out@ =~= base + ("group_data{value=".spec_bytes() + enc_traw(x@))); }
    out.push(125);
    proof { assert(out@ =~= base + ("group_data{value=".spec_bytes() + enc_traw(x@) + seq![125u8])); }
}

#[verifier::rlimit(100)]
#[verifier::spinoff_prover]
pub(crate) fn read_txt_group_data(buf: &Vec<u8>, pos: usize) -> (r: Result<(Vec<u8>, usize), QosError>)
    requires
        pos <= buf@.len(),
    ensures
        match r {
            Ok((y, p2)) => pos <= p2 <= buf@.len() && sp_txt_group_data(buf@.skip(pos as int)) == Some(
                (y@, buf@.skip(p2 as int)),
            ),
            Err(e) => e == QosError::SerializationError && sp_txt_group_data(
                buf@.skip(pos as int),
            ) is None,
        },
{
    let p = pos;
    let p = match expect_lit(buf, p, "group_data{value=") { Ok(x) => x, Err(e) => { return Err(e); } };
    let (value, p) = match read_traw(buf, p) { Ok(x) => x, Err(e) => { return Err(e); } };
    let p = match read_exact(buf, p, 125) { Ok(x) => x, Err(e) => { return Err(e); } };
    Ok((value, p))
}

#[verifier::rlimit(100)]
#[verifier::spinoff_prover]
pub(crate) fn write_txt_durability(out: &mut Vec<u8>, v: &Durability)
    ensures
        final(out)@ == old(out)@ + enc_txt_durability(*v),
{
    let ghost base = out@;
    write_lit(out, "durability{kind=");
    proof { assert(out@ =~= base + ("durability{kind=".spec_bytes())); }
    write_udec(out, v.kind.code() as u64);
    proof { assert(out@ =~= base + ("durability{kind=".spec_bytes() + dec_u64(v.kind.spec_code() as u64))); }
    out.push(125);
    proof { assert(out@ =~= base + ("durability{kind=".spec_bytes() + dec_u64(v.kind.spec_code() as u64) + seq![125u8])); }
}

#[verifier::rlimit(100)]
#[verifier::spinoff_prover]
pub(crate) fn read_txt_durability(buf: &Vec<u8>, pos: usize) -> (r: Result<(Durability, usize), QosError>)
    requires
        pos <= buf@.len(),
    ensures
        match r {
            Ok((y, p2)) => pos <= p2 <= buf@.len() && sp_txt_durability(buf@.skip(pos as int)) == Some(
                (y, buf@.skip(p2 as int)),
            ),
            Err(e) => e == QosError::SerializationError && sp_txt_durability(
                buf@.skip(pos as int),
            ) is None,
        },
{
    let p = pos;
    let p = match expect_lit(buf, p, "durability{kind=") { Ok(x) => x, Err(e) => { return Err(e); } };
    let (u_kind, p) = match read_udec(buf, p) { Ok(x) => x, Err(e) => { return Err(e); } };
    if u_kind > u32::MAX as u64 { return Err(QosError::SerializationError); }
    let kind = match DurabilityKind::from_code(u_kind as u32) { Some(k) => k, None => { return Err(QosError::SerializationError); } };
    let p = match read_exact(buf, p, 125) { Ok(x) => x, Err(e) => { return Err(e); } };
    Ok((Durability { kind }, p))
}

#[verifier::rlimit(100)]
#[verifier::spinoff_prover]
pub(crate) fn write_txt_durability_service(out: &mut Vec<u8>, v: &DurabilityService)
    ensures
        final(out)@ == old(out)@ + enc_txt_durability_service(*v),
{
    let ghost base = out@;
    write_lit(out, "durability_service{service_cleanup_delay=");
    proof { assert(out@ =~= base + ("durability_service{service_cleanup_delay=".spec_bytes())); }
    write_idec(out, v.service_cleanup_delay);
    proof { assert(out@ =~= base + ("durability_service{service_cleanup_delay=".spec_bytes() + dec_i64(v.service_cleanup_delay))); }
    out.push(44);
    proof { assert(out@ =~= base + ("durability_service{service_cleanup_delay=".spec_bytes() + dec_i64(v.service_cleanup_delay) + seq![44u8])); }
    write_lit(out, "history_kind=");
    proof { assert(out@ =~= base + ("durability_service{service_cleanup_delay=".spec_bytes() + dec_i64(v.service_cleanup_delay) + seq![44u8] + "history_kind=".spec_bytes())); }
    write_udec(out, v.history_kind.code() as u64);
    proof { assert(out@ =~= base + ("durability_service{service_cleanup_delay=".spec_bytes() + dec_i64(v.service_cleanup_delay) + seq![44u8] + "history_kind=".spec_bytes() + dec_u64(v.history_kind.spec_code() as u64))); }
    out.push(44);
    proof { assert(out@ =~= base + ("durability_service{service_cleanup_delay=".spec_bytes() + dec_i64(v.service_cleanup_delay) + seq![44u8] + "history_kind=".spec_bytes() + dec_u64(v.history_kind.spec_code() as u64) + seq![44u8])); }
    write_lit(out, "history_depth=");
    proof { assert(out@ =~= base + ("durability_service{service_cleanup_delay=".spec_bytes() + dec_i64(v.service_cleanup_delay) + seq![44u8] + "history_kind=".spec_bytes() + dec_u64(v.history_kind.spec_code() as u64) + seq![44u8] + "history_depth=".spec_bytes())); }
    write_idec(out, v.history_depth as i64);
    proof { assert(out@ =~= base + ("durability_service{service_cleanup_delay=".spec_bytes() + dec_i64(v.service_cleanup_delay) + seq![44u8] + "history_kind=".spec_bytes() + dec_u64(v.history_kind.spec_code() as u64) + seq![44u8] + "history_depth=".spec_bytes() + dec_i64(v.history_depth as i64))); }
    out.push(44);
    proof { assert(out@ =~= base + ("durability_service{service_cleanup_delay=".spec_bytes() + dec_i64(v.service_cleanup_delay) + seq![44u8] + "history_kind=".spec_bytes() + dec_u64(v.history_kind.spec_code() as u64) + seq![44u8] + "history_depth=".spec_bytes() + dec_i64(v.history_depth as i64) + seq![44u8])); }
    write_lit(out, "max_samples=");
    proof { assert(out@ =~= base + ("durability_service{service_cleanup_delay=".spec_bytes() + dec_i64(v.service_cleanup_delay) + seq![44u8] + "history_kind=".spec_bytes() + dec_u64(v.history_kind.spec_code() as u64) + seq![44u8] + "history_depth=".spec_bytes() + dec_i64(v.history_depth as i64) + seq![44u8] + "max_samples=".spec_bytes())); }
    write_idec(out, v.max_samples as i64);
    proof { assert(out@ =~= base + ("durability_service{service_cleanup_delay=".spec_bytes() + dec_i64(v.service_cleanup_delay) + seq![44u8] + "history_kind=".spec_bytes() + dec_u64(v.history_kind.spec_code() as u64) + seq![44u8] + "history_depth=".spec_bytes() + dec_i64(v.history_depth as i64) + seq![44u8] + "max_samples=".spec_bytes() + dec_i64(v.max_samples as i64))); }
    out.push(44);
    proof { assert(out@ =~= base + ("durability_service{service_cleanup_delay=".spec_bytes() + dec_i64(v.service_cleanup_delay) + seq![44u8] + "history_kind=".spec_bytes() + dec_u64(v.history_kind.spec_code() as u64) + seq![44u8] + "history_depth=".spec_bytes() + dec_i64(v.history_depth as i64) + seq![44u8] + "max_samples=".spec_bytes() + dec_i64(v.max_samples as i64) + seq![44u8])); }
    write_lit(out, "max_instances=");
    proof { assert(out@ =~= base + ("durability_service{service_cleanup_delay=".spec_bytes() + dec_i64(v.service_cleanup_delay) + seq![44u8] + "history_kind=".spec_bytes() + dec_u64(v.history_kind.spec_code() as u64) + seq![44u8] + "history_depth=".spec_bytes() + dec_i64(v.history_depth as i64) + seq![44u8] + "max_samples=".spec_bytes() + dec_i64(v.max_samples as i64) + seq![44u8] + "max_instances=".spec_bytes())); }
    write_idec(out, v.max_instances as i64);
    proof { assert(out@ =~= base + ("durability_service{service_cleanup_delay=".spec_bytes() + dec_i64(v.service_cleanup_delay) + seq![44u8] + "history_kind=".spec_bytes() + dec_u64(v.history_kind.spec_code() as u64) + seq![44u8] + "history_depth=".spec_bytes() + dec_i64(v.history_depth as i64) + seq![44u8] + "max_samples=".spec_bytes() + dec_i64(v.max_samples as i64) + seq![44u8] + "max_instances=".spec_bytes() + dec_i64(v.max_instances as i64))); }
    out.push(44);
    proof { assert(out@ =~= base + ("durability_service{service_cleanup_delay=".spec_bytes() + dec_i64(v.service_cleanup_delay) + seq![44u8] + "history_kind=".spec_bytes() + dec_u64(v.history_kind.spec_code() as u64) + seq![44u8] + "history_depth=".spec_bytes() + dec_i64(v.history_depth as i64) + seq![44u8] + "max_samples=".spec_bytes() + dec_i64(v.max_samples as i64) + seq![44u8] + "max_instances=".spec_bytes() + dec_i64(v.max_instances as i64) + seq![44u8])); }
    write_lit(out, "max_samples_per_instance=");
    proof { assert(out@ =~= base + ("durability_service{service_cleanup_delay=".spec_bytes() + dec_i64(v.service_cleanup_delay) + seq![44u8] + "history_kind=".spec_bytes() + dec_u64(v.history_kind.spec_code() as u64) + seq![44u8] + "history_depth=".spec_bytes() + dec_i64(v.history_depth as i64) + seq![44u8] + "max_samples=".spec_bytes() + dec_i64(v.max_samples as i64) + seq![44u8] + "max_instances=".spec_bytes() + dec_i64(v.max_instances as i64) + seq![44u8] + "max_samples_per_instance=".spec_bytes())); }
    write_idec(out, v.max_samples_per_instance as i64);
    proof { assert(out@ =~= base + ("durability_service{service_cleanup_delay=".spec_bytes() + dec_i64(v.service_cleanup_delay) + seq![44u8] + "history_kind=".spec_bytes() + dec_u64(v.history_kind.spec_code() as u64) + seq![44u8] + "history_depth=".spec_bytes() + dec_i64(v.history_depth as i64) + seq![44u8] + "max_samples=".spec_bytes() + dec_i64(v.max_samples as i64) + seq![44u8] + "max_instances=".spec_bytes() + dec_i64(v.max_instances as i64) + seq![44u8] + "max_samples_per_instance=".spec_bytes() + dec_i64(v.max_samples_per_instance as i64))); }
    out.push(125);
    proof { assert(out@ =~= base + ("durability_service{service_cleanup_delay=".spec_bytes() + dec_i64(v.service_cleanup_delay) + seq![44u8] + "history_kind=".spec_bytes() + dec_u64(v.history_kind.spec_code() as u64) + seq![44u8] + "history_depth=".spec_bytes() + dec_i64(v.history_depth as i64) + seq![44u8] + "max_samples=".spec_bytes() + dec_i64(v.max_samples as i64) + seq![44u8] + "max_instances=".spec_bytes() + dec_i64(v.max_instances as i64) + seq![44u8] + "max_samples_per_instance=".spec_bytes() + dec_i64(v.max_samples_per_instance as i64) + seq![125u8])); }
}

#[verifier::rlimit(100)]
#[verifier::spinoff_prover]
pub(crate) fn read_txt_durability_service(buf: &Vec<u8>, pos: usize) -> (r: Result<(DurabilityService, usize), QosError>)
    requires
        pos <= buf@.len(),
    ensures
        match r {
            Ok((y, p2)) => pos <= p2 <= buf@.len() && sp_txt_durability_service(buf@.skip(pos as int)) == Some(
                (y, buf@.skip(p2 as int)),
            ),
            Err(e) => e == QosError::SerializationError && sp_txt_durability_service(
                buf@.skip(pos as int),
            ) is None,
        },
{
    let p = pos;
    let p = match expect_lit(buf, p, "durability_service{service_cleanup_delay=") { Ok(x) => x, Err(e) => { return Err(e); } };
    let (service_cleanup_delay, p) = match read_idec(buf, p) { Ok(x) => x, Err(e) => { return Err(e); } };
    let p = match read_exact(buf, p, 44) { Ok(x) => x, Err(e) => { return Err(e); } };
    let p = match expect_lit(buf, p, "history_kind=") { Ok(x) => x, Err(e) => { return Err(e); } };
    let (u_history_kind, p) = match read_udec(buf, p) { Ok(x) => x, Err(e) => { return Err(e); } };
    if u_history_kind > u32::MAX as u64 { return Err(QosError::SerializationError); }
    let history_kind = match HistoryKind::from_code(u_history_kind as u32) { Some(k) => k, None => { return Err(QosError::SerializationError); } };
    let p = match read_exact(buf, p, 44) { Ok(x) => x, Err(e) => { return Err(e); } };
    let p = match expect_lit(buf, p, "history_depth=") { Ok(x) => x, Err(e) => { return Err(e); } };
    let (w_history_depth, p) = match read_idec(buf, p) { Ok(x) => x, Err(e) => { return Err(e); } };
    if w_history_depth < i32::MIN as i64 || w_history_depth > i32::MAX as i64 { return Err(QosError::SerializationError); }
    let history_depth = w_history_depth as i32;
    let p = match read_exact(buf, p, 44) { Ok(x) => x, Err(e) => { return Err(e); } };
    let p = match expect_lit(buf, p, "max_samples=") { Ok(x) => x, Err(e) => { return Err(e); } };
    let (w_max_samples, p) = match read_idec(buf, p) { Ok(x) => x, Err(e) => { return Err(e); } };
    if w_max_samples < i32::MIN as i64 || w_max_samples > i32::MAX as i64 { return Err(QosError::SerializationError); }
    let max_samples = w_max_samples as i32;
    let p = match read_exact(buf, p, 44) { Ok(x) => x, Err(e) => { return Err(e); } };
    let p = match expect_lit(buf, p, "max_instances=") { Ok(x) => x, Err(e) => { return Err(e); } };
    let (w_max_instances, p) = match read_idec(buf, p) { Ok(x) => x, Err(e) => { return Err(e); } };
    if w_max_instances < i32::MIN as i64 || w_max_instances > i32::MAX as i64 { return Err(QosError::SerializationError); }
    let max_instances = w_max_instances as i32;
    let p = match read_exact(buf, p, 44) { Ok(x) => x, Err(e) => { return Err(e); } };
    let p = match expect_lit(buf, p, "max_samples_per_instance=") { Ok(x) => x, Err(e) => { return Err(e); } };
    let (w_max_samples_per_instance, p) = match read_idec(buf, p) { Ok(x) => x, Err(e) => { return Err(e); } };
    if w_max_samples_per_instance < i32::MIN as i64 || w_max_samples_per_instance > i32::MAX as i64 { return Err(QosError::SerializationError); }
    let max_samples_per_instance = w_max_samples_per_instance as i32;
    let p = match read_exact(buf, p, 125) { Ok(x) => x, Err(e) => { return Err(e); } };
    Ok((DurabilityService { service_cleanup_delay, history_kind, history_depth, max_samples, max_instances, max_samples_per_instance }, p))
}

#[verifier::rlimit(100)]
#[verifier::spinoff_prover]
pub(crate) fn write_txt_presentation(out: &mut Vec<u8>, v: &Presentation)
    ensures
        final(out)@ == old(out)@ + enc_txt_presentation(*v),
{
    let ghost base = out@;
    write_lit(out, "presentation{access_scope=");
    proof { assert(out@ =~= base + ("presentation{access_scope=".spec_bytes())); }
    write_udec(out, v.access_scope.code() as u64);
    proof { assert(out@ =~= base + ("presentation{access_scope=".spec_bytes() + dec_u64(v.access_scope.spec_code() as u64))); }
    out.push(44);
    proof { assert(out@ =~= base + ("presentation{access_scope=".spec_bytes() + dec_u64(v.access_scope.spec_code() as u64) + seq![44u8])); }
    write_lit(out, "coherent_access=");
    proof { assert(out@ =~= base + ("presentation{access_scope=".spec_bytes() + dec_u64(v.access_scope.spec_code() as u64) + seq![44u8] + "coherent_access=".spec_bytes())); }
    write_tbool(out, v.coherent_access);
    proof { assert(out@ =~= base + ("presentation{access_scope=".spec_bytes() + dec_u64(v.access_scope.spec_code() as u64) + seq![44u8] + "coherent_access=".spec_bytes() + enc_tbool(v.coherent_access))); }
    write_lit(out, ",ordered_access=");
    proof { assert(out@ =~= base + ("presentation{access_scope=".spec_bytes() + dec_u64(v.access_scope.spec_code() as u64) + seq![44u8] + "coherent_access=".spec_bytes() + enc_tbool(v.coherent_access) + ",ordered_access=".spec_bytes())); }
    write_tbool(out, v.ordered_access);
    proof { assert(out@ =~= base + ("presentation{access_scope=".spec_bytes() + dec_u64(v.access_scope.spec_code() as u64) + seq![44u8] + "coherent_access=".spec_bytes() + enc_tbool(v.coherent_access) + ",ordered_access=".spec_bytes() + enc_tbool(v.ordered_access))); }
    out.push(125);
    proof { assert(out@ =~= base + ("presentation{access_scope=".spec_bytes() + dec_u64(v.access_scope.spec_code() as u64) + seq![44u8] + "coherent_access=".spec_bytes() + enc_tbool(v.coherent_access) + ",ordered_access=".spec_bytes() + enc_tbool(v.ordered_access) + seq![125u8])); }
}

#[verifier::rlimit(100)]
#[verifier::spinoff_prover]
pub(crate) fn read_txt_presentation(buf: &Vec<u8>, pos: usize) -> (r: Result<(Presentation, usize), QosError>)
    requires
        pos <= buf@.len(),
    ensures
        match r {
            Ok((y, p2)) => pos <= p2 <= buf@.len() && sp_txt_presentation(buf@.skip(pos as int)) == Some(
                (y, buf@.skip(p2 as int)),
            ),
            Err(e) => e == QosError::SerializationError && sp_txt_presentation(
                buf@.skip(pos as int),
            ) is None,
        },
{
    let p = pos;
    let p = match expect_lit(buf, p, "presentation{access_scope=") { Ok(x) => x, Err(e) => { return Err(e); } };
    let (u_access_scope, p) = match read_udec(buf, p) { Ok(x) => x, Err(e) => { return Err(e); } };
    if u_access_scope > u32::MAX as u64 { return Err(QosError::SerializationError); }
    let access_scope = match PresentationAccessScopeKind::from_code(u_access_scope as u32) { Some(k) => k, None => { return Err(QosError::SerializationError); } };
    let p = match read_exact(buf, p, 44) { Ok(x) => x, Err(e) => { return Err(e); } };
    let p = match expect_lit(buf, p, "coherent_access=") { Ok(x) => x, Err(e) => { return Err(e); } };
    let (coherent_access, p) = match read_tbool(buf, p) { Ok(x) => x, Err(e) => { return Err(e); } };
    let p = match expect_lit(buf, p, ",ordered_access=") { Ok(x) => x, Err(e) => { return Err(e); } };
    let (ordered_access, p) = match read_tbool(buf, p) { Ok(x) => x, Err(e) => { return Err(e); } };
    let p = match read_exact(buf, p, 125) { Ok(x) => x, Err(e) => { return Err(e); } };
    Ok((Presentation { access_scope, coherent_access, ordered_access }, p))
}

#[verifier::rlimit(100)]
#[verifier::spinoff_prover]
pub(crate) fn write_txt_deadline(out: &mut Vec<u8>, v: &Deadline)
    ensures
        final(out)@ == old(out)@ + enc_txt_deadline(*v),
{
    let ghost base = out@;
    write_lit(out, "deadline{period=");
    proof { assert(out@ =~= base + ("deadline{period=".spec_bytes())); }
    write_idec(out, v.period);
    proof { assert(out@ =~= base + ("deadline{period=".spec_bytes() + dec_i64(v.period))); }
    out.push(125);
    proof { assert(out@ =~= base + ("deadline{period=".spec_bytes() + dec_i64(v.period) + seq![125u8])); }
}

#[verifier::rlimit(100)]
#[verifier::spinoff_prover]
pub(crate) fn read_txt_deadline(buf: &Vec<u8>, pos: usize) -> (r: Result<(Deadline, usize), QosError>)
    requires
        pos <= buf@.len(),
    ensures
        match r {
            Ok((y, p2)) => pos <= p2 <= buf@.len() && sp_txt_deadline(buf@.skip(pos as int)) == Some(
                (y, buf@.skip(p2 as int)),
            ),
            Err(e) => e == QosError::SerializationError && sp_txt_deadline(
                buf@.skip(pos as int),
            ) is None,
        },
{
    let p = pos;
    let p = match expect_lit(buf, p, "deadline{period=") { Ok(x) => x, Err(e) => { return Err(e); } };
    let (period, p) = match read_idec(buf, p) { Ok(x) => x, Err(e) => { return Err(e); } };
    let p = match read_exact(buf, p, 125) { Ok(x) => x, Err(e) => { return Err(e); } };
    Ok((Deadline { period }, p))
}

#[verifier::rlimit(100)]
#[verifier::spinoff_prover]
pub(crate) fn write_txt_latency_budget(out: &mut Vec<u8>, v: &LatencyBudget)
    ensures
        final(out)@ == old(out)@ + enc_txt_latency_budget(*v),
{
    let ghost base = out@;
    write_lit(out, "latency_budget{duration=");
    proof { assert(out@ =~= base + ("latency_budget{duration=".spec_bytes())); }
    write_idec(out, v.duration);
    proof { assert(out@ =~= base + ("latency_budget{duration=".spec_bytes() + dec_i64(v.duration))); }
    out.push(125);
    proof { assert(out@ =~= base + ("latency_budget{duration=".spec_bytes() + dec_i64(v.duration) + seq![125u8])); }
}

#[verifier::rlimit(100)]
#[verifier::spinoff_prover]
pub(crate) fn read_txt_latency_budget(buf: &Vec<u8>, pos: usize) -> (r: Result<(LatencyBudget, usize), QosError>)
    requires
        pos <= buf@.len(),
    ensures
        match r {
            Ok((y, p2)) => pos <= p2 <= buf@.len() && sp_txt_latency_budget(buf@.skip(pos as int)) == Some(
                (y, buf@.skip(p2 as int)),
            ),
            Err(e) => e == QosError::SerializationError && sp_txt_latency_budget(
                buf@.skip(pos as int),
            ) is None,
        },
{
    let p = pos;
    let p = match expect_lit(buf, p, "latency_budget{duration=") { Ok(x) => x, Err(e) => { return Err(e); } };
    let (duration, p) = match read_idec(buf, p) { Ok(x) => x, Err(e) => { return Err(e); } };
    let p = match read_exact(buf, p, 125) { Ok(x) => x, Err(e) => { return Err(e); } };
    Ok((LatencyBudget { duration }, p))
}

#[verifier::rlimit(100)]
#[verifier::spinoff_prover]
pub(crate) fn write_txt_ownership(out: &mut Vec<u8>, v: &Ownership)
    ensures
        final(out)@ == old(out)@ + enc_txt_ownership(*v),
{
    let ghost base = out@;
    write_lit(out, "ownership{kind=");
    proof { assert(out@ =~= base + ("ownership{kind=".spec_bytes())); }
    write_udec(out, v.kind.code() as u64);
    proof { assert(out@ =~= base + ("ownership{kind=".spec_bytes() + dec_u64(v.kind.spec_code() as u64))); }
    out.push(125);
    proof { assert(out@ =~= base + ("ownership{kind=".spec_bytes() + dec_u64(v.kind.spec_code() as u64) + seq![125u8])); }
}

#[verifier::rlimit(100)]
#[verifier::spinoff_prover]
pub(crate) fn read_txt_ownership(buf: &Vec<u8>, pos: usize) -> (r: Result<(Ownership, usize), QosError>)
    requires
        pos <= buf@.len(),
    ensures
        match r {
            Ok((y, p2)) => pos <= p2 <= buf@.len() && sp_txt_ownership(buf@.skip(pos as int)) == Some(
                (y, buf@.skip(p2 as int)),
            ),
            Err(e) => e == QosError::SerializationError && sp_txt_ownership(
                buf@.skip(pos as int),
            ) is None,
        },
{
    let p = pos;
    let p = match expect_lit(buf, p, "ownership{kind=") { Ok(x) => x, Err(e) => { return Err(e); } };
    let (u_kind, p) = match read_udec(buf, p) { Ok(x) => x, Err(e) => { return Err(e); } };
    if u_kind > u32::MAX as u64 { return Err(QosError::SerializationError); }
    let kind = match OwnershipKind::from_code(u_kind as u32) { Some(k) => k, None => { return Err(QosError::SerializationError); } };
    let p = match read_exact(buf, p, 125) { Ok(x) => x, Err(e) => { return Err(e); } };
    Ok((Ownership { kind }, p))
}

#[verifier::rlimit(100)]
#[verifier::spinoff_prover]
pub(crate) fn write_txt_ownership_strength(out: &mut Vec<u8>, v: &OwnershipStrength)
    ensures
        final(out)@ == old(out)@ + enc_txt_ownership_strength(*v),
{
    let ghost base = out@;
    write_lit(out, "ownership_strength{value=");
    proof { assert(out@ =~= base + ("ownership_strength{value=".spec_bytes())); }
    write_idec(out, v.value as i64);
    proof { assert(out@ =~= base + ("ownership_strength{value=".spec_bytes() + dec_i64(v.value as i64))); }
    out.push(125);
    proof { assert(out@ =~= base + ("ownership_strength{value=".spec_bytes() + dec_i64(v.value as i64) + seq![125u8])); }
}

#[verifier::rlimit(100)]
#[verifier::spinoff_prover]
pub(crate) fn read_txt_ownership_strength(buf: &Vec<u8>, pos: usize) -> (r: Result<(OwnershipStrength, usize), QosError>)
    requires
        pos <= buf@.len(),
    ensures
        match r {
            Ok((y, p2)) => pos <= p2 <= buf@.len() && sp_txt_ownership_strength(buf@.skip(pos as int)) == Some(
                (y, buf@.skip(p2 as int)),
            ),
            Err(e) => e == QosError::SerializationError && sp_txt_ownership_strength(
                buf@.skip(pos as int),
            ) is None,
        },
{
    let p = pos;
    let p = match expect_lit(buf, p, "ownership_strength{value=") { Ok(x) => x, Err(e) => { return Err(e); } };
    let (w_value, p) = match read_idec(buf, p) { Ok(x) => x, Err(e) => { return Err(e); } };
    if w_value < i32::MIN as i64 || w_value > i32::MAX as i64 { return Err(QosError::SerializationError); }
    let value = w_value as i32;
    let p = match read_exact(buf, p, 125) { Ok(x) => x, Err(e) => { return Err(e); } };
    Ok((OwnershipStrength { value }, p))
}

#[verifier::rlimit(100)]
#[verifier::spinoff_prover]
pub(crate) fn write_txt_liveliness(out: &mut Vec<u8>, v: &Liveliness)
    ensures
        final(out)@ == old(out)@ + enc_txt_liveliness(*v),
{
    let ghost base = out@;
    write_lit(out, "liveliness{kind=");
    proof { assert(out@ =~= base + ("liveliness{kind=".spec_bytes())); }
    write_udec(out, v.kind.code() as u64);
    proof { assert(out@ =~= base + ("liveliness{kind=".spec_bytes() + dec_u64(v.kind.spec_code() as u64))); }
    out.push(44);
    proof { assert(out@ =~= base + ("liveliness{kind=".spec_bytes() + dec_u64(v.kind.spec_code() as u64) + seq![44u8])); }
    write_lit(out, "lease_duration=");
    proof { assert(out@ =~= base + ("liveliness{kind=".spec_bytes() + dec_u64(v.kind.spec_code() as u64) + seq![44u8] + "lease_duration=".spec_bytes())); }
    write_idec(out, v.lease_duration);
    proof { assert(out@ =~= base + ("liveliness{kind=".spec_bytes() + dec_u64(v.kind.spec_code() as u64) + seq![44u8] + "lease_duration=".spec_bytes() + dec_i64(v.lease_duration))); }
    out.push(125);
    proof { assert(out@ =~= base + ("liveliness{kind=".spec_bytes() + dec_u64(v.kind.spec_code() as u64) + seq![44u8] + "lease_duration=".spec_bytes() + dec_i64(v.lease_duration) + seq![125u8])); }
}

#[verifier::rlimit(100)]
#[verifier::spinoff_prover]
pub(crate) fn read_txt_liveliness(buf: &Vec<u8>, pos: usize) -> (r: Result<(Liveliness, usize), QosError>)
    requires
        pos <= buf@.len(),
    ensures
        match r {
            Ok((y, p2)) => pos <= p2 <= buf@.len() && sp_txt_liveliness(buf@.skip(pos as int)) == Some(
                (y, buf@.skip(p2 as int)),
            ),
            Err(e) => e == QosError::SerializationError && sp_txt_liveliness(
                buf@.skip(pos as int),
            ) is None,
        },
{
    let p = pos;
    let p = match expect_lit(buf, p, "liveliness{kind=") { Ok(x) => x, Err(e) => { return Err(e); } };
    let (u_kind, p) = match read_udec(buf, p) { Ok(x) => x, Err(e) => { return Err(e); } };
    if u_kind > u32::MAX as u64 { return Err(QosError::SerializationError); }
    let kind = match LivelinessKind::from_code(u_kind as u32) { Some(k) => k, None => { return Err(QosError::SerializationError); } };
    let p = match read_exact(buf, p, 44) { Ok(x) => x, Err(e) => { return Err(e); } };
    let p = match expect_lit(buf, p, "lease_duration=") { Ok(x) => x, Err(e) => { return Err(e); } };
    let (lease_duration, p) = match read_idec(buf, p) { Ok(x) => x, Err(e) => { return Err(e); } };
    let p = match read_exact(buf, p, 125) { Ok(x) => x, Err(e) => { return Err(e); } };
    Ok((Liveliness { kind, lease_duration }, p))
}

#[verifier::rlimit(100)]
#[verifier::spinoff_prover]
pub(crate) fn write_txt_time_based_filter(out: &mut Vec<u8>, v: &TimeBasedFilter)
    ensures
        final(out)@ == old(out)@ + enc_txt_time_based_filter(*v),
{
    let ghost base = out@;
    write_lit(out, "time_based_filter{minimum_separation=");
    proof { assert(out@ =~= base + ("time_based_filter{minimum_separation=".spec_bytes())); }
    write_idec(out, v.minimum_separation);
    proof { assert(out@ =~= base + ("time_based_filter{minimum_separation=".spec_bytes() + dec_i64(v.minimum_separation))); }
    out.push(125);
    proof { assert(out@ =~= base + ("time_based_filter{minimum_separation=".spec_bytes() + dec_i64(v.minimum_separation) + seq![125u8])); }
}

#[verifier::rlimit(100)]
#[verifier::spinoff_prover]
pub(crate) fn read_txt_time_based_filter(buf: &Vec<u8>, pos: usize) -> (r: Result<(TimeBasedFilter, usize), QosError>)
    requires
        pos <= buf@.len(),
    ensures
        match r {
            Ok((y, p2)) => pos <= p2 <= buf@.len() && sp_txt_time_based_filter(buf@.skip(pos as int)) == Some(
                (y, buf@.skip(p2 as int)),
            ),
            Err(e) => e == QosError::SerializationError && sp_txt_time_based_filter(
                buf@.skip(pos as int),
            ) is None,
        },
{
    let p = pos;
    let p = match expect_lit(buf, p, "time_based_filter{minimum_separation=") { Ok(x) => x, Err(e) => { return Err(e); } };
    let (minimum_separation, p) = match read_idec(buf, p) { Ok(x) => x, Err(e) => { return Err(e); } };
    let p = match read_exact(buf, p, 125) { Ok(x) => x, Err(e) => { return Err(e); } };
    Ok((TimeBasedFilter { minimum_separation }, p))
}

#[verifier::rlimit(100)]
#[verifier::spinoff_prover]
pub(crate) fn write_txt_partition(out: &mut Vec<u8>, x: &Vec<String>)
    ensures
        final(out)@ == old(out)@ + enc_txt_partition(x.deep_view()),
{
    let ghost base = out@;
    write_lit(out, "partition{values=");
    proof { assert(out@ =~= base + ("partition{values=".spec_bytes())); }
    write_tstrlist(out, x);
    proof { assert(out@ =~= base + ("partition{values=".spec_bytes() + enc_tstrlist(x.deep_view()))); }
    out.push(125);
    proof { assert(out@ =~= base + ("partition{values=".spec_bytes() + enc_tstrlist(x.deep_view()) + seq![125u8])); }
}

#[verifier::rlimit(100)]
#[verifier::spinoff_prover]
pub(crate) fn read_txt_partition(buf: &Vec<u8>, pos: usize) -> (r: Result<(Vec<String>, usize), QosError>)
    requires
        pos <= buf@.len(),
    ensures
        match r {
            Ok((y, p2)) => pos <= p2 <= buf@.len() && sp_txt_partition(buf@.skip(pos as int)) == Some(
                (y.deep_view(), buf@.skip(p2 as int)),
            ),
            Err(e) => e == QosError::SerializationError && sp_txt_partition(
                buf@.skip(pos as int),
            ) is None,
        },
{
    let p = pos;
    let p = match expect_lit(buf, p, "partition{values=") { Ok(x) => x, Err(e) => { return Err(e); } };
    let (values, p) = match read_tstrlist(buf, p) { Ok(x) => x, Err(e) => { return Err(e); } };
    let p = match read_exact(buf, p, 125) { Ok(x) => x, Err(e) => { return Err(e); } };
    Ok((values, p))
}

#[verifier::rlimit(100)]
#[verifier::spinoff_prover]
pub(crate) fn write_txt_reliability(out: &mut Vec<u8>, v: &Reliability)
    ensures
        final(out)@ == old(out)@ + enc_txt_reliability(*v),
{
    let ghost base = out@;
    write_lit(out, "reliability{kind=");
    proof { assert(out@ =~= base + ("reliability{kind=".spec_bytes())); }
    write_udec(out, v.kind.code() as u64);
    proof { assert(out@ =~= base + ("reliability{kind=".spec_bytes() + dec_u64(v.kind.spec_code() as u64))); }
    out.push(44);
    proof { assert(out@ =~= base + ("reliability{kind=".spec_bytes() + dec_u64(v.kind.spec_code() as u64) + seq![44u8])); }
    write_lit(out, "max_blocking_time=");
    proof { assert(out@ =~= base + ("reliability{kind=".spec_bytes() + dec_u64(v.kind.spec_code() as u64) + seq![44u8] + "max_blocking_time=".spec_bytes())); }
    write_idec(out, v.max_blocking_time);
    proof { assert(out@ =~= base + ("reliability{kind=".spec_bytes() + dec_u64(v.kind.spec_code() as u64) + seq![44u8] + "max_blocking_time=".spec_bytes() + dec_i64(v.max_blocking_time))); }
    out.push(125);
    proof { assert(out@ =~= base + ("reliability{kind=".spec_bytes() + dec_u64(v.kind.spec_code() as u64) + seq![44u8] + "max_blocking_time=".spec_bytes() + dec_i64(v.max_blocking_time) + seq![125u8])); }
}

#[verifier::rlimit(100)]
#[verifier::spinoff_prover]
pub(crate) fn read_txt_reliability(buf: &Vec<u8>, pos: usize) -> (r: Result<(Reliability, usize), QosError>)
    requires
        pos <= buf@.len(),
    ensures
        match r {
            Ok((y, p2)) => pos <= p2 <= buf@.len() && sp_txt_reliability(buf@.skip(pos as int)) == Some(
                (y, buf@.skip(p2 as int)),
            ),
            Err(e) => e == QosError::SerializationError && sp_txt_reliability(
                buf@.skip(pos as int),
            ) is None,
        },
{
    let p = pos;
    let p = match expect_lit(buf, p, "reliability{kind=") { Ok(x) => x, Err(e) => { return Err(e); } };
    let (u_kind, p) = match read_udec(buf, p) { Ok(x) => x, Err(e) => { return Err(e); } };
    if u_kind > u32::MAX as u64 { return Err(QosError::SerializationError); }
    let kind = match ReliabilityKind::from_code(u_kind as u32) { Some(k) => k, None => { return Err(QosError::SerializationError); } };
    let p = match read_exact(buf, p, 44) { Ok(x) => x, Err(e) => { return Err(e); } };
    let p = match expect_lit(buf, p, "max_blocking_time=") { Ok(x) => x, Err(e) => { return Err(e); } };
    let (max_blocking_time, p) = match read_idec(buf, p) { Ok(x) => x, Err(e) => { return Err(e); } };
    let p = match read_exact(buf, p, 125) { Ok(x) => x, Err(e) => { return Err(e); } };
    Ok((Reliability { kind, max_blocking_time }, p))
}

#[verifier::rlimit(100)]
#[verifier::spinoff_prover]
pub(crate) fn write_txt_transport_priority(out: &mut Vec<u8>, v: &TransportPriority)
    ensures
        final(out)@ == old(out)@ + enc_txt_transport_priority(*v),
{
    let ghost base = out@;
    write_lit(out, "transport_priority{value=");
    proof { assert(out@ =~= base + ("transport_priority{value=".spec_bytes())); }
    write_idec(out, v.value as i64);
    proof { assert(out@ =~= base + ("transport_priority{value=".spec_bytes() + dec_i64(v.value as i64))); }
    out.push(125);
    proof { assert(out@ =~= base + ("transport_priority{value=".spec_bytes() + dec_i64(v.value as i64) + seq![125u8])); }
}

#[verifier::rlimit(100)]
#[verifier::spinoff_prover]
pub(crate) fn read_txt_transport_priority(buf: &Vec<u8>, pos: usize) -> (r: Result<(TransportPriority, usize), QosError>)
    requires
        pos <= buf@.len(),
    ensures
        match r {
            Ok((y, p2)) => pos <= p2 <= buf@.len() && sp_txt_transport_priority(buf@.skip(pos as int)) == Some(
                (y, buf@.skip(p2 as int)),
            ),
            Err(e) => e == QosError::SerializationError && sp_txt_transport_priority(
                buf@.skip(pos as int),
            ) is None,
        },
{
    let p = pos;
    let p = match expect_lit(buf, p, "transport_priority{value=") { Ok(x) => x, Err(e) => { return Err(e); } };
    let (w_value, p) = match read_idec(buf, p) { Ok(x) => x, Err(e) => { return Err(e); } };
    if w_value < i32::MIN as i64 || w_value > i32::MAX as i64 { return Err(QosError::SerializationError); }
    let value = w_value as i32;
    let p = match read_exact(buf, p, 125) { Ok(x) => x, Err(e) => { return Err(e); } };
    Ok((TransportPriority { value }, p))
}

#[verifier::rlimit(100)]
#[verifier::spinoff_prover]
pub(crate) fn write_txt_lifespan(out: &mut Vec<u8>, v: &Lifespan)
    ensures
        final(out)@ == old(out)@ + enc_txt_lifespan(*v),
{
    let ghost base = out@;
    write_lit(out, "lifespan{duration=");
    proof { assert(out@ =~= base + ("lifespan{duration=".spec_bytes())); }
    write_idec(out, v.duration);
    proof { assert(out@ =~= base + ("lifespan{duration=".spec_bytes() + dec_i64(v.duration))); }
    out.push(125);
    proof { assert(out@ =~= base + ("lifespan{duration=".spec_bytes() + dec_i64(v.duration) + seq![125u8])); }
}

#[verifier::rlimit(100)]
#[verifier::spinoff_prover]
pub(crate) fn read_txt_lifespan(buf: &Vec<u8>, pos: usize) -> (r: Result<(Lifespan, usize), QosError>)
    requires
        pos <= buf@.len(),
    ensures
        match r {
            Ok((y, p2)) => pos <= p2 <= buf@.len() && sp_txt_lifespan(buf@.skip(pos as int)) == Some(
                (y, buf@.skip(p2 as int)),
            ),
            Err(e) => e == QosError::SerializationError && sp_txt_lifespan(
                buf@.skip(pos as int),
            ) is None,
        },
{
    let p = pos;
    let p = match expect_lit(buf, p, "lifespan{duration=") { Ok(x) => x, Err(e) => { return Err(e); } };
    let (duration, p) = match read_idec(buf, p) { Ok(x) => x, Err(e) => { return Err(e); } };
    let p = match read_exact(buf, p, 125) { Ok(x) => x, Err(e) => { return Err(e); } };
    Ok((Lifespan { duration }, p))
}

#[verifier::rlimit(100)]
#[verifier::spinoff_prover]
pub(crate) fn write_txt_destination_order(out: &mut Vec<u8>, v: &DestinationOrder)
    ensures
        final(out)@ == old(out)@ + enc_txt_destination_order(*v),
{
    let ghost base = out@;
    write_lit(out, "destination_order{kind=");
    proof { assert(out@ =~= base + ("destination_order{kind=".spec_bytes())); }
    write_udec(out, v.kind.code() as u64);
    proof { assert(out@ =~= base + ("destination_order{kind=".spec_bytes() + dec_u64(v.kind.spec_code() as u64))); }
    out.push(125);
    proof { assert(out@ =~= base + ("destination_order{kind=".spec_bytes() + dec_u64(v.kind.spec_code() as u64) + seq![125u8])); }
}

#[verifier::rlimit(100)]
#[verifier::spinoff_prover]
pub(crate) fn read_txt_destination_order(buf: &Vec<u8>, pos: usize) -> (r: Result<(DestinationOrder, usize), QosError>)
    requires
        pos <= buf@.len(),
    ensures
        match r {
            Ok((y, p2)) => pos <= p2 <= buf@.len() && sp_txt_destination_order(buf@.skip(pos as int)) == Some(
                (y, buf@.skip(p2 as int)),
            ),
            Err(e) => e == QosError::SerializationError && sp_txt_destination_order(
                buf@.skip(pos as int),
            ) is None,
        },
{
    let p = pos;
    let p = match expect_lit(buf, p, "destination_order{kind=") { Ok(x) => x, Err(e) => { return Err(e); } };
    let (u_kind, p) = match read_udec(buf, p) { Ok(x) => x, Err(e) => { return Err(e); } };
    if u_kind > u32::MAX as u64 { return Err(QosError::SerializationError); }
    let kind = match DestinationOrderKind::from_code(u_kind as u32) { Some(k) => k, None => { return Err(QosError::SerializationError); } };
    let p = match read_exact(buf, p, 125) { Ok(x) => x, Err(e) => { return Err(e); } };
    Ok((DestinationOrder { kind }, p))
}

#[verifier::rlimit(100)]
#[verifier::spinoff_prover]
pub(crate) fn write_txt_history(out: &mut Vec<u8>, v: &History)
    ensures
        final(out)@ == old(out)@ + enc_txt_history(*v),
{
    let ghost base = out@;
    write_lit(out, "history{kind=");
    proof { assert(out@ =~= base + ("history{kind=".spec_bytes())); }
    write_udec(out, v.kind.code() as u64);
    proof { assert(out@ =~= base + ("history{kind=".spec_bytes() + dec_u64(v.kind.spec_code() as u64))); }
    out.push(44);
    proof { assert(out@ =~= base + ("history{kind=".spec_bytes() + dec_u64(v.kind.spec_code() as u64) + seq![44u8])); }
    write_lit(out, "depth=");
    proof { assert(out@ =~= base + ("history{kind=".spec_bytes() + dec_u64(v.kind.spec_code() as u64) + seq![44u8] + "depth=".spec_bytes())); }
    write_idec(out, v.depth as i64);
    proof { assert(out@ =~= base + ("history{kind=".spec_bytes() + dec_u64(v.kind.spec_code() as u64) + seq![44u8] + "depth=".spec_bytes() + dec_i64(v.depth as i64))); }
    out.push(125);
    proof { assert(out@ =~= base + ("history{kind=".spec_bytes() + dec_u64(v.kind.spec_code() as u64) + seq![44u8] + "depth=".spec_bytes() + dec_i64(v.depth as i64) + seq![125u8])); }
}

#[verifier::rlimit(100)]
#[verifier::spinoff_prover]
pub(crate) fn read_txt_history(buf: &Vec<u8>, pos: usize) -> (r: Result<(History, usize), QosError>)
    requires
        pos <= buf@.len(),
    ensures
        match r {
            Ok((y, p2)) => pos <= p2 <= buf@.len() && sp_txt_history(buf@.skip(pos as int)) == Some(
                (y, buf@.skip(p2 as int)),
            ),
            Err(e) => e == QosError::SerializationError && sp_txt_history(
                buf@.skip(pos as int),
            ) is None,
        },
{
    let p = pos;
    let p = match expect_lit(buf, p, "history{kind=") { Ok(x) => x, Err(e) => { return Err(e); } };
    let (u_kind, p) = match read_udec(buf, p) { Ok(x) => x, Err(e) => { return Err(e); } };
    if u_kind > u32::MAX as u64 { return Err(QosError::SerializationError); }
    let kind = match HistoryKind::from_code(u_kind as u32) { Some(k) => k, None => { return Err(QosError::SerializationError); } };
    let p = match read_exact(buf, p, 44) { Ok(x) => x, Err(e) => { return Err(e); } };
    let p = match expect_lit(buf, p, "depth=") { Ok(x) => x, Err(e) => { return Err(e); } };
    let (w_depth, p) = match read_idec(buf, p) { Ok(x) => x, Err(e) => { return Err(e); } };
    if w_depth < i32::MIN as i64 || w_depth > i32::MAX as i64 { return Err(QosError::SerializationError); }
    let depth = w_depth as i32;
    let p = match read_exact(buf, p, 125) { Ok(x) => x, Err(e) => { return Err(e); } };
    Ok((History { kind, depth }, p))
}

#[verifier::rlimit(100)]
#[verifier::spinoff_prover]
pub(crate) fn write_txt_resource_limits(out: &mut Vec<u8>, v: &ResourceLimits)
    ensures
        final(out)@ == old(out)@ + enc_txt_resource_limits(*v),
{
    let ghost base = out@;
    write_lit(out, "resource_limits{max_samples=");
    proof { assert(out@ =~= base + ("resource_limits{max_samples=".spec_bytes())); }
    write_idec(out, v.max_samples as i64);
    proof { assert(out@ =~= base + ("resource_limits{max_samples=".spec_bytes() + dec_i64(v.max_samples as i64))); }
    out.push(44);
    proof { assert(out@ =~= base + ("resource_limits{max_samples=".spec_bytes() + dec_i64(v.max_samples as i64) + seq![44u8])); }
    write_lit(out, "max_instances=");
    proof { assert(out@ =~= base + ("resource_limits{max_samples=".spec_bytes() + dec_i64(v.max_samples as i64) + seq![44u8] + "max_instances=".spec_bytes())); }
    write_idec(out, v.max_instances as i64);
    proof { assert(out@ =~= base + ("resource_limits{max_samples=".spec_bytes() + dec_i64(v.max_samples as i64) + seq![44u8] + "max_instances=".spec_bytes() + dec_i64(v.max_instances as i64))); }
    out.push(44);
    proof { assert(out@ =~= base + ("resource_limits{max_samples=".spec_bytes() + dec_i64(v.max_samples as i64) + seq![44u8] + "max_instances=".spec_bytes() + dec_i64(v.max_instances as i64) + seq![44u8])); }
    write_lit(out, "max_samples_per_instance=");
    proof { assert(out@ =~= base + ("resource_limits{max_samples=".spec_bytes() + dec_i64(v.max_samples as i64) + seq![44u8] + "max_instances=".spec_bytes() + dec_i64(v.max_instances as i64) + seq![44u8] + "max_samples_per_instance=".spec_bytes())); }
    write_idec(out, v.max_samples_per_instance as i64);
    proof { assert(out@ =~= base + ("resource_limits{max_samples=".spec_bytes() + dec_i64(v.max_samples as i64) + seq![44u8] + "max_instances=".spec_bytes() + dec_i64(v.max_instances as i64) + seq![44u8] + "max_samples_per_instance=".spec_bytes() + dec_i64(v.max_samples_per_instance as i64))); }
    out.push(125);
    proof { assert(out@ =~= base + ("resource_limits{max_samples=".spec_bytes() + dec_i64(v.max_samples as i64) + seq![44u8] + "max_instances=".spec_bytes() + dec_i64(v.max_instances as i64) + seq![44u8] + "max_samples_per_instance=".spec_bytes() + dec_i64(v.max_samples_per_instance as i64) + seq![125u8])); }
}

#[verifier::rlimit(100)]
#[verifier::spinoff_prover]
pub(crate) fn read_txt_resource_limits(buf: &Vec<u8>, pos: usize) -> (r: Result<(ResourceLimits, usize), QosError>)
    requires
        pos <= buf@.len(),
    ensures
        match r {
            Ok((y, p2)) => pos <= p2 <= buf@.len() && sp_txt_resource_limits(buf@.skip(pos as int)) == Some(
                (y, buf@.skip(p2 as int)),
            ),
            Err(e) => e == QosError::SerializationError && sp_txt_resource_limits(
                buf@.skip(pos as int),
            ) is None,
        },
{
    let p = pos;
    let p = match expect_lit(buf, p, "resource_limits{max_samples=") { Ok(x) => x, Err(e) => { return Err(e); } };
    let (w_max_samples, p) = match read_idec(buf, p) { Ok(x) => x, Err(e) => { return Err(e); } };
    if w_max_samples < i32::MIN as i64 || w_max_samples > i32::MAX as i64 { return Err(QosError::SerializationError); }
    let max_samples = w_max_samples as i32;
    let p = match read_exact(buf, p, 44) { Ok(x) => x, Err(e) => { return Err(e); } };
    let p = match expect_lit(buf, p, "max_instances=") { Ok(x) => x, Err(e) => { return Err(e); } };
    let (w_max_instances, p) = match read_idec(buf, p) { Ok(x) => x, Err(e) => { return Err(e); } };
    if w_max_instances < i32::MIN as i64 || w_max_instances > i32::MAX as i64 { return Err(QosError::SerializationError); }
    let max_instances = w_max_instances as i32;
    let p = match read_exact(buf, p, 44) { Ok(x) => x, Err(e) => { return Err(e); } };
    let p = match expect_lit(buf, p, "max_samples_per_instance=") { Ok(x) => x, Err(e) => { return Err(e); } };
    let (w_max_samples_per_instance, p) = match read_idec(buf, p) { Ok(x) => x, Err(e) => { return Err(e); } };
    if w_max_samples_per_instance < i32::MIN as i64 || w_max_samples_per_instance > i32::MAX as i64 { return Err(QosError::SerializationError); }
    let max_samples_per_instance = w_max_samples_per_instance as i32;
    let p = match read_exact(buf, p, 125) { Ok(x) => x, Err(e) => { return Err(e); } };
    Ok((ResourceLimits { max_samples, max_instances, max_samples_per_instance }, p))
}

#[verifier::rlimit(100)]
#[verifier::spinoff_prover]
pub(crate) fn write_txt_writer_data_lifecycle(out: &mut Vec<u8>, v: &WriterDataLifecycle)
    ensures
        final(out)@ == old(out)@ + enc_txt_writer_data_lifecycle(*v),
{
    let ghost base = out@;
    write_lit(out, "writer_data_lifecycle{autodispose_unregistered_instances=");
    proof { assert(out@ =~= base + ("writer_data_lifecycle{autodispose_unregistered_instances=".spec_bytes())); }
    write_tbool(out, v.autodispose_unregistered_instances);
    proof { assert(out@ =~= base + ("writer_data_lifecycle{autodispose_unregistered_instances=".spec_bytes() + enc_tbool(v.autodispose_unregistered_instances))); }
    out.push(125);
    proof { assert(out@ =~= base + ("writer_data_lifecycle{autodispose_unregistered_instances=".spec_bytes() + enc_tbool(v.autodispose_unregistered_instances) + seq![125u8])); }
}

#[verifier::rlimit(100)]
#[verifier::spinoff_prover]
pub(crate) fn read_txt_writer_data_lifecycle(buf: &Vec<u8>, pos: usize) -> (r: Result<(WriterDataLifecycle, usize), QosError>)
    requires
        pos <= buf@.len(),
    ensures
        match r {
            Ok((y, p2)) => pos <= p2 <= buf@.len() && sp_txt_writer_data_lifecycle(buf@.skip(pos as int)) == Some(
                (y, buf@.skip(p2 as int)),
            ),
            Err(e) => e == QosError::SerializationError && sp_txt_writer_data_lifecycle(
                buf@.skip(pos as int),
            ) is None,
        },
{
    let p = pos;
    let p = match expect_lit(buf, p, "writer_data_lifecycle{autodispose_unregistered_instances=") { Ok(x) => x, Err(e) => { return Err(e); } };
    let (autodispose_unregistered_instances, p) = match read_tbool(buf, p) { Ok(x) => x, Err(e) => { return Err(e); } };
    let p = match read_exact(buf, p, 125) { Ok(x) => x, Err(e) => { return Err(e); } };
    Ok((WriterDataLifecycle { autodispose_unregistered_instances }, p))
}

#[verifier::rlimit(100)]
#[verifier::spinoff_prover]
pub(crate) fn write_txt_reader_data_lifecycle(out: &mut Vec<u8>, v: &ReaderDataLifecycle)
    ensures
        final(out)@ == old(out)@ + enc_txt_reader_data_lifecycle(*v),
{
    let ghost base = out@;
    write_lit(out, "reader_data_lifecycle{autopurge_nowriter_samples_delay=");
    proof { assert(out@ =~= base + ("reader_data_lifecycle{autopurge_nowriter_samples_delay=".spec_bytes())); }
    write_idec(out, v.autopurge_nowriter_samples_delay);
    proof { assert(out@ =~= base + ("reader_data_lifecycle{autopurge_nowriter_samples_delay=".spec_bytes() + dec_i64(v.autopurge_nowriter_samples_delay))); }
    out.push(44);
    proof { assert(out@ =~= base + ("reader_data_lifecycle{autopurge_nowriter_samples_delay=".spec_bytes() + dec_i64(v.autopurge_nowriter_samples_delay) + seq![44u8])); }
    write_lit(out, "autopurge_disposed_samples_delay=");
    proof { assert(out@ =~= base + ("reader_data_lifecycle{autopurge_nowriter_samples_delay=".spec_bytes() + dec_i64(v.autopurge_nowriter_samples_delay) + seq![44u8] + "autopurge_disposed_samples_delay=".spec_bytes())); }
    write_idec(out, v.autopurge_disposed_samples_delay);
    proof { assert(out@ =~= base + ("reader_data_lifecycle{autopurge_nowriter_samples_delay=".spec_bytes() + dec_i64(v.autopurge_nowriter_samples_delay) + seq![44u8] + "autopurge_disposed_samples_delay=".spec_bytes() + dec_i64(v.autopurge_disposed_samples_delay))); }
    out.push(125);
    proof { assert(out@ =~= base + ("reader_data_lifecycle{autopurge_nowriter_samples_delay=".spec_bytes() + dec_i64(v.autopurge_nowriter_samples_delay) + seq![44u8] + "autopurge_disposed_samples_delay=".spec_bytes() + dec_i64(v.autopurge_disposed_samples_delay) + seq![125u8])); }
}

#[verifier::rlimit(100)]
#[verifier::spinoff_prover]
pub(crate) fn read_txt_reader_data_lifecycle(buf: &Vec<u8>, pos: usize) -> (r: Result<(ReaderDataLifecycle, usize), QosError>)
    requires
        pos <= buf@.len(),
    ensures
        match r {
            Ok((y, p2)) => pos <= p2 <= buf@.len() && sp_txt_reader_data_lifecycle(buf@.skip(pos as int)) == Some(
                (y, buf@.skip(p2 as int)),
            ),
            Err(e) => e == QosError::SerializationError && sp_txt_reader_data_lifecycle(
                buf@.skip(pos as int),
            ) is None,
        },
{
    let p = pos;
    let p = match expect_lit(buf, p, "reader_data_lifecycle{autopurge_nowriter_samples_delay=") { Ok(x) => x, Err(e) => { return Err(e); } };
    let (autopurge_nowriter_samples_delay, p) = match read_idec(buf, p) { Ok(x) => x, Err(e) => { return Err(e); } };
    let p = match read_exact(buf, p, 44) { Ok(x) => x, Err(e) => { return Err(e); } };
    let p = match expect_lit(buf, p, "autopurge_disposed_samples_delay=") { Ok(x) => x, Err(e) => { return Err(e); } };
    let (autopurge_disposed_samples_delay, p) = match read_idec(buf, p) { Ok(x) => x, Err(e) => { return Err(e); } };
    let p = match read_exact(buf, p, 125) { Ok(x) => x, Err(e) => { return Err(e); } };
    Ok((ReaderDataLifecycle { autopurge_nowriter_samples_delay, autopurge_disposed_samples_delay }, p))
}

#[verifier::rlimit(100)]
#[verifier::spinoff_prover]
pub(crate) fn write_txt_writer_batching(out: &mut Vec<u8>, v: &WriterBatching)
    ensures
        final(out)@ == old(out)@ + enc_txt_writer_batching(*v),
{
    let ghost base = out@;
    write_lit(out, "writer_batching{batch_updates=");
    proof { assert(out@ =~= base + ("writer_batching{batch_updates=".spec_bytes())); }
    write_tbool(out, v.batch_updates);
    proof { assert(out@ =~= base + ("writer_batching{batch_updates=".spec_bytes() + enc_tbool(v.batch_updates))); }
    out.push(125);
    proof { assert(out@ =~= base + ("writer_batching{batch_updates=".spec_bytes() + enc_tbool(v.batch_updates) + seq![125u8])); }
}

#[verifier::rlimit(100)]
#[verifier::spinoff_prover]
pub(crate) fn read_txt_writer_batching(buf: &Vec<u8>, pos: usize) -> (r: Result<(WriterBatching, usize), QosError>)
    requires
        pos <= buf@.len(),
    ensures
        match r {
            Ok((y, p2)) => pos <= p2 <= buf@.len() && sp_txt_writer_batching(buf@.skip(pos as int)) == Some(
                (y, buf@.skip(p2 as int)),
            ),
            Err(e) => e == QosError::SerializationError && sp_txt_writer_batching(
                buf@.skip(pos as int),
            ) is None,
        },
{
    let p = pos;
    let p = match expect_lit(buf, p, "writer_batching{batch_updates=") { Ok(x) => x, Err(e) => { return Err(e); } };
    let (batch_updates, p) = match read_tbool(buf, p) { Ok(x) => x, Err(e) => { return Err(e); } };
    let p = match read_exact(buf, p, 125) { Ok(x) => x, Err(e) => { return Err(e); } };
    Ok((WriterBatching { batch_updates }, p))
}

#[verifier::rlimit(100)]
#[verifier::spinoff_prover]
pub(crate) fn write_txt_type_consistency(out: &mut Vec<u8>, v: &TypeConsistency)
    ensures
        final(out)@ == old(out)@ + enc_txt_type_consistency(*v),
{
    let ghost base = out@;
    write_lit(out, "type_consistency{kind=");
    proof { assert(out@ =~= base + ("type_consistency{kind=".spec_bytes())); }
    write_udec(out, v.kind.code() as u64);
    proof { assert(out@ =~= base + ("type_consistency{kind=".spec_bytes() + dec_u64(v.kind.spec_code() as u64))); }
    out.push(44);
    proof { assert(out@ =~= base + ("type_consistency{kind=".spec_bytes() + dec_u64(v.kind.spec_code() as u64) + seq![44u8])); }
    write_lit(out, "ignore_sequence_bounds=");
    proof { assert(out@ =~= base + ("type_consistency{kind=".spec_bytes() + dec_u64(v.kind.spec_code() as u64) + seq![44u8] + "ignore_sequence_bounds=".spec_bytes())); }
    write_tbool(out, v.ignore_sequence_bounds);
    proof { assert(out@ =~= base + ("type_consistency{kind=".spec_bytes() + dec_u64(v.kind.spec_code() as u64) + seq![44u8] + "ignore_sequence_bounds=".spec_bytes() + enc_tbool(v.ignore_sequence_bounds))); }
    write_lit(out, ",ignore_string_bounds=");
    proof { assert(out@ =~= base + ("type_consistency{kind=".spec_bytes() + dec_u64(v.kind.spec_code() as u64) + seq![44u8] + "ignore_sequence_bounds=".spec_bytes() + enc_tbool(v.ignore_sequence_bounds) + ",ignore_string_bounds=".spec_bytes())); }
    write_tbool(out, v.ignore_string_bounds);
    proof { assert(out@ =~= base + ("type_consistency{kind=".spec_bytes() + dec_u64(v.kind.spec_code() as u64) + seq![44u8] + "ignore_sequence_bounds=".spec_bytes() + enc_tbool(v.ignore_sequence_bounds) + ",ignore_string_bounds=".spec_bytes() + enc_tbool(v.ignore_string_bounds))); }
    write_lit(out, ",ignore_member_names=");
    proof { assert(out@ =~= base + ("type_consistency{kind=".spec_bytes() + dec_u64(v.kind.spec_code() as u64) + seq![44u8] + "ignore_sequence_bounds=".spec_bytes() + enc_tbool(v.ignore_sequence_bounds) + ",ignore_string_bounds=".spec_bytes() + enc_tbool(v.ignore_string_bounds) + ",ignore_member_names=".spec_bytes())); }
    write_tbool(out, v.ignore_member_names);
    proof { assert(out@ =~= base + ("type_consistency{kind=".spec_bytes() + dec_u64(v.kind.spec_code() as u64) + seq![44u8] + "ignore_sequence_bounds=".spec_bytes() + enc_tbool(v.ignore_sequence_bounds) + ",ignore_string_bounds=".spec_bytes() + enc_tbool(v.ignore_string_bounds) + ",ignore_member_names=".spec_bytes() + enc_tbool(v.ignore_member_names))); }
    write_lit(out, ",prevent_type_widening=");
    proof { assert(out@ =~= base + ("type_consistency{kind=".spec_bytes() + dec_u64(v.kind.spec_code() as u64) + seq![44u8] + "ignore_sequence_bounds=".spec_bytes() + enc_tbool(v.ignore_sequence_bounds) + ",ignore_string_bounds=".spec_bytes() + enc_tbool(v.ignore_string_bounds) + ",ignore_member_names=".spec_bytes() + enc_tbool(v.ignore_member_names) + ",prevent_type_widening=".spec_bytes())); }
    write_tbool(out, v.prevent_type_widening);
    proof { assert(out@ =~= base + ("type_consistency{kind=".spec_bytes() + dec_u64(v.kind.spec_code() as u64) + seq![44u8] + "ignore_sequence_bounds=".spec_bytes() + enc_tbool(v.ignore_sequence_bounds) + ",ignore_string_bounds=".spec_bytes() + enc_tbool(v.ignore_string_bounds) + ",ignore_member_names=".spec_bytes() + enc_tbool(v.ignore_member_names) + ",prevent_type_widening=".spec_bytes() + enc_tbool(v.prevent_type_widening))); }
    write_lit(out, ",force_type_validation=");
    proof { assert(out@ =~= base + ("type_consistency{kind=".spec_bytes() + dec_u64(v.kind.spec_code() as u64) + seq![44u8] + "ignore_sequence_bounds=".spec_bytes() + enc_tbool(v.ignore_sequence_bounds) + ",ignore_string_bounds=".spec_bytes() + enc_tbool(v.ignore_string_bounds) + ",ignore_member_names=".spec_bytes() + enc_tbool(v.ignore_member_names) + ",prevent_type_widening=".spec_bytes() + enc_tbool(v.prevent_type_widening) + ",force_type_validation=".spec_bytes())); }
    write_tbool(out, v.force_type_validation);
    proof { assert(out@ =~= base + ("type_consistency{kind=".spec_bytes() + dec_u64(v.kind.spec_code() as u64) + seq![44u8] + "ignore_sequence_bounds=".spec_bytes() + enc_tbool(v.ignore_sequence_bounds) + ",ignore_string_bounds=".spec_bytes() + enc_tbool(v.ignore_string_bounds) + ",ignore_member_names=".spec_bytes() + enc_tbool(v.ignore_member_names) + ",prevent_type_widening=".spec_bytes() + enc_tbool(v.prevent_type_widening) + ",force_type_validation=".spec_bytes() + enc_tbool(v.force_type_validation))); }
    out.push(125);
    proof { assert(out@ =~= base + ("type_consistency{kind=".spec_bytes() + dec_u64(v.kind.spec_code() as u64) + seq![44u8] + "ignore_sequence_bounds=".spec_bytes() + enc_tbool(v.ignore_sequence_bounds) + ",ignore_string_bounds=".spec_bytes() + enc_tbool(v.ignore_string_bounds) + ",ignore_member_names=".spec_bytes() + enc_tbool(v.ignore_member_names) + ",prevent_type_widening=".spec_bytes() + enc_tbool(v.prevent_type_widening) + ",force_type_validation=".spec_bytes() + enc_tbool(v.force_type_validation) + seq![125u8])); }
}

#[verifier::rlimit(100)]
#[verifier::spinoff_prover]
pub(crate) fn read_txt_type_consistency(buf: &Vec<u8>, pos: usize) -> (r: Result<(TypeConsistency, usize), QosError>)
    requires
        pos <= buf@.len(),
    ensures
        match r {
            Ok((y, p2)) => pos <= p2 <= buf@.len() && sp_txt_type_consistency(buf@.skip(pos as int)) == Some(
                (y, buf@.skip(p2 as int)),
            ),
            Err(e) => e == QosError::SerializationError && sp_txt_type_consistency(
                buf@.skip(pos as int),
            ) is None,
        },
{
    let p = pos;
    let p = match expect_lit(buf, p, "type_consistency{kind=") { Ok(x) => x, Err(e) => { return Err(e); } };
    let (u_kind, p) = match read_udec(buf, p) { Ok(x) => x, Err(e) => { return Err(e); } };
    if u_kind > u32::MAX as u64 { return Err(QosError::SerializationError); }
    let kind = match TypeConsistencyKind::from_code(u_kind as u32) { Some(k) => k, None => { return Err(QosError::SerializationError); } };
    let p = match read_exact(buf, p, 44) { Ok(x) => x, Err(e) => { return Err(e); } };
    let p = match expect_lit(buf, p, "ignore_sequence_bounds=") { Ok(x) => x, Err(e) => { return Err(e); } };
    let (ignore_sequence_bounds, p) = match read_tbool(buf, p) { Ok(x) => x, Err(e) => { return Err(e); } };
    let p = match expect_lit(buf, p, ",ignore_string_bounds=") { Ok(x) => x, Err(e) => { return Err(e); } };
    let (ignore_string_bounds, p) = match read_tbool(buf, p) { Ok(x) => x, Err(e) => { return Err(e); } };
    let p = match expect_lit(buf, p, ",ignore_member_names=") { Ok(x) => x, Err(e) => { return Err(e); } };
    let (ignore_member_names, p) = match read_tbool(buf, p) { Ok(x) => x, Err(e) => { return Err(e); } };
    let p = match expect_lit(buf, p, ",prevent_type_widening=") { Ok(x) => x, Err(e) => { return Err(e); } };
    let (prevent_type_widening, p) = match read_tbool(buf, p) { Ok(x) => x, Err(e) => { return Err(e); } };
    let p = match expect_lit(buf, p, ",force_type_validation=") { Ok(x) => x, Err(e) => { return Err(e); } };
    let (force_type_validation, p) = match read_tbool(buf, p) { Ok(x) => x, Err(e) => { return Err(e); } };
    let p = match read_exact(buf, p, 125) { Ok(x) => x, Err(e) => { return Err(e); } };
    Ok((TypeConsistency { kind, ignore_sequence_bounds, ignore_string_bounds, ignore_member_names, prevent_type_widening, force_type_validation }, p))
}

#[verifier::rlimit(100)]
#[verifier::spinoff_prover]
pub(crate) fn write_txt_entity_name(out: &mut Vec<u8>, x: &String)
    ensures
        final(out)@ == old(out)@ + enc_txt_entity_name(x@),
{
    let ghost base = out@;
    write_lit(out, "entity_name{name=");
    proof { assert(out@ =~= base + ("entity_name{name=".spec_bytes())); }
    write_tstr(out, x);
    proof { assert(out@ =~= base + ("entity_name{name=".spec_bytes() + enc_tstr(x@))); }
    out.push(125);
    proof { assert(out@ =~= base + ("entity_name{name=".spec_bytes() + enc_tstr(x@) + seq![125u8])); }
}

#[verifier::rlimit(100)]
#[verifier::spinoff_prover]
pub(crate) fn read_txt_entity_name(buf: &Vec<u8>, pos: usize) -> (r: Result<(String, usize), QosError>)
    requires
        pos <= buf@.len(),
    ensures
        match r {
            Ok((y, p2)) => pos <= p2 <= buf@.len() && sp_txt_entity_name(buf@.skip(pos as int)) == Some(
                (y@, buf@.skip(p2 as int)),
            ),
            Err(e) => e == QosError::SerializationError && sp_txt_entity_name(
                buf@.skip(pos as int),
            ) is None,
        },
{
    let p = pos;
    let p = match expect_lit(buf, p, "entity_name{name=") { Ok(x) => x, Err(e) => { return Err(e); } };
    let (name, p) = match read_tstr(buf, p) { Ok(x) => x, Err(e) => { return Err(e); } };
    let p = match read_exact(buf, p, 125) { Ok(x) => x, Err(e) => { return Err(e); } };
    Ok((name, p))
}

#[verifier::rlimit(100)]
#[verifier::spinoff_prover]
pub(crate) fn write_txt_properties(out: &mut Vec<u8>, x: &Properties)
    ensures
        final(out)@ == old(out)@ + enc_txt_properties(x.deep_view()),
{
    let ghost base = out@;
    write_lit(out, "properties{entries=");
    proof { assert(out@ =~= base + ("properties{entries=".spec_bytes())); }
    write_tpairlist(out, x);
    proof { assert(out@ =~= base + ("properties{entries=".spec_bytes() + enc_tpairlist(x.deep_view()))); }
    out.push(125);
    proof { assert(out@ =~= base + ("properties{entries=".spec_bytes() + enc_tpairlist(x.deep_view()) + seq![125u8])); }
}

#[verifier::rlimit(100)]
#[verifier::spinoff_prover]
pub(crate) fn read_txt_properties(buf: &Vec<u8>, pos: usize) -> (r: Result<(Properties, usize), QosError>)
    requires
        pos <= buf@.len(),
    ensures
        match r {
            Ok((y, p2)) => pos <= p2 <= buf@.len() && sp_txt_properties(buf@.skip(pos as int)) == Some(
                (y.deep_view(), buf@.skip(p2 as int)),
            ),
            Err(e) => e == QosError::SerializationError && sp_txt_properties(
                buf@.skip(pos as int),
            ) is None,
        },
{
    let p = pos;
    let p = match expect_lit(buf, p, "properties{entries=") { Ok(x) => x, Err(e) => { return Err(e); } };
    let (entries, p) = match read_tpairlist(buf, p) { Ok(x) => x, Err(e) => { return Err(e); } };
    let p = match read_exact(buf, p, 125) { Ok(x) => x, Err(e) => { return Err(e); } };
    Ok((entries, p))
}

#[verifier::rlimit(100)]
#[verifier::spinoff_prover]
pub(crate) fn write_txt_ignore_local(out: &mut Vec<u8>, v: &IgnoreLocal)
    ensures
        final(out)@ == old(out)@ + enc_txt_ignore_local(*v),
{
    let ghost base = out@;
    write_lit(out, "ignore_local{kind=");
    proof { assert(out@ =~= base + ("ignore_local{kind=".spec_bytes())); }
    write_udec(out, v.kind.code() as u64);
    proof { assert(out@ =~= base + ("ignore_local{kind=".spec_bytes() + dec_u64(v.kind.spec_code() as u64))); }
    out.push(125);
    proof { assert(out@ =~= base + ("ignore_local{kind=".spec_bytes() + dec_u64(v.kind.spec_code() as u64) + seq![125u8])); }
}

#[verifier::rlimit(100)]
#[verifier::spinoff_prover]
pub(crate) fn read_txt_ignore_local(buf: &Vec<u8>, pos: usize) -> (r: Result<(IgnoreLocal, usize), QosError>)
    requires
        pos <= buf@.len(),
    ensures
        match r {
            Ok((y, p2)) => pos <= p2 <= buf@.len() && sp_txt_ignore_local(buf@.skip(pos as int)) == Some(
                (y, buf@.skip(p2 as int)),
            ),
            Err(e) => e == QosError::SerializationError && sp_txt_ignore_local(
                buf@.skip(pos as int),
            ) is None,
        },
{
    let p = pos;
    let p = match expect_lit(buf, p, "ignore_local{kind=") { Ok(x) => x, Err(e) => { return Err(e); } };
    let (u_kind, p) = match read_udec(buf, p) { Ok(x) => x, Err(e) => { return Err(e); } };
    if u_kind > u32::MAX as u64 { return Err(QosError::SerializationError); }
    let kind = match IgnoreLocalKind::from_code(u_kind as u32) { Some(k) => k, None => { return Err(QosError::SerializationError); } };
    let p = match read_exact(buf, p, 125) { Ok(x) => x, Err(e) => { return Err(e); } };
    Ok((IgnoreLocal { kind }, p))
}

#[verifier::rlimit(100)]
#[verifier::spinoff_prover]
pub(crate) fn write_txt_data_representation(out: &mut Vec<u8>, x: &Vec<u16>)
    ensures
        final(out)@ == old(out)@ + enc_txt_data_representation(x@),
{
    let ghost base = out@;
    write_lit(out, "data_representation{values=");
    proof { assert(out@ =~= base + ("data_representation{values=".spec_bytes())); }
    write_tu16list(out, x);
    proof { assert(out@ =~= base + ("data_representation{values=".spec_bytes() + enc_tu16list(x@))); }
    out.push(125);
    proof { assert(out@ =~= base + ("data_representation{values=".spec_bytes() + enc_tu16list(x@) + seq![125u8])); }
}

#[verifier::rlimit(100)]
#[verifier::spinoff_prover]
pub(crate) fn read_txt_data_representation(buf: &Vec<u8>, pos: usize) -> (r: Result<(Vec<u16>, usize), QosError>)
    requires
        pos <= buf@.len(),
    ensures
        match r {
            Ok((y, p2)) => pos <= p2 <= buf@.len() && sp_txt_data_representation(buf@.skip(pos as int)) == Some(
                (y@, buf@.skip(p2 as int)),
            ),
            Err(e) => e == QosError::SerializationError && sp_txt_data_representation(
                buf@.skip(pos as int),
            ) is None,
        },
{
    let p = pos;
    let p = match expect_lit(buf, p, "data_representation{values=") { Ok(x) => x, Err(e) => { return Err(e); } };
    let (values, p) = match read_tu16list(buf, p) { Ok(x) => x, Err(e) => { return Err(e); } };
    let p = match read_exact(buf, p, 125) { Ok(x) => x, Err(e) => { return Err(e); } };
    Ok((values, p))
}

// ---------------------------------------------------------------------------
// The tagged option layer of the text form: one presence character per
// policy, then the named segment for a present one.
// ---------------------------------------------------------------------------

pub open spec fn enc_topt<T>(o: Option<T>, f: spec_fn(T) -> Seq<u8>) -> Seq<u8> {
    match o {
        None => seq![48u8],
        Some(v) => seq![49u8] + f(v),
    }
}

pub open spec fn sp_topt<T>(s: Seq<u8>, g: spec_fn(Seq<u8>) -> Option<(T, Seq<u8>)>) -> Option<
    (Option<T>, Seq<u8>),
> {
    match crate::wire::sp_byte(s) {
        Some((t, rest)) => if t == 48 {
            Some((Option::<T>::None, rest))
        } else if t == 49 {
            match g(rest) {
                Some((v, fin)) => Some((Some(v), fin)),
                None => None,
            }
        } else {
            None
        },
        None => None,
    }
}

/// A tagged optional segment parses back to itself whenever the segment does.
pub proof fn lemma_topt_round_trip<T>(
    o: Option<T>,
    rest: Seq<u8>,
    f: spec_fn(T) -> Seq<u8>,
    g: spec_fn(Seq<u8>) -> Option<(T, Seq<u8>)>,
)
    requires
        o matches Some(v) ==> g(f(v) + rest) == Some((v, rest)),
    ensures
        sp_topt(enc_topt(o, f) + rest, g) == Some((o, rest)),
{
    match o {
        None => {
            assert((seq![48u8] + rest).skip(1) =~= rest);
        },
        Some(v) => {
            assert(enc_topt(o, f) + rest =~= seq![49u8] + (f(v) + rest));
            assert((seq![49u8] + (f(v) + rest)).skip(1) =~= f(v) + rest);
        },
    }
}


fn write_topt_user_data(out: &mut Vec<u8>, o: &Option<Vec<u8>>)
    ensures
        final(out)@ == old(out)@ + enc_topt(o.deep_view(), |v: Seq<u8>| enc_txt_user_data(v)),
{
    match o {
        None => {
            let ghost prev = out@;
            out.push(48);
            proof {
                assert(out@ =~= prev + seq![48u8]);
            }
        },
        Some(v) => {
            let ghost prev = out@;
            out.push(49);
            proof {
                assert(out@ =~= prev + seq![49u8]);
            }
            write_txt_user_data(out, v);
            proof {
                assert(out@ =~= prev + (seq![49u8] + enc_txt_user_data(v@)));
                assert(o.deep_view() == Some(v@));
            }
        },
    }
}

fn read_topt_user_data(buf: &Vec<u8>, pos: usize) -> (r: Result<(Option<Vec<u8>>, usize), QosError>)
    requires
        pos <= buf@.len(),
    ensures
        match r {
            Ok((o, p2)) => pos <= p2 <= buf@.len() && sp_topt(
                buf@.skip(pos as int),
                |s2: Seq<u8>| sp_txt_user_data(s2),
            ) == Some((o.deep_view(), buf@.skip(p2 as int))),
            Err(e) => e == QosError::SerializationError && sp_topt(
                buf@.skip(pos as int),
                |s2: Seq<u8>| sp_txt_user_data(s2),
            ) is None,
        },
{
    let (tag, p) = match crate::wire::read_byte(buf, pos) {
        Ok(x) => x,
        Err(e) => {
            return Err(e);
        },
    };
    if tag == 48 {
        Ok((None, p))
    } else if tag == 49 {
        match read_txt_user_data(buf, p) {
            Ok((y, p2)) => Ok((Some(y), p2)),
            Err(e) => Err(e),
        }
    } else {
        Err(QosError::SerializationError)
    }
}


fn write_topt_topic_data(out: &mut Vec<u8>, o: &Option<Vec<u8>>)
    ensures
        final(out)@ == old(out)@ + enc_topt(o.deep_view(), |v: Seq<u8>| enc_txt_topic_data(v)),
{
    match o {
        None => {
            let ghost prev = out@;
            out.push(48);
            proof {
                assert(out@ =~= prev + seq![48u8]);
            }
        },
        Some(v) => {
            let ghost prev = out@;
            out.push(49);
            proof {
                assert(out@ =~= prev + seq![49u8]);
            }
            write_txt_topic_data(out, v);
            proof {
                assert(out@ =~= prev + (seq![49u8] + enc_txt_topic_data(v@)));
                assert(o.deep_view() == Some(v@));
            }
        },
    }
}

fn read_topt_topic_data(buf: &Vec<u8>, pos: usize) -> (r: Result<(Option<Vec<u8>>, usize), QosError>)
    requires
        pos <= buf@.len(),
    ensures
        match r {
            Ok((o, p2)) => pos <= p2 <= buf@.len() && sp_topt(
                buf@.skip(pos as int),
                |s2: Seq<u8>| sp_txt_topic_data(s2),
            ) == Some((o.deep_view(), buf@.skip(p2 as int))),
            Err(e) => e == QosError::SerializationError && sp_topt(
                buf@.skip(pos as int),
                |s2: Seq<u8>| sp_txt_topic_data(s2),
            ) is None,
        },
{
    let (tag, p) = match crate::wire::read_byte(buf, pos) {
        Ok(x) => x,
        Err(e) => {
            return Err(e);
        },
    };
    if tag == 48 {
        Ok((None, p))
    } else if tag == 49 {
        match read_txt_topic_data(buf, p) {
            Ok((y, p2)) => Ok((Some(y), p2)),
            Err(e) => Err(e),
        }
    } else {
        Err(QosError::SerializationError)
    }
}


fn write_topt_group_data(out: &mut Vec<u8>, o: &Option<Vec<u8>>)
    ensures
        final(out)@ == old(out)@ + enc_topt(o.deep_view(), |v: Seq<u8>| enc_txt_group_data(v)),
{
    match o {
        None => {
            let ghost prev = out@;
            out.push(48);
            proof {
                assert(out@ =~= prev + seq![48u8]);
            }
        },
        Some(v) => {
            let ghost prev = out@;
            out.push(49);
            proof {
                assert(out@ =~= prev + seq![49u8]);
            }
            write_txt_group_data(out, v);
            proof {
                assert(out@ =~= prev + (seq![49u8] + enc_txt_group_data(v@)));
                assert(o.deep_view() == Some(v@));
            }
        },
    }
}

fn read_topt_group_data(buf: &Vec<u8>, pos: usize) -> (r: Result<(Option<Vec<u8>>, usize), QosError>)
    requires
        pos <= buf@.len(),
    ensures
        match r {
            Ok((o, p2)) => pos <= p2 <= buf@.len() && sp_topt(
                buf@.skip(pos as int),
                |s2: Seq<u8>| sp_txt_group_data(s2),
            ) == Some((o.deep_view(), buf@.skip(p2 as int))),
            Err(e) => e == QosError::SerializationError && sp_topt(
                buf@.skip(pos as int),
                |s2: Seq<u8>| sp_txt_group_data(s2),
            ) is None,
        },
{
    let (tag, p) = match crate::wire::read_byte(buf, pos) {
        Ok(x) => x,
        Err(e) => {
            return Err(e);
        },
    };
    if tag == 48 {
        Ok((None, p))
    } else if tag == 49 {
        match read_txt_group_data(buf, p) {
            Ok((y, p2)) => Ok((Some(y), p2)),
            Err(e) => Err(e),
        }
    } else {
        Err(QosError::SerializationError)
    }
}


fn write_topt_durability(out: &mut Vec<u8>, o: &Option<Durability>)
    ensures
        final(out)@ == old(out)@ + enc_topt(o.deep_view(), |v: Durability| enc_txt_durability(v)),
{
    match o {
        None => {
            let ghost prev = out@;
            out.push(48);
            proof {
                assert(out@ =~= prev + seq![48u8]);
            }
        },
        Some(v) => {
            let ghost prev = out@;
            out.push(49);
            proof {
                assert(out@ =~= prev + seq![49u8]);
            }
            write_txt_durability(out, v);
            proof {
                assert(out@ =~= prev + (seq![49u8] + enc_txt_durability((*v))));
                assert(o.deep_view() == Some((*v)));
            }
        },
    }
}

fn read_topt_durability(buf: &Vec<u8>, pos: usize) -> (r: Result<(Option<Durability>, usize), QosError>)
    requires
        pos <= buf@.len(),
    ensures
        match r {
            Ok((o, p2)) => pos <= p2 <= buf@.len() && sp_topt(
                buf@.skip(pos as int),
                |s2: Seq<u8>| sp_txt_durability(s2),
            ) == Some((o.deep_view(), buf@.skip(p2 as int))),
            Err(e) => e == QosError::SerializationError && sp_topt(
                buf@.skip(pos as int),
                |s2: Seq<u8>| sp_txt_durability(s2),
            ) is None,
        },
{
    let (tag, p) = match crate::wire::read_byte(buf, pos) {
        Ok(x) => x,
        Err(e) => {
            return Err(e);
        },
    };
    if tag == 48 {
        Ok((None, p))
    } else if tag == 49 {
        match read_txt_durability(buf, p) {
            Ok((y, p2)) => Ok((Some(y), p2)),
            Err(e) => Err(e),
        }
    } else {
        Err(QosError::SerializationError)
    }
}


fn write_topt_durability_service(out: &mut Vec<u8>, o: &Option<DurabilityService>)
    ensures
        final(out)@ == old(out)@ + enc_topt(o.deep_view(), |v: DurabilityService| enc_txt_durability_service(v)),
{
    match o {
        None => {
            let ghost prev = out@;
            out.push(48);
            proof {
                assert(out@ =~= prev + seq![48u8]);
            }
        },
        Some(v) => {
            let ghost prev = out@;
            out.push(49);
            proof {
                assert(out@ =~= prev + seq![49u8]);
            }
            write_txt_durability_service(out, v);
            proof {
                assert(out@ =~= prev + (seq![49u8] + enc_txt_durability_service((*v))));
                assert(o.deep_view() == Some((*v)));
            }
        },
    }
}

fn read_topt_durability_service(buf: &Vec<u8>, pos: usize) -> (r: Result<(Option<DurabilityService>, usize), QosError>)
    requires
        pos <= buf@.len(),
    ensures
        match r {
            Ok((o, p2)) => pos <= p2 <= buf@.len() && sp_topt(
                buf@.skip(pos as int),
                |s2: Seq<u8>| sp_txt_durability_service(s2),
            ) == Some((o.deep_view(), buf@.skip(p2 as int))),
            Err(e) => e == QosError::SerializationError && sp_topt(
                buf@.skip(pos as int),
                |s2: Seq<u8>| sp_txt_durability_service(s2),
            ) is None,
        },
{
    let (tag, p) = match crate::wire::read_byte(buf, pos) {
        Ok(x) => x,
        Err(e) => {
            return Err(e);
        },
    };
    if tag == 48 {
        Ok((None, p))
    } else if tag == 49 {
        match read_txt_durability_service(buf, p) {
            Ok((y, p2)) => Ok((Some(y), p2)),
            Err(e) => Err(e),
        }
    } else {
        Err(QosError::SerializationError)
    }
}


fn write_topt_presentation(out: &mut Vec<u8>, o: &Option<Presentation>)
    ensures
        final(out)@ == old(out)@ + enc_topt(o.deep_view(), |v: Presentation| enc_txt_presentation(v)),
{
    match o {
        None => {
            let ghost prev = out@;
            out.push(48);
            proof {
                assert(out@ =~= prev + seq![48u8]);
            }
        },
        Some(v) => {
            let ghost prev = out@;
            out.push(49);
            proof {
                assert(out@ =~= prev + seq![49u8]);
            }
            write_txt_presentation(out, v);
            proof {
                assert(out@ =~= prev + (seq![49u8] + enc_txt_presentation((*v))));
                assert(o.deep_view() == Some((*v)));
            }
        },
    }
}

fn read_topt_presentation(buf: &Vec<u8>, pos: usize) -> (r: Result<(Option<Presentation>, usize), QosError>)
    requires
        pos <= buf@.len(),
    ensures
        match r {
            Ok((o, p2)) => pos <= p2 <= buf@.len() && sp_topt(
                buf@.skip(pos as int),
                |s2: Seq<u8>| sp_txt_presentation(s2),
            ) == Some((o.deep_view(), buf@.skip(p2 as int))),
            Err(e) => e == QosError::SerializationError && sp_topt(
                buf@.skip(pos as int),
                |s2: Seq<u8>| sp_txt_presentation(s2),
            ) is None,
        },
{
    let (tag, p) = match crate::wire::read_byte(buf, pos) {
        Ok(x) => x,
        Err(e) => {
            return Err(e);
        },
    };
    if tag == 48 {
        Ok((None, p))
    } else if tag == 49 {
        match read_txt_presentation(buf, p) {
            Ok((y, p2)) => Ok((Some(y), p2)),
            Err(e) => Err(e),
        }
    } else {
        Err(QosError::SerializationError)
    }
}


fn write_topt_deadline(out: &mut Vec<u8>, o: &Option<Deadline>)
    ensures
        final(out)@ == old(out)@ + enc_topt(o.deep_view(), |v: Deadline| enc_txt_deadline(v)),
{
    match o {
        None => {
            let ghost prev = out@;
            out.push(48);
            proof {
                assert(out@ =~= prev + seq![48u8]);
            }
        },
        Some(v) => {
            let ghost prev = out@;
            out.push(49);
            proof {
                assert(out@ =~= prev + seq![49u8]);
            }
            write_txt_deadline(out, v);
            proof {
                assert(out@ =~= prev + (seq![49u8] + enc_txt_deadline((*v))));
                assert(o.deep_view() == Some((*v)));
            }
        },
    }
}

fn read_topt_deadline(buf: &Vec<u8>, pos: usize) -> (r: Result<(Option<Deadline>, usize), QosError>)
    requires
        pos <= buf@.len(),
    ensures
        match r {
            Ok((o, p2)) => pos <= p2 <= buf@.len() && sp_topt(
                buf@.skip(pos as int),
                |s2: Seq<u8>| sp_txt_deadline(s2),
            ) == Some((o.deep_view(), buf@.skip(p2 as int))),
            Err(e) => e == QosError::SerializationError && sp_topt(
                buf@.skip(pos as int),
                |s2: Seq<u8>| sp_txt_deadline(s2),
            ) is None,
        },
{
    let (tag, p) = match crate::wire::read_byte(buf, pos) {
        Ok(x) => x,
        Err(e) => {
            return Err(e);
        },
    };
    if tag == 48 {
        Ok((None, p))
    } else if tag == 49 {
        match read_txt_deadline(buf, p) {
            Ok((y, p2)) => Ok((Some(y), p2)),
            Err(e) => Err(e),
        }
    } else {
        Err(QosError::SerializationError)
    }
}


fn write_topt_latency_budget(out: &mut Vec<u8>, o: &Option<LatencyBudget>)
    ensures
        final(out)@ == old(out)@ + enc_topt(o.deep_view(), |v: LatencyBudget| enc_txt_latency_budget(v)),
{
    match o {
        None => {
            let ghost prev = out@;
            out.push(48);
            proof {
                assert(out@ =~= prev + seq![48u8]);
            }
        },
        Some(v) => {
            let ghost prev = out@;
            out.push(49);
            proof {
                assert(out@ =~= prev + seq![49u8]);
            }
            write_txt_latency_budget(out, v);
            proof {
                assert(out@ =~= prev + (seq![49u8] + enc_txt_latency_budget((*v))));
                assert(o.deep_view() == Some((*v)));
            }
        },
    }
}

fn read_topt_latency_budget(buf: &Vec<u8>, pos: usize) -> (r: Result<(Option<LatencyBudget>, usize), QosError>)
    requires
        pos <= buf@.len(),
    ensures
        match r {
            Ok((o, p2)) => pos <= p2 <= buf@.len() && sp_topt(
                buf@.skip(pos as int),
                |s2: Seq<u8>| sp_txt_latency_budget(s2),
            ) == Some((o.deep_view(), buf@.skip(p2 as int))),
            Err(e) => e == QosError::SerializationError && sp_topt(
                buf@.skip(pos as int),
                |s2: Seq<u8>| sp_txt_latency_budget(s2),
            ) is None,
        },
{
    let (tag, p) = match crate::wire::read_byte(buf, pos) {
        Ok(x) => x,
        Err(e) => {
            return Err(e);
        },
    };
    if tag == 48 {
        Ok((None, p))
    } else if tag == 49 {
        match read_txt_latency_budget(buf, p) {
            Ok((y, p2)) => Ok((Some(y), p2)),
            Err(e) => Err(e),
        }
    } else {
        Err(QosError::SerializationError)
    }
}


fn write_topt_ownership(out: &mut Vec<u8>, o: &Option<Ownership>)
    ensures
        final(out)@ == old(out)@ + enc_topt(o.deep_view(), |v: Ownership| enc_txt_ownership(v)),
{
    match o {
        None => {
            let ghost prev = out@;
            out.push(48);
            proof {
                assert(out@ =~= prev + seq![48u8]);
            }
        },
        Some(v) => {
            let ghost prev = out@;
            out.push(49);
            proof {
                assert(out@ =~= prev + seq![49u8]);
            }
            write_txt_ownership(out, v);
            proof {
                assert(out@ =~= prev + (seq![49u8] + enc_txt_ownership((*v))));
                assert(o.deep_view() == Some((*v)));
            }
        },
    }
}

fn read_topt_ownership(buf: &Vec<u8>, pos: usize) -> (r: Result<(Option<Ownership>, usize), QosError>)
    requires
        pos <= buf@.len(),
    ensures
        match r {
            Ok((o, p2)) => pos <= p2 <= buf@.len() && sp_topt(
                buf@.skip(pos as int),
                |s2: Seq<u8>| sp_txt_ownership(s2),
            ) == Some((o.deep_view(), buf@.skip(p2 as int))),
            Err(e) => e == QosError::SerializationError && sp_topt(
                buf@.skip(pos as int),
                |s2: Seq<u8>| sp_txt_ownership(s2),
            ) is None,
        },
{
    let (tag, p) = match crate::wire::read_byte(buf, pos) {
        Ok(x) => x,
        Err(e) => {
            return Err(e);
        },
    };
    if tag == 48 {
        Ok((None, p))
    } else if tag == 49 {
        match read_txt_ownership(buf, p) {
            Ok((y, p2)) => Ok((Some(y), p2)),
            Err(e) => Err(e),
        }
    } else {
        Err(QosError::SerializationError)
    }
}


fn write_topt_ownership_strength(out: &mut Vec<u8>, o: &Option<OwnershipStrength>)
    ensures
        final(out)@ == old(out)@ + enc_topt(o.deep_view(), |v: OwnershipStrength| enc_txt_ownership_strength(v)),
{
    match o {
        None => {
            let ghost prev = out@;
            out.push(48);
            proof {
                assert(out@ =~= prev + seq![48u8]);
            }
        },
        Some(v) => {
            let ghost prev = out@;
            out.push(49);
            proof {
                assert(out@ =~= prev + seq![49u8]);
            }
            write_txt_ownership_strength(out, v);
            proof {
                assert(out@ =~= prev + (seq![49u8] + enc_txt_ownership_strength((*v))));
                assert(o.deep_view() == Some((*v)));
            }
        },
    }
}

fn read_topt_ownership_strength(buf: &Vec<u8>, pos: usize) -> (r: Result<(Option<OwnershipStrength>, usize), QosError>)
    requires
        pos <= buf@.len(),
    ensures
        match r {
            Ok((o, p2)) => pos <= p2 <= buf@.len() && sp_topt(
                buf@.skip(pos as int),
                |s2: Seq<u8>| sp_txt_ownership_strength(s2),
            ) == Some((o.deep_view(), buf@.skip(p2 as int))),
            Err(e) => e == QosError::SerializationError && sp_topt(
                buf@.skip(pos as int),
                |s2: Seq<u8>| sp_txt_ownership_strength(s2),
            ) is None,
        },
{
    let (tag, p) = match crate::wire::read_byte(buf, pos) {
        Ok(x) => x,
        Err(e) => {
            return Err(e);
        },
    };
    if tag == 48 {
        Ok((None, p))
    } else if tag == 49 {
        match read_txt_ownership_strength(buf, p) {
            Ok((y, p2)) => Ok((Some(y), p2)),
            Err(e) => Err(e),
        }
    } else {
        Err(QosError::SerializationError)
    }
}


fn write_topt_liveliness(out: &mut Vec<u8>, o: &Option<Liveliness>)
    ensures
        final(out)@ == old(out)@ + enc_topt(o.deep_view(), |v: Liveliness| enc_txt_liveliness(v)),
{
    match o {
        None => {
            let ghost prev = out@;
            out.push(48);
            proof {
                assert(out@ =~= prev + seq![48u8]);
            }
        },
        Some(v) => {
            let ghost prev = out@;
            out.push(49);
            proof {
                assert(out@ =~= prev + seq![49u8]);
            }
            write_txt_liveliness(out, v);
            proof {
                assert(out@ =~= prev + (seq![49u8] + enc_txt_liveliness((*v))));
                assert(o.deep_view() == Some((*v)));
            }
        },
    }
}

fn read_topt_liveliness(buf: &Vec<u8>, pos: usize) -> (r: Result<(Option<Liveliness>, usize), QosError>)
    requires
        pos <= buf@.len(),
    ensures
        match r {
            Ok((o, p2)) => pos <= p2 <= buf@.len() && sp_topt(
                buf@.skip(pos as int),
                |s2: Seq<u8>| sp_txt_liveliness(s2),
            ) == Some((o.deep_view(), buf@.skip(p2 as int))),
            Err(e) => e == QosError::SerializationError && sp_topt(
                buf@.skip(pos as int),
                |s2: Seq<u8>| sp_txt_liveliness(s2),
            ) is None,
        },
{
    let (tag, p) = match crate::wire::read_byte(buf, pos) {
        Ok(x) => x,
        Err(e) => {
            return Err(e);
        },
    };
    if tag == 48 {
        Ok((None, p))
    } else if tag == 49 {
        match read_txt_liveliness(buf, p) {
            Ok((y, p2)) => Ok((Some(y), p2)),
            Err(e) => Err(e),
        }
    } else {
        Err(QosError::SerializationError)
    }
}


fn write_topt_time_based_filter(out: &mut Vec<u8>, o: &Option<TimeBasedFilter>)
    ensures
        final(out)@ == old(out)@ + enc_topt(o.deep_view(), |v: TimeBasedFilter| enc_txt_time_based_filter(v)),
{
    match o {
        None => {
            let ghost prev = out@;
            out.push(48);
            proof {
                assert(out@ =~= prev + seq![48u8]);
            }
        },
        Some(v) => {
            let ghost prev = out@;
            out.push(49);
            proof {
                assert(out@ =~= prev + seq![49u8]);
            }
            write_txt_time_based_filter(out, v);
            proof {
                assert(out@ =~= prev + (seq![49u8] + enc_txt_time_based_filter((*v))));
                assert(o.deep_view() == Some((*v)));
            }
        },
    }
}

fn read_topt_time_based_filter(buf: &Vec<u8>, pos: usize) -> (r: Result<(Option<TimeBasedFilter>, usize), QosError>)
    requires
        pos <= buf@.len(),
    ensures
        match r {
            Ok((o, p2)) => pos <= p2 <= buf@.len() && sp_topt(
                buf@.skip(pos as int),
                |s2: Seq<u8>| sp_txt_time_based_filter(s2),
            ) == Some((o.deep_view(), buf@.skip(p2 as int))),
            Err(e) => e == QosError::SerializationError && sp_topt(
                buf@.skip(pos as int),
                |s2: Seq<u8>| sp_txt_time_based_filter(s2),
            ) is None,
        },
{
    let (tag, p) = match crate::wire::read_byte(buf, pos) {
        Ok(x) => x,
        Err(e) => {
            return Err(e);
        },
    };
    if tag == 48 {
        Ok((None, p))
    } else if tag == 49 {
        match read_txt_time_based_filter(buf, p) {
            Ok((y, p2)) => Ok((Some(y), p2)),
            Err(e) => Err(e),
        }
    } else {
        Err(QosError::SerializationError)
    }
}


fn write_topt_partition(out: &mut Vec<u8>, o: &Option<Vec<String>>)
    ensures
        final(out)@ == old(out)@ + enc_topt(o.deep_view(), |v: Seq<Seq<char>>| enc_txt_partition(v)),
{
    match o {
        None => {
            let ghost prev = out@;
            out.push(48);
            proof {
                assert(out@ =~= prev + seq![48u8]);
            }
        },
        Some(v) => {
            let ghost prev = out@;
            out.push(49);
            proof {
                assert(out@ =~= prev + seq![49u8]);
            }
            write_txt_partition(out, v);
            proof {
                assert(out@ =~= prev + (seq![49u8] + enc_txt_partition(v.deep_view())));
                assert(o.deep_view() == Some(v.deep_view()));
            }
        },
    }
}

fn read_topt_partition(buf: &Vec<u8>, pos: usize) -> (r: Result<(Option<Vec<String>>, usize), QosError>)
    requires
        pos <= buf@.len(),
    ensures
        match r {
            Ok((o, p2)) => pos <= p2 <= buf@.len() && sp_topt(
                buf@.skip(pos as int),
                |s2: Seq<u8>| sp_txt_partition(s2),
            ) == Some((o.deep_view(), buf@.skip(p2 as int))),
            Err(e) => e == QosError::SerializationError && sp_topt(
                buf@.skip(pos as int),
                |s2: Seq<u8>| sp_txt_partition(s2),
            ) is None,
        },
{
    let (tag, p) = match crate::wire::read_byte(buf, pos) {
        Ok(x) => x,
        Err(e) => {
            return Err(e);
        },
    };
    if tag == 48 {
        Ok((None, p))
    } else if tag == 49 {
        match read_txt_partition(buf, p) {
            Ok((y, p2)) => Ok((Some(y), p2)),
            Err(e) => Err(e),
        }
    } else {
        Err(QosError::SerializationError)
    }
}


fn write_topt_reliability(out: &mut Vec<u8>, o: &Option<Reliability>)
    ensures
        final(out)@ == old(out)@ + enc_topt(o.deep_view(), |v: Reliability| enc_txt_reliability(v)),
{
    match o {
        None => {
            let ghost prev = out@;
            out.push(48);
            proof {
                assert(out@ =~= prev + seq![48u8]);
            }
        },
        Some(v) => {
            let ghost prev = out@;
            out.push(49);
            proof {
                assert(out@ =~= prev + seq![49u8]);
            }
            write_txt_reliability(out, v);
            proof {
                assert(out@ =~= prev + (seq![49u8] + enc_txt_reliability((*v))));
                assert(o.deep_view() == Some((*v)));
            }
        },
    }
}

fn read_topt_reliability(buf: &Vec<u8>, pos: usize) -> (r: Result<(Option<Reliability>, usize), QosError>)
    requires
        pos <= buf@.len(),
    ensures
        match r {
            Ok((o, p2)) => pos <= p2 <= buf@.len() && sp_topt(
                buf@.skip(pos as int),
                |s2: Seq<u8>| sp_txt_reliability(s2),
            ) == Some((o.deep_view(), buf@.skip(p2 as int))),
            Err(e) => e == QosError::SerializationError && sp_topt(
                buf@.skip(pos as int),
                |s2: Seq<u8>| sp_txt_reliability(s2),
            ) is None,
        },
{
    let (tag, p) = match crate::wire::read_byte(buf, pos) {
        Ok(x) => x,
        Err(e) => {
            return Err(e);
        },
    };
    if tag == 48 {
        Ok((None, p))
    } else if tag == 49 {
        match read_txt_reliability(buf, p) {
            Ok((y, p2)) => Ok((Some(y), p2)),
            Err(e) => Err(e),
        }
    } else {
        Err(QosError::SerializationError)
    }
}


fn write_topt_transport_priority(out: &mut Vec<u8>, o: &Option<TransportPriority>)
    ensures
        final(out)@ == old(out)@ + enc_topt(o.deep_view(), |v: TransportPriority| enc_txt_transport_priority(v)),
{
    match o {
        None => {
            let ghost prev = out@;
            out.push(48);
            proof {
                assert(out@ =~= prev + seq![48u8]);
            }
        },
        Some(v) => {
            let ghost prev = out@;
            out.push(49);
            proof {
                assert(out@ =~= prev + seq![49u8]);
            }
            write_txt_transport_priority(out, v);
            proof {
                assert(out@ =~= prev + (seq![49u8] + enc_txt_transport_priority((*v))));
                assert(o.deep_view() == Some((*v)));
            }
        },
    }
}

fn read_topt_transport_priority(buf: &Vec<u8>, pos: usize) -> (r: Result<(Option<TransportPriority>, usize), QosError>)
    requires
        pos <= buf@.len(),
    ensures
        match r {
            Ok((o, p2)) => pos <= p2 <= buf@.len() && sp_topt(
                buf@.skip(pos as int),
                |s2: Seq<u8>| sp_txt_transport_priority(s2),
            ) == Some((o.deep_view(), buf@.skip(p2 as int))),
            Err(e) => e == QosError::SerializationError && sp_topt(
                buf@.skip(pos as int),
                |s2: Seq<u8>| sp_txt_transport_priority(s2),
            ) is None,
        },
{
    let (tag, p) = match crate::wire::read_byte(buf, pos) {
        Ok(x) => x,
        Err(e) => {
            return Err(e);
        },
    };
    if tag == 48 {
        Ok((None, p))
    } else if tag == 49 {
        match read_txt_transport_priority(buf, p) {
            Ok((y, p2)) => Ok((Some(y), p2)),
            Err(e) => Err(e),
        }
    } else {
        Err(QosError::SerializationError)
    }
}


fn write_topt_lifespan(out: &mut Vec<u8>, o: &Option<Lifespan>)
    ensures
        final(out)@ == old(out)@ + enc_topt(o.deep_view(), |v: Lifespan| enc_txt_lifespan(v)),
{
    match o {
        None => {
            let ghost prev = out@;
            out.push(48);
            proof {
                assert(out@ =~= prev + seq![48u8]);
            }
        },
        Some(v) => {
            let ghost prev = out@;
            out.push(49);
            proof {
                assert(out@ =~= prev + seq![49u8]);
            }
            write_txt_lifespan(out, v);
            proof {
                assert(out@ =~= prev + (seq![49u8] + enc_txt_lifespan((*v))));
                assert(o.deep_view() == Some((*v)));
            }
        },
    }
}

fn read_topt_lifespan(buf: &Vec<u8>, pos: usize) -> (r: Result<(Option<Lifespan>, usize), QosError>)
    requires
        pos <= buf@.len(),
    ensures
        match r {
            Ok((o, p2)) => pos <= p2 <= buf@.len() && sp_topt(
                buf@.skip(pos as int),
                |s2: Seq<u8>| sp_txt_lifespan(s2),
            ) == Some((o.deep_view(), buf@.skip(p2 as int))),
            Err(e) => e == QosError::SerializationError && sp_topt(
                buf@.skip(pos as int),
                |s2: Seq<u8>| sp_txt_lifespan(s2),
            ) is None,
        },
{
    let (tag, p) = match crate::wire::read_byte(buf, pos) {
        Ok(x) => x,
        Err(e) => {
            return Err(e);
        },
    };
    if tag == 48 {
        Ok((None, p))
    } else if tag == 49 {
        match read_txt_lifespan(buf, p) {
            Ok((y, p2)) => Ok((Some(y), p2)),
            Err(e) => Err(e),
        }
    } else {
        Err(QosError::SerializationError)
    }
}


fn write_topt_destination_order(out: &mut Vec<u8>, o: &Option<DestinationOrder>)
    ensures
        final(out)@ == old(out)@ + enc_topt(o.deep_view(), |v: DestinationOrder| enc_txt_destination_order(v)),
{
    match o {
        None => {
            let ghost prev = out@;
            out.push(48);
            proof {
                assert(out@ =~= prev + seq![48u8]);
            }
        },
        Some(v) => {
            let ghost prev = out@;
            out.push(49);
            proof {
                assert(out@ =~= prev + seq![49u8]);
            }
            write_txt_destination_order(out, v);
            proof {
                assert(out@ =~= prev + (seq![49u8] + enc_txt_destination_order((*v))));
                assert(o.deep_view() == Some((*v)));
            }
        },
    }
}

fn read_topt_destination_order(buf: &Vec<u8>, pos: usize) -> (r: Result<(Option<DestinationOrder>, usize), QosError>)
    requires
        pos <= buf@.len(),
    ensures
        match r {
            Ok((o, p2)) => pos <= p2 <= buf@.len() && sp_topt(
                buf@.skip(pos as int),
                |s2: Seq<u8>| sp_txt_destination_order(s2),
            ) == Some((o.deep_view(), buf@.skip(p2 as int))),
            Err(e) => e == QosError::SerializationError && sp_topt(
                buf@.skip(pos as int),
                |s2: Seq<u8>| sp_txt_destination_order(s2),
            ) is None,
        },
{
    let (tag, p) = match crate::wire::read_byte(buf, pos) {
        Ok(x) => x,
        Err(e) => {
            return Err(e);
        },
    };
    if tag == 48 {
        Ok((None, p))
    } else if tag == 49 {
        match read_txt_destination_order(buf, p) {
            Ok((y, p2)) => Ok((Some(y), p2)),
            Err(e) => Err(e),
        }
    } else {
        Err(QosError::SerializationError)
    }
}


fn write_topt_history(out: &mut Vec<u8>, o: &Option<History>)
    ensures
        final(out)@ == old(out)@ + enc_topt(o.deep_view(), |v: History| enc_txt_history(v)),
{
    match o {
        None => {
            let ghost prev = out@;
            out.push(48);
            proof {
                assert(out@ =~= prev + seq![48u8]);
            }
        },
        Some(v) => {
            let ghost prev = out@;
            out.push(49);
            proof {
                assert(out@ =~= prev + seq![49u8]);
            }
            write_txt_history(out, v);
            proof {
                assert(out@ =~= prev + (seq![49u8] + enc_txt_history((*v))));
                assert(o.deep_view() == Some((*v)));
            }
        },
    }
}

fn read_topt_history(buf: &Vec<u8>, pos: usize) -> (r: Result<(Option<History>, usize), QosError>)
    requires
        pos <= buf@.len(),
    ensures
        match r {
            Ok((o, p2)) => pos <= p2 <= buf@.len() && sp_topt(
                buf@.skip(pos as int),
                |s2: Seq<u8>| sp_txt_history(s2),
            ) == Some((o.deep_view(), buf@.skip(p2 as int))),
            Err(e) => e == QosError::SerializationError && sp_topt(
                buf@.skip(pos as int),
                |s2: Seq<u8>| sp_txt_history(s2),
            ) is None,
        },
{
    let (tag, p) = match crate::wire::read_byte(buf, pos) {
        Ok(x) => x,
        Err(e) => {
            return Err(e);
        },
    };
    if tag == 48 {
        Ok((None, p))
    } else if tag == 49 {
        match read_txt_history(buf, p) {
            Ok((y, p2)) => Ok((Some(y), p2)),
            Err(e) => Err(e),
        }
    } else {
        Err(QosError::SerializationError)
    }
}


fn write_topt_resource_limits(out: &mut Vec<u8>, o: &Option<ResourceLimits>)
    ensures
        final(out)@ == old(out)@ + enc_topt(o.deep_view(), |v: ResourceLimits| enc_txt_resource_limits(v)),
{
    match o {
        None => {
            let ghost prev = out@;
            out.push(48);
            proof {
                assert(out@ =~= prev + seq![48u8]);
            }
        },
        Some(v) => {
            let ghost prev = out@;
            out.push(49);
            proof {
                assert(out@ =~= prev + seq![49u8]);
            }
            write_txt_resource_limits(out, v);
            proof {
                assert(out@ =~= prev + (seq![49u8] + enc_txt_resource_limits((*v))));
                assert(o.deep_view() == Some((*v)));
            }
        },
    }
}

fn read_topt_resource_limits(buf: &Vec<u8>, pos: usize) -> (r: Result<(Option<ResourceLimits>, usize), QosError>)
    requires
        pos <= buf@.len(),
    ensures
        match r {
            Ok((o, p2)) => pos <= p2 <= buf@.len() && sp_topt(
                buf@.skip(pos as int),
                |s2: Seq<u8>| sp_txt_resource_limits(s2),
            ) == Some((o.deep_view(), buf@.skip(p2 as int))),
            Err(e) => e == QosError::SerializationError && sp_topt(
                buf@.skip(pos as int),
                |s2: Seq<u8>| sp_txt_resource_limits(s2),
            ) is None,
        },
{
    let (tag, p) = match crate::wire::read_byte(buf, pos) {
        Ok(x) => x,
        Err(e) => {
            return Err(e);
        },
    };
    if tag == 48 {
        Ok((None, p))
    } else if tag == 49 {
        match read_txt_resource_limits(buf, p) {
            Ok((y, p2)) => Ok((Some(y), p2)),
            Err(e) => Err(e),
        }
    } else {
        Err(QosError::SerializationError)
    }
}


fn write_topt_writer_data_lifecycle(out: &mut Vec<u8>, o: &Option<WriterDataLifecycle>)
    ensures
        final(out)@ == old(out)@ + enc_topt(o.deep_view(), |v: WriterDataLifecycle| enc_txt_writer_data_lifecycle(v)),
{
    match o {
        None => {
            let ghost prev = out@;
            out.push(48);
            proof {
                assert(out@ =~= prev + seq![48u8]);
            }
        },
        Some(v) => {
            let ghost prev = out@;
            out.push(49);
            proof {
                assert(out@ =~= prev + seq![49u8]);
            }
            write_txt_writer_data_lifecycle(out, v);
            proof {
                assert(out@ =~= prev + (seq![49u8] + enc_txt_writer_data_lifecycle((*v))));
                assert(o.deep_view() == Some((*v)));
            }
        },
    }
}

fn read_topt_writer_data_lifecycle(buf: &Vec<u8>, pos: usize) -> (r: Result<(Option<WriterDataLifecycle>, usize), QosError>)
    requires
        pos <= buf@.len(),
    ensures
        match r {
            Ok((o, p2)) => pos <= p2 <= buf@.len() && sp_topt(
                buf@.skip(pos as int),
                |s2: Seq<u8>| sp_txt_writer_data_lifecycle(s2),
            ) == Some((o.deep_view(), buf@.skip(p2 as int))),
            Err(e) => e == QosError::SerializationError && sp_topt(
                buf@.skip(pos as int),
                |s2: Seq<u8>| sp_txt_writer_data_lifecycle(s2),
            ) is None,
        },
{
    let (tag, p) = match crate::wire::read_byte(buf, pos) {
        Ok(x) => x,
        Err(e) => {
            return Err(e);
        },
    };
    if tag == 48 {
        Ok((None, p))
    } else if tag == 49 {
        match read_txt_writer_data_lifecycle(buf, p) {
            Ok((y, p2)) => Ok((Some(y), p2)),
            Err(e) => Err(e),
        }
    } else {
        Err(QosError::SerializationError)
    }
}


fn write_topt_reader_data_lifecycle(out: &mut Vec<u8>, o: &Option<ReaderDataLifecycle>)
    ensures
        final(out)@ == old(out)@ + enc_topt(o.deep_view(), |v: ReaderDataLifecycle| enc_txt_reader_data_lifecycle(v)),
{
    match o {
        None => {
            let ghost prev = out@;
            out.push(48);
            proof {
                assert(out@ =~= prev + seq![48u8]);
            }
        },
        Some(v) => {
            let ghost prev = out@;
            out.push(49);
            proof {
                assert(out@ =~= prev + seq![49u8]);
            }
            write_txt_reader_data_lifecycle(out, v);
            proof {
                assert(out@ =~= prev + (seq![49u8] + enc_txt_reader_data_lifecycle((*v))));
                assert(o.deep_view() == Some((*v)));
            }
        },
    }
}

fn read_topt_reader_data_lifecycle(buf: &Vec<u8>, pos: usize) -> (r: Result<(Option<ReaderDataLifecycle>, usize), QosError>)
    requires
        pos <= buf@.len(),
    ensures
        match r {
            Ok((o, p2)) => pos <= p2 <= buf@.len() && sp_topt(
                buf@.skip(pos as int),
                |s2: Seq<u8>| sp_txt_reader_data_lifecycle(s2),
            ) == Some((o.deep_view(), buf@.skip(p2 as int))),
            Err(e) => e == QosError::SerializationError && sp_topt(
                buf@.skip(pos as int),
                |s2: Seq<u8>| sp_txt_reader_data_lifecycle(s2),
            ) is None,
        },
{
    let (tag, p) = match crate::wire::read_byte(buf, pos) {
        Ok(x) => x,
        Err(e) => {
            return Err(e);
        },
    };
    if tag == 48 {
        Ok((None, p))
    } else if tag == 49 {
        match read_txt_reader_data_lifecycle(buf, p) {
            Ok((y, p2)) => Ok((Some(y), p2)),
            Err(e) => Err(e),
        }
    } else {
        Err(QosError::SerializationError)
    }
}


fn write_topt_writer_batching(out: &mut Vec<u8>, o: &Option<WriterBatching>)
    ensures
        final(out)@ == old(out)@ + enc_topt(o.deep_view(), |v: WriterBatching| enc_txt_writer_batching(v)),
{
    match o {
        None => {
            let ghost prev = out@;
            out.push(48);
            proof {
                assert(out@ =~= prev + seq![48u8]);
            }
        },
        Some(v) => {
            let ghost prev = out@;
            out.push(49);
            proof {
                assert(out@ =~= prev + seq![49u8]);
            }
            write_txt_writer_batching(out, v);
            proof {
                assert(out@ =~= prev + (seq![49u8] + enc_txt_writer_batching((*v))));
                assert(o.deep_view() == Some((*v)));
            }
        },
    }
}

fn read_topt_writer_batching(buf: &Vec<u8>, pos: usize) -> (r: Result<(Option<WriterBatching>, usize), QosError>)
    requires
        pos <= buf@.len(),
    ensures
        match r {
            Ok((o, p2)) => pos <= p2 <= buf@.len() && sp_topt(
                buf@.skip(pos as int),
                |s2: Seq<u8>| sp_txt_writer_batching(s2),
            ) == Some((o.deep_view(), buf@.skip(p2 as int))),
            Err(e) => e == QosError::SerializationError && sp_topt(
                buf@.skip(pos as int),
                |s2: Seq<u8>| sp_txt_writer_batching(s2),
            ) is None,
        },
{
    let (tag, p) = match crate::wire::read_byte(buf, pos) {
        Ok(x) => x,
        Err(e) => {
            return Err(e);
        },
    };
    if tag == 48 {
        Ok((None, p))
    } else if tag == 49 {
        match read_txt_writer_batching(buf, p) {
            Ok((y, p2)) => Ok((Some(y), p2)),
            Err(e) => Err(e),
        }
    } else {
        Err(QosError::SerializationError)
    }
}


fn write_topt_type_consistency(out: &mut Vec<u8>, o: &Option<TypeConsistency>)
    ensures
        final(out)@ == old(out)@ + enc_topt(o.deep_view(), |v: TypeConsistency| enc_txt_type_consistency(v)),
{
    match o {
        None => {
            let ghost prev = out@;
            out.push(48);
            proof {
                assert(out@ =~= prev + seq![48u8]);
            }
        },
        Some(v) => {
            let ghost prev = out@;
            out.push(49);
            proof {
                assert(out@ =~= prev + seq![49u8]);
            }
            write_txt_type_consistency(out, v);
            proof {
                assert(out@ =~= prev + (seq![49u8] + enc_txt_type_consistency((*v))));
                assert(o.deep_view() == Some((*v)));
            }
        },
    }
}

fn read_topt_type_consistency(buf: &Vec<u8>, pos: usize) -> (r: Result<(Option<TypeConsistency>, usize), QosError>)
    requires
        pos <= buf@.len(),
    ensures
        match r {
            Ok((o, p2)) => pos <= p2 <= buf@.len() && sp_topt(
                buf@.skip(pos as int),
                |s2: Seq<u8>| sp_txt_type_consistency(s2),
            ) == Some((o.deep_view(), buf@.skip(p2 as int))),
            Err(e) => e == QosError::SerializationError && sp_topt(
                buf@.skip(pos as int),
                |s2: Seq<u8>| sp_txt_type_consistency(s2),
            ) is None,
        },
{
    let (tag, p) = match crate::wire::read_byte(buf, pos) {
        Ok(x) => x,
        Err(e) => {
            return Err(e);
        },
    };
    if tag == 48 {
        Ok((None, p))
    } else if tag == 49 {
        match read_txt_type_consistency(buf, p) {
            Ok((y, p2)) => Ok((Some(y), p2)),
            Err(e) => Err(e),
        }
    } else {
        Err(QosError::SerializationError)
    }
}


fn write_topt_entity_name(out: &mut Vec<u8>, o: &Option<EntityName>)
    ensures
        final(out)@ == old(out)@ + enc_topt(o.deep_view(), |v: Seq<char>| enc_txt_entity_name(v)),
{
    match o {
        None => {
            let ghost prev = out@;
            out.push(48);
            proof {
                assert(out@ =~= prev + seq![48u8]);
            }
        },
        Some(v) => {
            let ghost prev = out@;
            out.push(49);
            proof {
                assert(out@ =~= prev + seq![49u8]);
            }
            write_txt_entity_name(out, &v.name);
            proof {
                assert(out@ =~= prev + (seq![49u8] + enc_txt_entity_name(v.name@)));
                assert(o.deep_view() == Some(v.name@));
            }
        },
    }
}

fn read_topt_entity_name(buf: &Vec<u8>, pos: usize) -> (r: Result<(Option<EntityName>, usize), QosError>)
    requires
        pos <= buf@.len(),
    ensures
        match r {
            Ok((o, p2)) => pos <= p2 <= buf@.len() && sp_topt(
                buf@.skip(pos as int),
                |s2: Seq<u8>| sp_txt_entity_name(s2),
            ) == Some((o.deep_view(), buf@.skip(p2 as int))),
            Err(e) => e == QosError::SerializationError && sp_topt(
                buf@.skip(pos as int),
                |s2: Seq<u8>| sp_txt_entity_name(s2),
            ) is None,
        },
{
    let (tag, p) = match crate::wire::read_byte(buf, pos) {
        Ok(x) => x,
        Err(e) => {
            return Err(e);
        },
    };
    if tag == 48 {
        Ok((None, p))
    } else if tag == 49 {
        match read_txt_entity_name(buf, p) {
            Ok((y, p2)) => Ok((Some(EntityName { name: y }), p2)),
            Err(e) => Err(e),
        }
    } else {
        Err(QosError::SerializationError)
    }
}


fn write_topt_properties(out: &mut Vec<u8>, o: &Option<Properties>)
    ensures
        final(out)@ == old(out)@ + enc_topt(o.deep_view(), |v: Seq<PropView>| enc_txt_properties(v)),
{
    match o {
        None => {
            let ghost prev = out@;
            out.push(48);
            proof {
                assert(out@ =~= prev + seq![48u8]);
            }
        },
        Some(v) => {
            let ghost prev = out@;
            out.push(49);
            proof {
                assert(out@ =~= prev + seq![49u8]);
            }
            write_txt_properties(out, v);
            proof {
                assert(out@ =~= prev + (seq![49u8] + enc_txt_properties(v.deep_view())));
                assert(o.deep_view() == Some(v.deep_view()));
            }
        },
    }
}

fn read_topt_properties(buf: &Vec<u8>, pos: usize) -> (r: Result<(Option<Properties>, usize), QosError>)
    requires
        pos <= buf@.len(),
    ensures
        match r {
            Ok((o, p2)) => pos <= p2 <= buf@.len() && sp_topt(
                buf@.skip(pos as int),
                |s2: Seq<u8>| sp_txt_properties(s2),
            ) == Some((o.deep_view(), buf@.skip(p2 as int))),
            Err(e) => e == QosError::SerializationError && sp_topt(
                buf@.skip(pos as int),
                |s2: Seq<u8>| sp_txt_properties(s2),
            ) is None,
        },
{
    let (tag, p) = match crate::wire::read_byte(buf, pos) {
        Ok(x) => x,
        Err(e) => {
            return Err(e);
        },
    };
    if tag == 48 {
        Ok((None, p))
    } else if tag == 49 {
        match read_txt_properties(buf, p) {
            Ok((y, p2)) => Ok((Some(y), p2)),
            Err(e) => Err(e),
        }
    } else {
        Err(QosError::SerializationError)
    }
}


fn write_topt_ignore_local(out: &mut Vec<u8>, o: &Option<IgnoreLocal>)
    ensures
        final(out)@ == old(out)@ + enc_topt(o.deep_view(), |v: IgnoreLocal| enc_txt_ignore_local(v)),
{
    match o {
        None => {
            let ghost prev = out@;
            out.push(48);
            proof {
                assert(out@ =~= prev + seq![48u8]);
            }
        },
        Some(v) => {
            let ghost prev = out@;
            out.push(49);
            proof {
                assert(out@ =~= prev + seq![49u8]);
            }
            write_txt_ignore_local(out, v);
            proof {
                assert(out@ =~= prev + (seq![49u8] + enc_txt_ignore_local((*v))));
                assert(o.deep_view() == Some((*v)));
            }
        },
    }
}

fn read_topt_ignore_local(buf: &Vec<u8>, pos: usize) -> (r: Result<(Option<IgnoreLocal>, usize), QosError>)
    requires
        pos <= buf@.len(),
    ensures
        match r {
            Ok((o, p2)) => pos <= p2 <= buf@.len() && sp_topt(
                buf@.skip(pos as int),
                |s2: Seq<u8>| sp_txt_ignore_local(s2),
            ) == Some((o.deep_view(), buf@.skip(p2 as int))),
            Err(e) => e == QosError::SerializationError && sp_topt(
                buf@.skip(pos as int),
                |s2: Seq<u8>| sp_txt_ignore_local(s2),
            ) is None,
        },
{
    let (tag, p) = match crate::wire::read_byte(buf, pos) {
        Ok(x) => x,
        Err(e) => {
            return Err(e);
        },
    };
    if tag == 48 {
        Ok((None, p))
    } else if tag == 49 {
        match read_txt_ignore_local(buf, p) {
            Ok((y, p2)) => Ok((Some(y), p2)),
            Err(e) => Err(e),
        }
    } else {
        Err(QosError::SerializationError)
    }
}


fn write_topt_data_representation(out: &mut Vec<u8>, o: &Option<Vec<u16>>)
    ensures
        final(out)@ == old(out)@ + enc_topt(o.deep_view(), |v: Seq<u16>| enc_txt_data_representation(v)),
{
    match o {
        None => {
            let ghost prev = out@;
            out.push(48);
            proof {
                assert(out@ =~= prev + seq![48u8]);
            }
        },
        Some(v) => {
            let ghost prev = out@;
            out.push(49);
            proof {
                assert(out@ =~= prev + seq![49u8]);
            }
            write_txt_data_representation(out, v);
            proof {
                assert(out@ =~= prev + (seq![49u8] + enc_txt_data_representation(v@)));
                assert(o.deep_view() == Some(v@));
            }
        },
    }
}

fn read_topt_data_representation(buf: &Vec<u8>, pos: usize) -> (r: Result<(Option<Vec<u16>>, usize), QosError>)
    requires
        pos <= buf@.len(),
    ensures
        match r {
            Ok((o, p2)) => pos <= p2 <= buf@.len() && sp_topt(
                buf@.skip(pos as int),
                |s2: Seq<u8>| sp_txt_data_representation(s2),
            ) == Some((o.deep_view(), buf@.skip(p2 as int))),
            Err(e) => e == QosError::SerializationError && sp_topt(
                buf@.skip(pos as int),
                |s2: Seq<u8>| sp_txt_data_representation(s2),
            ) is None,
        },
{
    let (tag, p) = match crate::wire::read_byte(buf, pos) {
        Ok(x) => x,
        Err(e) => {
            return Err(e);
        },
    };
    if tag == 48 {
        Ok((None, p))
    } else if tag == 49 {
        match read_txt_data_representation(buf, p) {
            Ok((y, p2)) => Ok((Some(y), p2)),
            Err(e) => Err(e),
        }
    } else {
        Err(QosError::SerializationError)
    }
}


pub open spec fn enc_text_a1(q: QosV) -> Seq<u8> {
    enc_topt(q.user_data, |b: Seq<u8>| enc_txt_user_data(b)) + (enc_topt(q.topic_data, |b: Seq<u8>| enc_txt_topic_data(b)) + (enc_topt(q.group_data, |b: Seq<u8>| enc_txt_group_data(b)) + (enc_topt(q.durability, |v: Durability| enc_txt_durability(v)))))
}


pub open spec fn sp_text_a1(s: Seq<u8>) -> Option<((Option<Seq<u8>>, Option<Seq<u8>>, Option<Seq<u8>>, Option<Durability>), Seq<u8>)> {

    match sp_topt(s, |s2: Seq<u8>| sp_txt_user_data(s2)) {
        Some((user_data, s)) => match sp_topt(s, |s2: Seq<u8>| sp_txt_topic_data(s2)) {
            Some((topic_data, s)) => match sp_topt(s, |s2: Seq<u8>| sp_txt_group_data(s2)) {
                Some((group_data, s)) => match sp_topt(s, |s2: Seq<u8>| sp_txt_durability(s2)) {
                    Some((durability, s)) => Some(((user_data, topic_data, group_data, durability), s))
                    ,None => None,
                }
                ,None => None,
            }
            ,None => None,
        }
        ,None => None,
    }

}


#[verifier::rlimit(100)]
#[verifier::spinoff_prover]
proof fn lemma_text_a1_rt(q: QosV, rest: Seq<u8>)
    requires
        crate::binary::spec_qos_wire_encodable(q),
    ensures
        sp_text_a1(enc_text_a1(q) + rest) == Some(((q.user_data, q.topic_data, q.group_data, q.durability), rest)),
{
    let e1 = enc_topt(q.user_data, |b: Seq<u8>| enc_txt_user_data(b));
    let e2 = enc_topt(q.topic_data, |b: Seq<u8>| enc_txt_topic_data(b));
    let e3 = enc_topt(q.group_data, |b: Seq<u8>| enc_txt_group_data(b));
    let e4 = enc_topt(q.durability, |v: Durability| enc_txt_durability(v));
    let r4 = rest;
    let r3 = e4 + r4;
    let r2 = e3 + r3;
    let r1 = e2 + r2;
    assert((e3 + e4) + rest =~= r2);
    assert((e2 + (e3 + e4)) + rest =~= r1);
    assert(enc_text_a1(q) + rest =~= e1 + r1);
    match q.user_data {
        Some(vv) => lemma_txt_user_data_rt(vv, r1),
        None => {},
    }
    lemma_topt_round_trip(q.user_data, r1, |b: Seq<u8>| enc_txt_user_data(b), |s2: Seq<u8>| sp_txt_user_data(s2));
    match q.topic_data {
        Some(vv) => lemma_txt_topic_data_rt(vv, r2),
        None => {},
    }
    lemma_topt_round_trip(q.topic_data, r2, |b: Seq<u8>| enc_txt_topic_data(b), |s2: Seq<u8>| sp_txt_topic_data(s2));
    match q.group_data {
        Some(vv) => lemma_txt_group_data_rt(vv, r3),
        None => {},
    }
    lemma_topt_round_trip(q.group_data, r3, |b: Seq<u8>| enc_txt_group_data(b), |s2: Seq<u8>| sp_txt_group_data(s2));
    match q.durability {
        Some(vv) => lemma_txt_durability_rt(vv, r4),
        None => {},
    }
    lemma_topt_round_trip(q.durability, r4, |v: Durability| enc_txt_durability(v), |s2: Seq<u8>| sp_txt_durability(s2));
}

#[verifier::rlimit(100)]
#[verifier::spinoff_prover]
fn write_text_a1(out: &mut Vec<u8>, q: &Qos)
    ensures
        final(out)@ == old(out)@ + enc_text_a1(q@),
{
    let ghost base = out@;
    write_topt_user_data(out, &q.user_data);
    write_topt_topic_data(out, &q.topic_data);
    write_topt_group_data(out, &q.group_data);
    write_topt_durability(out, &q.durability);
    proof { assert(out@ =~= base + enc_text_a1(q@)); }
}

#[verifier::rlimit(100)]
#[verifier::spinoff_prover]
fn read_text_a1(buf: &Vec<u8>, pos: usize) -> (r: Result<((Option<Vec<u8>>, Option<Vec<u8>>, Option<Vec<u8>>, Option<Durability>), usize), QosError>)
    requires
        pos <= buf@.len(),
    ensures
        match r {
            Ok((t, p2)) => pos <= p2 <= buf@.len() && sp_text_a1(buf@.skip(pos as int)) == Some(
                ((t.0.deep_view(), t.1.deep_view(), t.2.deep_view(), t.3.deep_view()), buf@.skip(p2 as int)),
            ),
            Err(e) => e == QosError::SerializationError && sp_text_a1(buf@.skip(pos as int)) is None,
        },
{
    let p = pos;
    let (user_data, p) = match read_topt_user_data(buf, p) { Ok(x) => x, Err(e) => { return Err(e); } };
    let (topic_data, p) = match read_topt_topic_data(buf, p) { Ok(x) => x, Err(e) => { return Err(e); } };
    let (group_data, p) = match read_topt_group_data(buf, p) { Ok(x) => x, Err(e) => { return Err(e); } };
    let (durability, p) = match read_topt_durability(buf, p) { Ok(x) => x, Err(e) => { return Err(e); } };
    Ok(((user_data, topic_data, group_data, durability), p))
}

pub open spec fn enc_text_a2(q: QosV) -> Seq<u8> {
    enc_topt(q.durability_service, |v: DurabilityService| enc_txt_durability_service(v)) + (enc_topt(q.presentation, |v: Presentation| enc_txt_presentation(v)) + (enc_topt(q.deadline, |v: Deadline| enc_txt_deadline(v))))
}


pub open spec fn sp_text_a2(s: Seq<u8>) -> Option<((Option<DurabilityService>, Option<Presentation>, Option<Deadline>), Seq<u8>)> {

    match sp_topt(s, |s2: Seq<u8>| sp_txt_durability_service(s2)) {
        Some((durability_service, s)) => match sp_topt(s, |s2: Seq<u8>| sp_txt_presentation(s2)) {
            Some((presentation, s)) => match sp_topt(s, |s2: Seq<u8>| sp_txt_deadline(s2)) {
                Some((deadline, s)) => Some(((durability_service, presentation, deadline), s))
                ,None => None,
            }
            ,None => None,
        }
        ,None => None,
    }

}


#[verifier::rlimit(100)]
#[verifier::spinoff_prover]
proof fn lemma_text_a2_rt(q: QosV, rest: Seq<u8>)
    requires
        crate::binary::spec_qos_wire_encodable(q),
    ensures
        sp_text_a2(enc_text_a2(q) + rest) == Some(((q.durability_service, q.presentation, q.deadline), rest)),
{
    let e1 = enc_topt(q.durability_service, |v: DurabilityService| enc_txt_durability_service(v));
    let e2 = enc_topt(q.presentation, |v: Presentation| enc_txt_presentation(v));
    let e3 = enc_topt(q.deadline, |v: Deadline| enc_txt_deadline(v));
    let r3 = rest;
    let r2 = e3 + r3;
    let r1 = e2 + r2;
    assert((e2 + e3) + rest =~= r1);
    assert(enc_text_a2(q) + rest =~= e1 + r1);
    match q.durability_service {
        Some(vv) => lemma_txt_durability_service_rt(vv, r1),
        None => {},
    }
    lemma_topt_round_trip(q.durability_service, r1, |v: DurabilityService| enc_txt_durability_service(v), |s2: Seq<u8>| sp_txt_durability_service(s2));
    match q.presentation {
        Some(vv) => lemma_txt_presentation_rt(vv, r2),
        None => {},
    }
    lemma_topt_round_trip(q.presentation, r2, |v: Presentation| enc_txt_presentation(v), |s2: Seq<u8>| sp_txt_presentation(s2));
    match q.deadline {
        Some(vv) => lemma_txt_deadline_rt(vv, r3),
        None => {},
    }
    lemma_topt_round_trip(q.deadline, r3, |v: Deadline| enc_txt_deadline(v), |s2: Seq<u8>| sp_txt_deadline(s2));
}

#[verifier::rlimit(100)]
#[verifier::spinoff_prover]
fn write_text_a2(out: &mut Vec<u8>, q: &Qos)
    ensures
        final(out)@ == old(out)@ + enc_text_a2(q@),
{
    let ghost base = out@;
    write_topt_durability_service(out, &q.durability_service);
    write_topt_presentation(out, &q.presentation);
    write_topt_deadline(out, &q.deadline);
    proof { assert(out@ =~= base + enc_text_a2(q@)); }
}

#[verifier::rlimit(100)]
#[verifier::spinoff_prover]
fn read_text_a2(buf: &Vec<u8>, pos: usize) -> (r: Result<((Option<DurabilityService>, Option<Presentation>, Option<Deadline>), usize), QosError>)
    requires
        pos <= buf@.len(),
    ensures
        match r {
            Ok((t, p2)) => pos <= p2 <= buf@.len() && sp_text_a2(buf@.skip(pos as int)) == Some(
                ((t.0.deep_view(), t.1.deep_view(), t.2.deep_view()), buf@.skip(p2 as int)),
            ),
            Err(e) => e == QosError::SerializationError && sp_text_a2(buf@.skip(pos as int)) is None,
        },
{
    let p = pos;
    let (durability_service, p) = match read_topt_durability_service(buf, p) { Ok(x) => x, Err(e) => { return Err(e); } };
    let (presentation, p) = match read_topt_presentation(buf, p) { Ok(x) => x, Err(e) => { return Err(e); } };
    let (deadline, p) = match read_topt_deadline(buf, p) { Ok(x) => x, Err(e) => { return Err(e); } };
    Ok(((durability_service, presentation, deadline), p))
}

pub open spec fn enc_text_b1(q: QosV) -> Seq<u8> {
    enc_topt(q.latency_budget, |v: LatencyBudget| enc_txt_latency_budget(v)) + (enc_topt(q.ownership, |v: Ownership| enc_txt_ownership(v)) + (enc_topt(q.ownership_strength, |v: OwnershipStrength| enc_txt_ownership_strength(v)) + (enc_topt(q.liveliness, |v: Liveliness| enc_txt_liveliness(v)))))
}


pub open spec fn sp_text_b1(s: Seq<u8>) -> Option<((Option<LatencyBudget>, Option<Ownership>, Option<OwnershipStrength>, Option<Liveliness>), Seq<u8>)> {

    match sp_topt(s, |s2: Seq<u8>| sp_txt_latency_budget(s2)) {
        Some((latency_budget, s)) => match sp_topt(s, |s2: Seq<u8>| sp_txt_ownership(s2)) {
            Some((ownership, s)) => match sp_topt(s, |s2: Seq<u8>| sp_txt_ownership_strength(s2)) {
                Some((ownership_strength, s)) => match sp_topt(s, |s2: Seq<u8>| sp_txt_liveliness(s2)) {
                    Some((liveliness, s)) => Some(((latency_budget, ownership, ownership_strength, liveliness), s))
                    ,None => None,
                }
                ,None => None,
            }
            ,None => None,
        }
        ,None => None,
    }

}


#[verifier::rlimit(100)]
#[verifier::spinoff_prover]
proof fn lemma_text_b1_rt(q: QosV, rest: Seq<u8>)
    requires
        crate::binary::spec_qos_wire_encodable(q),
    ensures
        sp_text_b1(enc_text_b1(q) + rest) == Some(((q.latency_budget, q.ownership, q.ownership_strength, q.liveliness), rest)),
{
    let e1 = enc_topt(q.latency_budget, |v: LatencyBudget| enc_txt_latency_budget(v));
    let e2 = enc_topt(q.ownership, |v: Ownership| enc_txt_ownership(v));
    let e3 = enc_topt(q.ownership_strength, |v: OwnershipStrength| enc_txt_ownership_strength(v));
    let e4 = enc_topt(q.liveliness, |v: Liveliness| enc_txt_liveliness(v));
    let r4 = rest;
    let r3 = e4 + r4;
    let r2 = e3 + r3;
    let r1 = e2 + r2;
    assert((e3 + e4) + rest =~= r2);
    assert((e2 + (e3 + e4)) + rest =~= r1);
    assert(enc_text_b1(q) + rest =~= e1 + r1);
    match q.latency_budget {
        Some(vv) => lemma_txt_latency_budget_rt(vv, r1),
        None => {},
    }
    lemma_topt_round_trip(q.latency_budget, r1, |v: LatencyBudget| enc_txt_latency_budget(v), |s2: Seq<u8>| sp_txt_latency_budget(s2));
    match q.ownership {
        Some(vv) => lemma_txt_ownership_rt(vv, r2),
        None => {},
    }
    lemma_topt_round_trip(q.ownership, r2, |v: Ownership| enc_txt_ownership(v), |s2: Seq<u8>| sp_txt_ownership(s2));
    match q.ownership_strength {
        Some(vv) => lemma_txt_ownership_strength_rt(vv, r3),
        None => {},
    }
    lemma_topt_round_trip(q.ownership_strength, r3, |v: OwnershipStrength| enc_txt_ownership_strength(v), |s2: Seq<u8>| sp_txt_ownership_strength(s2));
    match q.liveliness {
        Some(vv) => lemma_txt_liveliness_rt(vv, r4),
        None => {},
    }
    lemma_topt_round_trip(q.liveliness, r4, |v: Liveliness| enc_txt_liveliness(v), |s2: Seq<u8>| sp_txt_liveliness(s2));
}

#[verifier::rlimit(100)]
#[verifier::spinoff_prover]
fn write_text_b1(out: &mut Vec<u8>, q: &Qos)
    ensures
        final(out)@ == old(out)@ + enc_text_b1(q@),
{
    let ghost base = out@;
    write_topt_latency_budget(out, &q.latency_budget);
    write_topt_ownership(out, &q.ownership);
    write_topt_ownership_strength(out, &q.ownership_strength);
    write_topt_liveliness(out, &q.liveliness);
    proof { assert(out@ =~= base + enc_text_b1(q@)); }
}

#[verifier::rlimit(100)]
#[verifier::spinoff_prover]
fn read_text_b1(buf: &Vec<u8>, pos: usize) -> (r: Result<((Option<LatencyBudget>, Option<Ownership>, Option<OwnershipStrength>, Option<Liveliness>), usize), QosError>)
    requires
        pos <= buf@.len(),
    ensures
        match r {
            Ok((t, p2)) => pos <= p2 <= buf@.len() && sp_text_b1(buf@.skip(pos as int)) == Some(
                ((t.0.deep_view(), t.1.deep_view(), t.2.deep_view(), t.3.deep_view()), buf@.skip(p2 as int)),
            ),
            Err(e) => e == QosError::SerializationError && sp_text_b1(buf@.skip(pos as int)) is None,
        },
{
    let p = pos;
    let (latency_budget, p) = match read_topt_latency_budget(buf, p) { Ok(x) => x, Err(e) => { return Err(e); } };
    let (ownership, p) = match read_topt_ownership(buf, p) { Ok(x) => x, Err(e) => { return Err(e); } };
    let (ownership_strength, p) = match read_topt_ownership_strength(buf, p) { Ok(x) => x, Err(e) => { return Err(e); } };
    let (liveliness, p) = match read_topt_liveliness(buf, p) { Ok(x) => x, Err(e) => { return Err(e); } };
    Ok(((latency_budget, ownership, ownership_strength, liveliness), p))
}

pub open spec fn enc_text_b2(q: QosV) -> Seq<u8> {
    enc_topt(q.time_based_filter, |v: TimeBasedFilter| enc_txt_time_based_filter(v)) + (enc_topt(q.partition, |l: Seq<Seq<char>>| enc_txt_partition(l)) + (enc_topt(q.reliability, |v: Reliability| enc_txt_reliability(v))))
}


pub open spec fn sp_text_b2(s: Seq<u8>) -> Option<((Option<TimeBasedFilter>, Option<Seq<Seq<char>>>, Option<Reliability>), Seq<u8>)> {

    match sp_topt(s, |s2: Seq<u8>| sp_txt_time_based_filter(s2)) {
        Some((time_based_filter, s)) => match sp_topt(s, |s2: Seq<u8>| sp_txt_partition(s2)) {
            Some((partition, s)) => match sp_topt(s, |s2: Seq<u8>| sp_txt_reliability(s2)) {
                Some((reliability, s)) => Some(((time_based_filter, partition, reliability), s))
                ,None => None,
            }
            ,None => None,
        }
        ,None => None,
    }

}


#[verifier::rlimit(100)]
#[verifier::spinoff_prover]
proof fn lemma_text_b2_rt(q: QosV, rest: Seq<u8>)
    requires
        crate::binary::spec_qos_wire_encodable(q),
    ensures
        sp_text_b2(enc_text_b2(q) + rest) == Some(((q.time_based_filter, q.partition, q.reliability), rest)),
{
    let e1 = enc_topt(q.time_based_filter, |v: TimeBasedFilter| enc_txt_time_based_filter(v));
    let e2 = enc_topt(q.partition, |l: Seq<Seq<char>>| enc_txt_partition(l));
    let e3 = enc_topt(q.reliability, |v: Reliability| enc_txt_reliability(v));
    let r3 = rest;
    let r2 = e3 + r3;
    let r1 = e2 + r2;
    assert((e2 + e3) + rest =~= r1);
    assert(enc_text_b2(q) + rest =~= e1 + r1);
    match q.time_based_filter {
        Some(vv) => lemma_txt_time_based_filter_rt(vv, r1),
        None => {},
    }
    lemma_topt_round_trip(q.time_based_filter, r1, |v: TimeBasedFilter| enc_txt_time_based_filter(v), |s2: Seq<u8>| sp_txt_time_based_filter(s2));
    match q.partition {
        Some(vv) => lemma_txt_partition_rt(vv, r2),
        None => {},
    }
    lemma_topt_round_trip(q.partition, r2, |l: Seq<Seq<char>>| enc_txt_partition(l), |s2: Seq<u8>| sp_txt_partition(s2));
    match q.reliability {
        Some(vv) => lemma_txt_reliability_rt(vv, r3),
        None => {},
    }
    lemma_topt_round_trip(q.reliability, r3, |v: Reliability| enc_txt_reliability(v), |s2: Seq<u8>| sp_txt_reliability(s2));
}

#[verifier::rlimit(100)]
#[verifier::spinoff_prover]
fn write_text_b2(out: &mut Vec<u8>, q: &Qos)
    ensures
        final(out)@ == old(out)@ + enc_text_b2(q@),
{
    let ghost base = out@;
    write_topt_time_based_filter(out, &q.time_based_filter);
    write_topt_partition(out, &q.partition);
    write_topt_reliability(out, &q.reliability);
    proof { assert(out@ =~= base + enc_text_b2(q@)); }
}

#[verifier::rlimit(100)]
#[verifier::spinoff_prover]
fn read_text_b2(buf: &Vec<u8>, pos: usize) -> (r: Result<((Option<TimeBasedFilter>, Option<Vec<String>>, Option<Reliability>), usize), QosError>)
    requires
        pos <= buf@.len(),
    ensures
        match r {
            Ok((t, p2)) => pos <= p2 <= buf@.len() && sp_text_b2(buf@.skip(pos as int)) == Some(
                ((t.0.deep_view(), t.1.deep_view(), t.2.deep_view()), buf@.skip(p2 as int)),
            ),
            Err(e) => e == QosError::SerializationError && sp_text_b2(buf@.skip(pos as int)) is None,
        },
{
    let p = pos;
    let (time_based_filter, p) = match read_topt_time_based_filter(buf, p) { Ok(x) => x, Err(e) => { return Err(e); } };
    let (partition, p) = match read_topt_partition(buf, p) { Ok(x) => x, Err(e) => { return Err(e); } };
    let (reliability, p) = match read_topt_reliability(buf, p) { Ok(x) => x, Err(e) => { return Err(e); } };
    Ok(((time_based_filter, partition, reliability), p))
}

pub open spec fn enc_text_c1(q: QosV) -> Seq<u8> {
    enc_topt(q.transport_priority, |v: TransportPriority| enc_txt_transport_priority(v)) + (enc_topt(q.lifespan, |v: Lifespan| enc_txt_lifespan(v)) + (enc_topt(q.destination_order, |v: DestinationOrder| enc_txt_destination_order(v)) + (enc_topt(q.history, |v: History| enc_txt_history(v)))))
}


pub open spec fn sp_text_c1(s: Seq<u8>) -> Option<((Option<TransportPriority>, Option<Lifespan>, Option<DestinationOrder>, Option<History>), Seq<u8>)> {

    match sp_topt(s, |s2: Seq<u8>| sp_txt_transport_priority(s2)) {
        Some((transport_priority, s)) => match sp_topt(s, |s2: Seq<u8>| sp_txt_lifespan(s2)) {
            Some((lifespan, s)) => match sp_topt(s, |s2: Seq<u8>| sp_txt_destination_order(s2)) {
                Some((destination_order, s)) => match sp_topt(s, |s2: Seq<u8>| sp_txt_history(s2)) {
                    Some((history, s)) => Some(((transport_priority, lifespan, destination_order, history), s))
                    ,None => None,
                }
                ,None => None,
            }
            ,None => None,
        }
        ,None => None,
    }

}


#[verifier::rlimit(100)]
#[verifier::spinoff_prover]
proof fn lemma_text_c1_rt(q: QosV, rest: Seq<u8>)
    requires
        crate::binary::spec_qos_wire_encodable(q),
    ensures
        sp_text_c1(enc_text_c1(q) + rest) == Some(((q.transport_priority, q.lifespan, q.destination_order, q.history), rest)),
{
    let e1 = enc_topt(q.transport_priority, |v: TransportPriority| enc_txt_transport_priority(v));
    let e2 = enc_topt(q.lifespan, |v: Lifespan| enc_txt_lifespan(v));
    let e3 = enc_topt(q.destination_order, |v: DestinationOrder| enc_txt_destination_order(v));
    let e4 = enc_topt(q.history, |v: History| enc_txt_history(v));
    let r4 = rest;
    let r3 = e4 + r4;
    let r2 = e3 + r3;
    let r1 = e2 + r2;
    assert((e3 + e4) + rest =~= r2);
    assert((e2 + (e3 + e4)) + rest =~= r1);
    assert(enc_text_c1(q) + rest =~= e1 + r1);
    match q.transport_priority {
        Some(vv) => lemma_txt_transport_priority_rt(vv, r1),
        None => {},
    }
    lemma_topt_round_trip(q.transport_priority, r1, |v: TransportPriority| enc_txt_transport_priority(v), |s2: Seq<u8>| sp_txt_transport_priority(s2));
    match q.lifespan {
        Some(vv) => lemma_txt_lifespan_rt(vv, r2),
        None => {},
    }
    lemma_topt_round_trip(q.lifespan, r2, |v: Lifespan| enc_txt_lifespan(v), |s2: Seq<u8>| sp_txt_lifespan(s2));
    match q.destination_order {
        Some(vv) => lemma_txt_destination_order_rt(vv, r3),
        None => {},
    }
    lemma_topt_round_trip(q.destination_order, r3, |v: DestinationOrder| enc_txt_destination_order(v), |s2: Seq<u8>| sp_txt_destination_order(s2));
    match q.history {
        Some(vv) => lemma_txt_history_rt(vv, r4),
        None => {},
    }
    lemma_topt_round_trip(q.history, r4, |v: History| enc_txt_history(v), |s2: Seq<u8>| sp_txt_history(s2));
}

#[verifier::rlimit(100)]
#[verifier::spinoff_prover]
fn write_text_c1(out: &mut Vec<u8>, q: &Qos)
    ensures
        final(out)@ == old(out)@ + enc_text_c1(q@),
{
    let ghost base = out@;
    write_topt_transport_priority(out, &q.transport_priority);
    write_topt_lifespan(out, &q.lifespan);
    write_topt_destination_order(out, &q.destination_order);
    write_topt_history(out, &q.history);
    proof { assert(out@ =~= base + enc_text_c1(q@)); }
}

#[verifier::rlimit(100)]
#[verifier::spinoff_prover]
fn read_text_c1(buf: &Vec<u8>, pos: usize) -> (r: Result<((Option<TransportPriority>, Option<Lifespan>, Option<DestinationOrder>, Option<History>), usize), QosError>)
    requires
        pos <= buf@.len(),
    ensures
        match r {
            Ok((t, p2)) => pos <= p2 <= buf@.len() && sp_text_c1(buf@.skip(pos as int)) == Some(
                ((t.0.deep_view(), t.1.deep_view(), t.2.deep_view(), t.3.deep_view()), buf@.skip(p2 as int)),
            ),
            Err(e) => e == QosError::SerializationError && sp_text_c1(buf@.skip(pos as int)) is None,
        },
{
    let p = pos;
    let (transport_priority, p) = match read_topt_transport_priority(buf, p) { Ok(x) => x, Err(e) => { return Err(e); } };
    let (lifespan, p) = match read_topt_lifespan(buf, p) { Ok(x) => x, Err(e) => { return Err(e); } };
    let (destination_order, p) = match read_topt_destination_order(buf, p) { Ok(x) => x, Err(e) => { return Err(e); } };
    let (history, p) = match read_topt_history(buf, p) { Ok(x) => x, Err(e) => { return Err(e); } };
    Ok(((transport_priority, lifespan, destination_order, history), p))
}

pub open spec fn enc_text_c2(q: QosV) -> Seq<u8> {
    enc_topt(q.resource_limits, |v: ResourceLimits| enc_txt_resource_limits(v)) + (enc_topt(q.writer_data_lifecycle, |v: WriterDataLifecycle| enc_txt_writer_data_lifecycle(v)) + (enc_topt(q.reader_data_lifecycle, |v: ReaderDataLifecycle| enc_txt_reader_data_lifecycle(v))))
}


pub open spec fn sp_text_c2(s: Seq<u8>) -> Option<((Option<ResourceLimits>, Option<WriterDataLifecycle>, Option<ReaderDataLifecycle>), Seq<u8>)> {

    match sp_topt(s, |s2: Seq<u8>| sp_txt_resource_limits(s2)) {
        Some((resource_limits, s)) => match sp_topt(s, |s2: Seq<u8>| sp_txt_writer_data_lifecycle(s2)) {
            Some((writer_data_lifecycle, s)) => match sp_topt(s, |s2: Seq<u8>| sp_txt_reader_data_lifecycle(s2)) {
                Some((reader_data_lifecycle, s)) => Some(((resource_limits, writer_data_lifecycle, reader_data_lifecycle), s))
                ,None => None,
            }
            ,None => None,
        }
        ,None => None,
    }

}


#[verifier::rlimit(100)]
#[verifier::spinoff_prover]
proof fn lemma_text_c2_rt(q: QosV, rest: Seq<u8>)
    requires
        crate::binary::spec_qos_wire_encodable(q),
    ensures
        sp_text_c2(enc_text_c2(q) + rest) == Some(((q.resource_limits, q.writer_data_lifecycle, q.reader_data_lifecycle), rest)),
{
    let e1 = enc_topt(q.resource_limits, |v: ResourceLimits| enc_txt_resource_limits(v));
    let e2 = enc_topt(q.writer_data_lifecycle, |v: WriterDataLifecycle| enc_txt_writer_data_lifecycle(v));
    let e3 = enc_topt(q.reader_data_lifecycle, |v: ReaderDataLifecycle| enc_txt_reader_data_lifecycle(v));
    let r3 = rest;
    let r2 = e3 + r3;
    let r1 = e2 + r2;
    assert((e2 + e3) + rest =~= r1);
    assert(enc_text_c2(q) + rest =~= e1 + r1);
    match q.resource_limits {
        Some(vv) => lemma_txt_resource_limits_rt(vv, r1),
        None => {},
    }
    lemma_topt_round_trip(q.resource_limits, r1, |v: ResourceLimits| enc_txt_resource_limits(v), |s2: Seq<u8>| sp_txt_resource_limits(s2));
    match q.writer_data_lifecycle {
        Some(vv) => lemma_txt_writer_data_lifecycle_rt(vv, r2),
        None => {},
    }
    lemma_topt_round_trip(q.writer_data_lifecycle, r2, |v: WriterDataLifecycle| enc_txt_writer_data_lifecycle(v), |s2: Seq<u8>| sp_txt_writer_data_lifecycle(s2));
    match q.reader_data_lifecycle {
        Some(vv) => lemma_txt_reader_data_lifecycle_rt(vv, r3),
        None => {},
    }
    lemma_topt_round_trip(q.reader_data_lifecycle, r3, |v: ReaderDataLifecycle| enc_txt_reader_data_lifecycle(v), |s2: Seq<u8>| sp_txt_reader_data_lifecycle(s2));
}

#[verifier::rlimit(100)]
#[verifier::spinoff_prover]
fn write_text_c2(out: &mut Vec<u8>, q: &Qos)
    ensures
        final(out)@ == old(out)@ + enc_text_c2(q@),
{
    let ghost base = out@;
    write_topt_resource_limits(out, &q.resource_limits);
    write_topt_writer_data_lifecycle(out, &q.writer_data_lifecycle);
    write_topt_reader_data_lifecycle(out, &q.reader_data_lifecycle);
    proof { assert(out@ =~= base + enc_text_c2(q@)); }
}

#[verifier::rlimit(100)]
#[verifier::spinoff_prover]
fn read_text_c2(buf: &Vec<u8>, pos: usize) -> (r: Result<((Option<ResourceLimits>, Option<WriterDataLifecycle>, Option<ReaderDataLifecycle>), usize), QosError>)
    requires
        pos <= buf@.len(),
    ensures
        match r {
            Ok((t, p2)) => pos <= p2 <= buf@.len() && sp_text_c2(buf@.skip(pos as int)) == Some(
                ((t.0.deep_view(), t.1.deep_view(), t.2.deep_view()), buf@.skip(p2 as int)),
            ),
            Err(e) => e == QosError::SerializationError && sp_text_c2(buf@.skip(pos as int)) is None,
        },
{
    let p = pos;
    let (resource_limits, p) = match read_topt_resource_limits(buf, p) { Ok(x) => x, Err(e) => { return Err(e); } };
    let (writer_data_lifecycle, p) = match read_topt_writer_data_lifecycle(buf, p) { Ok(x) => x, Err(e) => { return Err(e); } };
    let (reader_data_lifecycle, p) = match read_topt_reader_data_lifecycle(buf, p) { Ok(x) => x, Err(e) => { return Err(e); } };
    Ok(((resource_limits, writer_data_lifecycle, reader_data_lifecycle), p))
}

pub open spec fn enc_text_d1(q: QosV) -> Seq<u8> {
    enc_topt(q.writer_batching, |v: WriterBatching| enc_txt_writer_batching(v)) + (enc_topt(q.type_consistency, |v: TypeConsistency| enc_txt_type_consistency(v)) + (enc_topt(q.entity_name, |cs: Seq<char>| enc_txt_entity_name(cs))))
}


pub open spec fn sp_text_d1(s: Seq<u8>) -> Option<((Option<WriterBatching>, Option<TypeConsistency>, Option<Seq<char>>), Seq<u8>)> {

    match sp_topt(s, |s2: Seq<u8>| sp_txt_writer_batching(s2)) {
        Some((writer_batching, s)) => match sp_topt(s, |s2: Seq<u8>| sp_txt_type_consistency(s2)) {
            Some((type_consistency, s)) => match sp_topt(s, |s2: Seq<u8>| sp_txt_entity_name(s2)) {
                Some((entity_name, s)) => Some(((writer_batching, type_consistency, entity_name), s))
                ,None => None,
            }
            ,None => None,
        }
        ,None => None,
    }

}


#[verifier::rlimit(100)]
#[verifier::spinoff_prover]
proof fn lemma_text_d1_rt(q: QosV, rest: Seq<u8>)
    requires
        crate::binary::spec_qos_wire_encodable(q),
    ensures
        sp_text_d1(enc_text_d1(q) + rest) == Some(((q.writer_batching, q.type_consistency, q.entity_name), rest)),
{
    let e1 = enc_topt(q.writer_batching, |v: WriterBatching| enc_txt_writer_batching(v));
    let e2 = enc_topt(q.type_consistency, |v: TypeConsistency| enc_txt_type_consistency(v));
    let e3 = enc_topt(q.entity_name, |cs: Seq<char>| enc_txt_entity_name(cs));
    let r3 = rest;
    let r2 = e3 + r3;
    let r1 = e2 + r2;
    assert((e2 + e3) + rest =~= r1);
    assert(enc_text_d1(q) + rest =~= e1 + r1);
    match q.writer_batching {
        Some(vv) => lemma_txt_writer_batching_rt(vv, r1),
        None => {},
    }
    lemma_topt_round_trip(q.writer_batching, r1, |v: WriterBatching| enc_txt_writer_batching(v), |s2: Seq<u8>| sp_txt_writer_batching(s2));
    match q.type_consistency {
        Some(vv) => lemma_txt_type_consistency_rt(vv, r2),
        None => {},
    }
    lemma_topt_round_trip(q.type_consistency, r2, |v: TypeConsistency| enc_txt_type_consistency(v), |s2: Seq<u8>| sp_txt_type_consistency(s2));
    match q.entity_name {
        Some(vv) => lemma_txt_entity_name_rt(vv, r3),
        None => {},
    }
    lemma_topt_round_trip(q.entity_name, r3, |cs: Seq<char>| enc_txt_entity_name(cs), |s2: Seq<u8>| sp_txt_entity_name(s2));
}

#[verifier::rlimit(100)]
#[verifier::spinoff_prover]
fn write_text_d1(out: &mut Vec<u8>, q: &Qos)
    ensures
        final(out)@ == old(out)@ + enc_text_d1(q@),
{
    let ghost base = out@;
    write_topt_writer_batching(out, &q.writer_batching);
    write_topt_type_consistency(out, &q.type_consistency);
    write_topt_entity_name(out, &q.entity_name);
    proof { assert(out@ =~= base + enc_text_d1(q@)); }
}

#[verifier::rlimit(100)]
#[verifier::spinoff_prover]
fn read_text_d1(buf: &Vec<u8>, pos: usize) -> (r: Result<((Option<WriterBatching>, Option<TypeConsistency>, Option<EntityName>), usize), QosError>)
    requires
        pos <= buf@.len(),
    ensures
        match r {
            Ok((t, p2)) => pos <= p2 <= buf@.len() && sp_text_d1(buf@.skip(pos as int)) == Some(
                ((t.0.deep_view(), t.1.deep_view(), t.2.deep_view()), buf@.skip(p2 as int)),
            ),
            Err(e) => e == QosError::SerializationError && sp_text_d1(buf@.skip(pos as int)) is None,
        },
{
    let p = pos;
    let (writer_batching, p) = match read_topt_writer_batching(buf, p) { Ok(x) => x, Err(e) => { return Err(e); } };
    let (type_consistency, p) = match read_topt_type_consistency(buf, p) { Ok(x) => x, Err(e) => { return Err(e); } };
    let (entity_name, p) = match read_topt_entity_name(buf, p) { Ok(x) => x, Err(e) => { return Err(e); } };
    Ok(((writer_batching, type_consistency, entity_name), p))
}

pub open spec fn enc_text_d2(q: QosV) -> Seq<u8> {
    enc_topt(q.properties, |l: Seq<PropView>| enc_txt_properties(l)) + (enc_topt(q.ignore_local, |v: IgnoreLocal| enc_txt_ignore_local(v)) + (enc_topt(q.data_representation, |u: Seq<u16>| enc_txt_data_representation(u))))
}


pub open spec fn sp_text_d2(s: Seq<u8>) -> Option<((Option<Seq<PropView>>, Option<IgnoreLocal>, Option<Seq<u16>>), Seq<u8>)> {

    match sp_topt(s, |s2: Seq<u8>| sp_txt_properties(s2)) {
        Some((properties, s)) => match sp_topt(s, |s2: Seq<u8>| sp_txt_ignore_local(s2)) {
            Some((ignore_local, s)) => match sp_topt(s, |s2: Seq<u8>| sp_txt_data_representation(s2)) {
                Some((data_representation, s)) => Some(((properties, ignore_local, data_representation), s))
                ,None => None,
            }
            ,None => None,
        }
        ,None => None,
    }

}


#[verifier::rlimit(100)]
#[verifier::spinoff_prover]
proof fn lemma_text_d2_rt(q: QosV, rest: Seq<u8>)
    requires
        crate::binary::spec_qos_wire_encodable(q),
    ensures
        sp_text_d2(enc_text_d2(q) + rest) == Some(((q.properties, q.ignore_local, q.data_representation), rest)),
{
    let e1 = enc_topt(q.properties, |l: Seq<PropView>| enc_txt_properties(l));
    let e2 = enc_topt(q.ignore_local, |v: IgnoreLocal| enc_txt_ignore_local(v));
    let e3 = enc_topt(q.data_representation, |u: Seq<u16>| enc_txt_data_representation(u));
    let r3 = rest;
    let r2 = e3 + r3;
    let r1 = e2 + r2;
    assert((e2 + e3) + rest =~= r1);
    assert(enc_text_d2(q) + rest =~= e1 + r1);
    match q.properties {
        Some(vv) => lemma_txt_properties_rt(vv, r1),
        None => {},
    }
    lemma_topt_round_trip(q.properties, r1, |l: Seq<PropView>| enc_txt_properties(l), |s2: Seq<u8>| sp_txt_properties(s2));
    match q.ignore_local {
        Some(vv) => lemma_txt_ignore_local_rt(vv, r2),
        None => {},
    }
    lemma_topt_round_trip(q.ignore_local, r2, |v: IgnoreLocal| enc_txt_ignore_local(v), |s2: Seq<u8>| sp_txt_ignore_local(s2));
    match q.data_representation {
        Some(vv) => lemma_txt_data_representation_rt(vv, r3),
        None => {},
    }
    lemma_topt_round_trip(q.data_representation, r3, |u: Seq<u16>| enc_txt_data_representation(u), |s2: Seq<u8>| sp_txt_data_representation(s2));
}

#[verifier::rlimit(100)]
#[verifier::spinoff_prover]
fn write_text_d2(out: &mut Vec<u8>, q: &Qos)
    ensures
        final(out)@ == old(out)@ + enc_text_d2(q@),
{
    let ghost base = out@;
    write_topt_properties(out, &q.properties);
    write_topt_ignore_local(out, &q.ignore_local);
    write_topt_data_representation(out, &q.data_representation);
    proof { assert(out@ =~= base + enc_text_d2(q@)); }
}

#[verifier::rlimit(100)]
#[verifier::spinoff_prover]
fn read_text_d2(buf: &Vec<u8>, pos: usize) -> (r: Result<((Option<Properties>, Option<IgnoreLocal>, Option<Vec<u16>>), usize), QosError>)
    requires
        pos <= buf@.len(),
    ensures
        match r {
            Ok((t, p2)) => pos <= p2 <= buf@.len() && sp_text_d2(buf@.skip(pos as int)) == Some(
                ((t.0.deep_view(), t.1.deep_view(), t.2.deep_view()), buf@.skip(p2 as int)),
            ),
            Err(e) => e == QosError::SerializationError && sp_text_d2(buf@.skip(pos as int)) is None,
        },
{
    let p = pos;
    let (properties, p) = match read_topt_properties(buf, p) { Ok(x) => x, Err(e) => { return Err(e); } };
    let (ignore_local, p) = match read_topt_ignore_local(buf, p) { Ok(x) => x, Err(e) => { return Err(e); } };
    let (data_representation, p) = match read_topt_data_representation(buf, p) { Ok(x) => x, Err(e) => { return Err(e); } };
    Ok(((properties, ignore_local, data_representation), p))
}

// ---------------------------------------------------------------------------
// The whole aggregate as one text document.
// ---------------------------------------------------------------------------

/// The text image of an aggregate: a document marker, then one tagged segment
/// per policy in schema order.
pub open spec fn enc_text_qos(q: QosV) -> Seq<u8> {
    "qos:".spec_bytes() + (enc_text_a1(q) + (enc_text_a2(q) + (enc_text_b1(q) + (enc_text_b2(q)
        + (enc_text_c1(q) + (enc_text_c2(q) + (enc_text_d1(q) + enc_text_d2(q))))))))
}

/// What the text decoder accepts: the parsed aggregate and the unconsumed
/// remainder.
pub open spec fn sp_text_qos(s: Seq<u8>) -> Option<(QosV, Seq<u8>)> {
    match sp_lit(s, "qos:".spec_bytes()) {
        Some(s) => match sp_text_a1(s) {
            Some((a1, s)) => match sp_text_a2(s) {
                Some((a2, s)) => match sp_text_b1(s) {
                    Some((b1, s)) => match sp_text_b2(s) {
                        Some((b2, s)) => match sp_text_c1(s) {
                            Some((c1, s)) => match sp_text_c2(s) {
                                Some((c2, s)) => match sp_text_d1(s) {
                                    Some((d1, s)) => match sp_text_d2(s) {
                                        Some((d2, s)) => Some(
                                            (
                                                QosV {
                                                    user_data: a1.0,
                                                    topic_data: a1.1,
                                                    group_data: a1.2,
                                                    durability: a1.3,
                                                    durability_service: a2.0,
                                                    presentation: a2.1,
                                                    deadline: a2.2,
                                                    latency_budget: b1.0,
                                                    ownership: b1.1,
                                                    ownership_strength: b1.2,
                                                    liveliness: b1.3,
                                                    time_based_filter: b2.0,
                                                    partition: b2.1,
                                                    reliability: b2.2,
                                                    transport_priority: c1.0,
                                                    lifespan: c1.1,
                                                    destination_order: c1.2,
                                                    history: c1.3,
                                                    resource_limits: c2.0,
                                                    writer_data_lifecycle: c2.1,
                                                    reader_data_lifecycle: c2.2,
                                                    writer_batching: d1.0,
                                                    type_consistency: d1.1,
                                                    entity_name: d1.2,
                                                    properties: d2.0,
                                                    ignore_local: d2.1,
                                                    data_representation: d2.2,
                                                },
                                                s,
                                            ),
                                        ),
                                        None => None,
                                    },
                                    None => None,
                                },
                                None => None,
                            },
                            None => None,
                        },
                        None => None,
                    },
                    None => None,
                },
                None => None,
            },
            None => None,
        },
        None => None,
    }
}

/// The aggregate a whole text document denotes: defined exactly when the
/// document parses and nothing is left over.
pub open spec fn sp_text_qos_total(s: Seq<u8>) -> Option<QosV> {
    match sp_text_qos(s) {
        Some((q, rem)) => if rem.len() == 0 {
            Some(q)
        } else {
            None
        },
        None => None,
    }
}

/// Law: decoding a freshly encoded aggregate, in the text form, reproduces it
/// exactly — absent slots stay absent, populated slots keep every field, and
/// the numeric sentinels come back unchanged.
#[verifier::rlimit(100)]
#[verifier::spinoff_prover]
pub proof fn lemma_text_round_trip(q: QosV)
    requires
        crate::binary::spec_qos_wire_encodable(q),
    ensures
        sp_text_qos_total(enc_text_qos(q)) == Some(q),
{
    let r8 = Seq::<u8>::empty();
    let r7 = enc_text_d2(q) + r8;
    let r6 = enc_text_d1(q) + r7;
    let r5 = enc_text_c2(q) + r6;
    let r4 = enc_text_c1(q) + r5;
    let r3 = enc_text_b2(q) + r4;
    let r2 = enc_text_b1(q) + r3;
    let r1 = enc_text_a2(q) + r2;
    let r0 = enc_text_a1(q) + r1;
    assert(enc_text_d2(q) + r8 =~= enc_text_d2(q));
    assert((enc_text_d1(q) + enc_text_d2(q)) + r8 =~= r6);
    assert((enc_text_c2(q) + (enc_text_d1(q) + enc_text_d2(q))) + r8 =~= r5);
    assert((enc_text_c1(q) + (enc_text_c2(q) + (enc_text_d1(q) + enc_text_d2(q)))) + r8 =~= r4);
    assert((enc_text_b2(q) + (enc_text_c1(q) + (enc_text_c2(q) + (enc_text_d1(q) + enc_text_d2(
        q,
    ))))) + r8 =~= r3);
    assert((enc_text_b1(q) + (enc_text_b2(q) + (enc_text_c1(q) + (enc_text_c2(q) + (enc_text_d1(q)
        + enc_text_d2(q)))))) + r8 =~= r2);
    assert((enc_text_a2(q) + (enc_text_b1(q) + (enc_text_b2(q) + (enc_text_c1(q) + (enc_text_c2(q)
        + (enc_text_d1(q) + enc_text_d2(q))))))) + r8 =~= r1);
    assert((enc_text_a1(q) + (enc_text_a2(q) + (enc_text_b1(q) + (enc_text_b2(q) + (enc_text_c1(q)
        + (enc_text_c2(q) + (enc_text_d1(q) + enc_text_d2(q)))))))) + r8 =~= r0);
    assert(enc_text_qos(q) =~= "qos:".spec_bytes() + r0);
    lemma_lit_round_trip("qos:".spec_bytes(), r0);
    lemma_text_a1_rt(q, r1);
    lemma_text_a2_rt(q, r2);
    lemma_text_b1_rt(q, r3);
    lemma_text_b2_rt(q, r4);
    lemma_text_c1_rt(q, r5);
    lemma_text_c2_rt(q, r6);
    lemma_text_d1_rt(q, r7);
    lemma_text_d2_rt(q, r8);
}

impl Qos {
    /// Encode the aggregate to its self-describing text form.
    #[verifier::rlimit(100)]
    #[verifier::spinoff_prover]
    pub fn encode_text(&self) -> (r: Vec<u8>)
        ensures
            r@ == enc_text_qos(self@),
    {
        let mut out: Vec<u8> = Vec::new();
        write_lit(&mut out, "qos:");
        write_text_a1(&mut out, self);
        write_text_a2(&mut out, self);
        write_text_b1(&mut out, self);
        write_text_b2(&mut out, self);
        write_text_c1(&mut out, self);
        write_text_c2(&mut out, self);
        write_text_d1(&mut out, self);
        write_text_d2(&mut out, self);
        proof {
            let h = "qos:".spec_bytes();
            let e1 = enc_text_a1(self@);
            let e2 = enc_text_a2(self@);
            let e3 = enc_text_b1(self@);
            let e4 = enc_text_b2(self@);
            let e5 = enc_text_c1(self@);
            let e6 = enc_text_c2(self@);
            let e7 = enc_text_d1(self@);
            let e8 = enc_text_d2(self@);
            let left = ((((((((h + e1) + e2) + e3) + e4) + e5) + e6) + e7) + e8);
            assert(out@ =~= left);
            assert(left =~= (((((((h + e1) + e2) + e3) + e4) + e5) + e6) + (e7 + e8)));
            assert(left =~= ((((((h + e1) + e2) + e3) + e4) + e5) + (e6 + (e7 + e8))));
            assert(left =~= (((((h + e1) + e2) + e3) + e4) + (e5 + (e6 + (e7 + e8)))));
            assert(left =~= ((((h + e1) + e2) + e3) + (e4 + (e5 + (e6 + (e7 + e8))))));
            assert(left =~= (((h + e1) + e2) + (e3 + (e4 + (e5 + (e6 + (e7 + e8)))))));
            assert(left =~= ((h + e1) + (e2 + (e3 + (e4 + (e5 + (e6 + (e7 + e8))))))));
            assert(left =~= (h + (e1 + (e2 + (e3 + (e4 + (e5 + (e6 + (e7 + e8)))))))));
            assert(out@ =~= enc_text_qos(self@));
        }
        out
    }

    /// Decode the text form.  Returns a serialization error, with no other
    /// effect, on any input that is not exactly an encoded aggregate.
    #[verifier::rlimit(100)]
    #[verifier::spinoff_prover]
    pub fn decode_text(buf: &Vec<u8>) -> (r: Result<Qos, QosError>)
        ensures
            r matches Ok(q) ==> sp_text_qos_total(buf@) == Some(q@),
            r matches Err(e) ==> e == QosError::SerializationError && sp_text_qos_total(
                buf@,
            ) is None,
    {
        proof {
            assert(buf@.skip(0) =~= buf@);
        }
        let p = match expect_lit(buf, 0, "qos:") {
            Ok(x) => x,
            Err(e) => {
                return Err(e);
            },
        };
        let (a1, p) = match read_text_a1(buf, p) {
            Ok(x) => x,
            Err(e) => {
                return Err(e);
            },
        };
        let (a2, p) = match read_text_a2(buf, p) {
            Ok(x) => x,
            Err(e) => {
                return Err(e);
            },
        };
        let (b1, p) = match read_text_b1(buf, p) {
            Ok(x) => x,
            Err(e) => {
                return Err(e);
            },
        };
        let (b2, p) = match read_text_b2(buf, p) {
            Ok(x) => x,
            Err(e) => {
                return Err(e);
            },
        };
        let (c1, p) = match read_text_c1(buf, p) {
            Ok(x) => x,
            Err(e) => {
                return Err(e);
            },
        };
        let (c2, p) = match read_text_c2(buf, p) {
            Ok(x) => x,
            Err(e) => {
                return Err(e);
            },
        };
        let (d1, p) = match read_text_d1(buf, p) {
            Ok(x) => x,
            Err(e) => {
                return Err(e);
            },
        };
        let (d2, p) = match read_text_d2(buf, p) {
            Ok(x) => x,
            Err(e) => {
                return Err(e);
            },
        };
        if p != buf.len() {
            return Err(QosError::SerializationError);
        }
        let (user_data, topic_data, group_data, durability) = a1;
        let (durability_service, presentation, deadline) = a2;
        let (latency_budget, ownership, ownership_strength, liveliness) = b1;
        let (time_based_filter, partition, reliability) = b2;
        let (transport_priority, lifespan, destination_order, history) = c1;
        let (resource_limits, writer_data_lifecycle, reader_data_lifecycle) = c2;
        let (writer_batching, type_consistency, entity_name) = d1;
        let (properties, ignore_local, data_representation) = d2;
        Ok(
            Qos {
                user_data,
                topic_data,
                group_data,
                durability,
                durability_service,
                presentation,
                deadline,
                latency_budget,
                ownership,
                ownership_strength,
                liveliness,
                time_based_filter,
                partition,
                reliability,
                transport_priority,
                lifespan,
                destination_order,
                history,
                resource_limits,
                writer_data_lifecycle,
                reader_data_lifecycle,
                writer_batching,
                type_consistency,
                entity_name,
                properties,
                ignore_local,
                data_representation,
            },
        )
    }
}

} // verus!
