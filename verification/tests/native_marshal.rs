//! Marshaling tests against the modeled configuration object: one encode and
//! one decode test per policy, mirroring the policy catalog.

use dds_qos::native::NativeQos;
use dds_qos::policy::{
    Durability, DurabilityKind, DurabilityService, Presentation, PresentationAccessScopeKind,
    Deadline, LatencyBudget, Ownership, OwnershipKind, OwnershipStrength, Liveliness,
    LivelinessKind, TimeBasedFilter, Reliability, ReliabilityKind, TransportPriority, Lifespan,
    DestinationOrder, DestinationOrderKind, History, HistoryKind, ResourceLimits,
    WriterDataLifecycle, ReaderDataLifecycle, WriterBatching, TypeConsistency,
    TypeConsistencyKind, EntityName, IgnoreLocal, IgnoreLocalKind,
};
use dds_qos::marshal::{
    user_data_to_qos_native, user_data_from_qos_native, topic_data_to_qos_native,
    topic_data_from_qos_native, group_data_to_qos_native, group_data_from_qos_native,
    durability_to_qos_native, durability_from_qos_native, durability_service_to_qos_native,
    durability_service_from_qos_native, presentation_to_qos_native, presentation_from_qos_native,
    deadline_to_qos_native, deadline_from_qos_native, latency_budget_to_qos_native,
    latency_budget_from_qos_native, ownership_to_qos_native, ownership_from_qos_native,
    ownership_strength_to_qos_native, ownership_strength_from_qos_native,
    liveliness_to_qos_native, liveliness_from_qos_native, time_based_filter_to_qos_native,
    time_based_filter_from_qos_native, partition_to_qos_native, partition_from_qos_native,
    reliability_to_qos_native, reliability_from_qos_native, transport_priority_to_qos_native,
    transport_priority_from_qos_native, lifespan_to_qos_native, lifespan_from_qos_native,
    destination_order_to_qos_native, destination_order_from_qos_native, history_to_qos_native,
    history_from_qos_native, resource_limits_to_qos_native, resource_limits_from_qos_native,
    writer_data_lifecycle_to_qos_native, writer_data_lifecycle_from_qos_native,
    reader_data_lifecycle_to_qos_native, reader_data_lifecycle_from_qos_native,
    writer_batching_to_qos_native, writer_batching_from_qos_native,
    type_consistency_to_qos_native, type_consistency_from_qos_native,
    entity_name_to_qos_native, entity_name_from_qos_native, properties_to_qos_native,
    properties_from_qos_native, ignore_local_to_qos_native, ignore_local_from_qos_native,
    data_representation_to_qos_native, data_representation_from_qos_native,
};
use dds_qos::qos::Qos;

fn create_u8_vec_for_tests() -> Vec<u8> {
    vec![b'a', b'b', b'c', b'd', b'e']
}

#[test]
fn test_user_data_to_native() {
    let mut qos_native = NativeQos::new();
    let policy = Some(create_u8_vec_for_tests());
    user_data_to_qos_native(&mut qos_native, &policy);
    let output = qos_native.get_userdata();
    assert!(output.len() == 5);
    assert_eq!(output, policy.unwrap());
}

#[test]
fn test_user_data_from_native() {
    let mut qos_native = NativeQos::new();
    let test_vec = create_u8_vec_for_tests();
    qos_native.set_userdata(&test_vec);
    let policy = user_data_from_qos_native(&qos_native);
    assert!(policy.is_some());
    assert!(policy.unwrap() == test_vec);
}

#[test]
fn test_topic_data_to_native() {
    let mut qos_native = NativeQos::new();
    let policy = Some(create_u8_vec_for_tests());
    topic_data_to_qos_native(&mut qos_native, &policy);
    let output = qos_native.get_topicdata();
    assert!(output.len() == 5);
    assert_eq!(output, policy.unwrap());
}

#[test]
fn test_topic_data_from_native() {
    let mut qos_native = NativeQos::new();
    let test_vec = create_u8_vec_for_tests();
    qos_native.set_topicdata(&test_vec);
    let policy = topic_data_from_qos_native(&qos_native);
    assert!(policy.is_some());
    assert!(policy.unwrap() == test_vec);
}

#[test]
fn test_group_data_to_native() {
    let mut qos_native = NativeQos::new();
    let policy = Some(create_u8_vec_for_tests());
    group_data_to_qos_native(&mut qos_native, &policy);
    let output = qos_native.get_groupdata();
    assert!(output.len() == 5);
    assert_eq!(output, policy.unwrap());
}

#[test]
fn test_group_data_from_native() {
    let mut qos_native = NativeQos::new();
    let test_vec = create_u8_vec_for_tests();
    qos_native.set_groupdata(&test_vec);
    let policy = group_data_from_qos_native(&qos_native);
    assert!(policy.is_some());
    assert!(policy.unwrap() == test_vec);
}

#[test]
fn test_durability_to_native() {
    let kinds = vec![
        (DurabilityKind::PERSISTENT, 3u32),
        (DurabilityKind::TRANSIENT, 2u32),
        (DurabilityKind::TRANSIENT_LOCAL, 1u32),
        (DurabilityKind::VOLATILE, 0u32),
    ];
    for kind in kinds {
        let mut qos_native = NativeQos::new();
        let policy = Some(Durability { kind: kind.0 });
        durability_to_qos_native(&mut qos_native, &policy);
        let dur_kind = qos_native.get_durability();
        assert_eq!(dur_kind, kind.1);
    }
}

#[test]
fn test_durability_from_native() {
    let kinds = vec![
        (3u32, DurabilityKind::PERSISTENT),
        (2u32, DurabilityKind::TRANSIENT),
        (1u32, DurabilityKind::TRANSIENT_LOCAL),
        (0u32, DurabilityKind::VOLATILE),
    ];
    for kind in kinds {
        let mut qos_native = NativeQos::new();
        qos_native.set_durability(kind.0);
        let policy = durability_from_qos_native(&qos_native).unwrap();
        if dds_qos::elide::is_default(&Durability { kind: kind.1 }) {
            assert!(policy.is_none())
        } else {
            assert!(policy.is_some());
            assert_eq!(policy.unwrap().kind, kind.1);
        }
    }
}

#[test]
fn test_durability_service_to_native() {
    let kinds = vec![(HistoryKind::KEEP_LAST, 0u32), (HistoryKind::KEEP_ALL, 1u32)];
    for kind in kinds {
        let mut qos_native = NativeQos::new();
        let policy = DurabilityService {
            service_cleanup_delay: 100,
            history_kind: kind.0,
            history_depth: 100,
            max_samples: 100,
            max_instances: 100,
            max_samples_per_instance: 100,
        };
        let input = Some(policy.clone());
        durability_service_to_qos_native(&mut qos_native, &input);
        let (service_cleanup_delay, durability_history_kind, history_depth, max_samples,
            max_instances, max_samples_per_instance) = qos_native.get_durability_service();
        assert_eq!(service_cleanup_delay, policy.service_cleanup_delay);
        assert_eq!(durability_history_kind, kind.1);
        assert_eq!(history_depth, policy.history_depth);
        assert_eq!(max_samples, policy.max_samples);
        assert_eq!(max_instances, policy.max_instances);
        assert_eq!(max_samples_per_instance, policy.max_samples_per_instance);
    }
}

#[test]
fn test_durability_service_from_native() {
    let kinds = vec![(0u32, HistoryKind::KEEP_LAST), (1u32, HistoryKind::KEEP_ALL)];
    for kind in kinds {
        let mut qos_native = NativeQos::new();
        let service_cleanup_delay = 100;
        let history_depth = 100;
        let max_samples = 100;
        let max_instances = 100;
        let max_samples_per_instance = 100;
        qos_native.set_durability_service(
            service_cleanup_delay,
            kind.0,
            history_depth,
            max_samples,
            max_instances,
            max_samples_per_instance,
        );
        let policy = durability_service_from_qos_native(&qos_native).unwrap();
        assert!(policy.is_some());
        let policy = policy.unwrap();
        assert_eq!(policy.service_cleanup_delay, service_cleanup_delay);
        assert_eq!(policy.history_kind, kind.1);
        assert_eq!(policy.max_samples, max_samples);
        assert_eq!(policy.max_instances, max_instances);
        assert_eq!(policy.max_samples_per_instance, max_samples_per_instance);
    }
}

#[test]
fn test_presentation_to_native() {
    let kinds = vec![
        (PresentationAccessScopeKind::INSTANCE, 0u32),
        (PresentationAccessScopeKind::TOPIC, 1u32),
        (PresentationAccessScopeKind::GROUP, 2u32),
    ];
    for kind in kinds {
        let mut qos_native = NativeQos::new();
        let policy = Presentation { access_scope: kind.0, coherent_access: true, ordered_access: true };
        let input = Some(policy.clone());
        presentation_to_qos_native(&mut qos_native, &input.clone());
        let (pres_access_scope, coherent_access, ordered_access) = qos_native.get_presentation();
        assert_eq!(pres_access_scope, kind.1);
        assert_eq!(coherent_access, policy.coherent_access);
        assert_eq!(ordered_access, policy.ordered_access);
    }
}

#[test]
fn test_presentation_from_native() {
    let kinds = vec![
        (0u32, PresentationAccessScopeKind::INSTANCE),
        (1u32, PresentationAccessScopeKind::TOPIC),
        (2u32, PresentationAccessScopeKind::GROUP),
    ];
    for kind in kinds {
        let mut qos_native = NativeQos::new();
        let coherent_access = true;
        let ordered_access = true;
        qos_native.set_presentation(kind.0, coherent_access, ordered_access);
        let policy = presentation_from_qos_native(&qos_native).unwrap();
        assert!(policy.is_some());
        let policy = policy.unwrap();
        assert_eq!(policy.access_scope, kind.1);
        assert_eq!(policy.coherent_access, coherent_access);
        assert_eq!(policy.ordered_access, ordered_access);
    }
}

#[test]
fn test_deadline_to_native() {
    let mut qos_native = NativeQos::new();
    let policy = Deadline { period: 1000 };
    let input = Some(policy.clone());
    deadline_to_qos_native(&mut qos_native, &input.clone());
    let period = qos_native.get_deadline();
    assert_eq!(period, policy.period);
}

#[test]
fn test_deadline_from_native() {
    let mut qos_native = NativeQos::new();
    qos_native.set_deadline(1000);
    let policy = deadline_from_qos_native(&qos_native);
    assert!(policy.is_some());
    assert_eq!(policy.unwrap().period, 1000);
}

#[test]
fn test_latency_budget_to_native() {
    let mut qos_native = NativeQos::new();
    let policy = LatencyBudget { duration: 1000 };
    let input = Some(policy.clone());
    latency_budget_to_qos_native(&mut qos_native, &input.clone());
    let duration = qos_native.get_latency_budget();
    assert_eq!(duration, policy.duration);
}

#[test]
fn test_latency_budget_from_native() {
    let mut qos_native = NativeQos::new();
    qos_native.set_latency_budget(1000);
    let policy = latency_budget_from_qos_native(&qos_native);
    assert!(policy.is_some());
    assert_eq!(policy.unwrap().duration, 1000);
}

#[test]
fn test_ownership_to_native() {
    let kinds = vec![(OwnershipKind::SHARED, 0u32), (OwnershipKind::EXCLUSIVE, 1u32)];
    for kind in kinds {
        let mut qos_native = NativeQos::new();
        let policy = Some(Ownership { kind: kind.0 });
        ownership_to_qos_native(&mut qos_native, &policy);
        let own_kind = qos_native.get_ownership();
        assert_eq!(own_kind, kind.1);
    }
}

#[test]
fn test_ownership_from_native() {
    let kinds = vec![(0u32, OwnershipKind::SHARED), (1u32, OwnershipKind::EXCLUSIVE)];
    for kind in kinds {
        let mut qos_native = NativeQos::new();
        qos_native.set_ownership(kind.0);
        let policy = ownership_from_qos_native(&qos_native).unwrap();
        if dds_qos::elide::is_default(&Ownership { kind: kind.1 }) {
            assert!(policy.is_none())
        } else {
            assert!(policy.is_some());
            assert_eq!(policy.unwrap().kind, kind.1);
        }
    }
}

#[test]
fn test_ownership_strength_to_native() {
    let mut qos_native = NativeQos::new();
    let policy = OwnershipStrength { value: 1000 };
    let input = Some(policy.clone());
    ownership_strength_to_qos_native(&mut qos_native, &input.clone());
    let value = qos_native.get_ownership_strength();
    assert_eq!(value, policy.value);
}

#[test]
fn test_ownership_strength_from_native() {
    let mut qos_native = NativeQos::new();
    qos_native.set_ownership_strength(1000);
    let policy = ownership_strength_from_qos_native(&qos_native);
    assert!(policy.is_some());
    assert_eq!(policy.unwrap().value, 1000);
}

#[test]
fn test_liveliness_to_native() {
    let kinds = vec![
        (LivelinessKind::AUTOMATIC, 0u32),
        (LivelinessKind::MANUAL_BY_PARTICIPANT, 1u32),
        (LivelinessKind::MANUAL_BY_TOPIC, 2u32),
    ];
    for kind in kinds {
        let mut qos_native = NativeQos::new();
        let policy = Some(Liveliness { kind: kind.0, lease_duration: 1000 });
        liveliness_to_qos_native(&mut qos_native, &policy);
        let (live_kind, lease_duration) = qos_native.get_liveliness();
        assert_eq!(live_kind, kind.1);
        assert_eq!(lease_duration, 1000);
    }
}

#[test]
fn test_liveliness_from_native() {
    let kinds = vec![
        (0u32, LivelinessKind::AUTOMATIC),
        (1u32, LivelinessKind::MANUAL_BY_PARTICIPANT),
        (2u32, LivelinessKind::MANUAL_BY_TOPIC),
    ];
    for kind in kinds {
        let mut qos_native = NativeQos::new();
        qos_native.set_liveliness(kind.0, 1000);
        let policy = liveliness_from_qos_native(&qos_native).unwrap();
        assert!(policy.is_some());
        let policy = policy.unwrap();
        assert_eq!(policy.kind, kind.1);
        assert_eq!(policy.lease_duration, 1000);
    }
}

#[test]
fn test_time_based_filter_to_native() {
    let mut qos_native = NativeQos::new();
    let policy = TimeBasedFilter { minimum_separation: 1000 };
    let input = Some(policy.clone());
    time_based_filter_to_qos_native(&mut qos_native, &input.clone());
    let minimum_separation = qos_native.get_time_based_filter();
    assert_eq!(minimum_separation, policy.minimum_separation);
}

#[test]
fn test_time_based_filter_from_native() {
    let mut qos_native = NativeQos::new();
    qos_native.set_time_based_filter(1000);
    let policy = time_based_filter_from_qos_native(&qos_native);
    assert!(policy.is_some());
    assert_eq!(policy.unwrap().minimum_separation, 1000);
}

#[test]
fn test_partition_to_native() {
    let mut qos_native = NativeQos::new();
    let mut partitions: Vec<String> = Vec::new();
    partitions.push(String::from("P1"));
    partitions.push(String::from("P2"));
    let policy = Some(partitions.clone());
    partition_to_qos_native(&mut qos_native, &policy);
    let output = qos_native.get_partition();
    assert_eq!(output.len(), 2);
    assert_eq!(output, partitions);
}

#[test]
fn test_partition_from_native() {
    let mut qos_native = NativeQos::new();
    let mut partitions: Vec<String> = Vec::new();
    partitions.push(String::from("P1"));
    partitions.push(String::from("P2"));
    qos_native.set_partition(&partitions);
    let policy = partition_from_qos_native(&qos_native);
    assert!(policy.is_some());
    let policy = policy.unwrap();
    assert_eq!(policy.len(), 2);
    assert_eq!(policy, partitions);
}

#[test]
fn test_reliability_to_native() {
    let kinds = vec![(ReliabilityKind::BEST_EFFORT, 0u32), (ReliabilityKind::RELIABLE, 1u32)];
    for kind in kinds {
        let mut qos_native = NativeQos::new();
        let policy = Some(Reliability { kind: kind.0, max_blocking_time: 1000 });
        reliability_to_qos_native(&mut qos_native, &policy);
        let (rel_kind, max_blocking_time) = qos_native.get_reliability();
        assert_eq!(rel_kind, kind.1);
        assert_eq!(max_blocking_time, 1000);
    }
}

#[test]
fn test_reliability_from_native() {
    let kinds = vec![(0u32, ReliabilityKind::BEST_EFFORT), (1u32, ReliabilityKind::RELIABLE)];
    for kind in kinds {
        let mut qos_native = NativeQos::new();
        qos_native.set_reliability(kind.0, 1000);
        let policy = reliability_from_qos_native(&qos_native).unwrap();
        assert!(policy.is_some());
        let policy = policy.unwrap();
        assert_eq!(policy.kind, kind.1);
        assert_eq!(policy.max_blocking_time, 1000);
    }
}

#[test]
fn test_transport_priority_to_native() {
    let mut qos_native = NativeQos::new();
    let policy = TransportPriority { value: 1000 };
    let input = Some(policy.clone());
    transport_priority_to_qos_native(&mut qos_native, &input.clone());
    let value = qos_native.get_transport_priority();
    assert_eq!(value, policy.value);
}

#[test]
fn test_transport_priority_from_native() {
    let mut qos_native = NativeQos::new();
    qos_native.set_transport_priority(1000);
    let policy = transport_priority_from_qos_native(&qos_native);
    assert!(policy.is_some());
    assert_eq!(policy.unwrap().value, 1000);
}

#[test]
fn test_lifespan_to_native() {
    let mut qos_native = NativeQos::new();
    let policy = Lifespan { duration: 1000 };
    let input = Some(policy.clone());
    lifespan_to_qos_native(&mut qos_native, &input.clone());
    let duration = qos_native.get_lifespan();
    assert_eq!(duration, policy.duration);
}

#[test]
fn test_lifespan_from_native() {
    let mut qos_native = NativeQos::new();
    qos_native.set_lifespan(1000);
    let policy = lifespan_from_qos_native(&qos_native);
    assert!(policy.is_some());
    assert_eq!(policy.unwrap().duration, 1000);
}

#[test]
fn test_destination_order_to_native() {
    let kinds = vec![
        (DestinationOrderKind::BY_RECEPTION_TIMESTAMP, 0u32),
        (DestinationOrderKind::BY_SOURCE_TIMESTAMP, 1u32),
    ];
    for kind in kinds {
        let mut qos_native = NativeQos::new();
        let policy = Some(DestinationOrder { kind: kind.0 });
        destination_order_to_qos_native(&mut qos_native, &policy);
        let dest_kind = qos_native.get_destination_order();
        assert_eq!(dest_kind, kind.1);
    }
}

#[test]
fn test_destination_order_from_native() {
    let kinds = vec![
        (0u32, DestinationOrderKind::BY_RECEPTION_TIMESTAMP),
        (1u32, DestinationOrderKind::BY_SOURCE_TIMESTAMP),
    ];
    for kind in kinds {
        let mut qos_native = NativeQos::new();
        qos_native.set_destination_order(kind.0);
        let policy = destination_order_from_qos_native(&qos_native).unwrap();
        if dds_qos::elide::is_default(&DestinationOrder { kind: kind.1 }) {
            assert!(policy.is_none())
        } else {
            assert!(policy.is_some());
            assert_eq!(policy.unwrap().kind, kind.1);
        }
    }
}

#[test]
fn test_history_to_native() {
    let kinds = vec![(HistoryKind::KEEP_LAST, 0u32), (HistoryKind::KEEP_ALL, 1u32)];
    for kind in kinds {
        let mut qos_native = NativeQos::new();
        let policy = Some(History { kind: kind.0, depth: 1000 });
        history_to_qos_native(&mut qos_native, &policy);
        let (hist_kind, depth) = qos_native.get_history();
        assert_eq!(hist_kind, kind.1);
        assert_eq!(depth, 1000);
    }
}

#[test]
fn test_history_from_native() {
    let kinds = vec![(0u32, HistoryKind::KEEP_LAST), (1u32, HistoryKind::KEEP_ALL)];
    for kind in kinds {
        let mut qos_native = NativeQos::new();
        qos_native.set_history(kind.0, 1000);
        let policy = history_from_qos_native(&qos_native).unwrap();
        assert!(policy.is_some());
        let policy = policy.unwrap();
        assert_eq!(policy.kind, kind.1);
        assert_eq!(policy.depth, 1000);
    }
}

#[test]
fn test_resource_limits_to_native() {
    let mut qos_native = NativeQos::new();
    let policy = ResourceLimits { max_samples: 1000, max_instances: 1000, max_samples_per_instance: 1000 };
    let input = Some(policy.clone());
    resource_limits_to_qos_native(&mut qos_native, &input.clone());
    let (max_samples, max_instances, max_samples_per_instance) = qos_native.get_resource_limits();
    assert_eq!(max_samples, policy.max_samples);
    assert_eq!(max_instances, policy.max_instances);
    assert_eq!(max_samples_per_instance, policy.max_samples_per_instance);
}

#[test]
fn test_resource_limits_from_native() {
    let mut qos_native = NativeQos::new();
    qos_native.set_resource_limits(1000, 1000, 1000);
    let policy = resource_limits_from_qos_native(&qos_native);
    assert!(policy.is_some());
    let policy = policy.unwrap();
    assert_eq!(policy.max_samples, 1000);
    assert_eq!(policy.max_instances, 1000);
    assert_eq!(policy.max_samples_per_instance, 1000);
}

#[test]
fn test_writer_data_lifecycle_to_native() {
    let mut qos_native = NativeQos::new();
    let policy = Some(WriterDataLifecycle { autodispose_unregistered_instances: false });
    writer_data_lifecycle_to_qos_native(&mut qos_native, &policy);
    let autodispose = qos_native.get_writer_data_lifecycle();
    assert!(!autodispose);
}

#[test]
fn test_writer_data_lifecycle_from_native() {
    let mut qos_native = NativeQos::new();
    qos_native.set_writer_data_lifecycle(false);
    let policy = writer_data_lifecycle_from_qos_native(&qos_native);
    assert!(policy.is_some());
    assert!(!policy.unwrap().autodispose_unregistered_instances);
}

#[test]
fn test_reader_data_lifecycle_to_native() {
    let mut qos_native = NativeQos::new();
    let policy = ReaderDataLifecycle {
        autopurge_nowriter_samples_delay: 1000,
        autopurge_disposed_samples_delay: 1000,
    };
    let input = Some(policy.clone());
    reader_data_lifecycle_to_qos_native(&mut qos_native, &input.clone());
    let (nowriter, disposed) = qos_native.get_reader_data_lifecycle();
    assert_eq!(nowriter, policy.autopurge_nowriter_samples_delay);
    assert_eq!(disposed, policy.autopurge_disposed_samples_delay);
}

#[test]
fn test_reader_data_lifecycle_from_native() {
    let mut qos_native = NativeQos::new();
    qos_native.set_reader_data_lifecycle(1000, 1000);
    let policy = reader_data_lifecycle_from_qos_native(&qos_native);
    assert!(policy.is_some());
    let policy = policy.unwrap();
    assert_eq!(policy.autopurge_nowriter_samples_delay, 1000);
    assert_eq!(policy.autopurge_disposed_samples_delay, 1000);
}

#[test]
fn test_writer_batching_to_native() {
    let mut qos_native = NativeQos::new();
    let policy = Some(WriterBatching { batch_updates: true });
    writer_batching_to_qos_native(&mut qos_native, &policy);
    let batch_updates = qos_native.get_writer_batching();
    assert!(batch_updates);
}

#[test]
fn test_writer_batching_from_native() {
    let mut qos_native = NativeQos::new();
    qos_native.set_writer_batching(true);
    let policy = writer_batching_from_qos_native(&qos_native);
    assert!(policy.is_some());
    assert!(policy.unwrap().batch_updates);
}

#[test]
fn test_type_consistency_to_native() {
    let kinds = vec![
        (TypeConsistencyKind::DISALLOW_TYPE_COERCION, 0u32),
        (TypeConsistencyKind::ALLOW_TYPE_COERCION, 1u32),
    ];
    for kind in kinds {
        let mut qos_native = NativeQos::new();
        let policy = TypeConsistency {
            kind: kind.0,
            ignore_sequence_bounds: true,
            ignore_string_bounds: true,
            ignore_member_names: true,
            prevent_type_widening: true,
            force_type_validation: true,
        };
        let input = Some(policy.clone());
        type_consistency_to_qos_native(&mut qos_native, &input.clone());
        let (tk, isb, istb, imn, ptw, ftv) = qos_native.get_type_consistency();
        assert_eq!(tk, kind.1);
        assert_eq!(isb, policy.ignore_sequence_bounds);
        assert_eq!(istb, policy.ignore_string_bounds);
        assert_eq!(imn, policy.ignore_member_names);
        assert_eq!(ptw, policy.prevent_type_widening);
        assert_eq!(ftv, policy.force_type_validation);
    }
}

#[test]
fn test_type_consistency_from_native() {
    let kinds = vec![
        (0u32, TypeConsistencyKind::DISALLOW_TYPE_COERCION),
        (1u32, TypeConsistencyKind::ALLOW_TYPE_COERCION),
    ];
    for kind in kinds {
        let mut qos_native = NativeQos::new();
        qos_native.set_type_consistency(kind.0, true, true, true, true, true);
        let policy = type_consistency_from_qos_native(&qos_native).unwrap();
        assert!(policy.is_some());
        let policy = policy.unwrap();
        assert_eq!(policy.kind, kind.1);
        assert!(policy.ignore_sequence_bounds);
        assert!(policy.ignore_string_bounds);
        assert!(policy.ignore_member_names);
        assert!(policy.prevent_type_widening);
        assert!(policy.force_type_validation);
    }
}

#[test]
fn test_entity_name_to_native() {
    let mut qos_native = NativeQos::new();
    let name = Some(EntityName { name: String::from("TEST_ENTITY_NAME") });
    entity_name_to_qos_native(&mut qos_native, &name);
    let p = qos_native.get_entity_name();
    assert_eq!(p, name.unwrap().name);
}

#[test]
fn test_entity_name_from_native() {
    let mut qos_native = NativeQos::new();
    let name = String::from("TEST_ENTITY_NAME");
    qos_native.set_entity_name(&name);
    let policy = entity_name_from_qos_native(&qos_native);
    assert!(policy.is_some());
    let policy = policy.unwrap();
    assert_eq!(name, policy.name);
}

#[test]
fn test_properties_to_native() {
    let mut qos_native = NativeQos::new();
    let mut properties = dds_qos::props::Properties::new();
    properties.insert(String::from("PROP_1"), String::from("VALUE_1"));
    properties.insert(String::from("PROP_2"), String::from("VALUE_2"));
    properties.insert(String::from("PROP_3"), String::from("VALUE_3"));
    let policy = Some(properties.clone());
    properties_to_qos_native(&mut qos_native, &policy);
    let names = qos_native.get_propnames();
    let properties = policy.unwrap();
    assert_eq!(names.len(), properties.len());
    for name in names {
        let value = qos_native.get_prop(&name);
        assert!(value.is_some());
        assert_eq!(properties.get(&name).unwrap(), &value.unwrap());
    }
}

#[test]
fn test_properties_from_native() {
    let mut qos_native = NativeQos::new();
    let mut properties = dds_qos::props::Properties::new();
    properties.insert(String::from("PROP_1"), String::from("VALUE_1"));
    properties.insert(String::from("PROP_2"), String::from("VALUE_2"));
    properties.insert(String::from("PROP_3"), String::from("VALUE_3"));
    for entry in &properties.entries {
        qos_native.set_prop(&entry.key, &entry.value);
    }
    let policy = properties_from_qos_native(&qos_native);
    assert!(policy.is_some());
    let policy = policy.unwrap();
    assert_eq!(policy.len(), properties.len());
    for entry in &properties.entries {
        let prop_value = policy.get(&entry.key);
        assert!(prop_value.is_some());
        assert_eq!(prop_value.unwrap(), &entry.value);
    }
}

#[test]
fn test_ignore_local_to_native() {
    let kinds = vec![
        (IgnoreLocalKind::NONE, 0u32),
        (IgnoreLocalKind::PARTICIPANT, 1u32),
        (IgnoreLocalKind::PROCESS, 2u32),
    ];
    for kind in kinds {
        let mut qos_native = NativeQos::new();
        let policy = IgnoreLocal { kind: kind.0 };
        let input = Some(policy.clone());
        ignore_local_to_qos_native(&mut qos_native, &input.clone());
        let ignore_kind = qos_native.get_ignorelocal();
        assert_eq!(ignore_kind, kind.1);
    }
}

#[test]
fn test_ignore_local_from_native() {
    let kinds = vec![
        (0u32, IgnoreLocalKind::NONE),
        (1u32, IgnoreLocalKind::PARTICIPANT),
        (2u32, IgnoreLocalKind::PROCESS),
    ];
    for kind in kinds {
        let mut qos_native = NativeQos::new();
        qos_native.set_ignorelocal(kind.0);
        let policy = ignore_local_from_qos_native(&qos_native).unwrap();
        if dds_qos::elide::is_default(&IgnoreLocal { kind: kind.1 }) {
            assert!(policy.is_none())
        } else {
            assert!(policy.is_some());
            assert_eq!(policy.unwrap().kind, kind.1);
        }
    }
}

#[test]
fn test_data_representation_to_native() {
    let mut qos_native = NativeQos::new();
    let values: Vec<u16> = vec![0, 2];
    let data_representation = Some(values.clone());
    data_representation_to_qos_native(&mut qos_native, &data_representation);
    let output = qos_native.get_data_representation();
    assert_eq!(output.len(), values.len());
    for k in 0..output.len() {
        assert_eq!(values[k], output[k]);
    }
}

#[test]
fn test_data_representation_from_native() {
    let mut qos_native = NativeQos::new();
    let values: Vec<u16> = vec![0, 2];
    qos_native.set_data_representation(&values);
    let policy = data_representation_from_qos_native(&qos_native);
    assert!(policy.is_some());
    let policy = policy.unwrap();
    assert_eq!(policy.len(), values.len());
    for k in 0..policy.len() {
        assert_eq!(values[k], policy[k]);
    }
}

#[test]
fn test_default_qos_from_native() {
    let qos_native = NativeQos::new();
    let qos = Qos::from_qos_native(&qos_native).unwrap();
    assert!(dds_qos::qos::assert_no_policies_set(&qos));
    Qos::delete_qos_native(qos_native);
}
