//! End-to-end scenarios: default and fully populated aggregates, the text and
//! binary codecs, default elision, and the error taxonomy.

use dds_qos::elide::{is_default, is_option_default, to_option};
use dds_qos::native::NativeQos;
use dds_qos::policy::{
    Durability, DurabilityKind, DurabilityService, Presentation, PresentationAccessScopeKind,
    Deadline, LatencyBudget, Ownership, OwnershipKind, OwnershipStrength, Liveliness,
    LivelinessKind, TimeBasedFilter, Reliability, ReliabilityKind, TransportPriority, Lifespan,
    DestinationOrder, DestinationOrderKind, History, HistoryKind, ResourceLimits,
    WriterDataLifecycle, ReaderDataLifecycle, WriterBatching, TypeConsistency,
    TypeConsistencyKind, EntityName, IgnoreLocal, IgnoreLocalKind,
};
use dds_qos::props::Properties;
use dds_qos::qos::{assert_all_policies_set, assert_no_policies_set, Qos};
use dds_qos::{QosError, DDS_INFINITE_TIME, DDS_LENGTH_UNLIMITED};

fn create_u8_vec_for_tests() -> Vec<u8> {
    vec![b'a', b'b', b'c', b'd', b'e']
}

fn populate_native() -> NativeQos {
    let mut qos_native = NativeQos::new();
    let user_data = Some(create_u8_vec_for_tests());
    dds_qos::marshal::user_data_to_qos_native(&mut qos_native, &user_data);
    let topic_data = Some(create_u8_vec_for_tests());
    dds_qos::marshal::topic_data_to_qos_native(&mut qos_native, &topic_data);
    let group_data = Some(create_u8_vec_for_tests());
    dds_qos::marshal::group_data_to_qos_native(&mut qos_native, &group_data);
    let durability = Some(Durability { kind: DurabilityKind::TRANSIENT_LOCAL });
    dds_qos::marshal::durability_to_qos_native(&mut qos_native, &durability);
    let durability_service = Some(DurabilityService {
        history_kind: HistoryKind::KEEP_ALL,
        ..Default::default()
    });
    dds_qos::marshal::durability_service_to_qos_native(&mut qos_native, &durability_service);
    let presentation = Some(Presentation {
        access_scope: PresentationAccessScopeKind::TOPIC,
        ..Default::default()
    });
    dds_qos::marshal::presentation_to_qos_native(&mut qos_native, &presentation);
    let deadline = Some(Deadline { period: 15 });
    dds_qos::marshal::deadline_to_qos_native(&mut qos_native, &deadline);
    let latency_budget = Some(LatencyBudget { duration: 42 });
    dds_qos::marshal::latency_budget_to_qos_native(&mut qos_native, &latency_budget);
    let ownership = Some(Ownership { kind: OwnershipKind::EXCLUSIVE });
    dds_qos::marshal::ownership_to_qos_native(&mut qos_native, &ownership);
    let ownership_strength = Some(OwnershipStrength { value: 12 });
    dds_qos::marshal::ownership_strength_to_qos_native(&mut qos_native, &ownership_strength);
    let liveliness = Some(Liveliness {
        kind: LivelinessKind::MANUAL_BY_PARTICIPANT,
        lease_duration: 3,
    });
    dds_qos::marshal::liveliness_to_qos_native(&mut qos_native, &liveliness);
    let time_based_filter = Some(TimeBasedFilter { minimum_separation: 56 });
    dds_qos::marshal::time_based_filter_to_qos_native(&mut qos_native, &time_based_filter);
    let mut partitions = Vec::with_capacity(2);
    partitions.push(String::from("P1"));
    partitions.push(String::from("P2"));
    let partitions = Some(partitions);
    dds_qos::marshal::partition_to_qos_native(&mut qos_native, &partitions);
    let reliability = Some(Reliability { kind: ReliabilityKind::RELIABLE, max_blocking_time: 500 });
    dds_qos::marshal::reliability_to_qos_native(&mut qos_native, &reliability);
    let transport_priority = Some(TransportPriority { value: 3 });
    dds_qos::marshal::transport_priority_to_qos_native(&mut qos_native, &transport_priority);
    let lifespan = Some(Lifespan { duration: 10 });
    dds_qos::marshal::lifespan_to_qos_native(&mut qos_native, &lifespan);
    let destination_order = Some(DestinationOrder { kind: DestinationOrderKind::BY_SOURCE_TIMESTAMP });
    dds_qos::marshal::destination_order_to_qos_native(&mut qos_native, &destination_order);
    let history = Some(History { kind: HistoryKind::KEEP_LAST, depth: 10 });
    dds_qos::marshal::history_to_qos_native(&mut qos_native, &history);
    let resource_limits = Some(ResourceLimits { max_samples: 100, ..Default::default() });
    dds_qos::marshal::resource_limits_to_qos_native(&mut qos_native, &resource_limits);
    let writer_data_lifecycle = Some(WriterDataLifecycle {
        autodispose_unregistered_instances: false,
    });
    dds_qos::marshal::writer_data_lifecycle_to_qos_native(&mut qos_native, &writer_data_lifecycle);
    let reader_data_lifecycle = Some(ReaderDataLifecycle {
        autopurge_disposed_samples_delay: 30,
        ..Default::default()
    });
    dds_qos::marshal::reader_data_lifecycle_to_qos_native(&mut qos_native, &reader_data_lifecycle);
    let writer_batching = Some(WriterBatching { batch_updates: true });
    dds_qos::marshal::writer_batching_to_qos_native(&mut qos_native, &writer_batching);
    let type_consistency = Some(TypeConsistency {
        kind: TypeConsistencyKind::ALLOW_TYPE_COERCION,
        ..Default::default()
    });
    dds_qos::marshal::type_consistency_to_qos_native(&mut qos_native, &type_consistency);
    let entity_name = Some(EntityName { name: String::from("TEST_ENTITY_NAME") });
    dds_qos::marshal::entity_name_to_qos_native(&mut qos_native, &entity_name);
    let mut properties = Properties::new();
    properties.insert(String::from("PROP_1"), String::from("VALUE_1"));
    properties.insert(String::from("PROP_2"), String::from("VALUE_2"));
    properties.insert(String::from("PROP_3"), String::from("VALUE_3"));
    let properties = Some(properties);
    dds_qos::marshal::properties_to_qos_native(&mut qos_native, &properties);
    let ignore_local = Some(IgnoreLocal { kind: IgnoreLocalKind::PARTICIPANT });
    dds_qos::marshal::ignore_local_to_qos_native(&mut qos_native, &ignore_local);
    let data_representation: Option<Vec<u16>> = Some(vec![0, 2]);
    dds_qos::marshal::data_representation_to_qos_native(&mut qos_native, &data_representation);
    qos_native
}

#[test]
fn test_default_qos_serialization() {
    let qos_native = NativeQos::new();
    let qos = Qos::from_qos_native(&qos_native).unwrap();
    Qos::delete_qos_native(qos_native);

    let text = qos.encode_text();
    let qos2 = Qos::decode_text(&text).unwrap();
    assert!(qos == qos2);
    assert!(assert_no_policies_set(&qos2));

    let binary = qos.encode_binary();
    let qos3 = Qos::decode_binary(&binary).unwrap();
    assert!(qos == qos3);
    assert!(assert_no_policies_set(&qos3));
}

#[test]
fn test_fully_populated_qos_serialization() {
    let qos_native = populate_native();
    let qos = Qos::from_qos_native(&qos_native).unwrap();
    Qos::delete_qos_native(qos_native);

    let text = qos.encode_text();
    let qos2 = Qos::decode_text(&text).unwrap();
    assert!(qos == qos2);
    assert!(assert_all_policies_set(&qos2));

    let binary = qos.encode_binary();
    let qos3 = Qos::decode_binary(&binary).unwrap();
    assert!(qos == qos3);
    assert!(assert_all_policies_set(&qos3));
}

#[test]
fn three_policies_set_decode_exactly_those() {
    let mut qos_native = NativeQos::new();
    qos_native.set_durability(1);
    qos_native.set_reliability(1, 500_000_000);
    qos_native.set_history(0, 10);
    let qos = Qos::from_qos_native(&qos_native).unwrap();
    assert_eq!(qos.durability, Some(Durability { kind: DurabilityKind::TRANSIENT_LOCAL }));
    assert_eq!(
        qos.reliability,
        Some(Reliability { kind: ReliabilityKind::RELIABLE, max_blocking_time: 500_000_000 })
    );
    assert_eq!(qos.history, Some(History { kind: HistoryKind::KEEP_LAST, depth: 10 }));
    assert!(qos.user_data.is_none());
    assert!(qos.topic_data.is_none());
    assert!(qos.group_data.is_none());
    assert!(qos.durability_service.is_none());
    assert!(qos.presentation.is_none());
    assert!(qos.deadline.is_none());
    assert!(qos.latency_budget.is_none());
    assert!(qos.ownership.is_none());
    assert!(qos.ownership_strength.is_none());
    assert!(qos.liveliness.is_none());
    assert!(qos.time_based_filter.is_none());
    assert!(qos.partition.is_none());
    assert!(qos.transport_priority.is_none());
    assert!(qos.lifespan.is_none());
    assert!(qos.destination_order.is_none());
    assert!(qos.resource_limits.is_none());
    assert!(qos.writer_data_lifecycle.is_none());
    assert!(qos.reader_data_lifecycle.is_none());
    assert!(qos.writer_batching.is_none());
    assert!(qos.type_consistency.is_none());
    assert!(qos.entity_name.is_none());
    assert!(qos.properties.is_none());
    assert!(qos.ignore_local.is_none());
    assert!(qos.data_representation.is_none());
}

#[test]
fn default_aggregate_is_fully_absent() {
    let qos = Qos::default();
    assert!(assert_no_policies_set(&qos));
    assert!(qos == Qos::new());
}

#[test]
fn canonical_defaults_are_elided() {
    assert!(is_default(&Durability::default()));
    assert!(is_default(&DurabilityService::default()));
    assert!(is_default(&Presentation::default()));
    assert!(is_default(&Deadline::default()));
    assert!(is_default(&LatencyBudget::default()));
    assert!(is_default(&Ownership::default()));
    assert!(is_default(&OwnershipStrength::default()));
    assert!(is_default(&Liveliness::default()));
    assert!(is_default(&TimeBasedFilter::default()));
    assert!(is_default(&Reliability::default()));
    assert!(is_default(&TransportPriority::default()));
    assert!(is_default(&Lifespan::default()));
    assert!(is_default(&DestinationOrder::default()));
    assert!(is_default(&History::default()));
    assert!(is_default(&ResourceLimits::default()));
    assert!(is_default(&WriterDataLifecycle::default()));
    assert!(is_default(&ReaderDataLifecycle::default()));
    assert!(is_default(&WriterBatching::default()));
    assert!(is_default(&TypeConsistency::default()));
    assert!(is_default(&IgnoreLocal::default()));
    assert!(is_default(&EntityName::default()));
    assert!(to_option(Durability::default()).is_none());
    assert!(to_option(Reliability::default()).is_none());
    assert!(to_option(History::default()).is_none());
    assert!(to_option(EntityName::default()).is_none());
    assert!(to_option(Vec::<u8>::new()).is_none());
    assert!(to_option(Vec::<String>::new()).is_none());
    assert!(to_option(Vec::<u16>::new()).is_none());
    assert!(to_option(Properties::new()).is_none());
    assert!(is_option_default(&Option::<Durability>::None));
    assert!(is_option_default(&Some(Durability::default())));
    assert!(!is_option_default(&Some(Durability { kind: DurabilityKind::PERSISTENT })));
    let non_default = Reliability { kind: ReliabilityKind::RELIABLE, max_blocking_time: 500 };
    assert_eq!(to_option(non_default.clone()), Some(non_default));
}

#[test]
fn sentinels_survive_every_round_trip() {
    let mut qos = Qos::new();
    qos.liveliness = Some(Liveliness {
        kind: LivelinessKind::MANUAL_BY_TOPIC,
        lease_duration: DDS_INFINITE_TIME,
    });
    qos.resource_limits = Some(ResourceLimits {
        max_samples: 100,
        max_instances: DDS_LENGTH_UNLIMITED,
        max_samples_per_instance: DDS_LENGTH_UNLIMITED,
    });

    let native = qos.to_qos_native();
    let back = Qos::from_qos_native(&native).unwrap();
    Qos::delete_qos_native(native);
    assert_eq!(back.liveliness.as_ref().unwrap().lease_duration, DDS_INFINITE_TIME);
    assert_eq!(back.resource_limits.as_ref().unwrap().max_instances, DDS_LENGTH_UNLIMITED);
    assert!(back == qos);

    let text = qos.encode_text();
    let t = Qos::decode_text(&text).unwrap();
    assert_eq!(t.liveliness.as_ref().unwrap().lease_duration, DDS_INFINITE_TIME);
    assert_eq!(t.resource_limits.as_ref().unwrap().max_instances, DDS_LENGTH_UNLIMITED);
    assert!(t == qos);

    let binary = qos.encode_binary();
    let b = Qos::decode_binary(&binary).unwrap();
    assert_eq!(b.liveliness.as_ref().unwrap().lease_duration, DDS_INFINITE_TIME);
    assert_eq!(b.resource_limits.as_ref().unwrap().max_instances, DDS_LENGTH_UNLIMITED);
    assert!(b == qos);
}

#[test]
fn unknown_enumeration_code_is_a_protocol_violation() {
    let mut qos_native = NativeQos::new();
    qos_native.set_durability(17);
    let r = Qos::from_qos_native(&qos_native);
    assert_eq!(r.unwrap_err(), QosError::ProtocolViolation);

    let mut qos_native = NativeQos::new();
    qos_native.set_liveliness(9, 1000);
    let r = Qos::from_qos_native(&qos_native);
    assert_eq!(r.unwrap_err(), QosError::ProtocolViolation);
}

#[test]
fn malformed_documents_are_serialization_errors() {
    let empty: Vec<u8> = Vec::new();
    assert_eq!(Qos::decode_binary(&empty).unwrap_err(), QosError::SerializationError);
    assert_eq!(Qos::decode_text(&empty).unwrap_err(), QosError::SerializationError);

    let garbage: Vec<u8> = vec![7, 7, 7, 7];
    assert_eq!(Qos::decode_binary(&garbage).unwrap_err(), QosError::SerializationError);
    assert_eq!(Qos::decode_text(&garbage).unwrap_err(), QosError::SerializationError);

    let qos = Qos::default();
    let mut text = qos.encode_text();
    text.push(b'x');
    assert_eq!(Qos::decode_text(&text).unwrap_err(), QosError::SerializationError);
    let mut binary = qos.encode_binary();
    binary.push(0);
    assert_eq!(Qos::decode_binary(&binary).unwrap_err(), QosError::SerializationError);
}

#[test]
fn text_form_is_self_describing() {
    let mut qos = Qos::new();
    qos.durability = Some(Durability { kind: DurabilityKind::TRANSIENT_LOCAL });
    qos.reliability = Some(Reliability { kind: ReliabilityKind::RELIABLE, max_blocking_time: 500 });
    let text = qos.encode_text();
    let doc = String::from_utf8(text).unwrap();
    assert!(doc.starts_with("qos:"));
    assert!(doc.contains("durability{kind=1}"));
    assert!(doc.contains("reliability{kind=1,max_blocking_time=500}"));
    assert!(!doc.contains("history{"));
}

#[test]
fn presence_is_preserved_by_every_round_trip() {
    let qos_native = populate_native();
    let qos = Qos::from_qos_native(&qos_native).unwrap();

    let native2 = qos.to_qos_native();
    let n = Qos::from_qos_native(&native2).unwrap();
    assert!(assert_all_policies_set(&n));
    assert!(n == qos);

    let t = Qos::decode_text(&qos.encode_text()).unwrap();
    assert!(assert_all_policies_set(&t));
    let b = Qos::decode_binary(&qos.encode_binary()).unwrap();
    assert!(assert_all_policies_set(&b));

    let absent = Qos::default();
    let t2 = Qos::decode_text(&absent.encode_text()).unwrap();
    assert!(assert_no_policies_set(&t2));
    let b2 = Qos::decode_binary(&absent.encode_binary()).unwrap();
    assert!(assert_no_policies_set(&b2));
}

#[test]
fn property_interface_recovers_the_exact_map() {
    let mut qos_native = NativeQos::new();
    let prop_1 = String::from("PROP_1");
    let value_1 = String::from("VALUE_1");
    let prop_2 = String::from("PROP_2");
    let value_2 = String::from("VALUE_2");
    qos_native.set_prop(&prop_1, &value_1);
    qos_native.set_prop(&prop_2, &value_2);
    let decoded = dds_qos::marshal::properties_from_qos_native(&qos_native).unwrap();
    assert_eq!(decoded.len(), 2);
    assert_eq!(decoded.get(&prop_1).unwrap(), &value_1);
    assert_eq!(decoded.get(&prop_2).unwrap(), &value_2);
    let names = qos_native.get_propnames();
    assert_eq!(names.len(), 2);
    for name in &names {
        assert!(qos_native.get_prop(name).is_some());
    }
}

#[test]
fn empty_property_values_are_dropped_on_decode() {
    let mut qos_native = NativeQos::new();
    qos_native.set_prop(&String::from("PROP_1"), &String::from("VALUE_1"));
    qos_native.set_prop(&String::from("PROP_2"), &String::from(""));
    let decoded = dds_qos::marshal::properties_from_qos_native(&qos_native).unwrap();
    assert_eq!(decoded.len(), 1);
    assert!(decoded.get(&String::from("PROP_1")).is_some());
    assert!(decoded.get(&String::from("PROP_2")).is_none());
}

#[test]
fn properties_replace_on_repeated_insert() {
    let mut props = Properties::new();
    props.insert(String::from("PROP_1"), String::from("VALUE_1"));
    props.insert(String::from("PROP_1"), String::from("VALUE_2"));
    assert_eq!(props.len(), 1);
    assert_eq!(props.get(&String::from("PROP_1")).unwrap(), "VALUE_2");
}

#[test]
fn binary_form_is_compact_and_exact() {
    let qos = Qos::default();
    let binary = qos.encode_binary();
    assert_eq!(binary.len(), 27);
    assert!(binary.iter().all(|b| *b == 0));
}
