//! In-memory model of the opaque native configuration object.
//!
//! The real object lives inside the middleware library and is reached only
//! through accessor calls; this model holds, as plain values, exactly what
//! those accessors read and write: raw enumeration codes, durations in
//! nanoseconds, counts, flags and host-owned copies of every buffer.  A
//! freshly created object reports the compiled-in default for every policy,
//! and every getter succeeds on it, which is precisely the behaviour the
//! marshaling layer is written against.  Ownership is by value: the model is
//! released by dropping it, so a release on every exit path and the absence
//! of a double release hold by construction.

use vstd::prelude::*;
use crate::DDS_INFINITE_TIME;
use crate::DDS_100MS_DURATION;
use crate::DDS_LENGTH_UNLIMITED;
use crate::props::Properties;
use crate::props::PropView;
use crate::props::spec_props_get;
use crate::props::spec_props_insert;
use crate::props::spec_prop_keys;

verus! {

/// Copy a byte buffer into host-owned storage.
pub fn clone_bytes(x: &Vec<u8>) -> (r: Vec<u8>)
    ensures
        r@ == x@,
{
    let n = x.len();
    let mut r: Vec<u8> = Vec::new();
    let mut i: usize = 0;
    while i < n
        invariant
            n == x@.len(),
            i <= n,
            r@ =~= x@.take(i as int),
        decreases n - i,
    {
        r.push(x[i]);
        proof {
            assert(r@ =~= x@.take(i as int + 1));
        }
        i += 1;
    }
    proof {
        assert(x@.take(n as int) =~= x@);
    }
    r
}

/// Copy a list of representation identifiers into host-owned storage.
pub fn clone_u16s(x: &Vec<u16>) -> (r: Vec<u16>)
    ensures
        r@ == x@,
{
    let n = x.len();
    let mut r: Vec<u16> = Vec::new();
    let mut i: usize = 0;
    while i < n
        invariant
            n == x@.len(),
            i <= n,
            r@ =~= x@.take(i as int),
        decreases n - i,
    {
        r.push(x[i]);
        proof {
            assert(r@ =~= x@.take(i as int + 1));
        }
        i += 1;
    }
    proof {
        assert(x@.take(n as int) =~= x@);
    }
    r
}

/// Copy a list of strings into host-owned storage.
pub fn clone_strings(x: &Vec<String>) -> (r: Vec<String>)
    ensures
        r.deep_view() == x.deep_view(),
{
    let n = x.len();
    let mut r: Vec<String> = Vec::new();
    let mut i: usize = 0;
    while i < n
        invariant
            n == x@.len(),
            i <= n,
            r.deep_view() =~= x.deep_view().take(i as int),
        decreases n - i,
    {
        let s = x[i].clone();
        let ghost prev = r.deep_view();
        r.push(s);
        proof {
            assert(r.deep_view() =~= prev.push(s@));
            assert(r.deep_view() =~= x.deep_view().take(i as int + 1));
        }
        i += 1;
    }
    proof {
        assert(x.deep_view().take(n as int) =~= x.deep_view());
    }
    r
}

/// Mathematical view of the native configuration object's state.
pub ghost struct NativeV {
    pub user_data: Seq<u8>,
    pub topic_data: Seq<u8>,
    pub group_data: Seq<u8>,
    pub durability_kind: u32,
    pub durability_service_cleanup_delay: i64,
    pub durability_service_history_kind: u32,
    pub durability_service_history_depth: i32,
    pub durability_service_max_samples: i32,
    pub durability_service_max_instances: i32,
    pub durability_service_max_samples_per_instance: i32,
    pub presentation_access_scope: u32,
    pub presentation_coherent_access: bool,
    pub presentation_ordered_access: bool,
    pub deadline_period: i64,
    pub latency_budget_duration: i64,
    pub ownership_kind: u32,
    pub ownership_strength_value: i32,
    pub liveliness_kind: u32,
    pub liveliness_lease_duration: i64,
    pub time_based_filter_minimum_separation: i64,
    pub partition: Seq<Seq<char>>,
    pub reliability_kind: u32,
    pub reliability_max_blocking_time: i64,
    pub transport_priority_value: i32,
    pub lifespan_duration: i64,
    pub destination_order_kind: u32,
    pub history_kind: u32,
    pub history_depth: i32,
    pub resource_limits_max_samples: i32,
    pub resource_limits_max_instances: i32,
    pub resource_limits_max_samples_per_instance: i32,
    pub writer_data_lifecycle_autodispose: bool,
    pub reader_data_lifecycle_nowriter_delay: i64,
    pub reader_data_lifecycle_disposed_delay: i64,
    pub writer_batching_batch_updates: bool,
    pub type_consistency_kind: u32,
    pub type_consistency_ignore_sequence_bounds: bool,
    pub type_consistency_ignore_string_bounds: bool,
    pub type_consistency_ignore_member_names: bool,
    pub type_consistency_prevent_type_widening: bool,
    pub type_consistency_force_type_validation: bool,
    pub entity_name: Seq<char>,
    pub properties: Seq<PropView>,
    pub ignore_local_kind: u32,
    pub data_representation: Seq<u16>,
}

/// The state a freshly created configuration object reports: the compiled-in
/// default of every policy.
pub open spec fn spec_native_default() -> NativeV {
    NativeV {
        user_data: Seq::empty(),
        topic_data: Seq::empty(),
        group_data: Seq::empty(),
        durability_kind: 0,
        durability_service_cleanup_delay: 0,
        durability_service_history_kind: 0,
        durability_service_history_depth: 1,
        durability_service_max_samples: DDS_LENGTH_UNLIMITED,
        durability_service_max_instances: DDS_LENGTH_UNLIMITED,
        durability_service_max_samples_per_instance: DDS_LENGTH_UNLIMITED,
        presentation_access_scope: 0,
        presentation_coherent_access: false,
        presentation_ordered_access: false,
        deadline_period: DDS_INFINITE_TIME,
        latency_budget_duration: 0,
        ownership_kind: 0,
        ownership_strength_value: 0,
        liveliness_kind: 0,
        liveliness_lease_duration: DDS_INFINITE_TIME,
        time_based_filter_minimum_separation: 0,
        partition: Seq::empty(),
        reliability_kind: 0,
        reliability_max_blocking_time: DDS_100MS_DURATION,
        transport_priority_value: 0,
        lifespan_duration: DDS_INFINITE_TIME,
        destination_order_kind: 0,
        history_kind: 0,
        history_depth: 1,
        resource_limits_max_samples: DDS_LENGTH_UNLIMITED,
        resource_limits_max_instances: DDS_LENGTH_UNLIMITED,
        resource_limits_max_samples_per_instance: DDS_LENGTH_UNLIMITED,
        writer_data_lifecycle_autodispose: true,
        reader_data_lifecycle_nowriter_delay: DDS_INFINITE_TIME,
        reader_data_lifecycle_disposed_delay: DDS_INFINITE_TIME,
        writer_batching_batch_updates: false,
        type_consistency_kind: 0,
        type_consistency_ignore_sequence_bounds: false,
        type_consistency_ignore_string_bounds: false,
        type_consistency_ignore_member_names: false,
        type_consistency_prevent_type_widening: false,
        type_consistency_force_type_validation: false,
        entity_name: Seq::empty(),
        properties: Seq::empty(),
        ignore_local_kind: 0,
        data_representation: Seq::empty(),
    }
}

/// The modeled configuration object.
#[derive(Debug)]
pub struct NativeQos {
    pub user_data: Vec<u8>,
    pub topic_data: Vec<u8>,
    pub group_data: Vec<u8>,
    pub durability_kind: u32,
    pub durability_service_cleanup_delay: i64,
    pub durability_service_history_kind: u32,
    pub durability_service_history_depth: i32,
    pub durability_service_max_samples: i32,
    pub durability_service_max_instances: i32,
    pub durability_service_max_samples_per_instance: i32,
    pub presentation_access_scope: u32,
    pub presentation_coherent_access: bool,
    pub presentation_ordered_access: bool,
    pub deadline_period: i64,
    pub latency_budget_duration: i64,
    pub ownership_kind: u32,
    pub ownership_strength_value: i32,
    pub liveliness_kind: u32,
    pub liveliness_lease_duration: i64,
    pub time_based_filter_minimum_separation: i64,
    pub partition: Vec<String>,
    pub reliability_kind: u32,
    pub reliability_max_blocking_time: i64,
    pub transport_priority_value: i32,
    pub lifespan_duration: i64,
    pub destination_order_kind: u32,
    pub history_kind: u32,
    pub history_depth: i32,
    pub resource_limits_max_samples: i32,
    pub resource_limits_max_instances: i32,
    pub resource_limits_max_samples_per_instance: i32,
    pub writer_data_lifecycle_autodispose: bool,
    pub reader_data_lifecycle_nowriter_delay: i64,
    pub reader_data_lifecycle_disposed_delay: i64,
    pub writer_batching_batch_updates: bool,
    pub type_consistency_kind: u32,
    pub type_consistency_ignore_sequence_bounds: bool,
    pub type_consistency_ignore_string_bounds: bool,
    pub type_consistency_ignore_member_names: bool,
    pub type_consistency_prevent_type_widening: bool,
    pub type_consistency_force_type_validation: bool,
    pub entity_name: String,
    pub properties: Properties,
    pub ignore_local_kind: u32,
    pub data_representation: Vec<u16>,
}

impl View for NativeQos {
    type V = NativeV;

    open spec fn view(&self) -> NativeV {
        NativeV {
            user_data: self.user_data@,
            topic_data: self.topic_data@,
            group_data: self.group_data@,
            durability_kind: self.durability_kind,
            durability_service_cleanup_delay: self.durability_service_cleanup_delay,
            durability_service_history_kind: self.durability_service_history_kind,
            durability_service_history_depth: self.durability_service_history_depth,
            durability_service_max_samples: self.durability_service_max_samples,
            durability_service_max_instances: self.durability_service_max_instances,
            durability_service_max_samples_per_instance:
                self.durability_service_max_samples_per_instance,
            presentation_access_scope: self.presentation_access_scope,
            presentation_coherent_access: self.presentation_coherent_access,
            presentation_ordered_access: self.presentation_ordered_access,
            deadline_period: self.deadline_period,
            latency_budget_duration: self.latency_budget_duration,
            ownership_kind: self.ownership_kind,
            ownership_strength_value: self.ownership_strength_value,
            liveliness_kind: self.liveliness_kind,
            liveliness_lease_duration: self.liveliness_lease_duration,
            time_based_filter_minimum_separation: self.time_based_filter_minimum_separation,
            partition: self.partition.deep_view(),
            reliability_kind: self.reliability_kind,
            reliability_max_blocking_time: self.reliability_max_blocking_time,
            transport_priority_value: self.transport_priority_value,
            lifespan_duration: self.lifespan_duration,
            destination_order_kind: self.destination_order_kind,
            history_kind: self.history_kind,
            history_depth: self.history_depth,
            resource_limits_max_samples: self.resource_limits_max_samples,
            resource_limits_max_instances: self.resource_limits_max_instances,
            resource_limits_max_samples_per_instance:
                self.resource_limits_max_samples_per_instance,
            writer_data_lifecycle_autodispose: self.writer_data_lifecycle_autodispose,
            reader_data_lifecycle_nowriter_delay: self.reader_data_lifecycle_nowriter_delay,
            reader_data_lifecycle_disposed_delay: self.reader_data_lifecycle_disposed_delay,
            writer_batching_batch_updates: self.writer_batching_batch_updates,
            type_consistency_kind: self.type_consistency_kind,
            type_consistency_ignore_sequence_bounds: self.type_consistency_ignore_sequence_bounds,
            type_consistency_ignore_string_bounds: self.type_consistency_ignore_string_bounds,
            type_consistency_ignore_member_names: self.type_consistency_ignore_member_names,
            type_consistency_prevent_type_widening: self.type_consistency_prevent_type_widening,
            type_consistency_force_type_validation: self.type_consistency_force_type_validation,
            entity_name: self.entity_name@,
            properties: self.properties.deep_view(),
            ignore_local_kind: self.ignore_local_kind,
            data_representation: self.data_representation@,
        }
    }
}

impl NativeQos {
    /// Create a configuration object holding the compiled-in defaults, as the
    /// native library's defaults factory does.
    pub fn new() -> (r: NativeQos)
        ensures
            r@ == spec_native_default(),
    {
        let r = NativeQos {
            user_data: Vec::new(),
            topic_data: Vec::new(),
            group_data: Vec::new(),
            durability_kind: 0,
            durability_service_cleanup_delay: 0,
            durability_service_history_kind: 0,
            durability_service_history_depth: 1,
            durability_service_max_samples: DDS_LENGTH_UNLIMITED,
            durability_service_max_instances: DDS_LENGTH_UNLIMITED,
            durability_service_max_samples_per_instance: DDS_LENGTH_UNLIMITED,
            presentation_access_scope: 0,
            presentation_coherent_access: false,
            presentation_ordered_access: false,
            deadline_period: DDS_INFINITE_TIME,
            latency_budget_duration: 0,
            ownership_kind: 0,
            ownership_strength_value: 0,
            liveliness_kind: 0,
            liveliness_lease_duration: DDS_INFINITE_TIME,
            time_based_filter_minimum_separation: 0,
            partition: Vec::new(),
            reliability_kind: 0,
            reliability_max_blocking_time: DDS_100MS_DURATION,
            transport_priority_value: 0,
            lifespan_duration: DDS_INFINITE_TIME,
            destination_order_kind: 0,
            history_kind: 0,
            history_depth: 1,
            resource_limits_max_samples: DDS_LENGTH_UNLIMITED,
            resource_limits_max_instances: DDS_LENGTH_UNLIMITED,
            resource_limits_max_samples_per_instance: DDS_LENGTH_UNLIMITED,
            writer_data_lifecycle_autodispose: true,
            reader_data_lifecycle_nowriter_delay: DDS_INFINITE_TIME,
            reader_data_lifecycle_disposed_delay: DDS_INFINITE_TIME,
            writer_batching_batch_updates: false,
            type_consistency_kind: 0,
            type_consistency_ignore_sequence_bounds: false,
            type_consistency_ignore_string_bounds: false,
            type_consistency_ignore_member_names: false,
            type_consistency_prevent_type_widening: false,
            type_consistency_force_type_validation: false,
            entity_name: String::new(),
            properties: Properties::new(),
            ignore_local_kind: 0,
            data_representation: Vec::new(),
        };
        proof {
            assert(r@.user_data =~= Seq::<u8>::empty());
            assert(r@.topic_data =~= Seq::<u8>::empty());
            assert(r@.group_data =~= Seq::<u8>::empty());
            assert(r@.partition =~= Seq::<Seq<char>>::empty());
            assert(r@.data_representation =~= Seq::<u16>::empty());
        }
        r
    }

    // -- byte-blob policies ---------------------------------------------

    pub fn set_userdata(&mut self, value: &Vec<u8>)
        ensures
            final(self)@ == (NativeV { user_data: value@, ..old(self)@ }),
    {
        self.user_data = clone_bytes(value);
    }

    pub fn get_userdata(&self) -> (r: Vec<u8>)
        ensures
            r@ == self@.user_data,
    {
        clone_bytes(&self.user_data)
    }

    pub fn set_topicdata(&mut self, value: &Vec<u8>)
        ensures
            final(self)@ == (NativeV { topic_data: value@, ..old(self)@ }),
    {
        self.topic_data = clone_bytes(value);
    }

    pub fn get_topicdata(&self) -> (r: Vec<u8>)
        ensures
            r@ == self@.topic_data,
    {
        clone_bytes(&self.topic_data)
    }

    pub fn set_groupdata(&mut self, value: &Vec<u8>)
        ensures
            final(self)@ == (NativeV { group_data: value@, ..old(self)@ }),
    {
        self.group_data = clone_bytes(value);
    }

    pub fn get_groupdata(&self) -> (r: Vec<u8>)
        ensures
            r@ == self@.group_data,
    {
        clone_bytes(&self.group_data)
    }

    // -- enumeration and numeric policies -------------------------------

    pub fn set_durability(&mut self, kind: u32)
        ensures
            final(self)@ == (NativeV { durability_kind: kind, ..old(self)@ }),
    {
        self.durability_kind = kind;
    }

    pub fn get_durability(&self) -> (r: u32)
        ensures
            r == self@.durability_kind,
    {
        self.durability_kind
    }

    pub fn set_durability_service(
        &mut self,
        service_cleanup_delay: i64,
        history_kind: u32,
        history_depth: i32,
        max_samples: i32,
        max_instances: i32,
        max_samples_per_instance: i32,
    )
        ensures
            final(self)@ == (NativeV {
                durability_service_cleanup_delay: service_cleanup_delay,
                durability_service_history_kind: history_kind,
                durability_service_history_depth: history_depth,
                durability_service_max_samples: max_samples,
                durability_service_max_instances: max_instances,
                durability_service_max_samples_per_instance: max_samples_per_instance,
                ..old(self)@
            }),
    {
        self.durability_service_cleanup_delay = service_cleanup_delay;
        self.durability_service_history_kind = history_kind;
        self.durability_service_history_depth = history_depth;
        self.durability_service_max_samples = max_samples;
        self.durability_service_max_instances = max_instances;
        self.durability_service_max_samples_per_instance = max_samples_per_instance;
    }

    pub fn get_durability_service(&self) -> (r: (i64, u32, i32, i32, i32, i32))
        ensures
            r.0 == self@.durability_service_cleanup_delay,
            r.1 == self@.durability_service_history_kind,
            r.2 == self@.durability_service_history_depth,
            r.3 == self@.durability_service_max_samples,
            r.4 == self@.durability_service_max_instances,
            r.5 == self@.durability_service_max_samples_per_instance,
    {
        (
            self.durability_service_cleanup_delay,
            self.durability_service_history_kind,
            self.durability_service_history_depth,
            self.durability_service_max_samples,
            self.durability_service_max_instances,
            self.durability_service_max_samples_per_instance,
        )
    }

    pub fn set_presentation(&mut self, access_scope: u32, coherent_access: bool, ordered_access: bool)
        ensures
            final(self)@ == (NativeV {
                presentation_access_scope: access_scope,
                presentation_coherent_access: coherent_access,
                presentation_ordered_access: ordered_access,
                ..old(self)@
            }),
    {
        self.presentation_access_scope = access_scope;
        self.presentation_coherent_access = coherent_access;
        self.presentation_ordered_access = ordered_access;
    }

    pub fn get_presentation(&self) -> (r: (u32, bool, bool))
        ensures
            r.0 == self@.presentation_access_scope,
            r.1 == self@.presentation_coherent_access,
            r.2 == self@.presentation_ordered_access,
    {
        (
            self.presentation_access_scope,
            self.presentation_coherent_access,
            self.presentation_ordered_access,
        )
    }

    pub fn set_deadline(&mut self, period: i64)
        ensures
            final(self)@ == (NativeV { deadline_period: period, ..old(self)@ }),
    {
        self.deadline_period = period;
    }

    pub fn get_deadline(&self) -> (r: i64)
        ensures
            r == self@.deadline_period,
    {
        self.deadline_period
    }

    pub fn set_latency_budget(&mut self, duration: i64)
        ensures
            final(self)@ == (NativeV { latency_budget_duration: duration, ..old(self)@ }),
    {
        self.latency_budget_duration = duration;
    }

    pub fn get_latency_budget(&self) -> (r: i64)
        ensures
            r == self@.latency_budget_duration,
    {
        self.latency_budget_duration
    }

    pub fn set_ownership(&mut self, kind: u32)
        ensures
            final(self)@ == (NativeV { ownership_kind: kind, ..old(self)@ }),
    {
        self.ownership_kind = kind;
    }

    pub fn get_ownership(&self) -> (r: u32)
        ensures
            r == self@.ownership_kind,
    {
        self.ownership_kind
    }

    pub fn set_ownership_strength(&mut self, value: i32)
        ensures
            final(self)@ == (NativeV { ownership_strength_value: value, ..old(self)@ }),
    {
        self.ownership_strength_value = value;
    }

    pub fn get_ownership_strength(&self) -> (r: i32)
        ensures
            r == self@.ownership_strength_value,
    {
        self.ownership_strength_value
    }

    pub fn set_liveliness(&mut self, kind: u32, lease_duration: i64)
        ensures
            final(self)@ == (NativeV {
                liveliness_kind: kind,
                liveliness_lease_duration: lease_duration,
                ..old(self)@
            }),
    {
        self.liveliness_kind = kind;
        self.liveliness_lease_duration = lease_duration;
    }

    pub fn get_liveliness(&self) -> (r: (u32, i64))
        ensures
            r.0 == self@.liveliness_kind,
            r.1 == self@.liveliness_lease_duration,
    {
        (self.liveliness_kind, self.liveliness_lease_duration)
    }

    pub fn set_time_based_filter(&mut self, minimum_separation: i64)
        ensures
            final(self)@ == (NativeV {
                time_based_filter_minimum_separation: minimum_separation,
                ..old(self)@
            }),
    {
        self.time_based_filter_minimum_separation = minimum_separation;
    }

    pub fn get_time_based_filter(&self) -> (r: i64)
        ensures
            r == self@.time_based_filter_minimum_separation,
    {
        self.time_based_filter_minimum_separation
    }

    pub fn set_partition(&mut self, partitions: &Vec<String>)
        ensures
            final(self)@ == (NativeV { partition: partitions.deep_view(), ..old(self)@ }),
    {
        self.partition = clone_strings(partitions);
    }

    pub fn get_partition(&self) -> (r: Vec<String>)
        ensures
            r.deep_view() == self@.partition,
    {
        clone_strings(&self.partition)
    }

    pub fn set_reliability(&mut self, kind: u32, max_blocking_time: i64)
        ensures
            final(self)@ == (NativeV {
                reliability_kind: kind,
                reliability_max_blocking_time: max_blocking_time,
                ..old(self)@
            }),
    {
        self.reliability_kind = kind;
        self.reliability_max_blocking_time = max_blocking_time;
    }

    pub fn get_reliability(&self) -> (r: (u32, i64))
        ensures
            r.0 == self@.reliability_kind,
            r.1 == self@.reliability_max_blocking_time,
    {
        (self.reliability_kind, self.reliability_max_blocking_time)
    }

    pub fn set_transport_priority(&mut self, value: i32)
        ensures
            final(self)@ == (NativeV { transport_priority_value: value, ..old(self)@ }),
    {
        self.transport_priority_value = value;
    }

    pub fn get_transport_priority(&self) -> (r: i32)
        ensures
            r == self@.transport_priority_value,
    {
        self.transport_priority_value
    }

    pub fn set_lifespan(&mut self, duration: i64)
        ensures
            final(self)@ == (NativeV { lifespan_duration: duration, ..old(self)@ }),
    {
        self.lifespan_duration = duration;
    }

    pub fn get_lifespan(&self) -> (r: i64)
        ensures
            r == self@.lifespan_duration,
    {
        self.lifespan_duration
    }

    pub fn set_destination_order(&mut self, kind: u32)
        ensures
            final(self)@ == (NativeV { destination_order_kind: kind, ..old(self)@ }),
    {
        self.destination_order_kind = kind;
    }

    pub fn get_destination_order(&self) -> (r: u32)
        ensures
            r == self@.destination_order_kind,
    {
        self.destination_order_kind
    }

    pub fn set_history(&mut self, kind: u32, depth: i32)
        ensures
            final(self)@ == (NativeV { history_kind: kind, history_depth: depth, ..old(self)@ }),
    {
        self.history_kind = kind;
        self.history_depth = depth;
    }

    pub fn get_history(&self) -> (r: (u32, i32))
        ensures
            r.0 == self@.history_kind,
            r.1 == self@.history_depth,
    {
        (self.history_kind, self.history_depth)
    }

    pub fn set_resource_limits(&mut self, max_samples: i32, max_instances: i32, max_samples_per_instance: i32)
        ensures
            final(self)@ == (NativeV {
                resource_limits_max_samples: max_samples,
                resource_limits_max_instances: max_instances,
                resource_limits_max_samples_per_instance: max_samples_per_instance,
                ..old(self)@
            }),
    {
        self.resource_limits_max_samples = max_samples;
        self.resource_limits_max_instances = max_instances;
        self.resource_limits_max_samples_per_instance = max_samples_per_instance;
    }

    pub fn get_resource_limits(&self) -> (r: (i32, i32, i32))
        ensures
            r.0 == self@.resource_limits_max_samples,
            r.1 == self@.resource_limits_max_instances,
            r.2 == self@.resource_limits_max_samples_per_instance,
    {
        (
            self.resource_limits_max_samples,
            self.resource_limits_max_instances,
            self.resource_limits_max_samples_per_instance,
        )
    }

    pub fn set_writer_data_lifecycle(&mut self, autodispose: bool)
        ensures
            final(self)@ == (NativeV {
                writer_data_lifecycle_autodispose: autodispose,
                ..old(self)@
            }),
    {
        self.writer_data_lifecycle_autodispose = autodispose;
    }

    pub fn get_writer_data_lifecycle(&self) -> (r: bool)
        ensures
            r == self@.writer_data_lifecycle_autodispose,
    {
        self.writer_data_lifecycle_autodispose
    }

    pub fn set_reader_data_lifecycle(&mut self, nowriter_delay: i64, disposed_delay: i64)
        ensures
            final(self)@ == (NativeV {
                reader_data_lifecycle_nowriter_delay: nowriter_delay,
                reader_data_lifecycle_disposed_delay: disposed_delay,
                ..old(self)@
            }),
    {
        self.reader_data_lifecycle_nowriter_delay = nowriter_delay;
        self.reader_data_lifecycle_disposed_delay = disposed_delay;
    }

    pub fn get_reader_data_lifecycle(&self) -> (r: (i64, i64))
        ensures
            r.0 == self@.reader_data_lifecycle_nowriter_delay,
            r.1 == self@.reader_data_lifecycle_disposed_delay,
    {
        (self.reader_data_lifecycle_nowriter_delay, self.reader_data_lifecycle_disposed_delay)
    }

    pub fn set_writer_batching(&mut self, batch_updates: bool)
        ensures
            final(self)@ == (NativeV { writer_batching_batch_updates: batch_updates, ..old(self)@ }),
    {
        self.writer_batching_batch_updates = batch_updates;
    }

    pub fn get_writer_batching(&self) -> (r: bool)
        ensures
            r == self@.writer_batching_batch_updates,
    {
        self.writer_batching_batch_updates
    }

    pub fn set_type_consistency(
        &mut self,
        kind: u32,
        ignore_sequence_bounds: bool,
        ignore_string_bounds: bool,
        ignore_member_names: bool,
        prevent_type_widening: bool,
        force_type_validation: bool,
    )
        ensures
            final(self)@ == (NativeV {
                type_consistency_kind: kind,
                type_consistency_ignore_sequence_bounds: ignore_sequence_bounds,
                type_consistency_ignore_string_bounds: ignore_string_bounds,
                type_consistency_ignore_member_names: ignore_member_names,
                type_consistency_prevent_type_widening: prevent_type_widening,
                type_consistency_force_type_validation: force_type_validation,
                ..old(self)@
            }),
    {
        self.type_consistency_kind = kind;
        self.type_consistency_ignore_sequence_bounds = ignore_sequence_bounds;
        self.type_consistency_ignore_string_bounds = ignore_string_bounds;
        self.type_consistency_ignore_member_names = ignore_member_names;
        self.type_consistency_prevent_type_widening = prevent_type_widening;
        self.type_consistency_force_type_validation = force_type_validation;
    }

    pub fn get_type_consistency(&self) -> (r: (u32, bool, bool, bool, bool, bool))
        ensures
            r.0 == self@.type_consistency_kind,
            r.1 == self@.type_consistency_ignore_sequence_bounds,
            r.2 == self@.type_consistency_ignore_string_bounds,
            r.3 == self@.type_consistency_ignore_member_names,
            r.4 == self@.type_consistency_prevent_type_widening,
            r.5 == self@.type_consistency_force_type_validation,
    {
        (
            self.type_consistency_kind,
            self.type_consistency_ignore_sequence_bounds,
            self.type_consistency_ignore_string_bounds,
            self.type_consistency_ignore_member_names,
            self.type_consistency_prevent_type_widening,
            self.type_consistency_force_type_validation,
        )
    }

    pub fn set_entity_name(&mut self, name: &String)
        ensures
            final(self)@ == (NativeV { entity_name: name@, ..old(self)@ }),
    {
        self.entity_name = name.clone();
    }

    pub fn get_entity_name(&self) -> (r: String)
        ensures
            r@ == self@.entity_name,
    {
        self.entity_name.clone()
    }

    pub fn set_prop(&mut self, name: &String, value: &String)
        ensures
            final(self)@ == (NativeV {
                properties: spec_props_insert(old(self)@.properties, name@, value@),
                ..old(self)@
            }),
    {
        self.properties.insert(name.clone(), value.clone());
    }

    pub fn get_prop(&self, name: &String) -> (r: Option<String>)
        ensures
            match r {
                Some(v) => spec_props_get(self@.properties, name@) == Some(v@),
                None => spec_props_get(self@.properties, name@) is None,
            },
    {
        match self.properties.get(name) {
            Some(v) => Some(v.clone()),
            None => None,
        }
    }

    pub fn get_propnames(&self) -> (r: Vec<String>)
        ensures
            r.deep_view() == spec_prop_keys(self@.properties),
    {
        self.properties.keys()
    }

    pub fn set_ignorelocal(&mut self, kind: u32)
        ensures
            final(self)@ == (NativeV { ignore_local_kind: kind, ..old(self)@ }),
    {
        self.ignore_local_kind = kind;
    }

    pub fn get_ignorelocal(&self) -> (r: u32)
        ensures
            r == self@.ignore_local_kind,
    {
        self.ignore_local_kind
    }

    pub fn set_data_representation(&mut self, values: &Vec<u16>)
        ensures
            final(self)@ == (NativeV { data_representation: values@, ..old(self)@ }),
    {
        self.data_representation = clone_u16s(values);
    }

    pub fn get_data_representation(&self) -> (r: Vec<u16>)
        ensures
            r@ == self@.data_representation,
    {
        clone_u16s(&self.data_representation)
    }
}

} // verus!
