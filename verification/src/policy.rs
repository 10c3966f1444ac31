//! Policy value model: the typed representation of each QoS policy, its
//! native numeric codes, and its canonical default (the value a freshly
//! created native configuration object reports for that policy).

use vstd::prelude::*;
use crate::DDS_INFINITE_TIME;
use crate::DDS_100MS_DURATION;
use crate::DDS_LENGTH_UNLIMITED;
use crate::elide::HasCanonicalDefault;

verus! {

// ---------------------------------------------------------------------------
// Enumeration kinds.  Every kind maps 1:1 onto a native numeric code; an
// unrecognized code is reported as `None` and treated by the marshaler as a
// protocol violation, never silently coerced.
// ---------------------------------------------------------------------------

#[allow(non_camel_case_types)]
#[derive(Debug, Copy, Clone, PartialEq, Eq, Structural)]
pub enum DurabilityKind {
    VOLATILE,
    TRANSIENT_LOCAL,
    TRANSIENT,
    PERSISTENT,
}

impl DurabilityKind {
    pub open spec fn spec_code(self) -> u32 {
        match self {
            DurabilityKind::VOLATILE => 0,
            DurabilityKind::TRANSIENT_LOCAL => 1,
            DurabilityKind::TRANSIENT => 2,
            DurabilityKind::PERSISTENT => 3,
        }
    }

    pub open spec fn spec_from_code(code: u32) -> Option<DurabilityKind> {
        if code == 0 {
            Some(DurabilityKind::VOLATILE)
        } else if code == 1 {
            Some(DurabilityKind::TRANSIENT_LOCAL)
        } else if code == 2 {
            Some(DurabilityKind::TRANSIENT)
        } else if code == 3 {
            Some(DurabilityKind::PERSISTENT)
        } else {
            None
        }
    }

    pub fn code(self) -> (r: u32)
        ensures
            r == self.spec_code(),
    {
        match self {
            DurabilityKind::VOLATILE => 0,
            DurabilityKind::TRANSIENT_LOCAL => 1,
            DurabilityKind::TRANSIENT => 2,
            DurabilityKind::PERSISTENT => 3,
        }
    }

    pub fn from_code(code: u32) -> (r: Option<DurabilityKind>)
        ensures
            r == Self::spec_from_code(code),
    {
        if code == 0 {
            Some(DurabilityKind::VOLATILE)
        } else if code == 1 {
            Some(DurabilityKind::TRANSIENT_LOCAL)
        } else if code == 2 {
            Some(DurabilityKind::TRANSIENT)
        } else if code == 3 {
            Some(DurabilityKind::PERSISTENT)
        } else {
            None
        }
    }
}

#[allow(non_camel_case_types)]
#[derive(Debug, Copy, Clone, PartialEq, Eq, Structural)]
pub enum ReliabilityKind {
    BEST_EFFORT,
    RELIABLE,
}

impl ReliabilityKind {
    pub open spec fn spec_code(self) -> u32 {
        match self {
            ReliabilityKind::BEST_EFFORT => 0,
            ReliabilityKind::RELIABLE => 1,
        }
    }

    pub open spec fn spec_from_code(code: u32) -> Option<ReliabilityKind> {
        if code == 0 {
            Some(ReliabilityKind::BEST_EFFORT)
        } else if code == 1 {
            Some(ReliabilityKind::RELIABLE)
        } else {
            None
        }
    }

    pub fn code(self) -> (r: u32)
        ensures
            r == self.spec_code(),
    {
        match self {
            ReliabilityKind::BEST_EFFORT => 0,
            ReliabilityKind::RELIABLE => 1,
        }
    }

    pub fn from_code(code: u32) -> (r: Option<ReliabilityKind>)
        ensures
            r == Self::spec_from_code(code),
    {
        if code == 0 {
            Some(ReliabilityKind::BEST_EFFORT)
        } else if code == 1 {
            Some(ReliabilityKind::RELIABLE)
        } else {
            None
        }
    }
}

#[allow(non_camel_case_types)]
#[derive(Debug, Copy, Clone, PartialEq, Eq, Structural)]
pub enum DestinationOrderKind {
    BY_RECEPTION_TIMESTAMP,
    BY_SOURCE_TIMESTAMP,
}

impl DestinationOrderKind {
    pub open spec fn spec_code(self) -> u32 {
        match self {
            DestinationOrderKind::BY_RECEPTION_TIMESTAMP => 0,
            DestinationOrderKind::BY_SOURCE_TIMESTAMP => 1,
        }
    }

    pub open spec fn spec_from_code(code: u32) -> Option<DestinationOrderKind> {
        if code == 0 {
            Some(DestinationOrderKind::BY_RECEPTION_TIMESTAMP)
        } else if code == 1 {
            Some(DestinationOrderKind::BY_SOURCE_TIMESTAMP)
        } else {
            None
        }
    }

    pub fn code(self) -> (r: u32)
        ensures
            r == self.spec_code(),
    {
        match self {
            DestinationOrderKind::BY_RECEPTION_TIMESTAMP => 0,
            DestinationOrderKind::BY_SOURCE_TIMESTAMP => 1,
        }
    }

    pub fn from_code(code: u32) -> (r: Option<DestinationOrderKind>)
        ensures
            r == Self::spec_from_code(code),
    {
        if code == 0 {
            Some(DestinationOrderKind::BY_RECEPTION_TIMESTAMP)
        } else if code == 1 {
            Some(DestinationOrderKind::BY_SOURCE_TIMESTAMP)
        } else {
            None
        }
    }
}

#[allow(non_camel_case_types)]
#[derive(Debug, Copy, Clone, PartialEq, Eq, Structural)]
pub enum LivelinessKind {
    AUTOMATIC,
    MANUAL_BY_PARTICIPANT,
    MANUAL_BY_TOPIC,
}

impl LivelinessKind {
    pub open spec fn spec_code(self) -> u32 {
        match self {
            LivelinessKind::AUTOMATIC => 0,
            LivelinessKind::MANUAL_BY_PARTICIPANT => 1,
            LivelinessKind::MANUAL_BY_TOPIC => 2,
        }
    }

    pub open spec fn spec_from_code(code: u32) -> Option<LivelinessKind> {
        if code == 0 {
            Some(LivelinessKind::AUTOMATIC)
        } else if code == 1 {
            Some(LivelinessKind::MANUAL_BY_PARTICIPANT)
        } else if code == 2 {
            Some(LivelinessKind::MANUAL_BY_TOPIC)
        } else {
            None
        }
    }

    pub fn code(self) -> (r: u32)
        ensures
            r == self.spec_code(),
    {
        match self {
            LivelinessKind::AUTOMATIC => 0,
            LivelinessKind::MANUAL_BY_PARTICIPANT => 1,
            LivelinessKind::MANUAL_BY_TOPIC => 2,
        }
    }

    pub fn from_code(code: u32) -> (r: Option<LivelinessKind>)
        ensures
            r == Self::spec_from_code(code),
    {
        if code == 0 {
            Some(LivelinessKind::AUTOMATIC)
        } else if code == 1 {
            Some(LivelinessKind::MANUAL_BY_PARTICIPANT)
        } else if code == 2 {
            Some(LivelinessKind::MANUAL_BY_TOPIC)
        } else {
            None
        }
    }
}

#[allow(non_camel_case_types)]
#[derive(Debug, Copy, Clone, PartialEq, Eq, Structural)]
pub enum OwnershipKind {
    SHARED,
    EXCLUSIVE,
}

impl OwnershipKind {
    pub open spec fn spec_code(self) -> u32 {
        match self {
            OwnershipKind::SHARED => 0,
            OwnershipKind::EXCLUSIVE => 1,
        }
    }

    pub open spec fn spec_from_code(code: u32) -> Option<OwnershipKind> {
        if code == 0 {
            Some(OwnershipKind::SHARED)
        } else if code == 1 {
            Some(OwnershipKind::EXCLUSIVE)
        } else {
            None
        }
    }

    pub fn code(self) -> (r: u32)
        ensures
            r == self.spec_code(),
    {
        match self {
            OwnershipKind::SHARED => 0,
            OwnershipKind::EXCLUSIVE => 1,
        }
    }

    pub fn from_code(code: u32) -> (r: Option<OwnershipKind>)
        ensures
            r == Self::spec_from_code(code),
    {
        if code == 0 {
            Some(OwnershipKind::SHARED)
        } else if code == 1 {
            Some(OwnershipKind::EXCLUSIVE)
        } else {
            None
        }
    }
}

#[allow(non_camel_case_types)]
#[derive(Debug, Copy, Clone, PartialEq, Eq, Structural)]
pub enum HistoryKind {
    KEEP_LAST,
    KEEP_ALL,
}

impl HistoryKind {
    pub open spec fn spec_code(self) -> u32 {
        match self {
            HistoryKind::KEEP_LAST => 0,
            HistoryKind::KEEP_ALL => 1,
        }
    }

    pub open spec fn spec_from_code(code: u32) -> Option<HistoryKind> {
        if code == 0 {
            Some(HistoryKind::KEEP_LAST)
        } else if code == 1 {
            Some(HistoryKind::KEEP_ALL)
        } else {
            None
        }
    }

    pub fn code(self) -> (r: u32)
        ensures
            r == self.spec_code(),
    {
        match self {
            HistoryKind::KEEP_LAST => 0,
            HistoryKind::KEEP_ALL => 1,
        }
    }

    pub fn from_code(code: u32) -> (r: Option<HistoryKind>)
        ensures
            r == Self::spec_from_code(code),
    {
        if code == 0 {
            Some(HistoryKind::KEEP_LAST)
        } else if code == 1 {
            Some(HistoryKind::KEEP_ALL)
        } else {
            None
        }
    }
}

#[allow(non_camel_case_types)]
#[derive(Debug, Copy, Clone, PartialEq, Eq, Structural)]
pub enum PresentationAccessScopeKind {
    INSTANCE,
    TOPIC,
    GROUP,
}

impl PresentationAccessScopeKind {
    pub open spec fn spec_code(self) -> u32 {
        match self {
            PresentationAccessScopeKind::INSTANCE => 0,
            PresentationAccessScopeKind::TOPIC => 1,
            PresentationAccessScopeKind::GROUP => 2,
        }
    }

    pub open spec fn spec_from_code(code: u32) -> Option<PresentationAccessScopeKind> {
        if code == 0 {
            Some(PresentationAccessScopeKind::INSTANCE)
        } else if code == 1 {
            Some(PresentationAccessScopeKind::TOPIC)
        } else if code == 2 {
            Some(PresentationAccessScopeKind::GROUP)
        } else {
            None
        }
    }

    pub fn code(self) -> (r: u32)
        ensures
            r == self.spec_code(),
    {
        match self {
            PresentationAccessScopeKind::INSTANCE => 0,
            PresentationAccessScopeKind::TOPIC => 1,
            PresentationAccessScopeKind::GROUP => 2,
        }
    }

    pub fn from_code(code: u32) -> (r: Option<PresentationAccessScopeKind>)
        ensures
            r == Self::spec_from_code(code),
    {
        if code == 0 {
            Some(PresentationAccessScopeKind::INSTANCE)
        } else if code == 1 {
            Some(PresentationAccessScopeKind::TOPIC)
        } else if code == 2 {
            Some(PresentationAccessScopeKind::GROUP)
        } else {
            None
        }
    }
}

#[allow(non_camel_case_types)]
#[derive(Debug, Copy, Clone, PartialEq, Eq, Structural)]
pub enum IgnoreLocalKind {
    NONE,
    PARTICIPANT,
    PROCESS,
}

impl IgnoreLocalKind {
    pub open spec fn spec_code(self) -> u32 {
        match self {
            IgnoreLocalKind::NONE => 0,
            IgnoreLocalKind::PARTICIPANT => 1,
            IgnoreLocalKind::PROCESS => 2,
        }
    }

    pub open spec fn spec_from_code(code: u32) -> Option<IgnoreLocalKind> {
        if code == 0 {
            Some(IgnoreLocalKind::NONE)
        } else if code == 1 {
            Some(IgnoreLocalKind::PARTICIPANT)
        } else if code == 2 {
            Some(IgnoreLocalKind::PROCESS)
        } else {
            None
        }
    }

    pub fn code(self) -> (r: u32)
        ensures
            r == self.spec_code(),
    {
        match self {
            IgnoreLocalKind::NONE => 0,
            IgnoreLocalKind::PARTICIPANT => 1,
            IgnoreLocalKind::PROCESS => 2,
        }
    }

    pub fn from_code(code: u32) -> (r: Option<IgnoreLocalKind>)
        ensures
            r == Self::spec_from_code(code),
    {
        if code == 0 {
            Some(IgnoreLocalKind::NONE)
        } else if code == 1 {
            Some(IgnoreLocalKind::PARTICIPANT)
        } else if code == 2 {
            Some(IgnoreLocalKind::PROCESS)
        } else {
            None
        }
    }
}

#[allow(non_camel_case_types)]
#[derive(Debug, Copy, Clone, PartialEq, Eq, Structural)]
pub enum TypeConsistencyKind {
    DISALLOW_TYPE_COERCION,
    ALLOW_TYPE_COERCION,
}

impl TypeConsistencyKind {
    pub open spec fn spec_code(self) -> u32 {
        match self {
            TypeConsistencyKind::DISALLOW_TYPE_COERCION => 0,
            TypeConsistencyKind::ALLOW_TYPE_COERCION => 1,
        }
    }

    pub open spec fn spec_from_code(code: u32) -> Option<TypeConsistencyKind> {
        if code == 0 {
            Some(TypeConsistencyKind::DISALLOW_TYPE_COERCION)
        } else if code == 1 {
            Some(TypeConsistencyKind::ALLOW_TYPE_COERCION)
        } else {
            None
        }
    }

    pub fn code(self) -> (r: u32)
        ensures
            r == self.spec_code(),
    {
        match self {
            TypeConsistencyKind::DISALLOW_TYPE_COERCION => 0,
            TypeConsistencyKind::ALLOW_TYPE_COERCION => 1,
        }
    }

    pub fn from_code(code: u32) -> (r: Option<TypeConsistencyKind>)
        ensures
            r == Self::spec_from_code(code),
    {
        if code == 0 {
            Some(TypeConsistencyKind::DISALLOW_TYPE_COERCION)
        } else if code == 1 {
            Some(TypeConsistencyKind::ALLOW_TYPE_COERCION)
        } else {
            None
        }
    }
}

// ---------------------------------------------------------------------------
// Policy shapes.
// ---------------------------------------------------------------------------

#[derive(Debug, Copy, Clone, PartialEq, Eq, Structural)]
pub struct Durability {
    pub kind: DurabilityKind,
}

#[derive(Debug, Copy, Clone, PartialEq, Eq, Structural)]
pub struct DurabilityService {
    pub service_cleanup_delay: i64,
    pub history_kind: HistoryKind,
    pub history_depth: i32,
    pub max_samples: i32,
    pub max_instances: i32,
    pub max_samples_per_instance: i32,
}

#[derive(Debug, Copy, Clone, PartialEq, Eq, Structural)]
pub struct Reliability {
    pub kind: ReliabilityKind,
    pub max_blocking_time: i64,
}

#[derive(Debug, Copy, Clone, PartialEq, Eq, Structural)]
pub struct Deadline {
    pub period: i64,
}

#[derive(Debug, Copy, Clone, PartialEq, Eq, Structural)]
pub struct LatencyBudget {
    pub duration: i64,
}

#[derive(Debug, Copy, Clone, PartialEq, Eq, Structural)]
pub struct DestinationOrder {
    pub kind: DestinationOrderKind,
}

#[derive(Debug, Copy, Clone, PartialEq, Eq, Structural)]
pub struct Liveliness {
    pub kind: LivelinessKind,
    pub lease_duration: i64,
}

#[derive(Debug, Copy, Clone, PartialEq, Eq, Structural)]
pub struct Ownership {
    pub kind: OwnershipKind,
}

#[derive(Debug, Copy, Clone, PartialEq, Eq, Structural)]
pub struct History {
    pub kind: HistoryKind,
    pub depth: i32,
}

#[derive(Debug, Copy, Clone, PartialEq, Eq, Structural)]
pub struct ResourceLimits {
    pub max_samples: i32,
    pub max_instances: i32,
    pub max_samples_per_instance: i32,
}

#[derive(Debug, Copy, Clone, PartialEq, Eq, Structural)]
pub struct Presentation {
    pub access_scope: PresentationAccessScopeKind,
    pub coherent_access: bool,
    pub ordered_access: bool,
}

#[derive(Debug, Copy, Clone, PartialEq, Eq, Structural)]
pub struct Lifespan {
    pub duration: i64,
}

#[derive(Debug, Copy, Clone, PartialEq, Eq, Structural)]
pub struct OwnershipStrength {
    pub value: i32,
}

#[derive(Debug, Copy, Clone, PartialEq, Eq, Structural)]
pub struct TimeBasedFilter {
    pub minimum_separation: i64,
}

#[derive(Debug, Copy, Clone, PartialEq, Eq, Structural)]
pub struct TransportPriority {
    pub value: i32,
}

#[derive(Debug, Copy, Clone, PartialEq, Eq, Structural)]
pub struct WriterDataLifecycle {
    pub autodispose_unregistered_instances: bool,
}

#[derive(Debug, Copy, Clone, PartialEq, Eq, Structural)]
pub struct ReaderDataLifecycle {
    pub autopurge_nowriter_samples_delay: i64,
    pub autopurge_disposed_samples_delay: i64,
}

#[derive(Debug, Copy, Clone, PartialEq, Eq, Structural)]
pub struct WriterBatching {
    pub batch_updates: bool,
}

#[derive(Debug, Copy, Clone, PartialEq, Eq, Structural)]
pub struct IgnoreLocal {
    pub kind: IgnoreLocalKind,
}

#[derive(Debug, Copy, Clone, PartialEq, Eq, Structural)]
pub struct TypeConsistency {
    pub kind: TypeConsistencyKind,
    pub ignore_sequence_bounds: bool,
    pub ignore_string_bounds: bool,
    pub ignore_member_names: bool,
    pub prevent_type_widening: bool,
    pub force_type_validation: bool,
}

/// A name given to a middleware entity.
#[derive(Debug, Clone)]
pub struct EntityName {
    pub name: String,
}

impl DeepView for EntityName {
    type V = Seq<char>;

    open spec fn deep_view(&self) -> Seq<char> {
        self.name@
    }
}

impl PartialEq for EntityName {
    fn eq(&self, other: &EntityName) -> (r: bool) {
        self.name.eq(&other.name)
    }
}

impl vstd::std_specs::cmp::PartialEqSpecImpl for EntityName {
    open spec fn obeys_eq_spec() -> bool {
        true
    }

    open spec fn eq_spec(&self, other: &EntityName) -> bool {
        self.name@ == other.name@
    }
}

// ---------------------------------------------------------------------------
// Canonical defaults, as the native library's defaults factory reports them.
// ---------------------------------------------------------------------------

impl Default for Durability {
    fn default() -> (r: Durability)
        ensures
            r == (Durability { kind: DurabilityKind::VOLATILE }),
    {
        Durability { kind: DurabilityKind::VOLATILE }
    }
}

impl Default for DurabilityService {
    fn default() -> (r: DurabilityService)
        ensures
            r == (DurabilityService {
                service_cleanup_delay: 0,
                history_kind: HistoryKind::KEEP_LAST,
                history_depth: 1,
                max_samples: DDS_LENGTH_UNLIMITED,
                max_instances: DDS_LENGTH_UNLIMITED,
                max_samples_per_instance: DDS_LENGTH_UNLIMITED,
            }),
    {
        DurabilityService {
            service_cleanup_delay: 0,
            history_kind: HistoryKind::KEEP_LAST,
            history_depth: 1,
            max_samples: DDS_LENGTH_UNLIMITED,
            max_instances: DDS_LENGTH_UNLIMITED,
            max_samples_per_instance: DDS_LENGTH_UNLIMITED,
        }
    }
}

impl Default for Reliability {
    fn default() -> (r: Reliability)
        ensures
            r == (Reliability {
                kind: ReliabilityKind::BEST_EFFORT,
                max_blocking_time: DDS_100MS_DURATION,
            }),
    {
        Reliability { kind: ReliabilityKind::BEST_EFFORT, max_blocking_time: DDS_100MS_DURATION }
    }
}

impl Default for Deadline {
    fn default() -> (r: Deadline)
        ensures
            r == (Deadline { period: DDS_INFINITE_TIME }),
    {
        Deadline { period: DDS_INFINITE_TIME }
    }
}

impl Default for LatencyBudget {
    fn default() -> (r: LatencyBudget)
        ensures
            r == (LatencyBudget { duration: 0 }),
    {
        LatencyBudget { duration: 0 }
    }
}

impl Default for DestinationOrder {
    fn default() -> (r: DestinationOrder)
        ensures
            r == (DestinationOrder { kind: DestinationOrderKind::BY_RECEPTION_TIMESTAMP }),
    {
        DestinationOrder { kind: DestinationOrderKind::BY_RECEPTION_TIMESTAMP }
    }
}

impl Default for Liveliness {
    fn default() -> (r: Liveliness)
        ensures
            r == (Liveliness {
                kind: LivelinessKind::AUTOMATIC,
                lease_duration: DDS_INFINITE_TIME,
            }),
    {
        Liveliness { kind: LivelinessKind::AUTOMATIC, lease_duration: DDS_INFINITE_TIME }
    }
}

impl Default for Ownership {
    fn default() -> (r: Ownership)
        ensures
            r == (Ownership { kind: OwnershipKind::SHARED }),
    {
        Ownership { kind: OwnershipKind::SHARED }
    }
}

impl Default for History {
    fn default() -> (r: History)
        ensures
            r == (History { kind: HistoryKind::KEEP_LAST, depth: 1 }),
    {
        History { kind: HistoryKind::KEEP_LAST, depth: 1 }
    }
}

impl Default for ResourceLimits {
    fn default() -> (r: ResourceLimits)
        ensures
            r == (ResourceLimits {
                max_samples: DDS_LENGTH_UNLIMITED,
                max_instances: DDS_LENGTH_UNLIMITED,
                max_samples_per_instance: DDS_LENGTH_UNLIMITED,
            }),
    {
        ResourceLimits {
            max_samples: DDS_LENGTH_UNLIMITED,
            max_instances: DDS_LENGTH_UNLIMITED,
            max_samples_per_instance: DDS_LENGTH_UNLIMITED,
        }
    }
}

impl Default for Presentation {
    fn default() -> (r: Presentation)
        ensures
            r == (Presentation {
                access_scope: PresentationAccessScopeKind::INSTANCE,
                coherent_access: false,
                ordered_access: false,
            }),
    {
        Presentation {
            access_scope: PresentationAccessScopeKind::INSTANCE,
            coherent_access: false,
            ordered_access: false,
        }
    }
}

impl Default for Lifespan {
    fn default() -> (r: Lifespan)
        ensures
            r == (Lifespan { duration: DDS_INFINITE_TIME }),
    {
        Lifespan { duration: DDS_INFINITE_TIME }
    }
}

impl Default for OwnershipStrength {
    fn default() -> (r: OwnershipStrength)
        ensures
            r == (OwnershipStrength { value: 0 }),
    {
        OwnershipStrength { value: 0 }
    }
}

impl Default for TimeBasedFilter {
    fn default() -> (r: TimeBasedFilter)
        ensures
            r == (TimeBasedFilter { minimum_separation: 0 }),
    {
        TimeBasedFilter { minimum_separation: 0 }
    }
}

impl Default for TransportPriority {
    fn default() -> (r: TransportPriority)
        ensures
            r == (TransportPriority { value: 0 }),
    {
        TransportPriority { value: 0 }
    }
}

impl Default for WriterDataLifecycle {
    fn default() -> (r: WriterDataLifecycle)
        ensures
            r == (WriterDataLifecycle { autodispose_unregistered_instances: true }),
    {
        WriterDataLifecycle { autodispose_unregistered_instances: true }
    }
}

impl Default for ReaderDataLifecycle {
    fn default() -> (r: ReaderDataLifecycle)
        ensures
            r == (ReaderDataLifecycle {
                autopurge_nowriter_samples_delay: DDS_INFINITE_TIME,
                autopurge_disposed_samples_delay: DDS_INFINITE_TIME,
            }),
    {
        ReaderDataLifecycle {
            autopurge_nowriter_samples_delay: DDS_INFINITE_TIME,
            autopurge_disposed_samples_delay: DDS_INFINITE_TIME,
        }
    }
}

impl Default for WriterBatching {
    fn default() -> (r: WriterBatching)
        ensures
            r == (WriterBatching { batch_updates: false }),
    {
        WriterBatching { batch_updates: false }
    }
}

impl Default for IgnoreLocal {
    fn default() -> (r: IgnoreLocal)
        ensures
            r == (IgnoreLocal { kind: IgnoreLocalKind::NONE }),
    {
        IgnoreLocal { kind: IgnoreLocalKind::NONE }
    }
}

impl Default for TypeConsistency {
    fn default() -> (r: TypeConsistency)
        ensures
            r == (TypeConsistency {
                kind: TypeConsistencyKind::DISALLOW_TYPE_COERCION,
                ignore_sequence_bounds: false,
                ignore_string_bounds: false,
                ignore_member_names: false,
                prevent_type_widening: false,
                force_type_validation: false,
            }),
    {
        TypeConsistency {
            kind: TypeConsistencyKind::DISALLOW_TYPE_COERCION,
            ignore_sequence_bounds: false,
            ignore_string_bounds: false,
            ignore_member_names: false,
            prevent_type_widening: false,
            force_type_validation: false,
        }
    }
}

impl Default for EntityName {
    fn default() -> (r: EntityName)
        ensures
            r.name@ == Seq::<char>::empty(),
    {
        EntityName { name: String::new() }
    }
}

// ---------------------------------------------------------------------------
// Views and canonical-default capability of each policy type.  The plain
// policy shapes are their own mathematical view; the elision engine compares
// against the canonical default through these impls.
// ---------------------------------------------------------------------------

impl DeepView for Durability {
    type V = Durability;

    open spec fn deep_view(&self) -> Durability {
        *self
    }
}

impl HasCanonicalDefault for Durability {
    open spec fn canonical_default_view() -> Durability {
        Durability { kind: DurabilityKind::VOLATILE }
    }

    fn eq_canonical_default(&self) -> (r: bool) {
        self.kind == DurabilityKind::VOLATILE
    }
}

impl DeepView for DurabilityService {
    type V = DurabilityService;

    open spec fn deep_view(&self) -> DurabilityService {
        *self
    }
}

impl HasCanonicalDefault for DurabilityService {
    open spec fn canonical_default_view() -> DurabilityService {
        DurabilityService {
            service_cleanup_delay: 0,
            history_kind: HistoryKind::KEEP_LAST,
            history_depth: 1,
            max_samples: DDS_LENGTH_UNLIMITED,
            max_instances: DDS_LENGTH_UNLIMITED,
            max_samples_per_instance: DDS_LENGTH_UNLIMITED,
        }
    }

    fn eq_canonical_default(&self) -> (r: bool) {
        self.service_cleanup_delay == 0 && self.history_kind == HistoryKind::KEEP_LAST
            && self.history_depth == 1 && self.max_samples == DDS_LENGTH_UNLIMITED
            && self.max_instances == DDS_LENGTH_UNLIMITED && self.max_samples_per_instance
            == DDS_LENGTH_UNLIMITED
    }
}

impl DeepView for Reliability {
    type V = Reliability;

    open spec fn deep_view(&self) -> Reliability {
        *self
    }
}

impl HasCanonicalDefault for Reliability {
    open spec fn canonical_default_view() -> Reliability {
        Reliability { kind: ReliabilityKind::BEST_EFFORT, max_blocking_time: DDS_100MS_DURATION }
    }

    fn eq_canonical_default(&self) -> (r: bool) {
        self.kind == ReliabilityKind::BEST_EFFORT && self.max_blocking_time == DDS_100MS_DURATION
    }
}

impl DeepView for Deadline {
    type V = Deadline;

    open spec fn deep_view(&self) -> Deadline {
        *self
    }
}

impl HasCanonicalDefault for Deadline {
    open spec fn canonical_default_view() -> Deadline {
        Deadline { period: DDS_INFINITE_TIME }
    }

    fn eq_canonical_default(&self) -> (r: bool) {
        self.period == DDS_INFINITE_TIME
    }
}

impl DeepView for LatencyBudget {
    type V = LatencyBudget;

    open spec fn deep_view(&self) -> LatencyBudget {
        *self
    }
}

impl HasCanonicalDefault for LatencyBudget {
    open spec fn canonical_default_view() -> LatencyBudget {
        LatencyBudget { duration: 0 }
    }

    fn eq_canonical_default(&self) -> (r: bool) {
        self.duration == 0
    }
}

impl DeepView for DestinationOrder {
    type V = DestinationOrder;

    open spec fn deep_view(&self) -> DestinationOrder {
        *self
    }
}

impl HasCanonicalDefault for DestinationOrder {
    open spec fn canonical_default_view() -> DestinationOrder {
        DestinationOrder { kind: DestinationOrderKind::BY_RECEPTION_TIMESTAMP }
    }

    fn eq_canonical_default(&self) -> (r: bool) {
        self.kind == DestinationOrderKind::BY_RECEPTION_TIMESTAMP
    }
}

impl DeepView for Liveliness {
    type V = Liveliness;

    open spec fn deep_view(&self) -> Liveliness {
        *self
    }
}

impl HasCanonicalDefault for Liveliness {
    open spec fn canonical_default_view() -> Liveliness {
        Liveliness { kind: LivelinessKind::AUTOMATIC, lease_duration: DDS_INFINITE_TIME }
    }

    fn eq_canonical_default(&self) -> (r: bool) {
        self.kind == LivelinessKind::AUTOMATIC && self.lease_duration == DDS_INFINITE_TIME
    }
}

impl DeepView for Ownership {
    type V = Ownership;

    open spec fn deep_view(&self) -> Ownership {
        *self
    }
}

impl HasCanonicalDefault for Ownership {
    open spec fn canonical_default_view() -> Ownership {
        Ownership { kind: OwnershipKind::SHARED }
    }

    fn eq_canonical_default(&self) -> (r: bool) {
        self.kind == OwnershipKind::SHARED
    }
}

impl DeepView for History {
    type V = History;

    open spec fn deep_view(&self) -> History {
        *self
    }
}

impl HasCanonicalDefault for History {
    open spec fn canonical_default_view() -> History {
        History { kind: HistoryKind::KEEP_LAST, depth: 1 }
    }

    fn eq_canonical_default(&self) -> (r: bool) {
        self.kind == HistoryKind::KEEP_LAST && self.depth == 1
    }
}

impl DeepView for ResourceLimits {
    type V = ResourceLimits;

    open spec fn deep_view(&self) -> ResourceLimits {
        *self
    }
}

impl HasCanonicalDefault for ResourceLimits {
    open spec fn canonical_default_view() -> ResourceLimits {
        ResourceLimits {
            max_samples: DDS_LENGTH_UNLIMITED,
            max_instances: DDS_LENGTH_UNLIMITED,
            max_samples_per_instance: DDS_LENGTH_UNLIMITED,
        }
    }

    fn eq_canonical_default(&self) -> (r: bool) {
        self.max_samples == DDS_LENGTH_UNLIMITED && self.max_instances == DDS_LENGTH_UNLIMITED
            && self.max_samples_per_instance == DDS_LENGTH_UNLIMITED
    }
}

impl DeepView for Presentation {
    type V = Presentation;

    open spec fn deep_view(&self) -> Presentation {
        *self
    }
}

impl HasCanonicalDefault for Presentation {
    open spec fn canonical_default_view() -> Presentation {
        Presentation {
            access_scope: PresentationAccessScopeKind::INSTANCE,
            coherent_access: false,
            ordered_access: false,
        }
    }

    fn eq_canonical_default(&self) -> (r: bool) {
        self.access_scope == PresentationAccessScopeKind::INSTANCE && !self.coherent_access
            && !self.ordered_access
    }
}

impl DeepView for Lifespan {
    type V = Lifespan;

    open spec fn deep_view(&self) -> Lifespan {
        *self
    }
}

impl HasCanonicalDefault for Lifespan {
    open spec fn canonical_default_view() -> Lifespan {
        Lifespan { duration: DDS_INFINITE_TIME }
    }

    fn eq_canonical_default(&self) -> (r: bool) {
        self.duration == DDS_INFINITE_TIME
    }
}

impl DeepView for OwnershipStrength {
    type V = OwnershipStrength;

    open spec fn deep_view(&self) -> OwnershipStrength {
        *self
    }
}

impl HasCanonicalDefault for OwnershipStrength {
    open spec fn canonical_default_view() -> OwnershipStrength {
        OwnershipStrength { value: 0 }
    }

    fn eq_canonical_default(&self) -> (r: bool) {
        self.value == 0
    }
}

impl DeepView for TimeBasedFilter {
    type V = TimeBasedFilter;

    open spec fn deep_view(&self) -> TimeBasedFilter {
        *self
    }
}

impl HasCanonicalDefault for TimeBasedFilter {
    open spec fn canonical_default_view() -> TimeBasedFilter {
        TimeBasedFilter { minimum_separation: 0 }
    }

    fn eq_canonical_default(&self) -> (r: bool) {
        self.minimum_separation == 0
    }
}

impl DeepView for TransportPriority {
    type V = TransportPriority;

    open spec fn deep_view(&self) -> TransportPriority {
        *self
    }
}

impl HasCanonicalDefault for TransportPriority {
    open spec fn canonical_default_view() -> TransportPriority {
        TransportPriority { value: 0 }
    }

    fn eq_canonical_default(&self) -> (r: bool) {
        self.value == 0
    }
}

impl DeepView for WriterDataLifecycle {
    type V = WriterDataLifecycle;

    open spec fn deep_view(&self) -> WriterDataLifecycle {
        *self
    }
}

impl HasCanonicalDefault for WriterDataLifecycle {
    open spec fn canonical_default_view() -> WriterDataLifecycle {
        WriterDataLifecycle { autodispose_unregistered_instances: true }
    }

    fn eq_canonical_default(&self) -> (r: bool) {
        self.autodispose_unregistered_instances
    }
}

impl DeepView for ReaderDataLifecycle {
    type V = ReaderDataLifecycle;

    open spec fn deep_view(&self) -> ReaderDataLifecycle {
        *self
    }
}

impl HasCanonicalDefault for ReaderDataLifecycle {
    open spec fn canonical_default_view() -> ReaderDataLifecycle {
        ReaderDataLifecycle {
            autopurge_nowriter_samples_delay: DDS_INFINITE_TIME,
            autopurge_disposed_samples_delay: DDS_INFINITE_TIME,
        }
    }

    fn eq_canonical_default(&self) -> (r: bool) {
        self.autopurge_nowriter_samples_delay == DDS_INFINITE_TIME
            && self.autopurge_disposed_samples_delay == DDS_INFINITE_TIME
    }
}

impl DeepView for WriterBatching {
    type V = WriterBatching;

    open spec fn deep_view(&self) -> WriterBatching {
        *self
    }
}

impl HasCanonicalDefault for WriterBatching {
    open spec fn canonical_default_view() -> WriterBatching {
        WriterBatching { batch_updates: false }
    }

    fn eq_canonical_default(&self) -> (r: bool) {
        !self.batch_updates
    }
}

impl DeepView for IgnoreLocal {
    type V = IgnoreLocal;

    open spec fn deep_view(&self) -> IgnoreLocal {
        *self
    }
}

impl HasCanonicalDefault for IgnoreLocal {
    open spec fn canonical_default_view() -> IgnoreLocal {
        IgnoreLocal { kind: IgnoreLocalKind::NONE }
    }

    fn eq_canonical_default(&self) -> (r: bool) {
        self.kind == IgnoreLocalKind::NONE
    }
}

impl DeepView for TypeConsistency {
    type V = TypeConsistency;

    open spec fn deep_view(&self) -> TypeConsistency {
        *self
    }
}

impl HasCanonicalDefault for TypeConsistency {
    open spec fn canonical_default_view() -> TypeConsistency {
        TypeConsistency {
            kind: TypeConsistencyKind::DISALLOW_TYPE_COERCION,
            ignore_sequence_bounds: false,
            ignore_string_bounds: false,
            ignore_member_names: false,
            prevent_type_widening: false,
            force_type_validation: false,
        }
    }

    fn eq_canonical_default(&self) -> (r: bool) {
        self.kind == TypeConsistencyKind::DISALLOW_TYPE_COERCION && !self.ignore_sequence_bounds
            && !self.ignore_string_bounds && !self.ignore_member_names
            && !self.prevent_type_widening && !self.force_type_validation
    }
}

impl HasCanonicalDefault for EntityName {
    open spec fn canonical_default_view() -> Seq<char> {
        Seq::empty()
    }

    fn eq_canonical_default(&self) -> (r: bool) {
        let r = self.name.as_str().is_empty();
        proof {
            if self.name@.len() == 0 {
                assert(self.name@ =~= Seq::<char>::empty());
            } else {
                assert(self.deep_view().len() != 0);
            }
        }
        r
    }
}

} // verus!
