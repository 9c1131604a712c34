//! IDE and platform integration engine: registers external development
//! environments, tracks their connection state and records sync events.

use vstd::prelude::*;
use crate::clock::{new_id, now_millis, start_timer, elapsed_millis, uuid_v4_text};
use crate::fixed::Ratio;
use crate::history::{
    Duplicate, bounded_push, latest, push_bounded, latest_first, keep, first_index,
    lemma_keep_step, lemma_first_index, lemma_first_index_found, lemma_first_index_bound, lemma_bounded_push_len,
    duplicate_all, duplicate_opt_string,
};
use crate::text::str_eq;
use super::TaskPriority;

verus! {

// ── Supported platforms ──────────────────────────────────────────────────────

/// All integrated IDE and development studio platforms.
#[derive(Debug, Clone, Copy, PartialEq, Eq, Structural, Hash)]
pub enum IntegrationPlatform {
    PyCharm,
    Juno,
    JetBrainsFleet,
    JetBrainsIntelliJ,
    JetBrainsRider,
    JetBrainsWebStorm,
    JetBrainsClion,
    VsStudio,
    VsCode,
    Qodana,
    GoogleAiStudio,
    HpStudio,
}

#[derive(Debug, Clone, Copy, PartialEq, Eq, Structural)]
pub enum PlatformCategory {
    Ide,
    QualityAnalysis,
    AiPlatform,
    DevOps,
}

/// Every supported platform, in declaration order.
pub open spec fn all_platforms() -> Seq<IntegrationPlatform> {
    seq![
        IntegrationPlatform::PyCharm,
        IntegrationPlatform::Juno,
        IntegrationPlatform::JetBrainsFleet,
        IntegrationPlatform::JetBrainsIntelliJ,
        IntegrationPlatform::JetBrainsRider,
        IntegrationPlatform::JetBrainsWebStorm,
        IntegrationPlatform::JetBrainsClion,
        IntegrationPlatform::VsStudio,
        IntegrationPlatform::VsCode,
        IntegrationPlatform::Qodana,
        IntegrationPlatform::GoogleAiStudio,
        IntegrationPlatform::HpStudio,
    ]
}

impl IntegrationPlatform {
    pub open spec fn spec_display_name(self) -> Seq<char> {
        match self {
            IntegrationPlatform::PyCharm => "JetBrains PyCharm"@,
            IntegrationPlatform::Juno => "Juno IDE"@,
            IntegrationPlatform::JetBrainsFleet => "JetBrains Fleet"@,
            IntegrationPlatform::JetBrainsIntelliJ => "JetBrains IntelliJ IDEA"@,
            IntegrationPlatform::JetBrainsRider => "JetBrains Rider"@,
            IntegrationPlatform::JetBrainsWebStorm => "JetBrains WebStorm"@,
            IntegrationPlatform::JetBrainsClion => "JetBrains CLion"@,
            IntegrationPlatform::VsStudio => "Visual Studio"@,
            IntegrationPlatform::VsCode => "Visual Studio Code"@,
            IntegrationPlatform::Qodana => "JetBrains Qodana"@,
            IntegrationPlatform::GoogleAiStudio => "Google AI Studio"@,
            IntegrationPlatform::HpStudio => "HP Studio"@,
        }
    }

    pub open spec fn spec_category(self) -> PlatformCategory {
        match self {
            IntegrationPlatform::Qodana => PlatformCategory::QualityAnalysis,
            IntegrationPlatform::GoogleAiStudio => PlatformCategory::AiPlatform,
            IntegrationPlatform::HpStudio => PlatformCategory::DevOps,
            _ => PlatformCategory::Ide,
        }
    }

    /// The product name of the platform.
    pub fn display_name(&self) -> (r: &'static str)
        ensures
            r@ == self.spec_display_name(),
    {
        match self {
            IntegrationPlatform::PyCharm => "JetBrains PyCharm",
            IntegrationPlatform::Juno => "Juno IDE",
            IntegrationPlatform::JetBrainsFleet => "JetBrains Fleet",
            IntegrationPlatform::JetBrainsIntelliJ => "JetBrains IntelliJ IDEA",
            IntegrationPlatform::JetBrainsRider => "JetBrains Rider",
            IntegrationPlatform::JetBrainsWebStorm => "JetBrains WebStorm",
            IntegrationPlatform::JetBrainsClion => "JetBrains CLion",
            IntegrationPlatform::VsStudio => "Visual Studio",
            IntegrationPlatform::VsCode => "Visual Studio Code",
            IntegrationPlatform::Qodana => "JetBrains Qodana",
            IntegrationPlatform::GoogleAiStudio => "Google AI Studio",
            IntegrationPlatform::HpStudio => "HP Studio",
        }
    }

    /// The kind of tool the platform is.
    pub fn category(&self) -> (r: PlatformCategory)
        ensures
            r == self.spec_category(),
    {
        match self {
            IntegrationPlatform::PyCharm | IntegrationPlatform::Juno | IntegrationPlatform::JetBrainsFleet
            | IntegrationPlatform::JetBrainsIntelliJ | IntegrationPlatform::JetBrainsRider
            | IntegrationPlatform::JetBrainsWebStorm | IntegrationPlatform::JetBrainsClion
            | IntegrationPlatform::VsStudio | IntegrationPlatform::VsCode => PlatformCategory::Ide,
            IntegrationPlatform::Qodana => PlatformCategory::QualityAnalysis,
            IntegrationPlatform::GoogleAiStudio => PlatformCategory::AiPlatform,
            IntegrationPlatform::HpStudio => PlatformCategory::DevOps,
        }
    }

    /// All supported platforms for enumeration.
    pub fn all() -> (r: Vec<IntegrationPlatform>)
        ensures
            r@ == all_platforms(),
    {
        let r = vec![
            IntegrationPlatform::PyCharm,
            IntegrationPlatform::Juno,
            IntegrationPlatform::JetBrainsFleet,
            IntegrationPlatform::JetBrainsIntelliJ,
            IntegrationPlatform::JetBrainsRider,
            IntegrationPlatform::JetBrainsWebStorm,
            IntegrationPlatform::JetBrainsClion,
            IntegrationPlatform::VsStudio,
            IntegrationPlatform::VsCode,
            IntegrationPlatform::Qodana,
            IntegrationPlatform::GoogleAiStudio,
            IntegrationPlatform::HpStudio,
        ];
        assert(r@ =~= all_platforms());
        r
    }
}

// ── Integration connection ───────────────────────────────────────────────────

#[derive(Debug, Clone, Copy, PartialEq, Eq, Structural)]
pub enum ConnectionStatus {
    Connected,
    Disconnected,
    Authenticating,
    Syncing,
    Error,
    Degraded,
}

impl ConnectionStatus {
    pub open spec fn spec_debug_name(self) -> Seq<char> {
        match self {
            ConnectionStatus::Connected => "Connected"@,
            ConnectionStatus::Disconnected => "Disconnected"@,
            ConnectionStatus::Authenticating => "Authenticating"@,
            ConnectionStatus::Syncing => "Syncing"@,
            ConnectionStatus::Error => "Error"@,
            ConnectionStatus::Degraded => "Degraded"@,
        }
    }

    /// The variant name, as `{:?}` prints it.
    pub fn debug_name(&self) -> (r: &'static str)
        ensures
            r@ == self.spec_debug_name(),
    {
        match self {
            ConnectionStatus::Connected => "Connected",
            ConnectionStatus::Disconnected => "Disconnected",
            ConnectionStatus::Authenticating => "Authenticating",
            ConnectionStatus::Syncing => "Syncing",
            ConnectionStatus::Error => "Error",
            ConnectionStatus::Degraded => "Degraded",
        }
    }
}

#[derive(Debug, Clone, Copy, PartialEq, Eq, Structural)]
pub enum AuthMethod {
    ApiKey,
    OAuth2,
    ServiceAccount,
    Token,
    Certificate,
    /// No authentication (the variant `None` of the desktop API).
    NoAuth,
}

#[derive(Debug, Clone)]
pub struct PlatformConfig {
    pub auto_sync: bool,
    pub sync_interval_secs: u64,
    pub max_retries: u32,
    pub timeout_ms: u64,
    pub priority: TaskPriority,
    pub enabled_features: Vec<String>,
}

pub struct PlatformConfigView {
    pub auto_sync: bool,
    pub sync_interval_secs: u64,
    pub max_retries: u32,
    pub timeout_ms: u64,
    pub priority: TaskPriority,
    pub enabled_features: Seq<String>,
}

impl View for PlatformConfig {
    type V = PlatformConfigView;

    open spec fn view(&self) -> PlatformConfigView {
        PlatformConfigView {
            auto_sync: self.auto_sync,
            sync_interval_secs: self.sync_interval_secs,
            max_retries: self.max_retries,
            timeout_ms: self.timeout_ms,
            priority: self.priority,
            enabled_features: self.enabled_features@,
        }
    }
}

impl PlatformConfig {
    pub fn duplicate(&self) -> (r: Self)
        ensures
            r@ == self@,
    {
        PlatformConfig {
            auto_sync: self.auto_sync,
            sync_interval_secs: self.sync_interval_secs,
            max_retries: self.max_retries,
            timeout_ms: self.timeout_ms,
            priority: self.priority,
            enabled_features: duplicate_all(&self.enabled_features),
        }
    }
}

/// The configuration a new integration starts with.
pub open spec fn default_platform_config() -> PlatformConfigView {
    PlatformConfigView {
        auto_sync: true,
        sync_interval_secs: 300,
        max_retries: 3,
        timeout_ms: 30000,
        priority: TaskPriority::Green,
        enabled_features: seq![],
    }
}

impl Default for PlatformConfig {
    fn default() -> (r: Self)
        ensures
            r@ == default_platform_config(),
    {
        PlatformConfig {
            auto_sync: true,
            sync_interval_secs: 300,
            max_retries: 3,
            timeout_ms: 30000,
            priority: TaskPriority::Green,
            enabled_features: Vec::new(),
        }
    }
}

/// Capabilities that a platform integration provides.
#[derive(Debug, Clone, Copy, PartialEq, Eq, Structural)]
pub enum PlatformCapability {
    CodeAnalysis,
    LiveLinting,
    BuildTrigger,
    TestExecution,
    DeploymentPipeline,
    AiCompletion,
    AiCodeReview,
    SecurityScan,
    PerformanceProfiling,
    DependencyAnalysis,
    ProjectSync,
    RemoteDebug,
    ContainerManagement,
    ModelTraining,
    DataPipeline,
}

impl Duplicate for PlatformCapability {
    fn duplicate(&self) -> (r: Self) {
        *self
    }
}

/// The capabilities a newly registered integration of `p` offers.
pub open spec fn default_capabilities_of(p: IntegrationPlatform) -> Seq<PlatformCapability> {
    match p {
        IntegrationPlatform::PyCharm => seq![
            PlatformCapability::CodeAnalysis,
            PlatformCapability::LiveLinting,
            PlatformCapability::TestExecution,
            PlatformCapability::RemoteDebug,
            PlatformCapability::DependencyAnalysis,
        ],
        IntegrationPlatform::Juno => seq![
            PlatformCapability::CodeAnalysis,
            PlatformCapability::DataPipeline,
            PlatformCapability::ModelTraining,
            PlatformCapability::PerformanceProfiling,
        ],
        IntegrationPlatform::JetBrainsFleet => seq![
            PlatformCapability::CodeAnalysis,
            PlatformCapability::LiveLinting,
            PlatformCapability::ProjectSync,
            PlatformCapability::RemoteDebug,
        ],
        IntegrationPlatform::JetBrainsIntelliJ => seq![
            PlatformCapability::CodeAnalysis,
            PlatformCapability::LiveLinting,
            PlatformCapability::BuildTrigger,
            PlatformCapability::TestExecution,
            PlatformCapability::DependencyAnalysis,
            PlatformCapability::RemoteDebug,
        ],
        IntegrationPlatform::JetBrainsRider => seq![
            PlatformCapability::CodeAnalysis,
            PlatformCapability::LiveLinting,
            PlatformCapability::BuildTrigger,
            PlatformCapability::TestExecution,
            PlatformCapability::RemoteDebug,
        ],
        IntegrationPlatform::JetBrainsWebStorm => seq![
            PlatformCapability::CodeAnalysis,
            PlatformCapability::LiveLinting,
            PlatformCapability::BuildTrigger,
            PlatformCapability::TestExecution,
            PlatformCapability::DependencyAnalysis,
        ],
        IntegrationPlatform::JetBrainsClion => seq![
            PlatformCapability::CodeAnalysis,
            PlatformCapability::LiveLinting,
            PlatformCapability::BuildTrigger,
            PlatformCapability::PerformanceProfiling,
            PlatformCapability::RemoteDebug,
        ],
        IntegrationPlatform::VsStudio => seq![
            PlatformCapability::CodeAnalysis,
            PlatformCapability::LiveLinting,
            PlatformCapability::BuildTrigger,
            PlatformCapability::TestExecution,
            PlatformCapability::DeploymentPipeline,
            PlatformCapability::RemoteDebug,
            PlatformCapability::ContainerManagement,
        ],
        IntegrationPlatform::VsCode => seq![
            PlatformCapability::CodeAnalysis,
            PlatformCapability::LiveLinting,
            PlatformCapability::TestExecution,
            PlatformCapability::AiCompletion,
            PlatformCapability::RemoteDebug,
        ],
        IntegrationPlatform::Qodana => seq![
            PlatformCapability::CodeAnalysis,
            PlatformCapability::SecurityScan,
            PlatformCapability::AiCodeReview,
            PlatformCapability::DependencyAnalysis,
        ],
        IntegrationPlatform::GoogleAiStudio => seq![
            PlatformCapability::AiCompletion,
            PlatformCapability::AiCodeReview,
            PlatformCapability::ModelTraining,
            PlatformCapability::DataPipeline,
        ],
        IntegrationPlatform::HpStudio => seq![
            PlatformCapability::DeploymentPipeline,
            PlatformCapability::ContainerManagement,
            PlatformCapability::PerformanceProfiling,
            PlatformCapability::SecurityScan,
        ],
    }
}

/// The default capabilities of each platform.
pub fn default_capabilities(platform: &IntegrationPlatform) -> (r: Vec<PlatformCapability>)
    ensures
        r@ == default_capabilities_of(*platform),
{
    let r = match platform {
        IntegrationPlatform::PyCharm => vec![
            PlatformCapability::CodeAnalysis,
            PlatformCapability::LiveLinting,
            PlatformCapability::TestExecution,
            PlatformCapability::RemoteDebug,
            PlatformCapability::DependencyAnalysis,
        ],
        IntegrationPlatform::Juno => vec![
            PlatformCapability::CodeAnalysis,
            PlatformCapability::DataPipeline,
            PlatformCapability::ModelTraining,
            PlatformCapability::PerformanceProfiling,
        ],
        IntegrationPlatform::JetBrainsFleet => vec![
            PlatformCapability::CodeAnalysis,
            PlatformCapability::LiveLinting,
            PlatformCapability::ProjectSync,
            PlatformCapability::RemoteDebug,
        ],
        IntegrationPlatform::JetBrainsIntelliJ => vec![
            PlatformCapability::CodeAnalysis,
            PlatformCapability::LiveLinting,
            PlatformCapability::BuildTrigger,
            PlatformCapability::TestExecution,
            PlatformCapability::DependencyAnalysis,
            PlatformCapability::RemoteDebug,
        ],
        IntegrationPlatform::JetBrainsRider => vec![
            PlatformCapability::CodeAnalysis,
            PlatformCapability::LiveLinting,
            PlatformCapability::BuildTrigger,
            PlatformCapability::TestExecution,
            PlatformCapability::RemoteDebug,
        ],
        IntegrationPlatform::JetBrainsWebStorm => vec![
            PlatformCapability::CodeAnalysis,
            PlatformCapability::LiveLinting,
            PlatformCapability::BuildTrigger,
            PlatformCapability::TestExecution,
            PlatformCapability::DependencyAnalysis,
        ],
        IntegrationPlatform::JetBrainsClion => vec![
            PlatformCapability::CodeAnalysis,
            PlatformCapability::LiveLinting,
            PlatformCapability::BuildTrigger,
            PlatformCapability::PerformanceProfiling,
            PlatformCapability::RemoteDebug,
        ],
        IntegrationPlatform::VsStudio => vec![
            PlatformCapability::CodeAnalysis,
            PlatformCapability::LiveLinting,
            PlatformCapability::BuildTrigger,
            PlatformCapability::TestExecution,
            PlatformCapability::DeploymentPipeline,
            PlatformCapability::RemoteDebug,
            PlatformCapability::ContainerManagement,
        ],
        IntegrationPlatform::VsCode => vec![
            PlatformCapability::CodeAnalysis,
            PlatformCapability::LiveLinting,
            PlatformCapability::TestExecution,
            PlatformCapability::AiCompletion,
            PlatformCapability::RemoteDebug,
        ],
        IntegrationPlatform::Qodana => vec![
            PlatformCapability::CodeAnalysis,
            PlatformCapability::SecurityScan,
            PlatformCapability::AiCodeReview,
            PlatformCapability::DependencyAnalysis,
        ],
        IntegrationPlatform::GoogleAiStudio => vec![
            PlatformCapability::AiCompletion,
            PlatformCapability::AiCodeReview,
            PlatformCapability::ModelTraining,
            PlatformCapability::DataPipeline,
        ],
        IntegrationPlatform::HpStudio => vec![
            PlatformCapability::DeploymentPipeline,
            PlatformCapability::ContainerManagement,
            PlatformCapability::PerformanceProfiling,
            PlatformCapability::SecurityScan,
        ],
    };
    assert(r@ =~= default_capabilities_of(*platform));
    r
}

/// Represents a live connection to an integrated platform.
#[derive(Debug, Clone)]
pub struct PlatformConnection {
    pub connection_id: String,
    pub platform: IntegrationPlatform,
    pub status: ConnectionStatus,
    pub endpoint: String,
    pub auth_method: AuthMethod,
    /// Milliseconds since the Unix epoch.
    pub connected_at: Option<i64>,
    /// Milliseconds since the Unix epoch.
    pub last_sync: Option<i64>,
    pub last_error: Option<String>,
    pub config: PlatformConfig,
    pub capabilities: Vec<PlatformCapability>,
    /// Health in percent.
    pub health_score: Ratio,
}

pub struct ConnectionView {
    pub connection_id: String,
    pub platform: IntegrationPlatform,
    pub status: ConnectionStatus,
    pub endpoint: String,
    pub auth_method: AuthMethod,
    pub connected_at: Option<i64>,
    pub last_sync: Option<i64>,
    pub last_error: Option<String>,
    pub config: PlatformConfigView,
    pub capabilities: Seq<PlatformCapability>,
    /// Health in percent.
    pub health_score: Ratio,
}

impl View for PlatformConnection {
    type V = ConnectionView;

    open spec fn view(&self) -> ConnectionView {
        ConnectionView {
            connection_id: self.connection_id,
            platform: self.platform,
            status: self.status,
            endpoint: self.endpoint,
            auth_method: self.auth_method,
            connected_at: self.connected_at,
            last_sync: self.last_sync,
            last_error: self.last_error,
            config: self.config@,
            capabilities: self.capabilities@,
            health_score: self.health_score,
        }
    }
}

impl PlatformConnection {
    pub fn duplicate(&self) -> (r: Self)
        ensures
            r@ == self@,
    {
        PlatformConnection {
            connection_id: self.connection_id.clone(),
            platform: self.platform,
            status: self.status,
            endpoint: self.endpoint.clone(),
            auth_method: self.auth_method,
            connected_at: self.connected_at,
            last_sync: self.last_sync,
            last_error: duplicate_opt_string(&self.last_error),
            config: self.config.duplicate(),
            capabilities: duplicate_all(&self.capabilities),
            health_score: self.health_score,
        }
    }
}

/// The views of a sequence of connections.
pub open spec fn connection_views(s: Seq<PlatformConnection>) -> Seq<ConnectionView> {
    s.map_values(|c: PlatformConnection| c@)
}

// ── Sync events ──────────────────────────────────────────────────────────────

/// A synchronisation event with an integrated platform.
#[derive(Debug, Clone)]
pub struct SyncEvent {
    pub id: String,
    /// Milliseconds since the Unix epoch.
    pub timestamp: i64,
    pub platform: IntegrationPlatform,
    pub event_type: SyncEventType,
    pub payload_summary: String,
    pub duration_ms: u64,
    pub success: bool,
    pub error: Option<String>,
    pub items_synced: u32,
}

impl Duplicate for SyncEvent {
    fn duplicate(&self) -> (r: Self) {
        SyncEvent {
            id: self.id.clone(),
            timestamp: self.timestamp,
            platform: self.platform,
            event_type: self.event_type,
            payload_summary: self.payload_summary.clone(),
            duration_ms: self.duration_ms,
            success: self.success,
            error: duplicate_opt_string(&self.error),
            items_synced: self.items_synced,
        }
    }
}

#[derive(Debug, Clone, Copy, PartialEq, Eq, Structural)]
pub enum SyncEventType {
    FullSync,
    IncrementalSync,
    Push,
    Pull,
    Webhook,
    HealthCheck,
    ConfigUpdate,
}

// ── Integration engine ───────────────────────────────────────────────────────

/// How many sync events the engine retains.
pub const MAX_SYNC_HISTORY: usize = 1000;

/// A connection whose id is `id`.
pub open spec fn connection_id_is(id: Seq<char>) -> spec_fn(ConnectionView) -> bool {
    |c: ConnectionView| c.connection_id@ == id
}

/// No two connections share an id.
pub open spec fn ids_unique(s: Seq<ConnectionView>) -> bool {
    forall|i: int, j: int| 0 <= i < j < s.len() ==> s[i].connection_id@ != s[j].connection_id@
}

/// `c` is a newly registered, disconnected integration.
pub open spec fn is_new_connection(
    c: ConnectionView,
    id: Seq<char>,
    platform: IntegrationPlatform,
    endpoint: Seq<char>,
    auth_method: AuthMethod,
    config: PlatformConfigView,
) -> bool {
    &&& c.connection_id@ == id
    &&& c.platform == platform
    &&& c.status == ConnectionStatus::Disconnected
    &&& c.endpoint@ == endpoint
    &&& c.auth_method == auth_method
    &&& c.connected_at == None::<i64>
    &&& c.last_sync == None::<i64>
    &&& c.last_error == None::<String>
    &&& c.config == config
    &&& c.capabilities == default_capabilities_of(platform)
    &&& c.health_score == (Ratio { numerator: 100, denominator: 1 })
}

/// The connections after registering `c`: one with the same id is
/// replaced, otherwise `c` is added.
pub open spec fn upsert_connection(s: Seq<ConnectionView>, c: ConnectionView) -> Seq<ConnectionView> {
    let i = first_index(s, connection_id_is(c.connection_id@));
    if i >= 0 { s.update(i, c) } else { s.push(c) }
}

/// Replacing a connection by one with the same id keeps it where a lookup
/// by that id finds it. So after `connect` the connection a sync looks up
/// is the connected one, and a sync succeeds; after `disconnect` it is the
/// disconnected one, and a sync is refused as not connected.
pub proof fn law_lookup_sees_update(s: Seq<ConnectionView>, id: Seq<char>, c: ConnectionView)
    requires
        first_index(s, connection_id_is(id)) >= 0,
        c.connection_id@ == id,
    ensures
        ({
            let i = first_index(s, connection_id_is(id));
            &&& first_index(s.update(i, c), connection_id_is(id)) == i
            &&& s.update(i, c)[i] == c
        }),
{
    let p = connection_id_is(id);
    let i = first_index(s, p);
    let u = s.update(i, c);
    lemma_first_index_bound(s, p);
    assert forall|k: int| 0 <= k < i implies !p(#[trigger] u[k]) by {
        assert(u[k] == s[k]);
        if p(s[k]) {
            lemma_first_index_found(s, p, k);
        }
    }
    lemma_first_index(u, p, i);
}

/// The refusal for an unknown connection id.
pub open spec fn not_found_message(id: Seq<char>) -> Seq<char> {
    "Connection '"@ + id + "' not found"@
}

/// The refusal for syncing a platform that is not connected.
pub open spec fn not_connected_message(c: ConnectionView) -> Seq<char> {
    "Platform '"@ + c.platform.spec_display_name() + "' is not connected (status: "@
        + c.status.spec_debug_name() + ")"@
}

/// `e` is the successful sync event of platform `platform`.
pub open spec fn is_sync_event(
    e: SyncEvent,
    id: Seq<char>,
    at: i64,
    platform: IntegrationPlatform,
    event_type: SyncEventType,
    duration_ms: u64,
) -> bool {
    &&& e.id@ == id
    &&& e.timestamp == at
    &&& e.platform == platform
    &&& e.event_type == event_type
    &&& e.payload_summary@ == "Sync with "@ + platform.spec_display_name()
    &&& e.duration_ms == duration_ms
    &&& e.success
    &&& e.error == None::<String>
    &&& e.items_synced == 0
}

/// Sync events of one platform, or of all when none is given.
pub open spec fn event_filter(platform: Option<IntegrationPlatform>) -> spec_fn(SyncEvent) -> bool {
    |e: SyncEvent| match platform {
        Some(p) => e.platform == p,
        None => true,
    }
}

/// A successful sync event.
pub open spec fn event_succeeded() -> spec_fn(SyncEvent) -> bool {
    |e: SyncEvent| e.success
}

/// The health of a platform in percent, exactly: the share of successful
/// events among its last ten, times 100, or 100 when it has none.
pub open spec fn health_of(history: Seq<SyncEvent>, platform: IntegrationPlatform) -> Ratio {
    let recent = latest(keep(history, event_filter(Some(platform))), 10);
    if recent.len() == 0 {
        Ratio { numerator: 100, denominator: 1 }
    } else {
        Ratio {
            numerator: (100 * keep(recent, event_succeeded()).len()) as u128,
            denominator: recent.len() as u128,
        }
    }
}

/// Manages all IDE and platform integrations for the admin mesh.
pub struct IntegrationEngine {
    connections: Vec<PlatformConnection>,
    sync_history: Vec<SyncEvent>,
    max_sync_history: usize,
}

impl IntegrationEngine {
    /// The registered integrations, in registration order.
    pub closed spec fn connections(&self) -> Seq<ConnectionView> {
        connection_views(self.connections@)
    }

    /// The retained sync events, oldest first.
    pub closed spec fn sync_history(&self) -> Seq<SyncEvent> {
        self.sync_history@
    }

    /// Connection ids are unique and the history is within its capacity.
    pub closed spec fn wf(&self) -> bool {
        &&& self.max_sync_history == MAX_SYNC_HISTORY
        &&& self.sync_history@.len() <= MAX_SYNC_HISTORY
        &&& ids_unique(connection_views(self.connections@))
    }

    /// What `wf` promises, in terms a caller can read.
    pub proof fn lemma_wf(&self)
        requires
            self.wf(),
        ensures
            self.sync_history().len() <= MAX_SYNC_HISTORY,
            ids_unique(self.connections()),
    {
    }

    pub fn new() -> (e: Self)
        ensures
            e.wf(),
            e.connections() == Seq::<ConnectionView>::empty(),
            e.sync_history() == Seq::<SyncEvent>::empty(),
    {
        let e = IntegrationEngine { connections: Vec::new(), sync_history: Vec::new(), max_sync_history: MAX_SYNC_HISTORY };
        assert(e.connections() =~= Seq::<ConnectionView>::empty());
        e
    }

    fn find(&self, id: &str) -> (r: usize)
        ensures
            r <= self.connections@.len(),
            first_index(self.connections(), connection_id_is(id@))
                == (if r == self.connections@.len() { -1 } else { r as int }),
            r < self.connections@.len() ==> self.connections()[r as int].connection_id@ == id@,
    {
        let ghost s = self.connections();
        let mut i: usize = 0;
        while i < self.connections.len()
            invariant
                s == connection_views(self.connections@),
                i <= self.connections@.len(),
                forall|k: int| 0 <= k < i ==> !(#[trigger] connection_id_is(id@)(s[k])),
            decreases self.connections@.len() - i,
        {
            if str_eq(self.connections[i].connection_id.as_str(), id) {
                proof { lemma_first_index(s, connection_id_is(id@), i as int); }
                return i;
            }
            i = i + 1;
        }
        proof { lemma_first_index(s, connection_id_is(id@), i as int); }
        i
    }

    fn not_found(id: &str) -> (m: String)
        ensures
            m@ == not_found_message(id@),
    {
        let mut m = String::from_str("Connection '");
        m.append(id);
        m.append("' not found");
        m
    }

    fn replace_at(&mut self, i: usize, c: PlatformConnection)
        requires
            i < old(self).connections@.len(),
            old(self).wf(),
            c.connection_id@ == old(self).connections()[i as int].connection_id@,
        ensures
            final(self).wf(),
            final(self).connections() == old(self).connections().update(i as int, c@),
            final(self).sync_history() == old(self).sync_history(),
    {
        self.connections.set(i, c);
        proof {
            let s = old(self).connections();
            assert(self.connections() =~= s.update(i as int, c@));
            assert forall|a: int, b: int| 0 <= a < b < self.connections().len()
                implies self.connections()[a].connection_id@ != self.connections()[b].connection_id@ by {
                assert(s[a].connection_id@ != s[b].connection_id@);
            }
        }
    }

    /// Registers an integration under the given id.
    pub fn register_platform_at(
        &mut self,
        id: String,
        platform: IntegrationPlatform,
        endpoint: &str,
        auth_method: AuthMethod,
        config: PlatformConfig,
    ) -> (c: PlatformConnection)
        requires
            old(self).wf(),
        ensures
            final(self).wf(),
            is_new_connection(c@, id@, platform, endpoint@, auth_method, config@),
            final(self).connections() == upsert_connection(old(self).connections(), c@),
            final(self).sync_history() == old(self).sync_history(),
    {
        let capabilities = default_capabilities(&platform);
        let connection = PlatformConnection {
            connection_id: id,
            platform,
            status: ConnectionStatus::Disconnected,
            endpoint: String::from_str(endpoint),
            auth_method,
            connected_at: None,
            last_sync: None,
            last_error: None,
            config,
            capabilities,
            health_score: Ratio { numerator: 100, denominator: 1 },
        };
        let i = self.find(connection.connection_id.as_str());
        if i < self.connections.len() {
            self.replace_at(i, connection.duplicate());
        } else {
            let ghost s = self.connections();
            self.connections.push(connection.duplicate());
            proof {
                assert(self.connections() =~= s.push(connection@));
                assert forall|a: int, b: int| 0 <= a < b < self.connections().len()
                    implies self.connections()[a].connection_id@ != self.connections()[b].connection_id@ by {
                    if b == s.len() {
                        assert(!connection_id_is(connection.connection_id@)(s[a])) by {
                            if connection_id_is(connection.connection_id@)(s[a]) {
                                let fi = first_index(s, connection_id_is(connection.connection_id@));
                                lemma_first_index_found(s, connection_id_is(connection.connection_id@), a);
                            }
                        }
                    }
                }
            }
        }
        connection
    }

    /// Registers a new platform integration under a fresh id.
    pub fn register_platform(
        &mut self,
        platform: IntegrationPlatform,
        endpoint: &str,
        auth_method: AuthMethod,
        config: PlatformConfig,
    ) -> (c: PlatformConnection)
        requires
            old(self).wf(),
        ensures
            final(self).wf(),
            is_new_connection(c@, c.connection_id@, platform, endpoint@, auth_method, config@),
            uuid_v4_text(c.connection_id@),
            final(self).connections() == upsert_connection(old(self).connections(), c@),
            final(self).sync_history() == old(self).sync_history(),
    {
        let id = new_id();
        self.register_platform_at(id, platform, endpoint, auth_method, config)
    }

    /// Connects the integration with this id at `now`.
    pub fn connect_at(&mut self, connection_id: &str, now: i64) -> (r: Result<PlatformConnection, String>)
        requires
            old(self).wf(),
        ensures
            final(self).wf(),
            final(self).sync_history() == old(self).sync_history(),
            ({
                let i = first_index(old(self).connections(), connection_id_is(connection_id@));
                match r {
                    Ok(c) => {
                        &&& i >= 0
                        &&& c@ == (ConnectionView {
                            status: ConnectionStatus::Connected,
                            connected_at: Some(now),
                            last_error: None,
                            ..old(self).connections()[i]
                        })
                        &&& final(self).connections() == old(self).connections().update(i, c@)
                    },
                    Err(m) => {
                        &&& i < 0
                        &&& m@ == not_found_message(connection_id@)
                        &&& final(self).connections() == old(self).connections()
                    },
                }
            }),
    {
        let i = self.find(connection_id);
        if i == self.connections.len() {
            return Err(Self::not_found(connection_id));
        }
        let mut c = self.connections[i].duplicate();
        c.status = ConnectionStatus::Authenticating;
        c.status = ConnectionStatus::Connected;
        c.connected_at = Some(now);
        c.last_error = None;
        self.replace_at(i, c.duplicate());
        Ok(c)
    }

    /// Connects to a registered platform now.
    pub fn connect(&mut self, connection_id: &str) -> (r: Result<PlatformConnection, String>)
        requires
            old(self).wf(),
        ensures
            final(self).wf(),
            final(self).sync_history() == old(self).sync_history(),
            ({
                let i = first_index(old(self).connections(), connection_id_is(connection_id@));
                match r {
                    Ok(c) => {
                        &&& i >= 0
                        &&& c.connected_at is Some
                        &&& c@ == (ConnectionView {
                            status: ConnectionStatus::Connected,
                            connected_at: c.connected_at,
                            last_error: None,
                            ..old(self).connections()[i]
                        })
                        &&& final(self).connections() == old(self).connections().update(i, c@)
                    },
                    Err(m) => {
                        &&& i < 0
                        &&& m@ == not_found_message(connection_id@)
                        &&& final(self).connections() == old(self).connections()
                    },
                }
            }),
    {
        let now = now_millis();
        self.connect_at(connection_id, now)
    }

    /// Disconnects from a platform.
    pub fn disconnect(&mut self, connection_id: &str) -> (r: Result<PlatformConnection, String>)
        requires
            old(self).wf(),
        ensures
            final(self).wf(),
            final(self).sync_history() == old(self).sync_history(),
            ({
                let i = first_index(old(self).connections(), connection_id_is(connection_id@));
                match r {
                    Ok(c) => {
                        &&& i >= 0
                        &&& c@ == (ConnectionView { status: ConnectionStatus::Disconnected, ..old(self).connections()[i] })
                        &&& final(self).connections() == old(self).connections().update(i, c@)
                    },
                    Err(m) => {
                        &&& i < 0
                        &&& m@ == not_found_message(connection_id@)
                        &&& final(self).connections() == old(self).connections()
                    },
                }
            }),
    {
        let i = self.find(connection_id);
        if i == self.connections.len() {
            return Err(Self::not_found(connection_id));
        }
        let mut c = self.connections[i].duplicate();
        c.status = ConnectionStatus::Disconnected;
        self.replace_at(i, c.duplicate());
        Ok(c)
    }
}

impl IntegrationEngine {
    /// Syncs the connected integration with this id: the event is stamped
    /// `at` and measured at `duration_ms`, the connection synced at `synced_at`.
    pub fn sync_platform_at(
        &mut self,
        connection_id: &str,
        event_type: SyncEventType,
        event_id: String,
        at: i64,
        duration_ms: u64,
        synced_at: i64,
    ) -> (r: Result<SyncEvent, String>)
        requires
            old(self).wf(),
        ensures
            final(self).wf(),
            ({
                let i = first_index(old(self).connections(), connection_id_is(connection_id@));
                let c = old(self).connections()[i];
                match r {
                    Ok(e) => {
                        &&& i >= 0
                        &&& c.status == ConnectionStatus::Connected
                        &&& is_sync_event(e, event_id@, at, c.platform, event_type, duration_ms)
                        &&& final(self).connections() == old(self).connections().update(i,
                            ConnectionView { status: ConnectionStatus::Connected, last_sync: Some(synced_at), ..c })
                        &&& final(self).sync_history() == bounded_push(old(self).sync_history(), e, MAX_SYNC_HISTORY as nat)
                    },
                    Err(m) => {
                        &&& final(self).connections() == old(self).connections()
                        &&& final(self).sync_history() == old(self).sync_history()
                        &&& if i < 0 {
                            m@ == not_found_message(connection_id@)
                        } else {
                            c.status != ConnectionStatus::Connected && m@ == not_connected_message(c)
                        }
                    },
                }
            }),
    {
        let i = self.find(connection_id);
        if i == self.connections.len() {
            return Err(Self::not_found(connection_id));
        }
        let mut c = self.connections[i].duplicate();
        if c.status != ConnectionStatus::Connected {
            let mut m = String::from_str("Platform '");
            m.append(c.platform.display_name());
            m.append("' is not connected (status: ");
            m.append(c.status.debug_name());
            m.append(")");
            return Err(m);
        }
        c.status = ConnectionStatus::Syncing;
        let mut summary = String::from_str("Sync with ");
        summary.append(c.platform.display_name());
        let event = SyncEvent {
            id: event_id,
            timestamp: at,
            platform: c.platform,
            event_type,
            payload_summary: summary,
            duration_ms,
            success: true,
            error: None,
            items_synced: 0,
        };
        c.status = ConnectionStatus::Connected;
        c.last_sync = Some(synced_at);
        self.replace_at(i, c);
        let kept = event.duplicate();
        proof { lemma_bounded_push_len(self.sync_history@, kept, MAX_SYNC_HISTORY as nat); }
        push_bounded(&mut self.sync_history, kept, self.max_sync_history);
        Ok(event)
    }

    /// Triggers a sync with a specific platform now.
    pub fn sync_platform(&mut self, connection_id: &str, event_type: SyncEventType) -> (r: Result<SyncEvent, String>)
        requires
            old(self).wf(),
        ensures
            final(self).wf(),
            ({
                let i = first_index(old(self).connections(), connection_id_is(connection_id@));
                let c = old(self).connections()[i];
                match r {
                    Ok(e) => {
                        &&& i >= 0
                        &&& c.status == ConnectionStatus::Connected
                        &&& is_sync_event(e, e.id@, e.timestamp, c.platform, event_type, e.duration_ms)
                        &&& uuid_v4_text(e.id@)
                        &&& exists|synced_at: i64| final(self).connections() == old(self).connections().update(i,
                            ConnectionView { status: ConnectionStatus::Connected, last_sync: Some(synced_at), ..c })
                        &&& final(self).sync_history() == bounded_push(old(self).sync_history(), e, MAX_SYNC_HISTORY as nat)
                    },
                    Err(m) => {
                        &&& final(self).connections() == old(self).connections()
                        &&& final(self).sync_history() == old(self).sync_history()
                        &&& if i < 0 {
                            m@ == not_found_message(connection_id@)
                        } else {
                            c.status != ConnectionStatus::Connected && m@ == not_connected_message(c)
                        }
                    },
                }
            }),
    {
        let timer = start_timer();
        let event_id = new_id();
        let at = now_millis();
        let duration_ms = elapsed_millis(&timer);
        let synced_at = now_millis();
        self.sync_platform_at(connection_id, event_type, event_id, at, duration_ms, synced_at)
    }

    /// All registered platform connections.
    pub fn list_connections(&self) -> (r: Vec<PlatformConnection>)
        ensures
            connection_views(r@) == self.connections(),
    {
        let mut r: Vec<PlatformConnection> = Vec::new();
        let mut i: usize = 0;
        while i < self.connections.len()
            invariant
                i <= self.connections@.len(),
                connection_views(r@) == connection_views(self.connections@.subrange(0, i as int)),
            decreases self.connections@.len() - i,
        {
            let ghost before = r@;
            r.push(self.connections[i].duplicate());
            proof {
                let s = self.connections@;
                assert(s.subrange(0, i + 1) =~= s.subrange(0, i as int).push(s[i as int]));
                assert(connection_views(r@) =~= connection_views(before).push(s[i as int]@));
                assert(connection_views(s.subrange(0, i + 1))
                    =~= connection_views(s.subrange(0, i as int)).push(s[i as int]@));
            }
            i = i + 1;
        }
        assert(self.connections@.subrange(0, self.connections@.len() as int) =~= self.connections@);
        r
    }

    /// The connections whose platform is in `category`.
    pub fn get_by_category(&self, category: PlatformCategory) -> (r: Vec<PlatformConnection>)
        ensures
            connection_views(r@) == keep(self.connections(), |c: ConnectionView| c.platform.spec_category() == category),
    {
        let ghost f = |c: ConnectionView| c.platform.spec_category() == category;
        let ghost s = self.connections();
        let mut r: Vec<PlatformConnection> = Vec::new();
        let mut i: usize = 0;
        while i < self.connections.len()
            invariant
                s == connection_views(self.connections@),
                f == (|c: ConnectionView| c.platform.spec_category() == category),
                i <= self.connections@.len(),
                connection_views(r@) == keep(s.subrange(0, i as int), f),
            decreases self.connections@.len() - i,
        {
            proof { lemma_keep_step(s, f, i as int); }
            if self.connections[i].platform.category() == category {
                let ghost before = r@;
                r.push(self.connections[i].duplicate());
                assert(connection_views(r@) =~= connection_views(before).push(s[i as int]));
            }
            i = i + 1;
        }
        assert(s.subrange(0, s.len() as int) =~= s);
        r
    }

    /// The most recent `limit` sync events, of one platform or of all,
    /// newest first.
    pub fn get_sync_history(&self, platform: Option<IntegrationPlatform>, limit: usize) -> (r: Vec<SyncEvent>)
        ensures
            r@ == latest(keep(self.sync_history(), event_filter(platform)), limit as nat),
    {
        let ghost f = event_filter(platform);
        let mut matching: Vec<SyncEvent> = Vec::new();
        let mut i: usize = 0;
        while i < self.sync_history.len()
            invariant
                f == event_filter(platform),
                i <= self.sync_history@.len(),
                matching@ == keep(self.sync_history@.subrange(0, i as int), f),
            decreases self.sync_history@.len() - i,
        {
            proof { lemma_keep_step(self.sync_history@, f, i as int); }
            let hit = match platform {
                Some(p) => self.sync_history[i].platform == p,
                None => true,
            };
            if hit {
                matching.push(self.sync_history[i].duplicate());
            }
            i = i + 1;
        }
        assert(self.sync_history@.subrange(0, self.sync_history@.len() as int) =~= self.sync_history@);
        latest_first(&matching, limit)
    }

    /// Recomputes the health of the connection with this id from its
    /// platform's recent sync results.
    pub fn update_health(&mut self, connection_id: &str) -> (r: Option<Ratio>)
        requires
            old(self).wf(),
        ensures
            final(self).wf(),
            final(self).sync_history() == old(self).sync_history(),
            ({
                let i = first_index(old(self).connections(), connection_id_is(connection_id@));
                let c = old(self).connections()[i];
                match r {
                    Some(h) => {
                        &&& i >= 0
                        &&& h == health_of(old(self).sync_history(), c.platform)
                        &&& final(self).connections() == old(self).connections().update(i,
                            ConnectionView { health_score: h, ..c })
                    },
                    None => {
                        &&& i < 0
                        &&& final(self).connections() == old(self).connections()
                    },
                }
            }),
    {
        let i = self.find(connection_id);
        if i == self.connections.len() {
            return None;
        }
        let platform = self.connections[i].platform;
        let ghost f = event_filter(Some(platform));
        let mut matching: Vec<SyncEvent> = Vec::new();
        let mut j: usize = 0;
        while j < self.sync_history.len()
            invariant
                f == event_filter(Some(platform)),
                j <= self.sync_history@.len(),
                matching@ == keep(self.sync_history@.subrange(0, j as int), f),
            decreases self.sync_history@.len() - j,
        {
            proof { lemma_keep_step(self.sync_history@, f, j as int); }
            if self.sync_history[j].platform == platform {
                matching.push(self.sync_history[j].duplicate());
            }
            j = j + 1;
        }
        assert(self.sync_history@.subrange(0, self.sync_history@.len() as int) =~= self.sync_history@);
        let recent = latest_first(&matching, 10);
        let health: Ratio = if recent.len() == 0 {
            Ratio { numerator: 100, denominator: 1 }
        } else {
            let ghost g = event_succeeded();
            let mut ok: usize = 0;
            let mut k: usize = 0;
            while k < recent.len()
                invariant
                    g == event_succeeded(),
                    k <= recent@.len(),
                    recent@.len() <= 10,
                    ok <= k,
                    ok == keep(recent@.subrange(0, k as int), g).len(),
                decreases recent@.len() - k,
            {
                proof { lemma_keep_step(recent@, g, k as int); }
                if recent[k].success {
                    ok = ok + 1;
                }
                k = k + 1;
            }
            assert(recent@.subrange(0, recent@.len() as int) =~= recent@);
            Ratio { numerator: 100 * (ok as u128), denominator: recent.len() as u128 }
        };
        let mut c = self.connections[i].duplicate();
        c.health_score = health;
        self.replace_at(i, c);
        Some(health)
    }

    /// Removes the integration with this id; whether one was removed.
    pub fn remove_platform(&mut self, connection_id: &str) -> (removed: bool)
        requires
            old(self).wf(),
        ensures
            final(self).wf(),
            final(self).sync_history() == old(self).sync_history(),
            ({
                let i = first_index(old(self).connections(), connection_id_is(connection_id@));
                &&& removed == (i >= 0)
                &&& final(self).connections() == (if i >= 0 { old(self).connections().remove(i) } else { old(self).connections() })
            }),
    {
        let i = self.find(connection_id);
        if i == self.connections.len() {
            return false;
        }
        let ghost s = self.connections();
        self.connections.remove(i);
        proof {
            assert(self.connections() =~= s.remove(i as int));
            assert forall|a: int, b: int| 0 <= a < b < self.connections().len()
                implies self.connections()[a].connection_id@ != self.connections()[b].connection_id@ by {
                let a0 = if a < i { a } else { a + 1 };
                let b0 = if b < i { b } else { b + 1 };
                assert(self.connections()[a] == s[a0]);
                assert(self.connections()[b] == s[b0]);
            }
        }
        true
    }
}

impl Default for IntegrationEngine {
    fn default() -> (e: Self)
        ensures
            e.wf(),
            e.connections() == Seq::<ConnectionView>::empty(),
            e.sync_history() == Seq::<SyncEvent>::empty(),
    {
        Self::new()
    }
}

} // verus!
