//! The canonical status model.  Every source, whatever its native
//! representation, is normalized into a `StatusPageSummary`.  The enums carry
//! closed vocabularies; every unrecognized wire string maps to `Unknown`
//! rather than failing.

use vstd::prelude::*;
use crate::text::str_eq;

verus! {

/// One full snapshot of a source's status page.
#[derive(Debug, Clone)]
pub struct StatusPageSummary {
    pub page: Page,
    pub components: Vec<Component>,
    pub incidents: Vec<Incident>,
    pub scheduled_maintenances: Vec<ScheduledMaintenance>,
    pub status: OverallStatus,
}

/// Identity and freshness of the page the snapshot came from.
#[derive(Debug, Clone)]
pub struct Page {
    pub id: String,
    pub name: String,
    pub url: String,
    pub updated_at: String,
    pub time_zone: Option<String>,
}

/// One monitored component of a source, in display order.
#[derive(Debug, Clone)]
pub struct Component {
    pub id: String,
    pub name: String,
    pub status: ComponentStatus,
    pub created_at: String,
    pub updated_at: String,
    pub position: u32,
    pub description: Option<String>,
    pub group_id: Option<String>,
    pub group: Option<bool>,
    pub only_show_if_degraded: bool,
}

/// A lifecycle record of one incident, with its ordered updates.
#[derive(Debug, Clone)]
pub struct Incident {
    pub id: String,
    pub name: String,
    pub status: IncidentStatus,
    pub created_at: String,
    pub updated_at: String,
    pub monitoring_at: Option<String>,
    pub resolved_at: Option<String>,
    pub impact: IncidentImpact,
    pub shortlink: Option<String>,
    pub page_id: Option<String>,
    pub incident_updates: Vec<IncidentUpdate>,
    pub scheduled_for: Option<String>,
    pub scheduled_until: Option<String>,
    pub automated: Option<bool>,
}

/// A lifecycle record of one scheduled maintenance window.
#[derive(Debug, Clone)]
pub struct ScheduledMaintenance {
    pub id: String,
    pub name: String,
    pub status: MaintenanceStatus,
    pub created_at: String,
    pub updated_at: String,
    pub monitoring_at: Option<String>,
    pub resolved_at: Option<String>,
    pub shortlink: Option<String>,
    pub incident_updates: Vec<IncidentUpdate>,
    pub scheduled_for: Option<String>,
    pub scheduled_until: Option<String>,
    pub automated: Option<bool>,
}

/// One timestamped update entry of an incident or maintenance record.
#[derive(Debug, Clone)]
pub struct IncidentUpdate {
    pub id: String,
    pub status: IncidentUpdateStatus,
    pub body: String,
    pub display_at: Option<String>,
    pub incident_id: Option<String>,
    pub affected_components: Option<Vec<AffectedComponent>>,
    pub delights_resolved: Option<bool>,
}

/// An affected-component annotation of an update entry: the key/value pairs
/// of one wire object, in wire order.
#[derive(Debug, Clone)]
pub struct AffectedComponent {
    pub entries: Vec<(String, String)>,
}

/// The page-wide indicator together with its human-readable description.
#[derive(Debug, Clone)]
pub struct OverallStatus {
    pub indicator: StatusIndicator,
    pub description: String,
}

/// Per-component operational state.
#[derive(Debug, Clone, Copy, PartialEq, Eq, Structural)]
pub enum ComponentStatus {
    Operational,
    UnderMaintenance,
    DegradedPerformance,
    PartialOutage,
    MajorOutage,
    Unknown,
}

/// Lifecycle state of an incident.
#[derive(Debug, Clone, Copy, PartialEq, Eq, Structural)]
pub enum IncidentStatus {
    Investigating,
    Identified,
    Monitoring,
    Resolved,
    Unknown,
}

/// Lifecycle state of a scheduled maintenance window.
#[derive(Debug, Clone, Copy, PartialEq, Eq, Structural)]
pub enum MaintenanceStatus {
    Scheduled,
    InProgress,
    Completed,
    Unknown,
}

/// Severity of one incident.
#[derive(Debug, Clone, Copy, PartialEq, Eq, Structural)]
pub enum IncidentImpact {
    NoImpact,
    Minor,
    Major,
    Critical,
    Unknown,
}

/// Lifecycle state of one update entry.
#[derive(Debug, Clone, Copy, PartialEq, Eq, Structural)]
pub enum IncidentUpdateStatus {
    Investigating,
    Identified,
    Monitoring,
    Resolved,
    Unknown,
}

/// Page-wide severity indicator, from no impact up to critical, plus a
/// maintenance flag and an unknown fallback.
#[derive(Debug, Clone, Copy, PartialEq, Eq, Structural)]
pub enum StatusIndicator {
    NoImpact,
    Minor,
    Major,
    Critical,
    Maintenance,
    Unknown,
}

impl ComponentStatus {
    /// The component status a wire string denotes; every string outside the
    /// closed vocabulary denotes `Unknown`.
    pub open spec fn spec_from_wire(s: Seq<char>) -> ComponentStatus {
        if s == "operational"@ {
            ComponentStatus::Operational
        } else if s == "under_maintenance"@ {
            ComponentStatus::UnderMaintenance
        } else if s == "degraded_performance"@ {
            ComponentStatus::DegradedPerformance
        } else if s == "partial_outage"@ {
            ComponentStatus::PartialOutage
        } else if s == "major_outage"@ {
            ComponentStatus::MajorOutage
        } else {
            ComponentStatus::Unknown
        }
    }

    /// Normalizes a wire string into the closed component vocabulary.
    pub fn from_wire(s: &str) -> (r: ComponentStatus)
        ensures
            r == Self::spec_from_wire(s@),
    {
        if str_eq(s, "operational") {
            ComponentStatus::Operational
        } else if str_eq(s, "under_maintenance") {
            ComponentStatus::UnderMaintenance
        } else if str_eq(s, "degraded_performance") {
            ComponentStatus::DegradedPerformance
        } else if str_eq(s, "partial_outage") {
            ComponentStatus::PartialOutage
        } else if str_eq(s, "major_outage") {
            ComponentStatus::MajorOutage
        } else {
            ComponentStatus::Unknown
        }
    }
}

impl ComponentStatus {
    /// The wire string this status serializes to.
    pub open spec fn spec_wire(self) -> Seq<char> {
        match self {
            ComponentStatus::Operational => "operational"@,
            ComponentStatus::UnderMaintenance => "under_maintenance"@,
            ComponentStatus::DegradedPerformance => "degraded_performance"@,
            ComponentStatus::PartialOutage => "partial_outage"@,
            ComponentStatus::MajorOutage => "major_outage"@,
            ComponentStatus::Unknown => "unknown"@,
        }
    }

    /// Renders this status as its wire string.
    pub fn wire_str(self) -> (r: &'static str)
        ensures
            r@ == self.spec_wire(),
    {
        match self {
            ComponentStatus::Operational => "operational",
            ComponentStatus::UnderMaintenance => "under_maintenance",
            ComponentStatus::DegradedPerformance => "degraded_performance",
            ComponentStatus::PartialOutage => "partial_outage",
            ComponentStatus::MajorOutage => "major_outage",
            ComponentStatus::Unknown => "unknown",
        }
    }
}

impl IncidentStatus {
    /// The incident status a wire string denotes.
    pub open spec fn spec_from_wire(s: Seq<char>) -> IncidentStatus {
        if s == "investigating"@ {
            IncidentStatus::Investigating
        } else if s == "identified"@ {
            IncidentStatus::Identified
        } else if s == "monitoring"@ {
            IncidentStatus::Monitoring
        } else if s == "resolved"@ {
            IncidentStatus::Resolved
        } else {
            IncidentStatus::Unknown
        }
    }

    /// Normalizes a wire string into the closed incident vocabulary.
    pub fn from_wire(s: &str) -> (r: IncidentStatus)
        ensures
            r == Self::spec_from_wire(s@),
    {
        if str_eq(s, "investigating") {
            IncidentStatus::Investigating
        } else if str_eq(s, "identified") {
            IncidentStatus::Identified
        } else if str_eq(s, "monitoring") {
            IncidentStatus::Monitoring
        } else if str_eq(s, "resolved") {
            IncidentStatus::Resolved
        } else {
            IncidentStatus::Unknown
        }
    }
}

impl IncidentStatus {
    /// The wire string this status serializes to.
    pub open spec fn spec_wire(self) -> Seq<char> {
        match self {
            IncidentStatus::Investigating => "investigating"@,
            IncidentStatus::Identified => "identified"@,
            IncidentStatus::Monitoring => "monitoring"@,
            IncidentStatus::Resolved => "resolved"@,
            IncidentStatus::Unknown => "unknown"@,
        }
    }

    /// Renders this status as its wire string.
    pub fn wire_str(self) -> (r: &'static str)
        ensures
            r@ == self.spec_wire(),
    {
        match self {
            IncidentStatus::Investigating => "investigating",
            IncidentStatus::Identified => "identified",
            IncidentStatus::Monitoring => "monitoring",
            IncidentStatus::Resolved => "resolved",
            IncidentStatus::Unknown => "unknown",
        }
    }
}

impl MaintenanceStatus {
    /// The maintenance status a wire string denotes.
    pub open spec fn spec_from_wire(s: Seq<char>) -> MaintenanceStatus {
        if s == "scheduled"@ {
            MaintenanceStatus::Scheduled
        } else if s == "in_progress"@ {
            MaintenanceStatus::InProgress
        } else if s == "completed"@ {
            MaintenanceStatus::Completed
        } else {
            MaintenanceStatus::Unknown
        }
    }

    /// Normalizes a wire string into the closed maintenance vocabulary.
    pub fn from_wire(s: &str) -> (r: MaintenanceStatus)
        ensures
            r == Self::spec_from_wire(s@),
    {
        if str_eq(s, "scheduled") {
            MaintenanceStatus::Scheduled
        } else if str_eq(s, "in_progress") {
            MaintenanceStatus::InProgress
        } else if str_eq(s, "completed") {
            MaintenanceStatus::Completed
        } else {
            MaintenanceStatus::Unknown
        }
    }
}

impl MaintenanceStatus {
    /// The wire string this status serializes to.
    pub open spec fn spec_wire(self) -> Seq<char> {
        match self {
            MaintenanceStatus::Scheduled => "scheduled"@,
            MaintenanceStatus::InProgress => "in_progress"@,
            MaintenanceStatus::Completed => "completed"@,
            MaintenanceStatus::Unknown => "unknown"@,
        }
    }

    /// Renders this status as its wire string.
    pub fn wire_str(self) -> (r: &'static str)
        ensures
            r@ == self.spec_wire(),
    {
        match self {
            MaintenanceStatus::Scheduled => "scheduled",
            MaintenanceStatus::InProgress => "in_progress",
            MaintenanceStatus::Completed => "completed",
            MaintenanceStatus::Unknown => "unknown",
        }
    }
}

impl IncidentImpact {
    /// The incident impact a wire string denotes.
    pub open spec fn spec_from_wire(s: Seq<char>) -> IncidentImpact {
        if s == "none"@ {
            IncidentImpact::NoImpact
        } else if s == "minor"@ {
            IncidentImpact::Minor
        } else if s == "major"@ {
            IncidentImpact::Major
        } else if s == "critical"@ {
            IncidentImpact::Critical
        } else {
            IncidentImpact::Unknown
        }
    }

    /// Normalizes a wire string into the closed impact vocabulary.
    pub fn from_wire(s: &str) -> (r: IncidentImpact)
        ensures
            r == Self::spec_from_wire(s@),
    {
        if str_eq(s, "none") {
            IncidentImpact::NoImpact
        } else if str_eq(s, "minor") {
            IncidentImpact::Minor
        } else if str_eq(s, "major") {
            IncidentImpact::Major
        } else if str_eq(s, "critical") {
            IncidentImpact::Critical
        } else {
            IncidentImpact::Unknown
        }
    }
}

impl IncidentImpact {
    /// The wire string this impact serializes to.
    pub open spec fn spec_wire(self) -> Seq<char> {
        match self {
            IncidentImpact::NoImpact => "none"@,
            IncidentImpact::Minor => "minor"@,
            IncidentImpact::Major => "major"@,
            IncidentImpact::Critical => "critical"@,
            IncidentImpact::Unknown => "unknown"@,
        }
    }

    /// Renders this impact as its wire string.
    pub fn wire_str(self) -> (r: &'static str)
        ensures
            r@ == self.spec_wire(),
    {
        match self {
            IncidentImpact::NoImpact => "none",
            IncidentImpact::Minor => "minor",
            IncidentImpact::Major => "major",
            IncidentImpact::Critical => "critical",
            IncidentImpact::Unknown => "unknown",
        }
    }
}

impl IncidentUpdateStatus {
    /// The update status a wire string denotes.
    pub open spec fn spec_from_wire(s: Seq<char>) -> IncidentUpdateStatus {
        if s == "investigating"@ {
            IncidentUpdateStatus::Investigating
        } else if s == "identified"@ {
            IncidentUpdateStatus::Identified
        } else if s == "monitoring"@ {
            IncidentUpdateStatus::Monitoring
        } else if s == "resolved"@ {
            IncidentUpdateStatus::Resolved
        } else {
            IncidentUpdateStatus::Unknown
        }
    }

    /// Normalizes a wire string into the closed update vocabulary.
    pub fn from_wire(s: &str) -> (r: IncidentUpdateStatus)
        ensures
            r == Self::spec_from_wire(s@),
    {
        if str_eq(s, "investigating") {
            IncidentUpdateStatus::Investigating
        } else if str_eq(s, "identified") {
            IncidentUpdateStatus::Identified
        } else if str_eq(s, "monitoring") {
            IncidentUpdateStatus::Monitoring
        } else if str_eq(s, "resolved") {
            IncidentUpdateStatus::Resolved
        } else {
            IncidentUpdateStatus::Unknown
        }
    }
}

impl IncidentUpdateStatus {
    /// The wire string this status serializes to.
    pub open spec fn spec_wire(self) -> Seq<char> {
        match self {
            IncidentUpdateStatus::Investigating => "investigating"@,
            IncidentUpdateStatus::Identified => "identified"@,
            IncidentUpdateStatus::Monitoring => "monitoring"@,
            IncidentUpdateStatus::Resolved => "resolved"@,
            IncidentUpdateStatus::Unknown => "unknown"@,
        }
    }

    /// Renders this status as its wire string.
    pub fn wire_str(self) -> (r: &'static str)
        ensures
            r@ == self.spec_wire(),
    {
        match self {
            IncidentUpdateStatus::Investigating => "investigating",
            IncidentUpdateStatus::Identified => "identified",
            IncidentUpdateStatus::Monitoring => "monitoring",
            IncidentUpdateStatus::Resolved => "resolved",
            IncidentUpdateStatus::Unknown => "unknown",
        }
    }
}

impl StatusIndicator {
    /// The page-wide indicator a wire string denotes.
    pub open spec fn spec_from_wire(s: Seq<char>) -> StatusIndicator {
        if s == "none"@ {
            StatusIndicator::NoImpact
        } else if s == "minor"@ {
            StatusIndicator::Minor
        } else if s == "major"@ {
            StatusIndicator::Major
        } else if s == "critical"@ {
            StatusIndicator::Critical
        } else if s == "maintenance"@ {
            StatusIndicator::Maintenance
        } else {
            StatusIndicator::Unknown
        }
    }

    /// Normalizes a wire string into the closed indicator vocabulary.
    pub fn from_wire(s: &str) -> (r: StatusIndicator)
        ensures
            r == Self::spec_from_wire(s@),
    {
        if str_eq(s, "none") {
            StatusIndicator::NoImpact
        } else if str_eq(s, "minor") {
            StatusIndicator::Minor
        } else if str_eq(s, "major") {
            StatusIndicator::Major
        } else if str_eq(s, "critical") {
            StatusIndicator::Critical
        } else if str_eq(s, "maintenance") {
            StatusIndicator::Maintenance
        } else {
            StatusIndicator::Unknown
        }
    }

    /// The wire string this indicator serializes to.
    pub open spec fn spec_wire(self) -> Seq<char> {
        match self {
            StatusIndicator::NoImpact => "none"@,
            StatusIndicator::Minor => "minor"@,
            StatusIndicator::Major => "major"@,
            StatusIndicator::Critical => "critical"@,
            StatusIndicator::Maintenance => "maintenance"@,
            StatusIndicator::Unknown => "unknown"@,
        }
    }

    /// Renders this indicator as its wire string.
    pub fn wire_str(self) -> (r: &'static str)
        ensures
            r@ == self.spec_wire(),
    {
        match self {
            StatusIndicator::NoImpact => "none",
            StatusIndicator::Minor => "minor",
            StatusIndicator::Major => "major",
            StatusIndicator::Critical => "critical",
            StatusIndicator::Maintenance => "maintenance",
            StatusIndicator::Unknown => "unknown",
        }
    }
}

} // verus!
