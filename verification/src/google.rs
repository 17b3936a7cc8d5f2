//! The scraped-page source: Google AI Studio's status page exposes no
//! machine-readable API, so a remote browser session renders it and the
//! monitor extracts structured data from the DOM.  Everything decided here is
//! verified: the selector-fallback chains, the headline and per-day vocabulary
//! maps, the pairing of service names with their dashboards, the assembly of
//! the canonical snapshot, and the attempt/teardown state machine that the
//! unverified driver loop follows.

use vstd::prelude::*;
use crate::models::Component;
use crate::models::ComponentStatus;
use crate::models::OverallStatus;
use crate::models::Page;
use crate::models::StatusIndicator;
use crate::models::StatusPageSummary;
use crate::text::contains_seq;
use crate::text::dec_digits;
use crate::text::is_blank;
use crate::text::is_blank_str;
use crate::text::lower;
use crate::text::matches_phrase;
use crate::text::str_contains;
use crate::text::str_eq;
use crate::text::trimmed;
use crate::text::u64_to_string;
use vstd::string::StringExecFns;

verus! {

/// How often one poll cycle retries the whole navigate-and-extract sequence.
pub const SCRAPE_ATTEMPTS: u32 = 3;

/// Pause before a retry of the navigate-and-extract sequence.
pub const SCRAPE_RETRY_PAUSE_MS: u64 = 3000;

/// Settle delay after the page refresh that precedes a retry.
pub const SCRAPE_RETRY_SETTLE_MS: u64 = 2000;

/// How often the readiness of the document is polled before giving up.
pub const READY_POLLS: u32 = 10;

/// Delay between two readiness polls.
pub const READY_POLL_INTERVAL_MS: u64 = 500;

/// Settle delay after readiness, for client-side rendering to paint.
pub const READY_SETTLE_MS: u64 = 2000;

/// Upper bound on waiting for the page's root container to appear.
pub const MAX_WAIT_SECONDS: u64 = 45;

/// Native per-service state read off the page's day indicators.
#[derive(Debug, Clone, Copy, PartialEq, Eq, Structural)]
pub enum GoogleServiceStatus {
    Operational,
    Degraded,
    PartialOutage,
    MajorOutage,
    Unknown,
}

/// Native page-wide state read off the page's headline.
#[derive(Debug, Clone, Copy, PartialEq, Eq, Structural)]
pub enum GoogleOverallStatus {
    Operational,
    DegradedPerformance,
    PartialOutage,
    MajorOutage,
    Unknown,
}

impl GoogleServiceStatus {
    /// The per-component vocabulary map over one day-indicator class string.
    /// Severity tokens are tested from worst to mildest, then the page's
    /// operational marker; a class with none of them denotes `Unknown`.
    pub open spec fn spec_from_class(s: Seq<char>) -> GoogleServiceStatus {
        if contains_seq(s, "severity-major"@) {
            GoogleServiceStatus::MajorOutage
        } else if contains_seq(s, "severity-moderate"@) {
            GoogleServiceStatus::PartialOutage
        } else if contains_seq(s, "severity-minor"@) {
            GoogleServiceStatus::Degraded
        } else if contains_seq(s, "operational"@) {
            GoogleServiceStatus::Operational
        } else {
            GoogleServiceStatus::Unknown
        }
    }

    /// Maps one day-indicator class string into the native vocabulary.
    pub fn from_class(class_name: &str) -> (r: GoogleServiceStatus)
        ensures
            r == Self::spec_from_class(class_name@),
    {
        if str_contains(class_name, "severity-major") {
            GoogleServiceStatus::MajorOutage
        } else if str_contains(class_name, "severity-moderate") {
            GoogleServiceStatus::PartialOutage
        } else if str_contains(class_name, "severity-minor") {
            GoogleServiceStatus::Degraded
        } else if str_contains(class_name, "operational") {
            GoogleServiceStatus::Operational
        } else {
            GoogleServiceStatus::Unknown
        }
    }

    /// The canonical component status this native state stands for.
    pub open spec fn spec_to_component_status(self) -> ComponentStatus {
        match self {
            GoogleServiceStatus::Operational => ComponentStatus::Operational,
            GoogleServiceStatus::Degraded => ComponentStatus::DegradedPerformance,
            GoogleServiceStatus::PartialOutage => ComponentStatus::PartialOutage,
            GoogleServiceStatus::MajorOutage => ComponentStatus::MajorOutage,
            GoogleServiceStatus::Unknown => ComponentStatus::Unknown,
        }
    }

    /// Converts this native state into the canonical component vocabulary.
    pub fn to_component_status(self) -> (r: ComponentStatus)
        ensures
            r == self.spec_to_component_status(),
    {
        match self {
            GoogleServiceStatus::Operational => ComponentStatus::Operational,
            GoogleServiceStatus::Degraded => ComponentStatus::DegradedPerformance,
            GoogleServiceStatus::PartialOutage => ComponentStatus::PartialOutage,
            GoogleServiceStatus::MajorOutage => ComponentStatus::MajorOutage,
            GoogleServiceStatus::Unknown => ComponentStatus::Unknown,
        }
    }
}

impl GoogleOverallStatus {
    /// The overall-status vocabulary map: the headline, trimmed and compared
    /// case-insensitively, against four exact phrases; anything else denotes
    /// `Unknown`.
    pub open spec fn spec_from_status_text(s: Seq<char>) -> GoogleOverallStatus {
        let t = lower(trimmed(s));
        if t == lower("All Systems Operational"@) {
            GoogleOverallStatus::Operational
        } else if t == lower("Degraded Performance"@) {
            GoogleOverallStatus::DegradedPerformance
        } else if t == lower("Partial Outage"@) {
            GoogleOverallStatus::PartialOutage
        } else if t == lower("Major Outage"@) {
            GoogleOverallStatus::MajorOutage
        } else {
            GoogleOverallStatus::Unknown
        }
    }

    /// Maps one headline text into the native vocabulary.
    pub fn from_status_text(status_text: &str) -> (r: GoogleOverallStatus)
        ensures
            r == Self::spec_from_status_text(status_text@),
    {
        if matches_phrase(status_text, "All Systems Operational") {
            GoogleOverallStatus::Operational
        } else if matches_phrase(status_text, "Degraded Performance") {
            GoogleOverallStatus::DegradedPerformance
        } else if matches_phrase(status_text, "Partial Outage") {
            GoogleOverallStatus::PartialOutage
        } else if matches_phrase(status_text, "Major Outage") {
            GoogleOverallStatus::MajorOutage
        } else {
            GoogleOverallStatus::Unknown
        }
    }

    /// The canonical page-wide indicator this native state stands for.
    pub open spec fn spec_to_indicator(self) -> StatusIndicator {
        match self {
            GoogleOverallStatus::Operational => StatusIndicator::NoImpact,
            GoogleOverallStatus::DegradedPerformance => StatusIndicator::Minor,
            GoogleOverallStatus::PartialOutage => StatusIndicator::Minor,
            GoogleOverallStatus::MajorOutage => StatusIndicator::Major,
            GoogleOverallStatus::Unknown => StatusIndicator::Unknown,
        }
    }

    /// Converts this native state into the canonical indicator vocabulary.
    pub fn to_indicator(self) -> (r: StatusIndicator)
        ensures
            r == self.spec_to_indicator(),
    {
        match self {
            GoogleOverallStatus::Operational => StatusIndicator::NoImpact,
            GoogleOverallStatus::DegradedPerformance => StatusIndicator::Minor,
            GoogleOverallStatus::PartialOutage => StatusIndicator::Minor,
            GoogleOverallStatus::MajorOutage => StatusIndicator::Major,
            GoogleOverallStatus::Unknown => StatusIndicator::Unknown,
        }
    }

    /// The human-readable description of this native state.
    pub open spec fn spec_description(self) -> Seq<char> {
        match self {
            GoogleOverallStatus::Operational => "All Systems Operational"@,
            GoogleOverallStatus::DegradedPerformance => "Degraded Performance"@,
            GoogleOverallStatus::PartialOutage => "Partial Outage"@,
            GoogleOverallStatus::MajorOutage => "Major Outage"@,
            GoogleOverallStatus::Unknown => "Status Unknown"@,
        }
    }

    /// Renders the human-readable description of this native state.
    pub fn description_str(self) -> (r: &'static str)
        ensures
            r@ == self.spec_description(),
    {
        match self {
            GoogleOverallStatus::Operational => "All Systems Operational",
            GoogleOverallStatus::DegradedPerformance => "Degraded Performance",
            GoogleOverallStatus::PartialOutage => "Partial Outage",
            GoogleOverallStatus::MajorOutage => "Major Outage",
            GoogleOverallStatus::Unknown => "Status Unknown",
        }
    }
}

/// Law: the overall-status vocabulary map is total, and every headline that
/// matches none of the four known phrases — case-insensitively, after
/// trimming — maps to `Unknown`.
pub proof fn lemma_overall_vocabulary_total(s: Seq<char>)
    ensures
        GoogleOverallStatus::spec_from_status_text(s) == GoogleOverallStatus::Unknown <==> {
            let t = lower(trimmed(s));
            &&& t != lower("All Systems Operational"@)
            &&& t != lower("Degraded Performance"@)
            &&& t != lower("Partial Outage"@)
            &&& t != lower("Major Outage"@)
        },
{
}

/// One extracted service: its display name and its native status.
#[derive(Debug, Clone)]
pub struct GoogleServiceInfo {
    pub name: String,
    pub status: GoogleServiceStatus,
}

/// Everything the scrape extracts from one rendering of the page, before
/// normalization, with the poll timestamp in RFC 3339 form.
#[derive(Debug, Clone)]
pub struct GoogleAIStudioStatus {
    pub overall_status: GoogleOverallStatus,
    pub services: Vec<GoogleServiceInfo>,
    pub timestamp: String,
}

/// `c` is the canonical component built from service `k` of `g`: a synthetic
/// identifier carrying the index, the poll timestamp as both creation and
/// update time, and the status run through the canonical vocabulary.
pub open spec fn component_of_service(g: GoogleAIStudioStatus, k: int, c: Component) -> bool {
    &&& c.id@ == "google-service-"@ + dec_digits(k)
    &&& c.name == g.services@[k].name
    &&& c.status == g.services@[k].status.spec_to_component_status()
    &&& c.created_at == g.timestamp
    &&& c.updated_at == g.timestamp
    &&& c.position == k as u32
    &&& c.description is None
    &&& c.group_id is None
    &&& c.group == Option::Some(false)
    &&& c.only_show_if_degraded == false
}

impl GoogleAIStudioStatus {
    /// Normalizes the extraction into the canonical snapshot.  This source
    /// never exposes incidents or maintenance windows, so those sequences are
    /// empty; the components keep the extraction order as display order.
    pub fn into_status_page_summary(self) -> (r: StatusPageSummary)
        requires
            self.services@.len() <= u32::MAX,
        ensures
            r.page.id@ == "google-ai-studio"@,
            r.page.name@ == "Google AI Studio"@,
            r.page.url@ == "https://aistudio.google.com/status"@,
            r.page.updated_at == self.timestamp,
            r.page.time_zone matches Option::Some(tz) && tz@ == "UTC"@,
            r.components@.len() == self.services@.len(),
            forall|k: int|
                0 <= k < self.services@.len() ==> component_of_service(
                    self,
                    k,
                    #[trigger] r.components@[k],
                ),
            r.incidents@.len() == 0,
            r.scheduled_maintenances@.len() == 0,
            r.status.indicator == self.overall_status.spec_to_indicator(),
            r.status.description@ == self.overall_status.spec_description(),
    {
        let page = Page {
            id: String::from_str("google-ai-studio"),
            name: String::from_str("Google AI Studio"),
            url: String::from_str("https://aistudio.google.com/status"),
            updated_at: self.timestamp.clone(),
            time_zone: Option::Some(String::from_str("UTC")),
        };
        let mut components: Vec<Component> = Vec::new();
        let mut i: usize = 0;
        while i < self.services.len()
            invariant
                i <= self.services@.len(),
                self.services@.len() <= u32::MAX,
                components@.len() == i,
                forall|k: int|
                    0 <= k < i ==> component_of_service(self, k, #[trigger] components@[k]),
            decreases self.services@.len() - i,
        {
            let mut id = String::from_str("google-service-");
            let digits = u64_to_string(i as u64);
            id.append(digits.as_str());
            components.push(
                Component {
                    id,
                    name: self.services[i].name.clone(),
                    status: self.services[i].status.to_component_status(),
                    created_at: self.timestamp.clone(),
                    updated_at: self.timestamp.clone(),
                    position: i as u32,
                    description: Option::None,
                    group_id: Option::None,
                    group: Option::Some(false),
                    only_show_if_degraded: false,
                },
            );
            i = i + 1;
        }
        let description = self.overall_status.description_str();
        StatusPageSummary {
            page,
            components,
            incidents: Vec::new(),
            scheduled_maintenances: Vec::new(),
            status: OverallStatus {
                indicator: self.overall_status.to_indicator(),
                description: String::from_str(description),
            },
        }
    }
}

/// The first selector candidate from `i` on that yielded a usable (non-blank)
/// headline text; `None` when every remaining candidate missed or was blank.
pub open spec fn spec_first_usable(texts: Seq<Option<String>>, i: int) -> Option<String>
    decreases texts.len() - i when 0 <= i <= texts.len()
{
    if i < texts.len() {
        match texts[i] {
            Option::Some(t) => if !is_blank(t@) {
                Option::Some(t)
            } else {
                spec_first_usable(texts, i + 1)
            },
            Option::None => spec_first_usable(texts, i + 1),
        }
    } else {
        Option::None
    }
}

/// The native overall status a list of selector readings denotes: the first
/// usable headline decides; when the whole chain misses, `Unknown`.
pub open spec fn spec_overall_of_candidates(texts: Seq<Option<String>>) -> GoogleOverallStatus {
    match spec_first_usable(texts, 0) {
        Option::Some(t) => GoogleOverallStatus::spec_from_status_text(t@),
        Option::None => GoogleOverallStatus::Unknown,
    }
}

/// Picks the overall status from the ordered selector readings: `texts[k]` is
/// the text the `k`-th selector candidate yielded, `None` where it matched no
/// element.  First non-blank match wins; a whole-chain miss degrades to
/// `Unknown` instead of failing.
pub fn overall_from_candidates(texts: &Vec<Option<String>>) -> (r: GoogleOverallStatus)
    ensures
        r == spec_overall_of_candidates(texts@),
{
    let mut i: usize = 0;
    while i < texts.len()
        invariant
            i <= texts@.len(),
            spec_first_usable(texts@, 0) == spec_first_usable(texts@, i as int),
        decreases texts@.len() - i,
    {
        match &texts[i] {
            Option::Some(t) => {
                if !is_blank_str(t.as_str()) {
                    return GoogleOverallStatus::from_status_text(t.as_str());
                }
            },
            Option::None => {},
        }
        i = i + 1;
    }
    GoogleOverallStatus::Unknown
}

/// The native status of one service from its day-indicator readings, oldest
/// first: the last (most recent) indicator decides; a service with no
/// indicators, or whose last indicator has no class attribute, is `Unknown`.
pub open spec fn spec_latest_day_status(days: Seq<Option<String>>) -> GoogleServiceStatus {
    if days.len() == 0 {
        GoogleServiceStatus::Unknown
    } else {
        match days.last() {
            Option::Some(class_name) => GoogleServiceStatus::spec_from_class(class_name@),
            Option::None => GoogleServiceStatus::Unknown,
        }
    }
}

/// Picks one service's status from its day indicators: `days[k]` is the class
/// attribute of the `k`-th indicator, oldest first, `None` where the element
/// has no class attribute.
pub fn latest_day_status(days: &Vec<Option<String>>) -> (r: GoogleServiceStatus)
    ensures
        r == spec_latest_day_status(days@),
{
    if days.len() == 0 {
        return GoogleServiceStatus::Unknown;
    }
    match &days[days.len() - 1] {
        Option::Some(class_name) => GoogleServiceStatus::from_class(class_name.as_str()),
        Option::None => GoogleServiceStatus::Unknown,
    }
}

/// Law: a service's status is decided by its most recent day indicator alone;
/// two readings that agree on the last indicator agree on the status.
pub proof fn lemma_day_status_from_most_recent(a: Seq<Option<String>>, b: Seq<Option<String>>)
    requires
        a.len() > 0,
        b.len() > 0,
        a.last() == b.last(),
    ensures
        spec_latest_day_status(a) == spec_latest_day_status(b),
{
}

/// The smaller of two lengths.
pub open spec fn spec_min(a: int, b: int) -> int {
    if a <= b {
        a
    } else {
        b
    }
}

/// The services extracted from index `i` on: one entry per paired index below
/// the shorter of the two counts, in page order, skipping blank names.
pub open spec fn spec_services(
    names: Seq<String>,
    dashboards: Seq<Vec<Option<String>>>,
    i: int,
) -> Seq<GoogleServiceInfo>
    decreases spec_min(names.len() as int, dashboards.len() as int) - i when 0 <= i
{
    if i < spec_min(names.len() as int, dashboards.len() as int) {
        let rest = spec_services(names, dashboards, i + 1);
        if is_blank(names[i]@) {
            rest
        } else {
            seq![
                GoogleServiceInfo {
                    name: names[i],
                    status: spec_latest_day_status(dashboards[i]@),
                },
            ] + rest
        }
    } else {
        Seq::empty()
    }
}

/// Pairs the service-name readings with the status-dashboard readings:
/// `names[k]` is the text of the `k`-th service-name element and
/// `dashboards[k]` the day-indicator classes of the `k`-th dashboard.  When
/// the two counts differ, the shorter length is used and the surplus ignored
/// rather than failing; blank names are skipped.
pub fn services_from_page(
    names: &Vec<String>,
    dashboards: &Vec<Vec<Option<String>>>,
) -> (r: Vec<GoogleServiceInfo>)
    ensures
        r@ == spec_services(names@, dashboards@, 0),
{
    let bound = if names.len() <= dashboards.len() {
        names.len()
    } else {
        dashboards.len()
    };
    let mut out: Vec<GoogleServiceInfo> = Vec::new();
    let mut i: usize = 0;
    while i < bound
        invariant
            i <= bound,
            bound == spec_min(names@.len() as int, dashboards@.len() as int),
            spec_services(names@, dashboards@, 0) == out@ + spec_services(
                names@,
                dashboards@,
                i as int,
            ),
        decreases bound - i,
    {
        if !is_blank_str(names[i].as_str()) {
            let status = latest_day_status(&dashboards[i]);
            out.push(GoogleServiceInfo { name: names[i].clone(), status });
            assert(spec_services(names@, dashboards@, i as int) == seq![
                GoogleServiceInfo {
                    name: names@[i as int],
                    status: spec_latest_day_status(dashboards@[i as int]@),
                },
            ] + spec_services(names@, dashboards@, i as int + 1));
            assert(out@ + spec_services(names@, dashboards@, i as int + 1) =~= out@.drop_last()
                + spec_services(names@, dashboards@, i as int));
        }
        i = i + 1;
    }
    assert(out@ + spec_services(names@, dashboards@, bound as int) =~= out@);
    out
}

/// Law: when every service name is usable, the pairing yields exactly one
/// entry per index below the shorter of the two counts — a count mismatch
/// narrows the result, it never fails — and entry `k` pairs name `k` with
/// dashboard `k`.
pub proof fn lemma_pairing_uses_shorter_length(
    names: Seq<String>,
    dashboards: Seq<Vec<Option<String>>>,
    i: int,
)
    requires
        0 <= i <= spec_min(names.len() as int, dashboards.len() as int),
        forall|k: int| 0 <= k < names.len() ==> !is_blank((#[trigger] names[k])@),
    ensures
        spec_services(names, dashboards, i).len() == spec_min(
            names.len() as int,
            dashboards.len() as int,
        ) - i,
        forall|k: int|
            i <= k < spec_min(names.len() as int, dashboards.len() as int)
                ==> #[trigger] spec_services(names, dashboards, i)[k - i]
                == (GoogleServiceInfo {
                name: names[k],
                status: spec_latest_day_status(dashboards[k]@),
            }),
    decreases spec_min(names.len() as int, dashboards.len() as int) - i,
{
    let min = spec_min(names.len() as int, dashboards.len() as int);
    if i < min {
        lemma_pairing_uses_shorter_length(names, dashboards, i + 1);
        let e = GoogleServiceInfo {
            name: names[i],
            status: spec_latest_day_status(dashboards[i]@),
        };
        assert(!is_blank(names[i]@));
        let rest = spec_services(names, dashboards, i + 1);
        assert(spec_services(names, dashboards, i) == seq![e] + rest);
        assert forall|k: int|
            i <= k < min implies #[trigger] spec_services(names, dashboards, i)[k - i]
            == (GoogleServiceInfo {
            name: names[k],
            status: spec_latest_day_status(dashboards[k]@),
        }) by {
            if k == i {
                assert((seq![e] + rest)[0] == e);
            } else {
                assert((seq![e] + rest)[k - i] == rest[k - (i + 1)]);
            }
        }
    }
}

/// Builds the pre-normalization extraction from the raw page readings and the
/// poll timestamp.
pub fn extract_google_status(
    overall_texts: &Vec<Option<String>>,
    names: &Vec<String>,
    dashboards: &Vec<Vec<Option<String>>>,
    timestamp: String,
) -> (g: GoogleAIStudioStatus)
    ensures
        g.overall_status == spec_overall_of_candidates(overall_texts@),
        g.services@ == spec_services(names@, dashboards@, 0),
        g.timestamp == timestamp,
{
    let overall_status = overall_from_candidates(overall_texts);
    let services = services_from_page(names, dashboards);
    GoogleAIStudioStatus { overall_status, services, timestamp }
}

/// The page the scraped source is read from.
pub fn status_page_url() -> (r: &'static str)
    ensures
        r@ == "https://aistudio.google.com/status"@,
{
    "https://aistudio.google.com/status"
}

/// The local browser-automation endpoint that accepts session requests.
pub fn webdriver_url() -> (r: &'static str)
    ensures
        r@ == "http://localhost:9515"@,
{
    "http://localhost:9515"
}

/// The browser arguments of the scrape session: headless, a fixed viewport,
/// and a realistic user agent.
pub fn chrome_args() -> (r: Vec<&'static str>)
    ensures
        r@.len() == 8,
        r@[0]@ == "--headless=new"@,
        r@[1]@ == "--no-sandbox"@,
        r@[2]@ == "--disable-dev-shm-usage"@,
        r@[3]@ == "--disable-gpu"@,
        r@[4]@ == "--disable-web-security"@,
        r@[5]@ == "--disable-features=VizDisplayCompositor"@,
        r@[6]@ == "--window-size=1920,1080"@,
        r@[7]@
            == "--user-agent=Mozilla/5.0 (Windows NT 10.0; Win64; x64) AppleWebKit/537.36 (KHTML, like Gecko) Chrome/137.0.0.0 Safari/537.36"@,
{
    let mut v: Vec<&'static str> = Vec::new();
    v.push("--headless=new");
    v.push("--no-sandbox");
    v.push("--disable-dev-shm-usage");
    v.push("--disable-gpu");
    v.push("--disable-web-security");
    v.push("--disable-features=VizDisplayCompositor");
    v.push("--window-size=1920,1080");
    v.push(
        "--user-agent=Mozilla/5.0 (Windows NT 10.0; Win64; x64) AppleWebKit/537.36 (KHTML, like Gecko) Chrome/137.0.0.0 Safari/537.36",
    );
    v
}

/// The ordered selector candidates for the page's headline status text,
/// first-match-wins; the whole chain missing degrades to `Unknown` rather
/// than failing.
pub fn overall_status_selectors() -> (r: Vec<&'static str>)
    ensures
        r@.len() == 4,
        r@[0]@ == "div.status.status-large.operational span:not(.material-symbols-outlined)"@,
        r@[1]@ == "div.status.status-large span:not(.material-symbols-outlined)"@,
        r@[2]@ == ".status-page-container .status span"@,
        r@[3]@ == "[class*='status'] span"@,
{
    let mut v: Vec<&'static str> = Vec::new();
    v.push("div.status.status-large.operational span:not(.material-symbols-outlined)");
    v.push("div.status.status-large span:not(.material-symbols-outlined)");
    v.push(".status-page-container .status span");
    v.push("[class*='status'] span");
    v
}

/// The ordered selector candidates for the services container.
pub fn container_selectors() -> (r: Vec<&'static str>)
    ensures
        r@.len() == 3,
        r@[0]@ == "div.dashboards-container"@,
        r@[1]@ == ".dashboards-container"@,
        r@[2]@ == "[class*='dashboards']"@,
{
    let mut v: Vec<&'static str> = Vec::new();
    v.push("div.dashboards-container");
    v.push(".dashboards-container");
    v.push("[class*='dashboards']");
    v
}

/// The ordered selector candidates for the page's root status container; a
/// whole-chain miss is tolerated (degraded mode), since the root selector may
/// drift upstream.
pub fn page_container_selectors() -> (r: Vec<&'static str>)
    ensures
        r@.len() == 4,
        r@[0]@ == "div.status-page-container"@,
        r@[1]@ == ".status-page-container"@,
        r@[2]@ == "[class*='status-page']"@,
        r@[3]@ == "body > *"@,
{
    let mut v: Vec<&'static str> = Vec::new();
    v.push("div.status-page-container");
    v.push(".status-page-container");
    v.push("[class*='status-page']");
    v.push("body > *");
    v
}

/// The selector for the service-name elements within the container.
pub fn service_name_selector() -> (r: &'static str)
    ensures
        r@ == "div[data-testid='service-name']"@,
{
    "div[data-testid='service-name']"
}

/// The selector for the per-service status dashboards within the container.
pub fn dashboard_selector() -> (r: &'static str)
    ensures
        r@ == "ms-status-dashboard"@,
{
    "ms-status-dashboard"
}

/// The selector for the chronological day indicators within one dashboard.
pub fn timeline_day_selector() -> (r: &'static str)
    ensures
        r@ == "ms-status-dashboard-day .xap-inline-dialog.timeline-day"@,
{
    "ms-status-dashboard-day .xap-inline-dialog.timeline-day"
}

/// Where one poll cycle of the scraped source stands: still fetching, with a
/// count of finished attempts, or finished, the session torn down.
#[derive(Debug, Clone, Copy, PartialEq, Eq, Structural)]
pub enum ScrapeState {
    Active { attempts: u32 },
    Finished,
}

/// What one navigate-and-extract attempt reported back.
#[derive(Debug)]
pub enum ScrapeEvent {
    AttemptSucceeded(StatusPageSummary),
    AttemptFailed(String),
}

/// What the driver loop must do next.
#[derive(Debug)]
pub enum ScrapeAction {
    /// Pause, refresh the page, let it settle, then attempt again.
    RetryAfterDelay { pause_ms: u64, settle_ms: u64 },
    /// Tear the browser session down and report the result: the snapshot, or
    /// the last error message once every attempt is spent.
    CloseSession { result: Result<StatusPageSummary, String> },
}

/// The transition of the scrape machine: a success, or the failure of the
/// last allowed attempt, moves to `Finished` and orders the one session
/// teardown; an earlier failure orders a delayed retry; the finished state is
/// absorbing and orders nothing.
pub open spec fn spec_scrape_step(state: ScrapeState, event: ScrapeEvent) -> (
    ScrapeState,
    Option<ScrapeAction>,
) {
    match state {
        ScrapeState::Finished => (state, Option::None),
        ScrapeState::Active { attempts } => match event {
            ScrapeEvent::AttemptSucceeded(s) => (
                ScrapeState::Finished,
                Option::Some(ScrapeAction::CloseSession { result: Result::Ok(s) }),
            ),
            ScrapeEvent::AttemptFailed(msg) => if attempts + 1 < SCRAPE_ATTEMPTS {
                (
                    ScrapeState::Active { attempts: (attempts + 1) as u32 },
                    Option::Some(
                        ScrapeAction::RetryAfterDelay {
                            pause_ms: SCRAPE_RETRY_PAUSE_MS,
                            settle_ms: SCRAPE_RETRY_SETTLE_MS,
                        },
                    ),
                )
            } else {
                (
                    ScrapeState::Finished,
                    Option::Some(ScrapeAction::CloseSession { result: Result::Err(msg) }),
                )
            },
        },
    }
}

impl ScrapeState {
    /// The state of a fresh poll cycle: a new session, no attempt made.
    pub fn start() -> (r: ScrapeState)
        ensures
            r == (ScrapeState::Active { attempts: 0u32 }),
    {
        ScrapeState::Active { attempts: 0 }
    }

    /// Feeds one attempt outcome through the machine.
    pub fn step(self, event: ScrapeEvent) -> (r: (ScrapeState, Option<ScrapeAction>))
        ensures
            r == spec_scrape_step(self, event),
    {
        match self {
            ScrapeState::Finished => (self, Option::None),
            ScrapeState::Active { attempts } => match event {
                ScrapeEvent::AttemptSucceeded(s) => (
                    ScrapeState::Finished,
                    Option::Some(ScrapeAction::CloseSession { result: Result::Ok(s) }),
                ),
                ScrapeEvent::AttemptFailed(msg) => {
                    if attempts < SCRAPE_ATTEMPTS - 1 {
                        (
                            ScrapeState::Active { attempts: attempts + 1 },
                            Option::Some(
                                ScrapeAction::RetryAfterDelay {
                                    pause_ms: SCRAPE_RETRY_PAUSE_MS,
                                    settle_ms: SCRAPE_RETRY_SETTLE_MS,
                                },
                            ),
                        )
                    } else {
                        (
                            ScrapeState::Finished,
                            Option::Some(ScrapeAction::CloseSession { result: Result::Err(msg) }),
                        )
                    }
                },
            },
        }
    }
}

/// One when the action tears the session down, zero otherwise.
pub open spec fn close_weight(a: Option<ScrapeAction>) -> int {
    if a matches Option::Some(ScrapeAction::CloseSession { .. }) {
        1
    } else {
        0
    }
}

/// The state after feeding a whole event sequence through the machine.
pub open spec fn spec_run_state(state: ScrapeState, events: Seq<ScrapeEvent>) -> ScrapeState
    decreases events.len()
{
    if events.len() == 0 {
        state
    } else {
        spec_run_state(spec_scrape_step(state, events[0]).0, events.drop_first())
    }
}

/// How many teardown actions a whole event sequence orders.
pub open spec fn spec_close_count(state: ScrapeState, events: Seq<ScrapeEvent>) -> int
    decreases events.len()
{
    if events.len() == 0 {
        0
    } else {
        close_weight(spec_scrape_step(state, events[0]).1) + spec_close_count(
            spec_scrape_step(state, events[0]).0,
            events.drop_first(),
        )
    }
}

proof fn lemma_close_count_cases(state: ScrapeState, events: Seq<ScrapeEvent>)
    ensures
        state is Finished ==> spec_close_count(state, events) == 0 && spec_run_state(state, events)
            is Finished,
        state is Active ==> spec_close_count(state, events) == (
        if spec_run_state(state, events) is Finished {
            1int
        } else {
            0int
        }),
    decreases events.len(),
{
    if events.len() > 0 {
        lemma_close_count_cases(spec_scrape_step(state, events[0]).0, events.drop_first());
    }
}

/// Law: however a poll cycle of the scraped source unfolds — success on any
/// attempt, or failures up to the attempt budget, including an extraction
/// that fails after the session opened — the machine orders the session
/// teardown at most once, and exactly once on every cycle that reaches the
/// terminal state.
pub proof fn lemma_session_teardown_exactly_once(events: Seq<ScrapeEvent>)
    ensures
        spec_close_count(ScrapeState::Active { attempts: 0u32 }, events) <= 1,
        spec_close_count(ScrapeState::Active { attempts: 0u32 }, events) == 1 <==> spec_run_state(
            ScrapeState::Active { attempts: 0u32 },
            events,
        ) is Finished,
{
    lemma_close_count_cases(ScrapeState::Active { attempts: 0u32 }, events);
}

/// Decision after one readiness poll of the rendering document.
#[derive(Debug, Clone, Copy, PartialEq, Eq, Structural)]
pub enum ReadyDecision {
    /// The document reported `complete`; settle, then extract.
    Ready,
    /// Not complete yet; poll again after the given delay.
    PollAgain { delay_ms: u64 },
    /// The poll budget is spent; proceed anyway and rely on element-presence
    /// checks downstream.
    ProceedAnyway,
}

/// The readiness decision for a reported `document.readyState` text after
/// `polls_done` earlier polls.
pub open spec fn spec_ready_decision(state_text: Seq<char>, polls_done: u32) -> ReadyDecision {
    if state_text == "complete"@ {
        ReadyDecision::Ready
    } else if polls_done + 1 < READY_POLLS {
        ReadyDecision::PollAgain { delay_ms: READY_POLL_INTERVAL_MS }
    } else {
        ReadyDecision::ProceedAnyway
    }
}

/// Decides whether the document is ready: readiness is never a hard failure —
/// once the poll budget is spent the extraction proceeds anyway.
pub fn ready_decision(state_text: &str, polls_done: u32) -> (r: ReadyDecision)
    ensures
        r == spec_ready_decision(state_text@, polls_done),
{
    if str_eq(state_text, "complete") {
        ReadyDecision::Ready
    } else if polls_done < READY_POLLS - 1 {
        ReadyDecision::PollAgain { delay_ms: READY_POLL_INTERVAL_MS }
    } else {
        ReadyDecision::ProceedAnyway
    }
}

} // verus!
