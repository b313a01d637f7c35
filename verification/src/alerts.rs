//! Air-quality alert policy.
//!
//! This module decides when readings should become notifications. It knows
//! nothing about how a notification is delivered.
//!
//! A reading is judged by a rule (how bad is this CO2 value?) before it gets
//! here: the monitor receives one verdict per rule and applies the policy. A
//! rule has to report a problem on two evaluations in a row before it alerts;
//! a kind that alerted stays quiet for twenty minutes unless its severity gets
//! worse; and a device that fails to answer three fetches in a row is reported
//! as offline.
//!
//! Time is a count of nanoseconds on a monotonic clock, starting at the moment
//! the monitor was created.

use std::time::{Duration, Instant};

use vstd::prelude::*;

verus! {

/// Minimum number of whole seconds between two notifications of one kind,
/// unless the newer one is more severe.
pub const ALERT_COOLDOWN_SECS: u64 = 1200;

/// Bad verdicts in a row a rule needs before it alerts.
pub const ALERT_CONSECUTIVE_READINGS: u8 = 2;

/// Failed fetches in a row before the device is reported as offline.
///
/// A single miss is normal on a busy wifi network, so alerting on one would
/// make the notification meaningless.
pub const OFFLINE_AFTER_FAILURES: u8 = 3;

/// Nanoseconds in a second, the unit of the monitor's clock.
pub const NANOS_PER_SEC: u64 = 1_000_000_000;

/// Number of reading rules the monitor applies on every evaluation.
pub const RULE_COUNT: usize = 7;

/// Title of the offline notification.
pub const OFFLINE_TITLE: &'static str = "AirGradient device is unreachable";

/// Start of the offline notification's body; the last error follows it.
pub const OFFLINE_BODY_PREFIX: &'static str = "No fresh sensor data after repeated attempts. Last error: ";

/// Something the monitor can alert about.
#[derive(Debug, Clone, Copy, PartialEq, Eq, Structural)]
pub enum AlertKind {
    Co2,
    Aqi,
    Pm25,
    Tvoc,
    Nox,
    HumidityLow,
    HumidityHigh,
    DeviceOffline,
}

/// How urgent an alert is, from least to most.
#[derive(Debug, Clone, Copy, PartialEq, Eq, Structural)]
pub enum AlertSeverity {
    Notice,
    Warning,
    Critical,
}

impl AlertSeverity {
    /// Position of a severity on the scale, least urgent first.
    pub open spec fn spec_rank(self) -> nat {
        match self {
            AlertSeverity::Notice => 0,
            AlertSeverity::Warning => 1,
            AlertSeverity::Critical => 2,
        }
    }

    /// Whether this severity is more urgent than `other`.
    pub fn is_worse_than(self, other: AlertSeverity) -> (worse: bool)
        ensures
            worse == (self.spec_rank() > other.spec_rank()),
    {
        let mine: u8 = match self {
            AlertSeverity::Notice => 0,
            AlertSeverity::Warning => 1,
            AlertSeverity::Critical => 2,
        };
        let theirs: u8 = match other {
            AlertSeverity::Notice => 0,
            AlertSeverity::Warning => 1,
            AlertSeverity::Critical => 2,
        };
        mine > theirs
    }
}

/// One verdict per reading rule, `None` where the reading needs no alert or
/// was not reported.
#[derive(Debug, Clone, Copy, PartialEq, Eq, Structural)]
pub struct RuleVerdicts {
    pub co2: Option<AlertSeverity>,
    pub aqi: Option<AlertSeverity>,
    pub pm25: Option<AlertSeverity>,
    pub tvoc: Option<AlertSeverity>,
    pub nox: Option<AlertSeverity>,
    pub humidity_low: Option<AlertSeverity>,
    pub humidity_high: Option<AlertSeverity>,
}

impl Default for RuleVerdicts {
    /// No rule has anything to report.
    fn default() -> (verdicts: RuleVerdicts)
        ensures
            verdicts == (RuleVerdicts {
                co2: None,
                aqi: None,
                pm25: None,
                tvoc: None,
                nox: None,
                humidity_low: None,
                humidity_high: None,
            }),
    {
        RuleVerdicts {
            co2: None,
            aqi: None,
            pm25: None,
            tvoc: None,
            nox: None,
            humidity_low: None,
            humidity_high: None,
        }
    }
}

impl RuleVerdicts {
    /// The verdict of the rule that watches `kind`; the offline kind has no
    /// reading rule.
    pub open spec fn spec_verdict_for(self, kind: AlertKind) -> Option<AlertSeverity> {
        match kind {
            AlertKind::Co2 => self.co2,
            AlertKind::Aqi => self.aqi,
            AlertKind::Pm25 => self.pm25,
            AlertKind::Tvoc => self.tvoc,
            AlertKind::Nox => self.nox,
            AlertKind::HumidityLow => self.humidity_low,
            AlertKind::HumidityHigh => self.humidity_high,
            AlertKind::DeviceOffline => None,
        }
    }

    /// Verdict of the rule watching `kind`.
    pub fn verdict_for(&self, kind: AlertKind) -> (verdict: Option<AlertSeverity>)
        ensures
            verdict == self.spec_verdict_for(kind),
    {
        match kind {
            AlertKind::Co2 => self.co2,
            AlertKind::Aqi => self.aqi,
            AlertKind::Pm25 => self.pm25,
            AlertKind::Tvoc => self.tvoc,
            AlertKind::Nox => self.nox,
            AlertKind::HumidityLow => self.humidity_low,
            AlertKind::HumidityHigh => self.humidity_high,
            AlertKind::DeviceOffline => None,
        }
    }
}

/// The kind watched by the rule at position `i`, in the order alerts are
/// reported.
pub open spec fn rule_kind(i: int) -> AlertKind {
    if i == 0 {
        AlertKind::Co2
    } else if i == 1 {
        AlertKind::Aqi
    } else if i == 2 {
        AlertKind::Pm25
    } else if i == 3 {
        AlertKind::Tvoc
    } else if i == 4 {
        AlertKind::Nox
    } else if i == 5 {
        AlertKind::HumidityLow
    } else {
        AlertKind::HumidityHigh
    }
}

/// Position of the rule watching `kind`; the offline kind comes after every
/// reading rule.
pub open spec fn rule_index(kind: AlertKind) -> int {
    match kind {
        AlertKind::Co2 => 0,
        AlertKind::Aqi => 1,
        AlertKind::Pm25 => 2,
        AlertKind::Tvoc => 3,
        AlertKind::Nox => 4,
        AlertKind::HumidityLow => 5,
        AlertKind::HumidityHigh => 6,
        AlertKind::DeviceOffline => 7,
    }
}

/// The kind watched by rule `i`.
fn rule_kind_at(i: usize) -> (kind: AlertKind)
    requires
        i < RULE_COUNT,
    ensures
        kind == rule_kind(i as int),
{
    if i == 0 {
        AlertKind::Co2
    } else if i == 1 {
        AlertKind::Aqi
    } else if i == 2 {
        AlertKind::Pm25
    } else if i == 3 {
        AlertKind::Tvoc
    } else if i == 4 {
        AlertKind::Nox
    } else if i == 5 {
        AlertKind::HumidityLow
    } else {
        AlertKind::HumidityHigh
    }
}

/// What the monitor remembers about one kind of alert.
#[derive(Debug, Clone, Copy, PartialEq, Eq, Structural)]
pub struct KindState {
    /// Bad verdicts in a row so far.
    pub consecutive: u8,
    /// Severity of the alert currently standing, if any.
    pub active: Option<AlertSeverity>,
    /// When this kind last notified.
    pub last_sent: Option<u64>,
}

impl KindState {
    /// Nothing recorded.
    pub open spec fn spec_cleared() -> KindState {
        KindState { consecutive: 0, active: None, last_sent: None }
    }

    fn cleared() -> (state: KindState)
        ensures
            state == KindState::spec_cleared(),
    {
        KindState { consecutive: 0, active: None, last_sent: None }
    }
}

/// Add one to a counter, stopping at its maximum.
pub open spec fn saturating_inc(count: u8) -> u8 {
    if count < u8::MAX {
        (count + 1) as u8
    } else {
        count
    }
}

/// Whole seconds from `then` to `now`, or zero when `now` is not later.
pub open spec fn whole_secs_between(now: u64, then: u64) -> int {
    if now >= then {
        (now - then) as int / NANOS_PER_SEC as int
    } else {
        0
    }
}

/// Whether a kind may notify at `severity` now: either it has never sent or
/// its cooldown has run out, or the new severity is worse than the standing one.
pub open spec fn may_notify(state: KindState, severity: AlertSeverity, now: u64) -> bool {
    let escalated = match state.active {
        Some(active) => severity.spec_rank() > active.spec_rank(),
        None => false,
    };
    let cooled_down = match state.last_sent {
        Some(last) => whole_secs_between(now, last) >= ALERT_COOLDOWN_SECS,
        None => true,
    };
    escalated || cooled_down
}

/// The state of a kind right after it notified.
pub open spec fn notified(state: KindState, severity: AlertSeverity, now: u64) -> KindState {
    KindState { active: Some(severity), last_sent: Some(now), ..state }
}

/// One rule's verdict applied to its kind: the kind's next state, and the
/// severity it notifies at, if it does.
///
/// A reading that needs no alert clears the run and the standing severity, so
/// a value dipping in and out of the threshold has to cross it twice in a row
/// again before it alerts.
pub open spec fn rule_step(state: KindState, verdict: Option<AlertSeverity>, now: u64) -> (
    KindState,
    Option<AlertSeverity>,
) {
    match verdict {
        None => (KindState { consecutive: 0, active: None, ..state }, None),
        Some(severity) => {
            let counted = KindState { consecutive: saturating_inc(state.consecutive), ..state };
            if counted.consecutive < ALERT_CONSECUTIVE_READINGS {
                (counted, None)
            } else if may_notify(counted, severity, now) {
                (notified(counted, severity, now), Some(severity))
            } else {
                (counted, None)
            }
        },
    }
}

/// The monitor as a mathematical value.
pub struct MonitorState {
    pub enabled: bool,
    /// Failed fetches since the last reading arrived.
    pub fetch_failures: u8,
    /// What is remembered about every kind.
    pub kinds: Map<AlertKind, KindState>,
}

impl MonitorState {
    /// A monitor with nothing recorded.
    pub open spec fn initial(enabled: bool) -> MonitorState {
        MonitorState {
            enabled,
            fetch_failures: 0,
            kinds: Map::new(|kind: AlertKind| true, |kind: AlertKind| KindState::spec_cleared()),
        }
    }

    pub open spec fn kind(self, kind: AlertKind) -> KindState {
        self.kinds[kind]
    }

    pub open spec fn with_kind(self, kind: AlertKind, state: KindState) -> MonitorState {
        MonitorState { kinds: self.kinds.insert(kind, state), ..self }
    }
}

/// The first `n` rules applied in order: the resulting state, and the kinds
/// that notified with their severities, in rule order.
pub open spec fn apply_rules(m: MonitorState, verdicts: RuleVerdicts, now: u64, n: nat) -> (
    MonitorState,
    Seq<(AlertKind, AlertSeverity)>,
)
    decreases n,
{
    if n == 0 {
        (m, Seq::empty())
    } else {
        let (before, fired) = apply_rules(m, verdicts, now, (n - 1) as nat);
        let kind = rule_kind(n - 1);
        let (state, notify) = rule_step(before.kind(kind), verdicts.spec_verdict_for(kind), now);
        (
            before.with_kind(kind, state),
            match notify {
                Some(severity) => fired.push((kind, severity)),
                None => fired,
            },
        )
    }
}

/// A reading arriving: nothing at all happens while disabled; otherwise the
/// failed-fetch run ends and every rule is applied.
pub open spec fn evaluate(m: MonitorState, verdicts: RuleVerdicts, now: u64) -> (
    MonitorState,
    Seq<(AlertKind, AlertSeverity)>,
) {
    if !m.enabled {
        (m, Seq::empty())
    } else {
        apply_rules(MonitorState { fetch_failures: 0, ..m }, verdicts, now, RULE_COUNT as nat)
    }
}

/// A fetch failing: the run of failures grows, and from the third one on the
/// offline kind notifies at `Warning`, under the same cooldown as every kind.
pub open spec fn fetch_failed(m: MonitorState, now: u64) -> (MonitorState, Option<AlertSeverity>) {
    if !m.enabled {
        (m, None)
    } else {
        let counted = MonitorState { fetch_failures: saturating_inc(m.fetch_failures), ..m };
        let offline = counted.kind(AlertKind::DeviceOffline);
        if counted.fetch_failures < OFFLINE_AFTER_FAILURES {
            (counted, None)
        } else if may_notify(offline, AlertSeverity::Warning, now) {
            (
                counted.with_kind(
                    AlertKind::DeviceOffline,
                    notified(offline, AlertSeverity::Warning, now),
                ),
                Some(AlertSeverity::Warning),
            )
        } else {
            (counted, None)
        }
    }
}

/// Switching alerts on or off; switching off forgets everything.
pub open spec fn switched(m: MonitorState, enabled: bool) -> MonitorState {
    if enabled {
        MonitorState { enabled: true, ..m }
    } else {
        MonitorState::initial(false)
    }
}

/// What applying the first `n` rules does, kind by kind: each rule changes only
/// its own kind, the notifications are exactly the rules that fired, and they
/// come in rule order.
proof fn lemma_apply_rules(m: MonitorState, verdicts: RuleVerdicts, now: u64, n: nat)
    requires
        n <= RULE_COUNT,
    ensures
        apply_rules(m, verdicts, now, n).0.enabled == m.enabled,
        apply_rules(m, verdicts, now, n).0.fetch_failures == m.fetch_failures,
        forall|kind: AlertKind|
            #![trigger apply_rules(m, verdicts, now, n).0.kind(kind)]
            apply_rules(m, verdicts, now, n).0.kind(kind) == if rule_index(kind) < n {
                rule_step(m.kind(kind), verdicts.spec_verdict_for(kind), now).0
            } else {
                m.kind(kind)
            },
        forall|j: int|
            #![trigger apply_rules(m, verdicts, now, n).1[j]]
            0 <= j < apply_rules(m, verdicts, now, n).1.len() ==> {
                let (kind, severity) = apply_rules(m, verdicts, now, n).1[j];
                &&& rule_index(kind) < n
                &&& rule_step(m.kind(kind), verdicts.spec_verdict_for(kind), now).1 == Some(
                    severity,
                )
            },
        forall|i: int, j: int|
            0 <= i < j < apply_rules(m, verdicts, now, n).1.len() ==> rule_index(
                #[trigger] apply_rules(m, verdicts, now, n).1[i].0,
            ) < rule_index(#[trigger] apply_rules(m, verdicts, now, n).1[j].0),
        forall|kind: AlertKind|
            rule_index(kind) < n && (#[trigger] rule_step(
                m.kind(kind),
                verdicts.spec_verdict_for(kind),
                now,
            )).1 is Some ==> exists|j: int|
                0 <= j < apply_rules(m, verdicts, now, n).1.len() && apply_rules(
                    m,
                    verdicts,
                    now,
                    n,
                ).1[j] == (
                    kind,
                    rule_step(m.kind(kind), verdicts.spec_verdict_for(kind), now).1.unwrap(),
                ),
    decreases n,
{
    if n > 0 {
        lemma_apply_rules(m, verdicts, now, (n - 1) as nat);
        let before = apply_rules(m, verdicts, now, (n - 1) as nat).0;
        let fired = apply_rules(m, verdicts, now, (n - 1) as nat).1;
        let kind = rule_kind(n - 1);
        assert(rule_index(kind) == n - 1);
        let after = apply_rules(m, verdicts, now, n).0;
        let fired_after = apply_rules(m, verdicts, now, n).1;
        assert(before.kind(kind) == m.kind(kind));
        assert forall|k: AlertKind| #[trigger] rule_index(k) == n - 1 implies k == kind by {
            assert(rule_index(k) == n - 1);
        }
        assert forall|k: AlertKind| #[trigger] after.kind(k) == if rule_index(k) < n {
            rule_step(m.kind(k), verdicts.spec_verdict_for(k), now).0
        } else {
            m.kind(k)
        } by {
            if k != kind {
                assert(after.kind(k) == before.kind(k));
            }
        }
        assert forall|j: int| 0 <= j < fired_after.len() implies {
            let (k, severity) = #[trigger] fired_after[j];
            &&& rule_index(k) < n
            &&& rule_step(m.kind(k), verdicts.spec_verdict_for(k), now).1 == Some(severity)
        } by {
            if j < fired.len() {
                assert(fired_after[j] == fired[j]);
            }
        }
        assert forall|i: int, j: int| 0 <= i < j < fired_after.len() implies rule_index(
            #[trigger] fired_after[i].0,
        ) < rule_index(#[trigger] fired_after[j].0) by {
            assert(fired_after[i] == fired[i]);
            if j < fired.len() {
                assert(fired_after[j] == fired[j]);
            }
        }
        assert forall|k: AlertKind|
            rule_index(k) < n && (#[trigger] rule_step(
                m.kind(k),
                verdicts.spec_verdict_for(k),
                now,
            )).1 is Some implies exists|j: int|
            0 <= j < fired_after.len() && fired_after[j] == (
                k,
                rule_step(m.kind(k), verdicts.spec_verdict_for(k), now).1.unwrap(),
            ) by {
            let severity = rule_step(m.kind(k), verdicts.spec_verdict_for(k), now).1.unwrap();
            if rule_index(k) == n - 1 {
                assert(k == kind);
                assert(fired_after[fired.len() as int] == (k, severity));
            } else {
                let j = choose|j: int| 0 <= j < fired.len() && fired[j] == (k, severity);
                assert(fired_after[j] == (k, severity));
            }
        }
    }
}

/// A disabled monitor never notifies and never changes.
pub proof fn disabled_monitor_stays_silent(m: MonitorState, verdicts: RuleVerdicts, now: u64)
    requires
        !m.enabled,
    ensures
        evaluate(m, verdicts, now) == (m, Seq::<(AlertKind, AlertSeverity)>::empty()),
        fetch_failed(m, now) == (m, Option::<AlertSeverity>::None),
{
}

/// Every notification of an evaluation comes from a rule whose verdict is that
/// severity; the offline kind never comes from a reading; and the
/// notifications come at most one per kind, in rule order.
pub proof fn alerts_follow_the_verdicts(m: MonitorState, verdicts: RuleVerdicts, now: u64)
    ensures
        forall|j: int|
            0 <= j < evaluate(m, verdicts, now).1.len() ==> {
                let (kind, severity) = #[trigger] evaluate(m, verdicts, now).1[j];
                &&& verdicts.spec_verdict_for(kind) == Some(severity)
                &&& kind != AlertKind::DeviceOffline
            },
        forall|i: int, j: int|
            0 <= i < j < evaluate(m, verdicts, now).1.len() ==> rule_index(
                #[trigger] evaluate(m, verdicts, now).1[i].0,
            ) < rule_index(#[trigger] evaluate(m, verdicts, now).1[j].0),
{
    if m.enabled {
        lemma_apply_rules(
            MonitorState { fetch_failures: 0, ..m },
            verdicts,
            now,
            RULE_COUNT as nat,
        );
    }
}

/// A single bad reading never alerts: a kind whose previous verdict was fine
/// (or that has never been judged) stays silent on this evaluation.
pub proof fn one_bad_reading_never_alerts(
    m: MonitorState,
    verdicts: RuleVerdicts,
    now: u64,
    kind: AlertKind,
)
    requires
        m.kind(kind).consecutive == 0,
    ensures
        forall|j: int|
            0 <= j < evaluate(m, verdicts, now).1.len() ==> (#[trigger] evaluate(
                m,
                verdicts,
                now,
            ).1[j]).0 != kind,
{
    if m.enabled {
        let start = MonitorState { fetch_failures: 0, ..m };
        lemma_apply_rules(start, verdicts, now, RULE_COUNT as nat);
    }
}

/// Within twenty minutes of a kind's last notification, it stays silent unless
/// the reading has become more severe than the alert standing for it.
pub proof fn cooldown_suppresses_repeats(
    m: MonitorState,
    verdicts: RuleVerdicts,
    now: u64,
    kind: AlertKind,
    last: u64,
)
    requires
        m.kind(kind).last_sent == Some(last),
        whole_secs_between(now, last) < ALERT_COOLDOWN_SECS,
        !(match (m.kind(kind).active, verdicts.spec_verdict_for(kind)) {
            (Some(active), Some(severity)) => severity.spec_rank() > active.spec_rank(),
            _ => false,
        }),
    ensures
        forall|j: int|
            0 <= j < evaluate(m, verdicts, now).1.len() ==> (#[trigger] evaluate(
                m,
                verdicts,
                now,
            ).1[j]).0 != kind,
{
    if m.enabled {
        let start = MonitorState { fetch_failures: 0, ..m };
        lemma_apply_rules(start, verdicts, now, RULE_COUNT as nat);
    }
}

/// A reading that is bad for the second time in a row and worse than the alert
/// standing for its kind notifies at once, however recent that alert was.
pub proof fn escalation_breaks_the_cooldown(
    m: MonitorState,
    verdicts: RuleVerdicts,
    now: u64,
    kind: AlertKind,
    active: AlertSeverity,
    severity: AlertSeverity,
)
    requires
        m.enabled,
        kind != AlertKind::DeviceOffline,
        m.kind(kind).consecutive >= 1,
        m.kind(kind).active == Some(active),
        verdicts.spec_verdict_for(kind) == Some(severity),
        severity.spec_rank() > active.spec_rank(),
    ensures
        exists|j: int|
            0 <= j < evaluate(m, verdicts, now).1.len() && #[trigger] evaluate(
                m,
                verdicts,
                now,
            ).1[j] == (kind, severity),
{
    let start = MonitorState { fetch_failures: 0, ..m };
    lemma_apply_rules(start, verdicts, now, RULE_COUNT as nat);
    assert(rule_step(start.kind(kind), verdicts.spec_verdict_for(kind), now).1 == Some(severity));
    assert(rule_index(kind) < RULE_COUNT);
    let fired = apply_rules(start, verdicts, now, RULE_COUNT as nat).1;
    let j = choose|j: int| 0 <= j < fired.len() && fired[j] == (kind, severity);
    assert(evaluate(m, verdicts, now).1[j] == (kind, severity));
}

/// A reading that is bad for the second time in a row notifies when its kind
/// has never notified or its cooldown has run out.
pub proof fn repeated_bad_reading_alerts_once_cooled_down(
    m: MonitorState,
    verdicts: RuleVerdicts,
    now: u64,
    kind: AlertKind,
    severity: AlertSeverity,
)
    requires
        m.enabled,
        kind != AlertKind::DeviceOffline,
        m.kind(kind).consecutive >= 1,
        verdicts.spec_verdict_for(kind) == Some(severity),
        match m.kind(kind).last_sent {
            Some(last) => whole_secs_between(now, last) >= ALERT_COOLDOWN_SECS,
            None => true,
        },
    ensures
        exists|j: int|
            0 <= j < evaluate(m, verdicts, now).1.len() && #[trigger] evaluate(
                m,
                verdicts,
                now,
            ).1[j] == (kind, severity),
{
    let start = MonitorState { fetch_failures: 0, ..m };
    lemma_apply_rules(start, verdicts, now, RULE_COUNT as nat);
    assert(rule_step(start.kind(kind), verdicts.spec_verdict_for(kind), now).1 == Some(severity));
    assert(rule_index(kind) < RULE_COUNT);
    let fired = apply_rules(start, verdicts, now, RULE_COUNT as nat).1;
    let j = choose|j: int| 0 <= j < fired.len() && fired[j] == (kind, severity);
    assert(evaluate(m, verdicts, now).1[j] == (kind, severity));
}

/// A reading ends any run of failed fetches, and fewer than three failures in
/// a row never report the device as offline.
pub proof fn offline_needs_three_failures_in_a_row(
    m: MonitorState,
    verdicts: RuleVerdicts,
    now: u64,
    later: u64,
)
    requires
        m.enabled,
    ensures
        evaluate(m, verdicts, now).0.fetch_failures == 0,
        fetch_failed(evaluate(m, verdicts, now).0, later).1 is None,
        fetch_failed(fetch_failed(evaluate(m, verdicts, now).0, later).0, later).1 is None,
{
    let start = MonitorState { fetch_failures: 0, ..m };
    lemma_apply_rules(start, verdicts, now, RULE_COUNT as nat);
}

/// The third failed fetch in a row reports the device as offline, unless an
/// offline alert went out within the cooldown; a reading in between does not
/// change that cooldown.
pub proof fn third_failure_reports_offline(
    m: MonitorState,
    verdicts: RuleVerdicts,
    now: u64,
    later: u64,
)
    requires
        m.enabled,
        may_notify(m.kind(AlertKind::DeviceOffline), AlertSeverity::Warning, later),
    ensures
        ({
            let fresh = evaluate(m, verdicts, now).0;
            let once = fetch_failed(fresh, later).0;
            let twice = fetch_failed(once, later).0;
            fetch_failed(twice, later).1 == Some(AlertSeverity::Warning)
        }),
{
    let start = MonitorState { fetch_failures: 0, ..m };
    lemma_apply_rules(start, verdicts, now, RULE_COUNT as nat);
    let fresh = evaluate(m, verdicts, now).0;
    assert(fresh.kind(AlertKind::DeviceOffline) == m.kind(AlertKind::DeviceOffline));
    let once = fetch_failed(fresh, later).0;
    let twice = fetch_failed(once, later).0;
    assert(once.fetch_failures == 1 && once.kinds == fresh.kinds);
    assert(twice.fetch_failures == 2 && twice.kinds == fresh.kinds);
}

/// Switching alerts off and on again starts from a clean slate.
pub proof fn switching_off_forgets_everything(m: MonitorState)
    ensures
        switched(switched(m, false), true) == MonitorState::initial(true),
{
}

/// Something that happens to a monitor: a reading judged by the rules at a
/// time, a failed fetch at a time, or alerts being switched on or off. Every
/// call of `evaluate_at`, `record_fetch_error_at` and `set_enabled` is one.
pub enum MonitorEvent {
    Reading(RuleVerdicts, u64),
    FetchError(u64),
    Switch(bool),
}

/// What one event does to a monitor.
pub open spec fn step(m: MonitorState, event: MonitorEvent) -> MonitorState {
    match event {
        MonitorEvent::Reading(verdicts, now) => evaluate(m, verdicts, now).0,
        MonitorEvent::FetchError(now) => fetch_failed(m, now).0,
        MonitorEvent::Switch(enabled) => switched(m, enabled),
    }
}

/// A monitor created with `enabled`, after `events` in order.
pub open spec fn run(enabled: bool, events: Seq<MonitorEvent>) -> MonitorState
    decreases events.len(),
{
    if events.len() == 0 {
        MonitorState::initial(enabled)
    } else {
        step(run(enabled, events.drop_last()), events.last())
    }
}

/// The severity a list of notifications reports for `kind`, if it has one
/// for it.
pub open spec fn returned(alerts: Seq<(AlertKind, AlertSeverity)>, kind: AlertKind) -> Option<
    AlertSeverity,
>
    decreases alerts.len(),
{
    if alerts.len() == 0 {
        None
    } else if alerts.last().0 == kind {
        Some(alerts.last().1)
    } else {
        returned(alerts.drop_last(), kind)
    }
}

/// The first `n` rules report for a kind exactly what that kind's rule step
/// gives, and nothing for the kinds of later rules.
proof fn lemma_returned_apply_rules(
    m: MonitorState,
    verdicts: RuleVerdicts,
    now: u64,
    n: nat,
    kind: AlertKind,
)
    requires
        n <= RULE_COUNT,
    ensures
        returned(apply_rules(m, verdicts, now, n).1, kind) == if rule_index(kind) < n {
            rule_step(m.kind(kind), verdicts.spec_verdict_for(kind), now).1
        } else {
            None
        },
    decreases n,
{
    if n > 0 {
        lemma_returned_apply_rules(m, verdicts, now, (n - 1) as nat, kind);
        lemma_apply_rules(m, verdicts, now, (n - 1) as nat);
        let before = apply_rules(m, verdicts, now, (n - 1) as nat).0;
        let last = rule_kind(n - 1);
        assert(rule_index(last) == n - 1);
        assert(before.kind(last) == m.kind(last));
        let fired = apply_rules(m, verdicts, now, (n - 1) as nat).1;
        let (state, notify) = rule_step(before.kind(last), verdicts.spec_verdict_for(last), now);
        match notify {
            Some(severity) => {
                assert(fired.push((last, severity)).drop_last() =~= fired);
            },
            None => {},
        }
        if kind == last {
            assert(rule_index(kind) == n - 1);
        } else {
            assert(rule_index(kind) != n - 1) by {
                if rule_index(kind) == n - 1 {
                    assert(kind == last);
                }
            }
        }
    }
}

/// What a reading returns for a kind: nothing while disabled, otherwise the
/// kind's rule step; the offline kind never comes from a reading.
proof fn lemma_returned_evaluate(m: MonitorState, verdicts: RuleVerdicts, now: u64, kind: AlertKind)
    ensures
        returned(evaluate(m, verdicts, now).1, kind) == if m.enabled
            && kind != AlertKind::DeviceOffline {
            rule_step(m.kind(kind), verdicts.spec_verdict_for(kind), now).1
        } else {
            None
        },
        evaluate(m, verdicts, now).0.kind(kind) == if m.enabled && kind
            != AlertKind::DeviceOffline {
            rule_step(m.kind(kind), verdicts.spec_verdict_for(kind), now).0
        } else {
            m.kind(kind)
        },
        m.enabled ==> evaluate(m, verdicts, now).0.fetch_failures == 0,
        evaluate(m, verdicts, now).0.enabled == m.enabled,
        !m.enabled ==> evaluate(m, verdicts, now).0 == m,
{
    if m.enabled {
        let start = MonitorState { fetch_failures: 0, ..m };
        lemma_returned_apply_rules(start, verdicts, now, RULE_COUNT as nat, kind);
        lemma_apply_rules(start, verdicts, now, RULE_COUNT as nat);
        assert(start.kind(kind) == m.kind(kind));
    }
}

/// The verdict for `kind` of the last reading taken while enabled, since the
/// monitor was created or last switched off; `None` when there was none, or
/// when that reading was fine or missing.
pub open spec fn previous_verdict(
    enabled: bool,
    events: Seq<MonitorEvent>,
    kind: AlertKind,
) -> Option<AlertSeverity>
    decreases events.len(),
{
    if events.len() == 0 {
        None
    } else {
        let before = events.drop_last();
        match events.last() {
            MonitorEvent::Reading(verdicts, _) => if run(enabled, before).enabled {
                verdicts.spec_verdict_for(kind)
            } else {
                previous_verdict(enabled, before, kind)
            },
            MonitorEvent::FetchError(_) => previous_verdict(enabled, before, kind),
            MonitorEvent::Switch(on) => if on {
                previous_verdict(enabled, before, kind)
            } else {
                None
            },
        }
    }
}

/// When the monitor last returned a notification of `kind`, since it was
/// created or last switched off.
pub open spec fn last_alert(enabled: bool, events: Seq<MonitorEvent>, kind: AlertKind) -> Option<
    u64,
>
    decreases events.len(),
{
    if events.len() == 0 {
        None
    } else {
        let before = events.drop_last();
        match events.last() {
            MonitorEvent::Reading(verdicts, now) => if returned(
                evaluate(run(enabled, before), verdicts, now).1,
                kind,
            ) is Some {
                Some(now)
            } else {
                last_alert(enabled, before, kind)
            },
            MonitorEvent::FetchError(now) => if kind == AlertKind::DeviceOffline && fetch_failed(
                run(enabled, before),
                now,
            ).1 is Some {
                Some(now)
            } else {
                last_alert(enabled, before, kind)
            },
            MonitorEvent::Switch(on) => if on {
                last_alert(enabled, before, kind)
            } else {
                None
            },
        }
    }
}

/// The severity of that last notification of `kind`, unless a reading taken
/// while enabled has since found nothing wrong with `kind`.
pub open spec fn standing(enabled: bool, events: Seq<MonitorEvent>, kind: AlertKind) -> Option<
    AlertSeverity,
>
    decreases events.len(),
{
    if events.len() == 0 {
        None
    } else {
        let before = events.drop_last();
        match events.last() {
            MonitorEvent::Reading(verdicts, now) => match returned(
                evaluate(run(enabled, before), verdicts, now).1,
                kind,
            ) {
                Some(severity) => Some(severity),
                None => if run(enabled, before).enabled && kind != AlertKind::DeviceOffline
                    && verdicts.spec_verdict_for(kind) is None {
                    None
                } else {
                    standing(enabled, before, kind)
                },
            },
            MonitorEvent::FetchError(now) => if kind == AlertKind::DeviceOffline && fetch_failed(
                run(enabled, before),
                now,
            ).1 is Some {
                Some(AlertSeverity::Warning)
            } else {
                standing(enabled, before, kind)
            },
            MonitorEvent::Switch(on) => if on {
                standing(enabled, before, kind)
            } else {
                None
            },
        }
    }
}

/// Failed fetches recorded while enabled since the latest of: the monitor's
/// creation, its last switch-off, and its last reading taken while enabled.
pub open spec fn failures_in_a_row(enabled: bool, events: Seq<MonitorEvent>) -> nat
    decreases events.len(),
{
    if events.len() == 0 {
        0
    } else {
        let before = events.drop_last();
        match events.last() {
            MonitorEvent::Reading(_, _) => if run(enabled, before).enabled {
                0
            } else {
                failures_in_a_row(enabled, before)
            },
            MonitorEvent::FetchError(_) => if run(enabled, before).enabled {
                failures_in_a_row(enabled, before) + 1
            } else {
                failures_in_a_row(enabled, before)
            },
            MonitorEvent::Switch(on) => if on {
                failures_in_a_row(enabled, before)
            } else {
                0
            },
        }
    }
}

/// What the monitor remembers, in terms of what happened to it.
proof fn lemma_run(enabled: bool, events: Seq<MonitorEvent>, kind: AlertKind)
    ensures
        kind != AlertKind::DeviceOffline ==> (run(enabled, events).kind(kind).consecutive >= 1
            <==> previous_verdict(enabled, events, kind) is Some),
        run(enabled, events).kind(kind).last_sent == last_alert(enabled, events, kind),
        run(enabled, events).kind(kind).active == standing(enabled, events, kind),
        run(enabled, events).fetch_failures == if failures_in_a_row(enabled, events) < 255 {
            failures_in_a_row(enabled, events)
        } else {
            255
        },
        run(enabled, events).kind(AlertKind::DeviceOffline).active is None || run(
            enabled,
            events,
        ).kind(AlertKind::DeviceOffline).active == Some(AlertSeverity::Warning),
    decreases events.len(),
{
    if events.len() > 0 {
        let before = events.drop_last();
        lemma_run(enabled, before, kind);
        lemma_run(enabled, before, AlertKind::DeviceOffline);
        let m = run(enabled, before);
        match events.last() {
            MonitorEvent::Reading(verdicts, now) => {
                lemma_returned_evaluate(m, verdicts, now, kind);
                lemma_returned_evaluate(m, verdicts, now, AlertKind::DeviceOffline);
            },
            MonitorEvent::FetchError(now) => {
                if m.enabled {
                    let counted = MonitorState {
                        fetch_failures: saturating_inc(m.fetch_failures),
                        ..m
                    };
                    assert(counted.kind(kind) == m.kind(kind));
                }
            },
            MonitorEvent::Switch(on) => {},
        }
    }
}

/// Over any history of a monitor: a reading notifies about a kind at a
/// severity exactly when the monitor is on, the rule for that kind finds that
/// severity now and found a problem on the previous reading too (a fine or
/// missing reading restarts the run), and either the kind has not notified
/// since the monitor was created or switched off, or its twenty-minute
/// cooldown has run out, or the severity is worse than the one standing.
pub proof fn readings_alert_after_two_bad_readings_and_the_cooldown(
    enabled: bool,
    events: Seq<MonitorEvent>,
    verdicts: RuleVerdicts,
    now: u64,
    kind: AlertKind,
    severity: AlertSeverity,
)
    ensures
        returned(evaluate(run(enabled, events), verdicts, now).1, kind) == Some(severity) <==> {
            &&& run(enabled, events).enabled
            &&& kind != AlertKind::DeviceOffline
            &&& verdicts.spec_verdict_for(kind) == Some(severity)
            &&& previous_verdict(enabled, events, kind) is Some
            &&& {
                ||| last_alert(enabled, events, kind) is None
                ||| (last_alert(enabled, events, kind) matches Some(last) && whole_secs_between(
                    now,
                    last,
                ) >= ALERT_COOLDOWN_SECS)
                ||| (standing(enabled, events, kind) matches Some(active) && severity.spec_rank()
                    > active.spec_rank())
            }
        },
{
    lemma_run(enabled, events, kind);
    lemma_returned_evaluate(run(enabled, events), verdicts, now, kind);
}

/// Over any history of a monitor: a failed fetch reports the device as
/// offline exactly when the monitor is on, this is at least the third failure
/// in a row (counted since the monitor was created, switched off, or last got
/// a reading), and no offline alert went out within the cooldown; the report
/// is always a warning.
pub proof fn offline_after_three_failures_and_the_cooldown(
    enabled: bool,
    events: Seq<MonitorEvent>,
    now: u64,
)
    ensures
        fetch_failed(run(enabled, events), now).1 is Some <==> {
            &&& run(enabled, events).enabled
            &&& failures_in_a_row(enabled, events) + 1 >= OFFLINE_AFTER_FAILURES
            &&& {
                ||| last_alert(enabled, events, AlertKind::DeviceOffline) is None
                ||| (last_alert(enabled, events, AlertKind::DeviceOffline) matches Some(last)
                    && whole_secs_between(now, last) >= ALERT_COOLDOWN_SECS)
            }
        },
        fetch_failed(run(enabled, events), now).1 is Some ==> fetch_failed(
            run(enabled, events),
            now,
        ).1 == Some(AlertSeverity::Warning),
{
    lemma_run(enabled, events, AlertKind::DeviceOffline);
}

/// Each kind is judged by its own reading: a reading notifies about CO2 only
/// when the CO2 verdict is bad, about the AQI only when the AQI verdict is
/// bad, and so on, always at the severity of that verdict; low and high
/// humidity each have their own verdict, and a reading never reports the
/// device offline.
pub proof fn each_kind_reads_its_own_verdict(
    m: MonitorState,
    verdicts: RuleVerdicts,
    now: u64,
    kind: AlertKind,
    severity: AlertSeverity,
)
    requires
        returned(evaluate(m, verdicts, now).1, kind) == Some(severity),
    ensures
        match kind {
            AlertKind::Co2 => verdicts.co2 == Some(severity),
            AlertKind::Aqi => verdicts.aqi == Some(severity),
            AlertKind::Pm25 => verdicts.pm25 == Some(severity),
            AlertKind::Tvoc => verdicts.tvoc == Some(severity),
            AlertKind::Nox => verdicts.nox == Some(severity),
            AlertKind::HumidityLow => verdicts.humidity_low == Some(severity),
            AlertKind::HumidityHigh => verdicts.humidity_high == Some(severity),
            AlertKind::DeviceOffline => false,
        },
{
    lemma_returned_evaluate(m, verdicts, now, kind);
}

/// Identifier of a kind's notifications.
pub open spec fn alert_id(kind: AlertKind) -> &'static str {
    match kind {
        AlertKind::Co2 => "airgradient-co2",
        AlertKind::Aqi => "airgradient-aqi",
        AlertKind::Pm25 => "airgradient-pm25",
        AlertKind::Tvoc => "airgradient-tvoc",
        AlertKind::Nox => "airgradient-nox",
        AlertKind::HumidityLow => "airgradient-humiditylow",
        AlertKind::HumidityHigh => "airgradient-humidityhigh",
        AlertKind::DeviceOffline => "airgradient-deviceoffline",
    }
}

/// Title of a reading alert.
pub open spec fn alert_title(kind: AlertKind, severity: AlertSeverity) -> &'static str {
    match (kind, severity) {
        (AlertKind::Co2, AlertSeverity::Notice) => "CO2 is above 800 ppm",
        (AlertKind::Co2, AlertSeverity::Warning) => "CO2 is high",
        (AlertKind::Co2, AlertSeverity::Critical) => "CO2 is very high",
        (AlertKind::Aqi, AlertSeverity::Notice) => "AQI is unhealthy for sensitive groups",
        (AlertKind::Aqi, AlertSeverity::Warning) => "AQI is unhealthy",
        (AlertKind::Aqi, AlertSeverity::Critical) => "AQI is very unhealthy",
        (AlertKind::Pm25, AlertSeverity::Notice) => "PM2.5 is elevated",
        (AlertKind::Pm25, AlertSeverity::Warning) => "PM2.5 is high",
        (AlertKind::Pm25, AlertSeverity::Critical) => "PM2.5 is very high",
        (AlertKind::Tvoc, AlertSeverity::Critical) => "VOC level is high",
        (AlertKind::Tvoc, _) => "VOC level is elevated",
        (AlertKind::Nox, AlertSeverity::Critical) => "NOx level is high",
        (AlertKind::Nox, _) => "NOx level is elevated",
        (AlertKind::HumidityLow, _) => "Humidity is low",
        (AlertKind::HumidityHigh, AlertSeverity::Critical) => "Humidity is very high",
        (AlertKind::HumidityHigh, _) => "Humidity is high",
        (AlertKind::DeviceOffline, _) => OFFLINE_TITLE,
    }
}

/// Body of a reading alert: what the reading means and what to do about it.
pub open spec fn alert_body(kind: AlertKind, severity: AlertSeverity) -> &'static str {
    match (kind, severity) {
        (AlertKind::Co2, AlertSeverity::Notice) =>
            "Ventilation may be low. Open a window or increase fresh-air ventilation.",
        (AlertKind::Co2, AlertSeverity::Warning) =>
            "CO2 is above 1200 ppm. Ventilate now if possible or reduce room occupancy.",
        (AlertKind::Co2, AlertSeverity::Critical) =>
            "CO2 is above 2000 ppm. Leave briefly or improve ventilation immediately if possible.",
        (AlertKind::Aqi, AlertSeverity::Notice) =>
            "Reduce exposure if you are sensitive. Consider filtration or source control.",
        (AlertKind::Aqi, AlertSeverity::Warning) =>
            "Air quality may affect everyone. Reduce pollutant sources and improve filtration.",
        (AlertKind::Aqi, AlertSeverity::Critical) =>
            "Limit exposure. Use filtration and avoid adding indoor pollution sources.",
        (AlertKind::Pm25, AlertSeverity::Notice) =>
            "Run an air purifier or improve HVAC filtration; reduce cooking, smoke, or dust sources.",
        (AlertKind::Pm25, AlertSeverity::Warning) =>
            "Particle pollution is high. Use filtration and avoid activities that create particles.",
        (AlertKind::Pm25, AlertSeverity::Critical) =>
            "Limit exposure and use strong filtration. Check whether outdoor smoke or indoor sources are present.",
        (AlertKind::Tvoc, AlertSeverity::Critical) =>
            "Ventilate now and remove or seal likely chemical sources if safe to do so.",
        (AlertKind::Tvoc, _) =>
            "Ventilate and check recent sources: cleaning products, paint, adhesives, or hobby materials.",
        (AlertKind::Nox, AlertSeverity::Critical) =>
            "Increase ventilation and check combustion sources such as gas cooking or heaters.",
        (AlertKind::Nox, _) =>
            "If cooking or using combustion appliances, use exhaust ventilation or open a window.",
        (AlertKind::HumidityLow, _) =>
            "Air is dry. Consider humidification if the room feels uncomfortable.",
        (AlertKind::HumidityHigh, AlertSeverity::Critical) =>
            "Dehumidify or ventilate now and check for dampness or leaks.",
        (AlertKind::HumidityHigh, _) => "Ventilate or dehumidify to reduce dampness and mold risk.",
        (AlertKind::DeviceOffline, _) => OFFLINE_BODY_PREFIX,
    }
}

/// Identifier of a kind's notifications.
fn id_text(kind: AlertKind) -> (text: &'static str)
    ensures
        text == alert_id(kind),
{
    match kind {
        AlertKind::Co2 => "airgradient-co2",
        AlertKind::Aqi => "airgradient-aqi",
        AlertKind::Pm25 => "airgradient-pm25",
        AlertKind::Tvoc => "airgradient-tvoc",
        AlertKind::Nox => "airgradient-nox",
        AlertKind::HumidityLow => "airgradient-humiditylow",
        AlertKind::HumidityHigh => "airgradient-humidityhigh",
        AlertKind::DeviceOffline => "airgradient-deviceoffline",
    }
}

/// Title and body of a reading alert.
fn alert_text(kind: AlertKind, severity: AlertSeverity) -> (text: (&'static str, &'static str))
    ensures
        text.0 == alert_title(kind, severity),
        text.1 == alert_body(kind, severity),
{
    match (kind, severity) {
        (AlertKind::Co2, AlertSeverity::Notice) => (
            "CO2 is above 800 ppm",
            "Ventilation may be low. Open a window or increase fresh-air ventilation.",
        ),
        (AlertKind::Co2, AlertSeverity::Warning) => (
            "CO2 is high",
            "CO2 is above 1200 ppm. Ventilate now if possible or reduce room occupancy.",
        ),
        (AlertKind::Co2, AlertSeverity::Critical) => (
            "CO2 is very high",
            "CO2 is above 2000 ppm. Leave briefly or improve ventilation immediately if possible.",
        ),
        (AlertKind::Aqi, AlertSeverity::Notice) => (
            "AQI is unhealthy for sensitive groups",
            "Reduce exposure if you are sensitive. Consider filtration or source control.",
        ),
        (AlertKind::Aqi, AlertSeverity::Warning) => (
            "AQI is unhealthy",
            "Air quality may affect everyone. Reduce pollutant sources and improve filtration.",
        ),
        (AlertKind::Aqi, AlertSeverity::Critical) => (
            "AQI is very unhealthy",
            "Limit exposure. Use filtration and avoid adding indoor pollution sources.",
        ),
        (AlertKind::Pm25, AlertSeverity::Notice) => (
            "PM2.5 is elevated",
            "Run an air purifier or improve HVAC filtration; reduce cooking, smoke, or dust sources.",
        ),
        (AlertKind::Pm25, AlertSeverity::Warning) => (
            "PM2.5 is high",
            "Particle pollution is high. Use filtration and avoid activities that create particles.",
        ),
        (AlertKind::Pm25, AlertSeverity::Critical) => (
            "PM2.5 is very high",
            "Limit exposure and use strong filtration. Check whether outdoor smoke or indoor sources are present.",
        ),
        (AlertKind::Tvoc, AlertSeverity::Critical) => (
            "VOC level is high",
            "Ventilate now and remove or seal likely chemical sources if safe to do so.",
        ),
        (AlertKind::Tvoc, _) => (
            "VOC level is elevated",
            "Ventilate and check recent sources: cleaning products, paint, adhesives, or hobby materials.",
        ),
        (AlertKind::Nox, AlertSeverity::Critical) => (
            "NOx level is high",
            "Increase ventilation and check combustion sources such as gas cooking or heaters.",
        ),
        (AlertKind::Nox, _) => (
            "NOx level is elevated",
            "If cooking or using combustion appliances, use exhaust ventilation or open a window.",
        ),
        (AlertKind::HumidityLow, _) => (
            "Humidity is low",
            "Air is dry. Consider humidification if the room feels uncomfortable.",
        ),
        (AlertKind::HumidityHigh, AlertSeverity::Critical) => (
            "Humidity is very high",
            "Dehumidify or ventilate now and check for dampness or leaks.",
        ),
        (AlertKind::HumidityHigh, _) => (
            "Humidity is high",
            "Ventilate or dehumidify to reduce dampness and mold risk.",
        ),
        (AlertKind::DeviceOffline, _) => (OFFLINE_TITLE, OFFLINE_BODY_PREFIX),
    }
}

/// A notification ready to hand to the desktop.
#[derive(Debug)]
pub struct AlertNotification {
    pub id: String,
    pub title: String,
    pub body: String,
    pub severity: AlertSeverity,
}

impl AlertNotification {
    /// Whether this is the notification a reading rule sends for `kind` at
    /// `severity`.
    pub open spec fn announces(self, kind: AlertKind, severity: AlertSeverity) -> bool {
        &&& self.id@ == alert_id(kind)@
        &&& self.title@ == alert_title(kind, severity)@
        &&& self.body@ == alert_body(kind, severity)@
        &&& self.severity == severity
    }

    /// Whether this is the offline notification, carrying `error` as the last
    /// error seen.
    pub open spec fn reports_offline(self, error: Seq<char>) -> bool {
        &&& self.id@ == alert_id(AlertKind::DeviceOffline)@
        &&& self.title@ == OFFLINE_TITLE@
        &&& self.body@ == OFFLINE_BODY_PREFIX@ + error
        &&& self.severity == AlertSeverity::Warning
    }
}

/// The notification a reading rule sends.
fn reading_alert(kind: AlertKind, severity: AlertSeverity) -> (alert: AlertNotification)
    ensures
        alert.announces(kind, severity),
{
    let (title, body) = alert_text(kind, severity);
    AlertNotification {
        id: String::from_str(id_text(kind)),
        title: String::from_str(title),
        body: String::from_str(body),
        severity,
    }
}

/// One rule's verdict applied to its kind.
fn step_kind(state: KindState, verdict: Option<AlertSeverity>, now: u64) -> (next: (
    KindState,
    Option<AlertSeverity>,
))
    ensures
        next == rule_step(state, verdict, now),
{
    match verdict {
        None => (KindState { consecutive: 0, active: None, ..state }, None),
        Some(severity) => {
            let counted = KindState { consecutive: state.consecutive.saturating_add(1), ..state };
            if counted.consecutive < ALERT_CONSECUTIVE_READINGS {
                (counted, None)
            } else if may_notify_now(counted, severity, now) {
                (KindState { active: Some(severity), last_sent: Some(now), ..counted }, Some(severity))
            } else {
                (counted, None)
            }
        },
    }
}

/// Whether a kind may notify at `severity` at `now`.
fn may_notify_now(state: KindState, severity: AlertSeverity, now: u64) -> (may: bool)
    ensures
        may == may_notify(state, severity, now),
{
    let escalated = match state.active {
        Some(active) => severity.is_worse_than(active),
        None => false,
    };
    let cooled_down = match state.last_sent {
        Some(last) => now.saturating_sub(last) / NANOS_PER_SEC >= ALERT_COOLDOWN_SECS,
        None => true,
    };
    escalated || cooled_down
}

/// A count of nanoseconds as the monitor's clock holds it: a count past
/// `u64::MAX`, some five centuries, stays at `u64::MAX`.
pub fn saturating_nanos(nanos: u128) -> (reading: u64)
    ensures
        reading == if nanos > u64::MAX {
            u64::MAX as int
        } else {
            nanos as int
        },
{
    if nanos > u64::MAX as u128 {
        u64::MAX
    } else {
        nanos as u64
    }
}

/// The monotonic clock's reading, carried through unread.
#[verifier::external_type_specification]
#[verifier::external_body]
pub struct ExInstant(std::time::Instant);

/// Reads the monotonic clock through `std::time::Instant::now`. Nothing is
/// claimed of the value: it is wherever the clock stands.
#[verifier::external_body]
fn clock_origin() -> Instant {
    Instant::now()
}

/// The time from `origin` to now, through `Instant::elapsed`. Nothing is
/// claimed of it: it depends on the clock.
#[verifier::external_body]
fn elapsed_since(origin: &Instant) -> Duration {
    origin.elapsed()
}

/// The whole nanoseconds in `span`, through `Duration::as_nanos`. The value
/// is not stated: a `Duration` is opaque here.
#[verifier::external_body]
fn whole_nanos(span: &Duration) -> u128 {
    span.as_nanos()
}

/// Decides which readings deserve a notification.
pub struct AlertMonitor {
    enabled: bool,
    fetch_failures: u8,
    co2: KindState,
    aqi: KindState,
    pm25: KindState,
    tvoc: KindState,
    nox: KindState,
    humidity_low: KindState,
    humidity_high: KindState,
    device_offline: KindState,
    /// Where the monitor's clock starts.
    origin: Instant,
}

impl AlertMonitor {
    /// What is stored for `kind`.
    closed spec fn stored(&self, kind: AlertKind) -> KindState {
        match kind {
            AlertKind::Co2 => self.co2,
            AlertKind::Aqi => self.aqi,
            AlertKind::Pm25 => self.pm25,
            AlertKind::Tvoc => self.tvoc,
            AlertKind::Nox => self.nox,
            AlertKind::HumidityLow => self.humidity_low,
            AlertKind::HumidityHigh => self.humidity_high,
            AlertKind::DeviceOffline => self.device_offline,
        }
    }
}

impl View for AlertMonitor {
    type V = MonitorState;

    closed spec fn view(&self) -> MonitorState {
        MonitorState {
            enabled: self.enabled,
            fetch_failures: self.fetch_failures,
            kinds: Map::new(|kind: AlertKind| true, |kind: AlertKind| self.stored(kind)),
        }
    }
}

impl AlertMonitor {
    /// A monitor with nothing recorded, its clock starting now.
    pub fn new(enabled: bool) -> (monitor: AlertMonitor)
        ensures
            monitor@ == MonitorState::initial(enabled),
    {
        let monitor = AlertMonitor {
            enabled,
            fetch_failures: 0,
            co2: KindState::cleared(),
            aqi: KindState::cleared(),
            pm25: KindState::cleared(),
            tvoc: KindState::cleared(),
            nox: KindState::cleared(),
            humidity_low: KindState::cleared(),
            humidity_high: KindState::cleared(),
            device_offline: KindState::cleared(),
            origin: clock_origin(),
        };
        assert(monitor@.kinds =~= MonitorState::initial(enabled).kinds);
        monitor
    }

    /// The monitor's clock: nanoseconds since it was created.
    /// A clock that has run for more than `u64::MAX` nanoseconds, some five
    /// centuries, stays at that reading.
    pub fn now(&self) -> u64 {
        saturating_nanos(whole_nanos(&elapsed_since(&self.origin)))
    }

    /// Let `kind` notify at `severity` at time `now`, if its gate is open: it
    /// has never notified since it was last cleared, or its cooldown of
    /// twenty minutes in whole seconds has run out, or `severity` is worse
    /// than the severity standing for it. An alert that goes out becomes the
    /// kind's last notification and standing severity; otherwise nothing
    /// changes.
    pub fn make_alert(
        &mut self,
        kind: AlertKind,
        severity: AlertSeverity,
        now: u64,
        title: &str,
        body: &str,
    ) -> (alert: Option<AlertNotification>)
        ensures
            may_notify(old(self)@.kind(kind), severity, now) ==> {
                &&& final(self)@ == old(self)@.with_kind(
                    kind,
                    notified(old(self)@.kind(kind), severity, now),
                )
                &&& alert matches Some(a) && a.id@ == alert_id(kind)@ && a.title@ == title@
                    && a.body@ == body@ && a.severity == severity
            },
            !may_notify(old(self)@.kind(kind), severity, now) ==> {
                &&& final(self)@ == old(self)@
                &&& alert is None
            },
    {
        let state = self.kind_state(kind);
        if !may_notify_now(state, severity, now) {
            return None;
        }
        self.set_kind_state(kind, KindState { active: Some(severity), last_sent: Some(now), ..state });
        Some(
            AlertNotification {
                id: String::from_str(id_text(kind)),
                title: String::from_str(title),
                body: String::from_str(body),
                severity,
            },
        )
    }

    /// Turn alerts on or off. Turning them off forgets every run, standing
    /// alert and cooldown, so turning them back on starts from scratch.
    pub fn set_enabled(&mut self, enabled: bool)
        ensures
            final(self)@ == switched(old(self)@, enabled),
    {
        self.enabled = enabled;
        if !enabled {
            self.co2 = KindState::cleared();
            self.aqi = KindState::cleared();
            self.pm25 = KindState::cleared();
            self.tvoc = KindState::cleared();
            self.nox = KindState::cleared();
            self.humidity_low = KindState::cleared();
            self.humidity_high = KindState::cleared();
            self.device_offline = KindState::cleared();
            self.fetch_failures = 0;
            assert(self@.kinds =~= MonitorState::initial(false).kinds);
        } else {
            assert(self@.kinds =~= old(self)@.kinds);
        }
    }

    fn kind_state(&self, kind: AlertKind) -> (state: KindState)
        ensures
            state == self@.kind(kind),
    {
        match kind {
            AlertKind::Co2 => self.co2,
            AlertKind::Aqi => self.aqi,
            AlertKind::Pm25 => self.pm25,
            AlertKind::Tvoc => self.tvoc,
            AlertKind::Nox => self.nox,
            AlertKind::HumidityLow => self.humidity_low,
            AlertKind::HumidityHigh => self.humidity_high,
            AlertKind::DeviceOffline => self.device_offline,
        }
    }

    fn set_kind_state(&mut self, kind: AlertKind, state: KindState)
        ensures
            final(self)@ == old(self)@.with_kind(kind, state),
    {
        match kind {
            AlertKind::Co2 => self.co2 = state,
            AlertKind::Aqi => self.aqi = state,
            AlertKind::Pm25 => self.pm25 = state,
            AlertKind::Tvoc => self.tvoc = state,
            AlertKind::Nox => self.nox = state,
            AlertKind::HumidityLow => self.humidity_low = state,
            AlertKind::HumidityHigh => self.humidity_high = state,
            AlertKind::DeviceOffline => self.device_offline = state,
        }
        assert(self@.kinds =~= old(self)@.kinds.insert(kind, state));
    }

    /// Apply one reading's verdicts at time `now`, returning the notifications
    /// to send, in rule order.
    pub fn evaluate_at(&mut self, verdicts: &RuleVerdicts, now: u64) -> (alerts: Vec<
        AlertNotification,
    >)
        ensures
            final(self)@ == evaluate(old(self)@, *verdicts, now).0,
            alerts@.len() == evaluate(old(self)@, *verdicts, now).1.len(),
            forall|i: int|
                0 <= i < alerts@.len() ==> alerts@[i].announces(
                    evaluate(old(self)@, *verdicts, now).1[i].0,
                    evaluate(old(self)@, *verdicts, now).1[i].1,
                ),
    {
        let mut alerts: Vec<AlertNotification> = Vec::new();
        if !self.enabled {
            return alerts;
        }
        // A reading arrived, so whatever run of failed fetches came before it
        // is over and the device is not offline.
        self.fetch_failures = 0;
        assert(self@.kinds =~= old(self)@.kinds);
        let ghost start = self@;
        let mut i: usize = 0;
        while i < RULE_COUNT
            invariant
                i <= RULE_COUNT,
                self@ == apply_rules(start, *verdicts, now, i as nat).0,
                alerts@.len() == apply_rules(start, *verdicts, now, i as nat).1.len(),
                forall|j: int|
                    0 <= j < alerts@.len() ==> alerts@[j].announces(
                        apply_rules(start, *verdicts, now, i as nat).1[j].0,
                        apply_rules(start, *verdicts, now, i as nat).1[j].1,
                    ),
            decreases RULE_COUNT - i,
        {
            let kind = rule_kind_at(i);
            let (state, notify) = step_kind(self.kind_state(kind), verdicts.verdict_for(kind), now);
            self.set_kind_state(kind, state);
            if let Some(severity) = notify {
                alerts.push(reading_alert(kind, severity));
            }
            i = i + 1;
        }
        alerts
    }

    /// Apply one reading's verdicts now.
    pub fn evaluate(&mut self, verdicts: &RuleVerdicts) -> (alerts: Vec<AlertNotification>)
        ensures
            exists|now: u64|
                {
                    &&& final(self)@ == evaluate(old(self)@, *verdicts, now).0
                    &&& alerts@.len() == evaluate(old(self)@, *verdicts, now).1.len()
                    &&& forall|i: int|
                        0 <= i < alerts@.len() ==> alerts@[i].announces(
                            evaluate(old(self)@, *verdicts, now).1[i].0,
                            evaluate(old(self)@, *verdicts, now).1[i].1,
                        )
                },
    {
        let now = self.now();
        self.evaluate_at(verdicts, now)
    }

    /// Record a failed fetch at time `now`, returning the offline notification
    /// when the device should be reported as unreachable.
    pub fn record_fetch_error_at(&mut self, error: &str, now: u64) -> (alert: Option<
        AlertNotification,
    >)
        ensures
            final(self)@ == fetch_failed(old(self)@, now).0,
            fetch_failed(old(self)@, now).1 is None ==> alert is None,
            fetch_failed(old(self)@, now).1 is Some ==> (alert matches Some(a)
                && a.reports_offline(error@)),
    {
        if !self.enabled {
            return None;
        }
        self.fetch_failures = self.fetch_failures.saturating_add(1);
        assert(self@.kinds =~= old(self)@.kinds);
        if self.fetch_failures < OFFLINE_AFTER_FAILURES {
            return None;
        }
        let body = String::from_str(OFFLINE_BODY_PREFIX).concat(error);
        self.make_alert(
            AlertKind::DeviceOffline,
            AlertSeverity::Warning,
            now,
            OFFLINE_TITLE,
            body.as_str(),
        )
    }

    /// Record a failed fetch now.
    pub fn record_fetch_error(&mut self, error: &str) -> (alert: Option<AlertNotification>)
        ensures
            exists|now: u64|
                {
                    &&& final(self)@ == fetch_failed(old(self)@, now).0
                    &&& fetch_failed(old(self)@, now).1 is None ==> alert is None
                    &&& fetch_failed(old(self)@, now).1 is Some ==> (alert matches Some(a)
                        && a.reports_offline(error@))
                },
    {
        let now = self.now();
        self.record_fetch_error_at(error, now)
    }
}

} // verus!
