//! Health classification: per-metric threshold ladders and the worst-of /
//! count-of-warnings aggregation that turns three metric readings into one
//! pet mood.

use crate::monitor::Metrics;
use vstd::prelude::*;

verus! {

/// Pet state based on system health, in increasing severity.
#[derive(Debug, Clone, Copy, PartialEq, Eq, Structural)]
pub enum PetState {
    /// All metrics are good
    Happy,
    /// One metric is in warning range
    Okay,
    /// Multiple metrics in warning or one in critical
    Stressed,
    /// Any metric is critical
    Critical,
}

/// Per-metric classification, consumed only within one update.
#[derive(Debug, Clone, Copy, PartialEq, Eq, Structural)]
pub enum MetricStatus {
    Good,
    Warning,
    Critical,
}

/// What `emoji` returns for each state.
pub open spec fn emoji_of(s: PetState) -> Seq<char> {
    match s {
        PetState::Happy => "😊"@,
        PetState::Okay => "😐"@,
        PetState::Stressed => "😰"@,
        PetState::Critical => "🔥"@,
    }
}

/// What `description` returns for each state.
pub open spec fn description_of(s: PetState) -> Seq<char> {
    match s {
        PetState::Happy => "Pet is happy - system healthy!"@,
        PetState::Okay => "Pet is okay - minor resource usage"@,
        PetState::Stressed => "Pet is stressed - high resource usage"@,
        PetState::Critical => "Pet is critical - system overloaded!"@,
    }
}

impl PetState {
    /// Get emoji representation of pet state
    pub fn emoji(&self) -> (r: &str)
        ensures
            r@ == emoji_of(*self),
    {
        match self {
            PetState::Happy => "😊",
            PetState::Okay => "😐",
            PetState::Stressed => "😰",
            PetState::Critical => "🔥",
        }
    }

    /// Get description of pet state
    pub fn description(&self) -> (r: &str)
        ensures
            r@ == description_of(*self),
    {
        match self {
            PetState::Happy => "Pet is happy - system healthy!",
            PetState::Okay => "Pet is okay - minor resource usage",
            PetState::Stressed => "Pet is stressed - high resource usage",
            PetState::Critical => "Pet is critical - system overloaded!",
        }
    }
}

/// The three-tier ladder over arbitrary thresholds, as `classify_metric`
/// applies it: the critical threshold is checked first, and both middle
/// bands collapse to `Warning`.
pub open spec fn ladder_status(value: u64, warning: u64, stressed: u64, critical: u64) -> MetricStatus {
    if value >= critical {
        MetricStatus::Critical
    } else if value >= stressed {
        MetricStatus::Warning
    } else if value >= warning {
        MetricStatus::Warning
    } else {
        MetricStatus::Good
    }
}

/// The fixed RAM/CPU ladder: Good below 70, Warning in `[70, 95)`,
/// Critical at 95 and above.
pub open spec fn metric_status_of(value: u64) -> MetricStatus {
    if value >= 95 {
        MetricStatus::Critical
    } else if value >= 70 {
        MetricStatus::Warning
    } else {
        MetricStatus::Good
    }
}

/// The fixed disk-junk ladder over the junk percentage of the whole disk:
/// Good below 5, Warning in `[5, 20)`, Critical at 20 and above.
pub open spec fn disk_status_of(percent: u64) -> MetricStatus {
    if percent >= 20 {
        MetricStatus::Critical
    } else if percent >= 5 {
        MetricStatus::Warning
    } else {
        MetricStatus::Good
    }
}

/// How many of the three statuses are not `Good`.
pub open spec fn count_non_good(a: MetricStatus, b: MetricStatus, c: MetricStatus) -> int {
    (if a != MetricStatus::Good { 1int } else { 0int })
        + (if b != MetricStatus::Good { 1int } else { 0int })
        + (if c != MetricStatus::Good { 1int } else { 0int })
}

/// How many of the three statuses equal `s`.
pub open spec fn count_status(a: MetricStatus, b: MetricStatus, c: MetricStatus, s: MetricStatus) -> int {
    (if a == s { 1int } else { 0int })
        + (if b == s { 1int } else { 0int })
        + (if c == s { 1int } else { 0int })
}

/// The aggregation rule, in strict precedence: any Critical wins; else two
/// or more non-Good statuses compound to Stressed; else a single Warning is
/// merely Okay; else everything is Good and the pet is Happy.
pub open spec fn aggregate_status(a: MetricStatus, b: MetricStatus, c: MetricStatus) -> PetState {
    if a == MetricStatus::Critical || b == MetricStatus::Critical || c == MetricStatus::Critical {
        PetState::Critical
    } else if count_non_good(a, b, c) >= 2 {
        PetState::Stressed
    } else if count_non_good(a, b, c) == 1 {
        PetState::Okay
    } else {
        PetState::Happy
    }
}

/// The pet state a metrics snapshot classifies to.
pub open spec fn pet_state_of(m: Metrics) -> PetState {
    aggregate_status(
        metric_status_of(m.ram_percent),
        metric_status_of(m.cpu_percent),
        disk_status_of(m.disk_junk_percent),
    )
}

/// Pet that reflects system health: it holds the one previous state that
/// `update` overwrites.
pub struct Pet {
    state: PetState,
}

impl Pet {
    /// The state the pet currently holds.
    pub closed spec fn spec_state(self) -> PetState {
        self.state
    }

    /// Create a new pet with default Happy state
    pub fn new() -> (r: Pet)
        ensures
            r.spec_state() == PetState::Happy,
    {
        Pet { state: PetState::Happy }
    }

    /// Update pet state based on current metrics; returns the new state.
    ///
    /// RAM and CPU are held to the 70/85/95 ladder (both middle bands count
    /// as Warning), disk junk to the percentage ladder, and the three
    /// statuses aggregate by the worst-of / count-of-warnings rule.
    pub fn update(&mut self, metrics: &Metrics) -> (r: PetState)
        ensures
            r == pet_state_of(*metrics),
            final(self).spec_state() == r,
    {
        let ram_status = Self::classify_metric(metrics.ram_percent, 70, 85, 95);
        let cpu_status = Self::classify_metric(metrics.cpu_percent, 70, 85, 95);
        let disk_status = Self::classify_disk_percent(metrics.disk_junk_percent);

        let any_critical = ram_status == MetricStatus::Critical
            || cpu_status == MetricStatus::Critical
            || disk_status == MetricStatus::Critical;
        let non_good: u64 = (if ram_status != MetricStatus::Good { 1 } else { 0 })
            + (if cpu_status != MetricStatus::Good { 1 } else { 0 })
            + (if disk_status != MetricStatus::Good { 1 } else { 0 });

        if any_critical {
            self.state = PetState::Critical;
        } else if non_good >= 2 {
            self.state = PetState::Stressed;
        } else if non_good == 1 {
            self.state = PetState::Okay;
        } else {
            self.state = PetState::Happy;
        }

        self.state
    }

    /// Get current pet state
    pub fn get_state(&self) -> (r: PetState)
        ensures
            r == self.spec_state(),
    {
        self.state
    }

    /// Get a description of the pet's current state
    pub fn get_icon_description(&self) -> (r: &str)
        ensures
            r@ == description_of(self.spec_state()),
    {
        self.state.description()
    }

    /// Get emoji for current state
    pub fn get_emoji(&self) -> (r: &str)
        ensures
            r@ == emoji_of(self.spec_state()),
    {
        self.state.emoji()
    }

    /// Classify a metric against a three-tier threshold ladder.
    pub fn classify_metric(value: u64, warning: u64, stressed: u64, critical: u64) -> (r: MetricStatus)
        ensures
            r == ladder_status(value, warning, stressed, critical),
    {
        if value >= critical {
            MetricStatus::Critical
        } else if value >= stressed {
            MetricStatus::Warning
        } else if value >= warning {
            MetricStatus::Warning
        } else {
            MetricStatus::Good
        }
    }

    /// Classify disk junk against the percentage ladder.
    pub fn classify_disk_percent(percent: u64) -> (r: MetricStatus)
        ensures
            r == disk_status_of(percent),
    {
        if percent >= 20 {
            MetricStatus::Critical
        } else if percent >= 10 {
            MetricStatus::Warning
        } else if percent >= 5 {
            MetricStatus::Warning
        } else {
            MetricStatus::Good
        }
    }
}

impl Default for Pet {
    /// A fresh, happy pet.
    fn default() -> (r: Pet)
        ensures
            r.spec_state() == PetState::Happy,
    {
        Pet::new()
    }
}

/// A RAM or CPU value is Good exactly below 70, Warning exactly in
/// `[70, 95)`, and Critical exactly from 95 up; in particular 70 itself is
/// Warning and 95 itself is Critical.
pub proof fn lemma_metric_thresholds(value: u64)
    ensures
        metric_status_of(value) == MetricStatus::Good <==> value < 70,
        metric_status_of(value) == MetricStatus::Warning <==> 70 <= value < 95,
        metric_status_of(value) == MetricStatus::Critical <==> value >= 95,
{
}

/// A disk-junk percentage is Good exactly below 5, Warning exactly in
/// `[5, 20)`, and Critical exactly from 20 up.
pub proof fn lemma_disk_thresholds(percent: u64)
    ensures
        disk_status_of(percent) == MetricStatus::Good <==> percent < 5,
        disk_status_of(percent) == MetricStatus::Warning <==> 5 <= percent < 20,
        disk_status_of(percent) == MetricStatus::Critical <==> percent >= 20,
{
}

/// Any one Critical metric makes the overall state Critical, regardless of
/// the other two statuses.
pub proof fn lemma_any_critical_is_critical(a: MetricStatus, b: MetricStatus, c: MetricStatus)
    requires
        a == MetricStatus::Critical || b == MetricStatus::Critical || c == MetricStatus::Critical,
    ensures
        aggregate_status(a, b, c) == PetState::Critical,
{
}

/// Exactly two Warning metrics with no Critical one compound to Stressed.
pub proof fn lemma_two_warnings_is_stressed(a: MetricStatus, b: MetricStatus, c: MetricStatus)
    requires
        count_status(a, b, c, MetricStatus::Critical) == 0,
        count_status(a, b, c, MetricStatus::Warning) == 2,
    ensures
        aggregate_status(a, b, c) == PetState::Stressed,
{
}

/// Exactly one Warning metric with the other two Good is merely Okay.
pub proof fn lemma_one_warning_is_okay(a: MetricStatus, b: MetricStatus, c: MetricStatus)
    requires
        count_status(a, b, c, MetricStatus::Warning) == 1,
        count_status(a, b, c, MetricStatus::Good) == 2,
    ensures
        aggregate_status(a, b, c) == PetState::Okay,
{
}

/// Three Good metrics make a Happy pet.
pub proof fn lemma_all_good_is_happy(a: MetricStatus, b: MetricStatus, c: MetricStatus)
    requires
        a == MetricStatus::Good,
        b == MetricStatus::Good,
        c == MetricStatus::Good,
    ensures
        aggregate_status(a, b, c) == PetState::Happy,
{
}

} // verus!
