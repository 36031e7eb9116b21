//! The condition model: per-phase outcomes, their aggregate, and the
//! flattened summary, together with the identity that produced them.

use vstd::prelude::*;
use vstd::string::*;

use crate::time::Timestamp;

verus! {

/// The spec-level value of an optional string: its character sequence.
pub open spec fn opt_str_view(o: Option<String>) -> Option<Seq<char>> {
    match o {
        Some(s) => Some(s@),
        None => None,
    }
}

pub(crate) fn clone_opt_string(o: &Option<String>) -> (r: Option<String>)
    ensures
        opt_str_view(r) == opt_str_view(*o),
{
    match o {
        Some(s) => Some(s.clone()),
        None => None,
    }
}

/// Identity of whoever triggered an update: a human-readable name and,
/// where one exists, a link to the originating logs or build.
pub struct Applier {
    /// Human readable text describing what applied.
    pub name: String,
    /// Link to logs or origin of the apply, if any.
    pub url: Option<String>,
}

#[verifier::ext_equal]
pub struct ApplierView {
    pub name: Seq<char>,
    pub url: Option<Seq<char>>,
}

impl View for Applier {
    type V = ApplierView;

    open spec fn view(&self) -> ApplierView {
        ApplierView { name: self.name@, url: opt_str_view(self.url) }
    }
}

impl Clone for Applier {
    fn clone(&self) -> (r: Self)
        ensures
            r@ == self@,
    {
        Applier { name: self.name.clone(), url: clone_opt_string(&self.url) }
    }
}

/// The outcome of exactly one phase at one point in time, attributed
/// and timestamped.  A healthy condition never carries a reason or a
/// message; an unhealthy one always carries both.
pub struct Condition {
    /// Whether or not in a good state.
    pub status: bool,
    /// Error reason token, present exactly when not in a good state.
    pub reason: Option<String>,
    /// One sentence error message, present exactly when not in a good state.
    pub message: Option<String>,
    /// When the condition was written; always set, second precision, UTC.
    pub last_transition: Timestamp,
    /// Originator for this condition.
    pub source: Option<Applier>,
}

#[verifier::ext_equal]
pub struct ConditionView {
    pub status: bool,
    pub reason: Option<Seq<char>>,
    pub message: Option<Seq<char>>,
    pub last_transition: Timestamp,
    pub source: Option<ApplierView>,
}

impl View for Condition {
    type V = ConditionView;

    open spec fn view(&self) -> ConditionView {
        ConditionView {
            status: self.status,
            reason: opt_str_view(self.reason),
            message: opt_str_view(self.message),
            last_transition: self.last_transition,
            source: match self.source {
                Some(a) => Some(a@),
                None => None,
            },
        }
    }
}

impl ConditionView {
    /// The construction invariant: reason and message are present if and
    /// only if the condition is unhealthy, and the timestamp is valid.
    pub open spec fn wf(self) -> bool {
        &&& self.status ==> self.reason is None && self.message is None
        &&& !self.status ==> self.reason is Some && self.message is Some
        &&& self.last_transition.wf()
    }
}

impl Clone for Condition {
    fn clone(&self) -> (r: Self)
        ensures
            r@ == self@,
    {
        Condition {
            status: self.status,
            reason: clone_opt_string(&self.reason),
            message: clone_opt_string(&self.message),
            last_transition: self.last_transition,
            source: match &self.source {
                Some(a) => Some(a.clone()),
                None => None,
            },
        }
    }
}

/// A healthy condition written by `a` at `now`.
pub open spec fn spec_condition_ok(a: ApplierView, now: Timestamp) -> ConditionView {
    ConditionView {
        status: true,
        reason: None,
        message: None,
        last_transition: now,
        source: Some(a),
    }
}

/// An unhealthy condition written by `a` at `now`, carrying the reason
/// token `err` and the message `msg`.
pub open spec fn spec_condition_bad(
    a: ApplierView,
    err: Seq<char>,
    msg: Seq<char>,
    now: Timestamp,
) -> ConditionView {
    ConditionView {
        status: false,
        reason: Some(err),
        message: Some(msg),
        last_transition: now,
        source: Some(a),
    }
}

impl Condition {
    /// The one way to build a healthy condition: status is true and
    /// neither reason nor message is carried.
    pub fn ok(a: &Applier, now: Timestamp) -> (c: Condition)
        requires
            now.wf(),
        ensures
            c@ == spec_condition_ok(a@, now),
            c@.status == true,
            c@.reason is None,
            c@.message is None,
            c@.wf(),
    {
        Condition {
            status: true,
            reason: None,
            message: None,
            last_transition: now,
            source: Some(a.clone()),
        }
    }

    /// The one way to build an unhealthy condition: status is false and
    /// both reason and message are carried.
    pub fn bad(a: &Applier, err: &str, msg: String, now: Timestamp) -> (c: Condition)
        requires
            now.wf(),
        ensures
            c@ == spec_condition_bad(a@, err@, msg@, now),
            c@.status == false,
            c@.reason is Some,
            c@.message is Some,
            c@.wf(),
    {
        Condition {
            status: false,
            reason: Some(err.to_owned()),
            message: Some(msg),
            last_transition: now,
            source: Some(a.clone()),
        }
    }
}

/// The aggregate of all phases: one optional slot per phase, absent
/// until the phase has executed at least once, overwritten (never
/// merged) on every later write to that phase.
pub struct Conditions {
    /// Outcome of template generation.
    pub generated: Option<Condition>,
    /// Outcome of cluster application.
    pub applied: Option<Condition>,
    /// Outcome of rollout verification.
    pub rolledout: Option<Condition>,
}

#[verifier::ext_equal]
pub struct ConditionsView {
    pub generated: Option<ConditionView>,
    pub applied: Option<ConditionView>,
    pub rolledout: Option<ConditionView>,
}

pub open spec fn opt_cond_view(o: Option<Condition>) -> Option<ConditionView> {
    match o {
        Some(c) => Some(c@),
        None => None,
    }
}

impl View for Conditions {
    type V = ConditionsView;

    open spec fn view(&self) -> ConditionsView {
        ConditionsView {
            generated: opt_cond_view(self.generated),
            applied: opt_cond_view(self.applied),
            rolledout: opt_cond_view(self.rolledout),
        }
    }
}

impl Default for Conditions {
    /// All slots absent: no phase has executed yet.
    fn default() -> (r: Self)
        ensures
            r@.generated is None,
            r@.applied is None,
            r@.rolledout is None,
    {
        Conditions { generated: None, applied: None, rolledout: None }
    }
}

/// The flattened human-readable rollup of the conditions.
pub struct ConditionSummary {
    /// When the template was last generated successfully.
    pub last_successful_generate: Option<Timestamp>,
    /// When manifest configuration was last applied, success or failure.
    pub last_apply: Option<Timestamp>,
    /// When an apply last passed all checks.
    pub last_successful_apply: Option<Timestamp>,
    /// When a rollout wait last completed.
    pub last_rollout: Option<Timestamp>,
    /// When a rollout wait last completed and passed.
    pub last_successful_rollout: Option<Timestamp>,
    /// Best effort most relevant reason for the most recent failure;
    /// cleared when a rollout later succeeds.
    pub reason: Option<String>,
    /// True only when the most recent relevant check passed.
    pub status: bool,
    /// Best effort reason for why an apply was triggered.
    pub upgrade_reason: Option<String>,
}

#[verifier::ext_equal]
pub struct ConditionSummaryView {
    pub last_successful_generate: Option<Timestamp>,
    pub last_apply: Option<Timestamp>,
    pub last_successful_apply: Option<Timestamp>,
    pub last_rollout: Option<Timestamp>,
    pub last_successful_rollout: Option<Timestamp>,
    pub reason: Option<Seq<char>>,
    pub status: bool,
    pub upgrade_reason: Option<Seq<char>>,
}

impl View for ConditionSummary {
    type V = ConditionSummaryView;

    open spec fn view(&self) -> ConditionSummaryView {
        ConditionSummaryView {
            last_successful_generate: self.last_successful_generate,
            last_apply: self.last_apply,
            last_successful_apply: self.last_successful_apply,
            last_rollout: self.last_rollout,
            last_successful_rollout: self.last_successful_rollout,
            reason: opt_str_view(self.reason),
            status: self.status,
            upgrade_reason: opt_str_view(self.upgrade_reason),
        }
    }
}

/// The summary with every field absent and the overall flag down: the
/// base that a first partial patch builds on.
pub open spec fn spec_empty_summary() -> ConditionSummaryView {
    ConditionSummaryView {
        last_successful_generate: None,
        last_apply: None,
        last_successful_apply: None,
        last_rollout: None,
        last_successful_rollout: None,
        reason: None,
        status: false,
        upgrade_reason: None,
    }
}

impl Default for ConditionSummary {
    /// Every field absent, the overall flag down.
    fn default() -> (r: Self)
        ensures
            r@ == spec_empty_summary(),
    {
        ConditionSummary {
            last_successful_generate: None,
            last_apply: None,
            last_successful_apply: None,
            last_rollout: None,
            last_successful_rollout: None,
            reason: None,
            status: false,
            upgrade_reason: None,
        }
    }
}

/// The full persisted state for one artifact: the per-phase conditions
/// and the derived summary.
pub struct ManifestStatus {
    /// Detailed individual conditions, written as phases execute.
    pub conditions: Conditions,
    /// A more easily readable summary of why the conditions are what
    /// they are.
    pub summary: Option<ConditionSummary>,
}

#[verifier::ext_equal]
pub struct ManifestStatusView {
    pub conditions: ConditionsView,
    pub summary: Option<ConditionSummaryView>,
}

impl View for ManifestStatus {
    type V = ManifestStatusView;

    open spec fn view(&self) -> ManifestStatusView {
        ManifestStatusView {
            conditions: self.conditions@,
            summary: match self.summary {
                Some(s) => Some(s@),
                None => None,
            },
        }
    }
}

impl Default for ManifestStatus {
    /// The state a record starts in: no conditions, no summary.
    fn default() -> (r: Self)
        ensures
            r@.conditions.generated is None,
            r@.conditions.applied is None,
            r@.conditions.rolledout is None,
            r@.summary is None,
    {
        ManifestStatus { conditions: Conditions::default(), summary: None }
    }
}

/// A snapshot of the build-environment variables that identity
/// resolution reads, taken by the caller from the process environment.
pub struct BuildEnv {
    pub build_url: Option<String>,
    pub job_name: Option<String>,
    pub build_number: Option<String>,
    pub circle_build_url: Option<String>,
    pub circle_job: Option<String>,
    pub circle_build_num: Option<String>,
    pub user: Option<String>,
}

#[verifier::ext_equal]
pub struct BuildEnvView {
    pub build_url: Option<Seq<char>>,
    pub job_name: Option<Seq<char>>,
    pub build_number: Option<Seq<char>>,
    pub circle_build_url: Option<Seq<char>>,
    pub circle_job: Option<Seq<char>>,
    pub circle_build_num: Option<Seq<char>>,
    pub user: Option<Seq<char>>,
}

impl View for BuildEnv {
    type V = BuildEnvView;

    open spec fn view(&self) -> BuildEnvView {
        BuildEnvView {
            build_url: opt_str_view(self.build_url),
            job_name: opt_str_view(self.job_name),
            build_number: opt_str_view(self.build_number),
            circle_build_url: opt_str_view(self.circle_build_url),
            circle_job: opt_str_view(self.circle_job),
            circle_build_num: opt_str_view(self.circle_build_num),
            user: opt_str_view(self.user),
        }
    }
}

/// Who to attribute an update to, resolved from the environment
/// snapshot; first match wins, and resolution never fails.
pub open spec fn spec_infer(e: BuildEnvView) -> ApplierView {
    match (e.build_url, e.job_name, e.build_number) {
        (Some(url), Some(name), Some(nr)) => ApplierView {
            name: name + "#"@ + nr,
            url: Some(url),
        },
        _ => match (e.circle_build_url, e.circle_job, e.circle_build_num) {
            (Some(url), Some(name), Some(nr)) => ApplierView {
                name: name + "#"@ + nr,
                url: Some(url),
            },
            _ => match e.user {
                Some(u) => ApplierView { name: u, url: None },
                None => ApplierView { name: "unknown origin"@, url: None },
            },
        },
    }
}

impl Applier {
    /// Infer the originator of an apply from an environment snapshot:
    /// a known build server first, then the current user, then a
    /// placeholder, so that resolution always succeeds.
    pub fn infer(env: &BuildEnv) -> (a: Applier)
        ensures
            a@ == spec_infer(env@),
    {
        match (&env.build_url, &env.job_name, &env.build_number) {
            (Some(url), Some(name), Some(nr)) => {
                let mut n = name.clone();
                n.append("#");
                n.append(nr.as_str());
                Applier { name: n, url: Some(url.clone()) }
            },
            _ => match (&env.circle_build_url, &env.circle_job, &env.circle_build_num) {
                (Some(url), Some(name), Some(nr)) => {
                    let mut n = name.clone();
                    n.append("#");
                    n.append(nr.as_str());
                    Applier { name: n, url: Some(url.clone()) }
                },
                _ => match &env.user {
                    Some(u) => Applier { name: u.clone(), url: None },
                    None => Applier { name: String::from_str("unknown origin"), url: None },
                },
            },
        }
    }
}

} // verus!
