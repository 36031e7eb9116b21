//! Partial-update documents, one per phase transition, and the handle
//! that builds them for a bound artifact.
//!
//! A patch is modelled directly as a sparse document: it names the one
//! condition slot it overwrites and, per summary field, one of three
//! states — untouched, set to a value, or explicitly cleared.  Fields
//! it leaves untouched the remote store leaves unchanged, which is what
//! lets updates to different phases interleave without clobbering each
//! other.

use vstd::prelude::*;

use crate::condition::{
    clone_opt_string, spec_condition_bad, spec_condition_ok, spec_empty_summary, Applier,
    ApplierView, Condition, ConditionSummary, ConditionSummaryView, ConditionView, Conditions,
    ConditionsView, ManifestStatus, ManifestStatusView,
};
use crate::time::Timestamp;

verus! {

/// The three sequential phases a deployment passes through.
#[derive(Clone, Copy, PartialEq, Eq, Structural, Debug)]
pub enum Phase {
    Generated,
    Applied,
    Rolledout,
}

/// One text field of a partial document.  A present key with a null
/// value differs on the wire from an absent key, so three states are
/// distinguished: left out of the document, explicitly cleared, or set.
pub enum FieldPatch {
    /// The document does not mention the field: the store keeps it.
    Untouched,
    /// The document carries an explicit null: the store erases it.
    Clear,
    /// The document sets the field to this value.
    Assign(String),
}

pub enum FieldPatchView {
    Untouched,
    Clear,
    Assign(Seq<char>),
}

impl View for FieldPatch {
    type V = FieldPatchView;

    open spec fn view(&self) -> FieldPatchView {
        match self {
            FieldPatch::Untouched => FieldPatchView::Untouched,
            FieldPatch::Clear => FieldPatchView::Clear,
            FieldPatch::Assign(s) => FieldPatchView::Assign(s@),
        }
    }
}

/// The summary fields one transition touches; everything else is
/// omitted from the document entirely.
pub struct SummaryPatch {
    pub last_successful_generate: Option<Timestamp>,
    pub last_apply: Option<Timestamp>,
    pub last_successful_apply: Option<Timestamp>,
    pub last_rollout: Option<Timestamp>,
    pub last_successful_rollout: Option<Timestamp>,
    pub reason: FieldPatch,
    pub status: Option<bool>,
    pub upgrade_reason: Option<String>,
}

#[verifier::ext_equal]
pub struct SummaryPatchView {
    pub last_successful_generate: Option<Timestamp>,
    pub last_apply: Option<Timestamp>,
    pub last_successful_apply: Option<Timestamp>,
    pub last_rollout: Option<Timestamp>,
    pub last_successful_rollout: Option<Timestamp>,
    pub reason: FieldPatchView,
    pub status: Option<bool>,
    pub upgrade_reason: Option<Seq<char>>,
}

impl SummaryPatchView {
    /// Every timestamp the patch writes is a valid calendar instant.
    pub open spec fn wf(self) -> bool {
        &&& (self.last_successful_generate matches Some(t) ==> t.wf())
        &&& (self.last_apply matches Some(t) ==> t.wf())
        &&& (self.last_successful_apply matches Some(t) ==> t.wf())
        &&& (self.last_rollout matches Some(t) ==> t.wf())
        &&& (self.last_successful_rollout matches Some(t) ==> t.wf())
    }
}

impl View for SummaryPatch {
    type V = SummaryPatchView;

    open spec fn view(&self) -> SummaryPatchView {
        SummaryPatchView {
            last_successful_generate: self.last_successful_generate,
            last_apply: self.last_apply,
            last_successful_apply: self.last_successful_apply,
            last_rollout: self.last_rollout,
            last_successful_rollout: self.last_successful_rollout,
            reason: self.reason@,
            status: self.status,
            upgrade_reason: crate::condition::opt_str_view(self.upgrade_reason),
        }
    }
}

/// A summary patch that touches nothing.
pub open spec fn spec_untouched_summary() -> SummaryPatchView {
    SummaryPatchView {
        last_successful_generate: None,
        last_apply: None,
        last_successful_apply: None,
        last_rollout: None,
        last_successful_rollout: None,
        reason: FieldPatchView::Untouched,
        status: None,
        upgrade_reason: None,
    }
}

/// One phase transition as a partial-update document: the affected
/// condition slot, the freshly built condition for it, and the summary
/// fields the transition touches.
pub struct StatusPatch {
    pub phase: Phase,
    pub condition: Condition,
    pub summary: SummaryPatch,
}

#[verifier::ext_equal]
pub struct StatusPatchView {
    pub phase: Phase,
    pub condition: ConditionView,
    pub summary: SummaryPatchView,
}

impl View for StatusPatch {
    type V = StatusPatchView;

    open spec fn view(&self) -> StatusPatchView {
        StatusPatchView { phase: self.phase, condition: self.condition@, summary: self.summary@ }
    }
}

impl StatusPatchView {
    /// The condition obeys its construction invariant and every
    /// timestamp in the document is a valid calendar instant.
    pub open spec fn wf(self) -> bool {
        self.condition.wf() && self.summary.wf()
    }
}

/// Template generation succeeded: overwrite the `generated` slot with a
/// healthy condition and record the time; touch nothing else.
pub open spec fn spec_generate_true_patch(a: ApplierView, now: Timestamp) -> StatusPatchView {
    StatusPatchView {
        phase: Phase::Generated,
        condition: spec_condition_ok(a, now),
        summary: SummaryPatchView { last_successful_generate: Some(now), ..spec_untouched_summary() },
    }
}

/// Template generation failed: overwrite the `generated` slot with an
/// unhealthy condition, record the failure message, pull the overall
/// flag down; no generation time is recorded.
pub open spec fn spec_generate_false_patch(
    a: ApplierView,
    err: Seq<char>,
    msg: Seq<char>,
    now: Timestamp,
) -> StatusPatchView {
    StatusPatchView {
        phase: Phase::Generated,
        condition: spec_condition_bad(a, err, msg, now),
        summary: SummaryPatchView {
            reason: FieldPatchView::Assign(msg),
            status: Some(false),
            ..spec_untouched_summary()
        },
    }
}

/// Cluster application succeeded: overwrite the `applied` slot, record
/// the apply time on both the attempt and the success field, and note
/// why the apply was triggered.
pub open spec fn spec_apply_true_patch(
    a: ApplierView,
    ureason: Seq<char>,
    now: Timestamp,
) -> StatusPatchView {
    StatusPatchView {
        phase: Phase::Applied,
        condition: spec_condition_ok(a, now),
        summary: SummaryPatchView {
            last_apply: Some(now),
            last_successful_apply: Some(now),
            upgrade_reason: Some(ureason),
            ..spec_untouched_summary()
        },
    }
}

/// Cluster application failed: overwrite the `applied` slot, record the
/// attempt time, the failure message, why the apply was triggered, and
/// pull the overall flag down; the last successful apply stays.
pub open spec fn spec_apply_false_patch(
    a: ApplierView,
    ureason: Seq<char>,
    err: Seq<char>,
    msg: Seq<char>,
    now: Timestamp,
) -> StatusPatchView {
    StatusPatchView {
        phase: Phase::Applied,
        condition: spec_condition_bad(a, err, msg, now),
        summary: SummaryPatchView {
            last_apply: Some(now),
            reason: FieldPatchView::Assign(msg),
            status: Some(false),
            upgrade_reason: Some(ureason),
            ..spec_untouched_summary()
        },
    }
}

/// Rollout verification failed: overwrite the `rolledout` slot, record
/// the rollout time and the failure message, pull the overall flag
/// down; the last successful rollout stays.
pub open spec fn spec_rollout_false_patch(
    a: ApplierView,
    err: Seq<char>,
    msg: Seq<char>,
    now: Timestamp,
) -> StatusPatchView {
    StatusPatchView {
        phase: Phase::Rolledout,
        condition: spec_condition_bad(a, err, msg, now),
        summary: SummaryPatchView {
            last_rollout: Some(now),
            reason: FieldPatchView::Assign(msg),
            status: Some(false),
            ..spec_untouched_summary()
        },
    }
}

/// Rollout verification succeeded: overwrite the `rolledout` slot,
/// record the rollout time on both fields, raise the overall flag, and
/// explicitly clear the recorded failure reason — the one place a prior
/// blocker is intentionally erased.
pub open spec fn spec_rollout_true_patch(a: ApplierView, now: Timestamp) -> StatusPatchView {
    StatusPatchView {
        phase: Phase::Rolledout,
        condition: spec_condition_ok(a, now),
        summary: SummaryPatchView {
            last_rollout: Some(now),
            last_successful_rollout: Some(now),
            reason: FieldPatchView::Clear,
            status: Some(true),
            ..spec_untouched_summary()
        },
    }
}

fn untouched_summary() -> (s: SummaryPatch)
    ensures
        s@ == spec_untouched_summary(),
{
    SummaryPatch {
        last_successful_generate: None,
        last_apply: None,
        last_successful_apply: None,
        last_rollout: None,
        last_successful_rollout: None,
        reason: FieldPatch::Untouched,
        status: None,
        upgrade_reason: None,
    }
}

/// The handle for dealing with one artifact's status: its identity and
/// the resolved applier that every condition is attributed to.
pub struct Status {
    /// Name of the bound artifact's record.
    pub name: String,
    /// Namespace the record lives in.
    pub namespace: String,
    /// Who updates are attributed to; resolved once per handle.
    pub applier: Applier,
}

#[verifier::ext_equal]
pub struct StatusView {
    pub name: Seq<char>,
    pub namespace: Seq<char>,
    pub applier: ApplierView,
}

impl View for Status {
    type V = StatusView;

    open spec fn view(&self) -> StatusView {
        StatusView { name: self.name@, namespace: self.namespace@, applier: self.applier@ }
    }
}

impl Status {
    /// Bind a handle to one artifact's identity.
    pub fn new(name: String, namespace: String, applier: Applier) -> (s: Status)
        ensures
            s@.name == name@,
            s@.namespace == namespace@,
            s@.applier == applier@,
    {
        Status { name, namespace, applier }
    }

    /// The patch for a successful template generation.  The document
    /// mentions no other condition slot and neither the summary reason
    /// nor the summary status.
    pub fn update_generate_true(&self, now: Timestamp) -> (p: StatusPatch)
        requires
            now.wf(),
        ensures
            p@ == spec_generate_true_patch(self@.applier, now),
            p@.wf(),
            p@.summary.reason is Untouched,
            p@.summary.status is None,
    {
        StatusPatch {
            phase: Phase::Generated,
            condition: Condition::ok(&self.applier, now),
            summary: SummaryPatch {
                last_successful_generate: Some(now),
                ..untouched_summary()
            },
        }
    }

    /// The patch for a failed template generation.
    pub fn update_generate_false(&self, err: &str, msg: String, now: Timestamp) -> (p: StatusPatch)
        requires
            now.wf(),
        ensures
            p@ == spec_generate_false_patch(self@.applier, err@, msg@, now),
            p@.wf(),
    {
        let m = msg.clone();
        StatusPatch {
            phase: Phase::Generated,
            condition: Condition::bad(&self.applier, err, msg, now),
            summary: SummaryPatch {
                reason: FieldPatch::Assign(m),
                status: Some(false),
                ..untouched_summary()
            },
        }
    }

    /// The patch for a successful cluster application; `ureason` records
    /// why the apply was attempted and is supplied even on success.
    pub fn update_apply_true(&self, ureason: String, now: Timestamp) -> (p: StatusPatch)
        requires
            now.wf(),
        ensures
            p@ == spec_apply_true_patch(self@.applier, ureason@, now),
            p@.wf(),
    {
        StatusPatch {
            phase: Phase::Applied,
            condition: Condition::ok(&self.applier, now),
            summary: SummaryPatch {
                last_apply: Some(now),
                last_successful_apply: Some(now),
                upgrade_reason: Some(ureason),
                ..untouched_summary()
            },
        }
    }

    /// The patch for a failed cluster application.
    pub fn update_apply_false(
        &self,
        ureason: String,
        err: &str,
        msg: String,
        now: Timestamp,
    ) -> (p: StatusPatch)
        requires
            now.wf(),
        ensures
            p@ == spec_apply_false_patch(self@.applier, ureason@, err@, msg@, now),
            p@.wf(),
    {
        let m = msg.clone();
        StatusPatch {
            phase: Phase::Applied,
            condition: Condition::bad(&self.applier, err, msg, now),
            summary: SummaryPatch {
                last_apply: Some(now),
                reason: FieldPatch::Assign(m),
                status: Some(false),
                upgrade_reason: Some(ureason),
                ..untouched_summary()
            },
        }
    }

    /// The patch for a failed rollout verification.
    pub fn update_rollout_false(&self, err: &str, msg: String, now: Timestamp) -> (p: StatusPatch)
        requires
            now.wf(),
        ensures
            p@ == spec_rollout_false_patch(self@.applier, err@, msg@, now),
            p@.wf(),
    {
        let m = msg.clone();
        StatusPatch {
            phase: Phase::Rolledout,
            condition: Condition::bad(&self.applier, err, msg, now),
            summary: SummaryPatch {
                last_rollout: Some(now),
                reason: FieldPatch::Assign(m),
                status: Some(false),
                ..untouched_summary()
            },
        }
    }

    /// The patch for a successful rollout verification.  The summary
    /// reason is set to the explicit clear marker, never merely left
    /// out: a later full success erases the last recorded blocker.
    pub fn update_rollout_true(&self, now: Timestamp) -> (p: StatusPatch)
        requires
            now.wf(),
        ensures
            p@ == spec_rollout_true_patch(self@.applier, now),
            p@.wf(),
            p@.summary.reason is Clear,
            p@.summary.status == Some(true),
    {
        StatusPatch {
            phase: Phase::Rolledout,
            condition: Condition::ok(&self.applier, now),
            summary: SummaryPatch {
                last_rollout: Some(now),
                last_successful_rollout: Some(now),
                reason: FieldPatch::Clear,
                status: Some(true),
                ..untouched_summary()
            },
        }
    }
}

/// What the remote store's merge semantics make of one summary patch:
/// touched fields take the patch's value, a cleared field becomes
/// absent, untouched fields keep the base's value.
pub open spec fn spec_merge_summary(
    base: ConditionSummaryView,
    p: SummaryPatchView,
) -> ConditionSummaryView {
    ConditionSummaryView {
        last_successful_generate: if p.last_successful_generate is Some {
            p.last_successful_generate
        } else {
            base.last_successful_generate
        },
        last_apply: if p.last_apply is Some {
            p.last_apply
        } else {
            base.last_apply
        },
        last_successful_apply: if p.last_successful_apply is Some {
            p.last_successful_apply
        } else {
            base.last_successful_apply
        },
        last_rollout: if p.last_rollout is Some {
            p.last_rollout
        } else {
            base.last_rollout
        },
        last_successful_rollout: if p.last_successful_rollout is Some {
            p.last_successful_rollout
        } else {
            base.last_successful_rollout
        },
        reason: match p.reason {
            FieldPatchView::Untouched => base.reason,
            FieldPatchView::Clear => None,
            FieldPatchView::Assign(s) => Some(s),
        },
        status: match p.status {
            Some(b) => b,
            None => base.status,
        },
        upgrade_reason: if p.upgrade_reason is Some {
            p.upgrade_reason
        } else {
            base.upgrade_reason
        },
    }
}

/// What the remote store's merge semantics make of one status patch:
/// the named slot is overwritten with the fresh condition, the other
/// slots are untouched, and the summary is merged field by field on
/// top of the prior summary, or of the empty one where none existed.
pub open spec fn spec_apply_patch(
    s: ManifestStatusView,
    p: StatusPatchView,
) -> ManifestStatusView {
    let base = match s.summary {
        Some(sm) => sm,
        None => spec_empty_summary(),
    };
    ManifestStatusView {
        conditions: ConditionsView {
            generated: if p.phase == Phase::Generated {
                Some(p.condition)
            } else {
                s.conditions.generated
            },
            applied: if p.phase == Phase::Applied {
                Some(p.condition)
            } else {
                s.conditions.applied
            },
            rolledout: if p.phase == Phase::Rolledout {
                Some(p.condition)
            } else {
                s.conditions.rolledout
            },
        },
        summary: Some(spec_merge_summary(base, p.summary)),
    }
}

fn clone_opt_condition(o: &Option<Condition>) -> (r: Option<Condition>)
    ensures
        crate::condition::opt_cond_view(r) == crate::condition::opt_cond_view(*o),
{
    match o {
        Some(c) => Some(c.clone()),
        None => None,
    }
}

fn merge_summary(base: &ConditionSummary, p: &SummaryPatch) -> (r: ConditionSummary)
    ensures
        r@ == spec_merge_summary(base@, p@),
{
    ConditionSummary {
        last_successful_generate: if p.last_successful_generate.is_some() {
            p.last_successful_generate
        } else {
            base.last_successful_generate
        },
        last_apply: if p.last_apply.is_some() {
            p.last_apply
        } else {
            base.last_apply
        },
        last_successful_apply: if p.last_successful_apply.is_some() {
            p.last_successful_apply
        } else {
            base.last_successful_apply
        },
        last_rollout: if p.last_rollout.is_some() {
            p.last_rollout
        } else {
            base.last_rollout
        },
        last_successful_rollout: if p.last_successful_rollout.is_some() {
            p.last_successful_rollout
        } else {
            base.last_successful_rollout
        },
        reason: match &p.reason {
            FieldPatch::Untouched => clone_opt_string(&base.reason),
            FieldPatch::Clear => None,
            FieldPatch::Assign(s) => Some(s.clone()),
        },
        status: match p.status {
            Some(b) => b,
            None => base.status,
        },
        upgrade_reason: if p.upgrade_reason.is_some() {
            clone_opt_string(&p.upgrade_reason)
        } else {
            clone_opt_string(&base.upgrade_reason)
        },
    }
}

impl ManifestStatus {
    /// The store-side effect of one patch, as a value: what a record
    /// holding `self` holds after the store applies `p`.  Writing one
    /// slot never reads or alters another, and summary fields the patch
    /// leaves untouched keep their prior value.
    pub fn apply_patch(&self, p: &StatusPatch) -> (r: ManifestStatus)
        ensures
            r@ == spec_apply_patch(self@, p@),
    {
        let fresh = Some(p.condition.clone());
        let conditions = match p.phase {
            Phase::Generated => Conditions {
                generated: fresh,
                applied: clone_opt_condition(&self.conditions.applied),
                rolledout: clone_opt_condition(&self.conditions.rolledout),
            },
            Phase::Applied => Conditions {
                generated: clone_opt_condition(&self.conditions.generated),
                applied: fresh,
                rolledout: clone_opt_condition(&self.conditions.rolledout),
            },
            Phase::Rolledout => Conditions {
                generated: clone_opt_condition(&self.conditions.generated),
                applied: clone_opt_condition(&self.conditions.applied),
                rolledout: fresh,
            },
        };
        let summary = match &self.summary {
            Some(s) => merge_summary(s, &p.summary),
            None => {
                let d = ConditionSummary::default();
                merge_summary(&d, &p.summary)
            },
        };
        let r = ManifestStatus { conditions, summary: Some(summary) };
        assert(r@ =~~= spec_apply_patch(self@, p@));
        r
    }
}

} // verus!
