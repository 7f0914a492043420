//! What holds of every run of the state machine.

use vstd::prelude::*;
use crate::pipeline::{Action, Event, Grant, Ids, Run, RuleAction, Stage, Verdict};
use crate::remap::CloneMap;

verus! {

impl Action {
    /// The request resolves a name and leaves the policy as it is.
    pub open spec fn is_lookup(self) -> bool {
        self is LookupType || self is LookupClass || self is LookupPermission
    }

    /// The request changes the policy in memory.
    pub open spec fn changes_policy(self) -> bool {
        self is CreateType || self is CopyRoles || self is CopyAttributes
            || self is CopyConstraints || self is CopyRules || self is SetRule
            || self is StripNoAudit
    }
}

impl Run {
    /// The run as it stands before the answer number `k` of `events`.
    pub open spec fn before(self, events: Seq<Event>, k: int) -> Run {
        self.after(events.take(k))
    }

    /// Answer number `k` takes the run from where it stood before that answer
    /// to where it stands before the next.
    pub proof fn lemma_before_next(self, events: Seq<Event>, k: int)
        requires
            0 <= k < events.len(),
        ensures
            self.before(events, k + 1) == self.before(events, k).absorbed(events[k]),
    {
        assert(events.take(k + 1).drop_last() =~= events.take(k));
        assert(events.take(k + 1).last() == events[k]);
    }

    /// A run that has ended is moved by no answer, and asks for nothing more:
    /// a request that failed is never tried again.
    pub proof fn lemma_end_is_final(self, events: Seq<Event>)
        requires
            self.stage.is_terminal(),
        ensures
            self.after(events) == self,
            self.requested() is Finish || self.requested() is Abort,
        decreases events.len(),
    {
        if events.len() > 0 {
            self.lemma_end_is_final(events.drop_last());
        }
    }

    /// Once answer number `i` has ended the run, the run stands there before
    /// every later answer and after the last.
    pub proof fn lemma_end_persists(self, events: Seq<Event>, i: int, k: int)
        requires
            0 <= i < k <= events.len(),
            self.before(events, i + 1).stage.is_terminal(),
        ensures
            self.before(events, k) == self.before(events, i + 1),
        decreases k - i,
    {
        if k > i + 1 {
            self.lemma_end_persists(events, i, k - 1);
            self.lemma_before_next(events, k - 1);
        }
    }

    /// While a name is being resolved, every request so far has resolved a
    /// name too.
    pub proof fn lemma_lookups_come_first(self, events: Seq<Event>, i: int, k: int)
        requires
            0 <= k <= i <= events.len(),
            self.before(events, i).stage.is_lookup(),
        ensures
            self.before(events, k).stage.is_lookup(),
            self.before(events, k).requested().is_lookup(),
        decreases i - k,
    {
        if k < i {
            self.lemma_lookups_come_first(events, i, k + 1);
            self.lemma_before_next(events, k);
        }
    }

    /// A name that cannot be resolved ends the run before anything is changed
    /// or written. If answer number `i` reports a name absent, then every
    /// request up to that one only resolved a name, and every request after
    /// it is the one to give up, for the reason that this name is missing.
    pub proof fn lemma_unresolved_name_aborts(
        strip_no_audit: bool,
        events: Seq<Event>,
        i: int,
    )
        requires
            0 <= i < events.len(),
            Run::initial(strip_no_audit).before(events, i).stage.is_lookup(),
            events[i] == Event::Absent,
        ensures
            Run::initial(strip_no_audit).before(events, i).stage.failure().is_some(),
            Run::initial(strip_no_audit).before(
                events,
                i,
            ).stage.failure().unwrap().is_lookup_failure(),
            forall|k: int|
                0 <= k <= events.len() ==> {
                    let request = (#[trigger] Run::initial(strip_no_audit).before(
                        events,
                        k,
                    )).requested();
                    !request.changes_policy() && request != Action::WritePolicy
                },
            forall|k: int|
                0 <= k <= i ==> (#[trigger] Run::initial(strip_no_audit).before(
                    events,
                    k,
                )).requested().is_lookup(),
            forall|k: int|
                i < k <= events.len() ==> (#[trigger] Run::initial(strip_no_audit).before(
                    events,
                    k,
                )).requested() == Action::Abort(
                    Run::initial(strip_no_audit).before(events, i).stage.failure().unwrap(),
                ),
    {
        let start = Run::initial(strip_no_audit);
        assert forall|k: int| 0 <= k <= i implies (#[trigger] start.before(
            events,
            k,
        )).requested().is_lookup() by {
            start.lemma_lookups_come_first(events, i, k);
        }
        start.lemma_before_next(events, i);
        assert forall|k: int| i < k <= events.len() implies (#[trigger] start.before(
            events,
            k,
        )).requested() == Action::Abort(start.before(events, i).stage.failure().unwrap()) by {
            start.lemma_end_persists(events, i, k);
        }
        assert forall|k: int| 0 <= k <= events.len() implies {
            let request = (#[trigger] start.before(events, k)).requested();
            !request.changes_policy() && request != Action::WritePolicy
        } by {
            if k <= i {
                assert(start.before(events, k).requested().is_lookup());
            } else {
                assert(start.before(events, k).requested() is Abort);
            }
        }
    }

    /// A clone whose name is taken ends the run. If answer number `i` turns
    /// the creation of a type down, then every request after it is the one to
    /// give up, for the reason that the name exists: nothing is copied,
    /// granted, stripped or written.
    pub proof fn lemma_name_collision_aborts(self, events: Seq<Event>, i: int)
        requires
            0 <= i < events.len(),
            self.before(events, i).stage.is_creation(),
            events[i] == Event::Failed,
        ensures
            self.before(events, i).stage.failure().unwrap() is TypeExists,
            forall|k: int|
                i < k <= events.len() ==> (#[trigger] self.before(events, k)).requested()
                    == Action::Abort(self.before(events, i).stage.failure().unwrap()),
    {
        self.lemma_before_next(events, i);
        assert forall|k: int| i < k <= events.len() implies (#[trigger] self.before(
            events,
            k,
        )).requested() == Action::Abort(self.before(events, i).stage.failure().unwrap()) by {
            self.lemma_end_persists(events, i, k);
        }
    }

    /// Any answer that is no success ends the run at once, and an answer
    /// that is one never does.
    pub proof fn lemma_only_failure_aborts(self, event: Event)
        requires
            !self.stage.is_terminal(),
        ensures
            self.absorbed(event).stage is Aborted <==> (self.stage.judged(event) == Verdict::Fail
                || self.stage.judged(event) == Verdict::Unexpected),
            !(self.absorbed(event).stage is Aborted) ==> self.absorbed(event).stage
                == self.stage.successor(self.strip_no_audit),
    {
    }

    /// The policy is written out last. When the open request is to write,
    /// every earlier request was answered with success, and twenty or
    /// nineteen answers came in, with or without the removal of the rules
    /// that suppress audit messages.
    pub proof fn lemma_write_comes_last(strip_no_audit: bool, events: Seq<Event>)
        requires
            Run::initial(strip_no_audit).after(events).stage == Stage::Write,
        ensures
            events.len() == if strip_no_audit { 20int } else { 19int },
            forall|k: int|
                0 <= k < events.len() ==> {
                    let v = (#[trigger] Run::initial(strip_no_audit).before(
                        events,
                        k,
                    )).stage.judged(events[k]);
                    v is Store || v == Verdict::Proceed
                },
    {
        let start = Run::initial(strip_no_audit);
        assert(events.take(events.len() as int) =~= events);
        assert forall|k: int| 0 <= k < events.len() implies {
            let v = (#[trigger] start.before(events, k)).stage.judged(events[k]);
            v is Store || v == Verdict::Proceed
        } by {
            let v = start.before(events, k).stage.judged(events[k]);
            if !(v is Store || v == Verdict::Proceed) {
                start.lemma_before_next(events, k);
                if start.before(events, k).stage.is_terminal() {
                    start.before(events, k).lemma_end_is_final(seq![events[k]]);
                }
                assert(start.before(events, k + 1).stage.is_terminal());
                if k + 1 < events.len() {
                    start.lemma_end_persists(events, k, events.len() as int);
                }
            }
        }
        Self::lemma_ids_are_answers(strip_no_audit, events, events.len() as int);
    }

    /// The place of a request in the order in which a run makes them.
    pub open spec fn rank(stage: Stage, strip_no_audit: bool) -> int {
        match stage {
            Stage::FindSource => 0,
            Stage::FindCompanion => 1,
            Stage::FindHal => 2,
            Stage::FindHalService => 3,
            Stage::FindBinder => 4,
            Stage::FindCall => 5,
            Stage::FindServiceManager => 6,
            Stage::FindFind => 7,
            Stage::CreateClone => 8,
            Stage::CreateCompanionClone => 9,
            Stage::CopyRoles => 10,
            Stage::CopyCompanionRoles => 11,
            Stage::CopyAttributes => 12,
            Stage::CopyCompanionAttributes => 13,
            Stage::CopyConstraints => 14,
            Stage::CopyCompanionConstraints => 15,
            Stage::CopyRules => 16,
            Stage::GrantFind => 17,
            Stage::GrantCall => 18,
            Stage::Strip => 19,
            Stage::Write => if strip_no_audit {
                20
            } else {
                19
            },
            Stage::Finished => if strip_no_audit {
                21
            } else {
                20
            },
            Stage::Aborted(_) => -1,
        }
    }
}
impl Ids {
    /// The identifier that the request number `n` of a run gives, counted
    /// from zero: eight lookups, then the two clones.
    pub open spec fn slot(self, n: int) -> u32 {
        if n == 0 {
            self.source
        } else if n == 1 {
            self.companion
        } else if n == 2 {
            self.hal
        } else if n == 3 {
            self.hal_service
        } else if n == 4 {
            self.binder
        } else if n == 5 {
            self.call
        } else if n == 6 {
            self.service_manager
        } else if n == 7 {
            self.find
        } else if n == 8 {
            self.clone
        } else {
            self.companion_clone
        }
    }
}

impl Run {
    /// One answer of success moves the run on by one request. Where the
    /// request gives an identifier, the answer is one, and the run keeps it
    /// in the request's place and leaves the other identifiers as they were.
    pub proof fn lemma_step_records(self, event: Event)
        requires
            !self.stage.is_terminal(),
            self.stage == Stage::Strip ==> self.strip_no_audit,
            !(self.absorbed(event).stage is Aborted),
        ensures
            ({
                let n = Run::rank(self.stage, self.strip_no_audit);
                let next = self.absorbed(event);
                &&& next.strip_no_audit == self.strip_no_audit
                &&& Run::rank(next.stage, self.strip_no_audit) == n + 1
                &&& next.stage == Stage::Strip ==> self.strip_no_audit
                &&& n < 10 ==> event is Id && next.ids.slot(n) == event->Id_0
                &&& forall|j: int| 0 <= j < 10 && j != n ==> next.ids.slot(j) == self.ids.slot(j)
            }),
    {
        let n = Run::rank(self.stage, self.strip_no_audit);
        let next = self.absorbed(event);
        assert forall|j: int| 0 <= j < 10 && j != n implies next.ids.slot(j) == self.ids.slot(
            j,
        ) by {}
    }

    /// Every request is made with the identifiers that the store gave. In a
    /// run that was not given up, the request number `n` is open after
    /// exactly `n` answers, and the identifier in each place that is filled
    /// by then is the one that answered the request of that place.
    pub proof fn lemma_ids_are_answers(strip_no_audit: bool, events: Seq<Event>, k: int)
        requires
            0 <= k <= events.len(),
            !(Run::initial(strip_no_audit).before(events, k).stage is Aborted),
        ensures
            ({
                let run = Run::initial(strip_no_audit).before(events, k);
                &&& run.strip_no_audit == strip_no_audit
                &&& run.stage != Stage::Finished ==> Run::rank(run.stage, strip_no_audit) == k
                &&& run.stage == Stage::Finished ==> Run::rank(run.stage, strip_no_audit) <= k
                &&& run.stage == Stage::Strip ==> strip_no_audit
                &&& forall|j: int|
                    0 <= j < k && j < 10 ==> (#[trigger] events[j]) is Id && run.ids.slot(j)
                        == events[j]->Id_0
            }),
        decreases k,
    {
        let start = Run::initial(strip_no_audit);
        if k == 0 {
            assert(events.take(0) =~= Seq::<Event>::empty());
        } else {
            start.lemma_before_next(events, k - 1);
            let prev = start.before(events, k - 1);
            let run = start.before(events, k);
            if prev.stage is Aborted {
                prev.lemma_end_is_final(seq![events[k - 1]]);
            } else {
                Self::lemma_ids_are_answers(strip_no_audit, events, k - 1);
                if prev.stage != Stage::Finished {
                    prev.lemma_step_records(events[k - 1]);
                    assert forall|j: int| 0 <= j < k && j < 10 implies (#[trigger] events[j]) is Id
                        && run.ids.slot(j) == events[j]->Id_0 by {
                        if j < k - 1 {
                            assert(run.ids.slot(j) == prev.ids.slot(j));
                        }
                    }
                }
            }
        }
    }
}

impl Run {
    /// The clone is made after its source, with the identifiers that the
    /// store gave. In a run not given up, the requests that copy roles,
    /// attributes, constraints and rules pair each cloned type, as it was
    /// looked up, with its own clone, as it was created; and each of the two
    /// grants is an allow rule from the clone to the type, class and
    /// permission that were looked up for it.
    pub proof fn lemma_clone_mirrors_source(strip_no_audit: bool, events: Seq<Event>, k: int)
        requires
            10 <= k <= events.len(),
            k <= 18,
            !(Run::initial(strip_no_audit).before(events, k).stage is Aborted),
        ensures
            ({
                let request = Run::initial(strip_no_audit).before(events, k).requested();
                let source = events[0]->Id_0;
                let companion = events[1]->Id_0;
                let clone = events[8]->Id_0;
                let companion_clone = events[9]->Id_0;
                &&& k == 10 ==> request == (Action::CopyRoles { src: source, dst: clone })
                &&& k == 11 ==> request == (Action::CopyRoles {
                    src: companion,
                    dst: companion_clone,
                })
                &&& k == 12 ==> request == (Action::CopyAttributes { src: source, dst: clone })
                &&& k == 13 ==> request == (Action::CopyAttributes {
                    src: companion,
                    dst: companion_clone,
                })
                &&& k == 14 ==> request == (Action::CopyConstraints { src: source, dst: clone })
                &&& k == 15 ==> request == (Action::CopyConstraints {
                    src: companion,
                    dst: companion_clone,
                })
                &&& k == 16 ==> request == Action::CopyRules(
                    CloneMap { source, clone, companion, companion_clone },
                )
                &&& k == 17 ==> request == Action::SetRule(
                    Grant {
                        source: clone,
                        target: events[3]->Id_0,
                        class: events[6]->Id_0,
                        permission: events[7]->Id_0,
                        action: RuleAction::Allow,
                    },
                )
                &&& k == 18 ==> request == Action::SetRule(
                    Grant {
                        source: clone,
                        target: events[2]->Id_0,
                        class: events[4]->Id_0,
                        permission: events[5]->Id_0,
                        action: RuleAction::Allow,
                    },
                )
            }),
    {
        Self::lemma_ids_are_answers(strip_no_audit, events, k);
        let ids = Run::initial(strip_no_audit).before(events, k).ids;
        assert(ids.slot(0) == events[0]->Id_0);
        assert(ids.slot(1) == events[1]->Id_0);
        assert(ids.slot(2) == events[2]->Id_0);
        assert(ids.slot(3) == events[3]->Id_0);
        assert(ids.slot(4) == events[4]->Id_0);
        assert(ids.slot(5) == events[5]->Id_0);
        assert(ids.slot(6) == events[6]->Id_0);
        assert(ids.slot(7) == events[7]->Id_0);
        assert(ids.slot(8) == events[8]->Id_0);
        assert(ids.slot(9) == events[9]->Id_0);
    }
}

} // verus!
