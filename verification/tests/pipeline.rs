use chargelimit_selinux::error::{PatchError, StoreOp};
use chargelimit_selinux::names::{ClassName, PermName, TypeName};
use chargelimit_selinux::pipeline::{Action, Event, Grant, Ids, Run, RuleAction, Stage, Verdict};
use chargelimit_selinux::remap::CloneMap;

fn good_events(strip: bool) -> Vec<Event> {
    let mut v = vec![
        Event::Id(1),
        Event::Id(2),
        Event::Id(3),
        Event::Id(4),
        Event::Id(5),
        Event::Id(6),
        Event::Id(7),
        Event::Id(8),
        Event::Id(9),
        Event::Id(10),
        Event::Done,
        Event::Done,
        Event::Done,
        Event::Done,
        Event::Done,
        Event::Done,
        Event::Done,
        Event::Done,
        Event::Done,
    ];
    if strip {
        v.push(Event::Done);
    }
    v.push(Event::Done);
    v
}

fn actions(strip: bool, events: &[Event]) -> Vec<Action> {
    let mut run = Run::new(strip);
    let mut out = vec![run.action()];
    for e in events {
        let (next, action) = run.step(*e);
        run = next;
        out.push(action);
    }
    out
}

fn expected_prefix() -> Vec<Action> {
    vec![
        Action::LookupType(TypeName::UntrustedApp),
        Action::LookupType(TypeName::UntrustedAppUserfaultfd),
        Action::LookupType(TypeName::HalGooglebattery),
        Action::LookupType(TypeName::HalGooglebatteryService),
        Action::LookupClass(ClassName::Binder),
        Action::LookupPermission(5, PermName::Call),
        Action::LookupClass(ClassName::ServiceManager),
        Action::LookupPermission(7, PermName::Find),
        Action::CreateType(TypeName::ChargelimitApp),
        Action::CreateType(TypeName::ChargelimitAppUserfaultfd),
        Action::CopyRoles { src: 1, dst: 9 },
        Action::CopyRoles { src: 2, dst: 10 },
        Action::CopyAttributes { src: 1, dst: 9 },
        Action::CopyAttributes { src: 2, dst: 10 },
        Action::CopyConstraints { src: 1, dst: 9 },
        Action::CopyConstraints { src: 2, dst: 10 },
        Action::CopyRules(CloneMap { source: 1, clone: 9, companion: 2, companion_clone: 10 }),
        Action::SetRule(Grant {
            source: 9,
            target: 4,
            class: 7,
            permission: 8,
            action: RuleAction::Allow,
        }),
        Action::SetRule(Grant {
            source: 9,
            target: 3,
            class: 5,
            permission: 6,
            action: RuleAction::Allow,
        }),
    ]
}

#[test]
fn new_run_starts_with_the_source_lookup() {
    let run = Run::new(false);
    assert_eq!(run.stage, Stage::FindSource);
    assert_eq!(run.ids, Ids::empty());
    assert!(!run.strip_no_audit);
    assert_eq!(run.action(), Action::LookupType(TypeName::UntrustedApp));
    assert!(Run::new(true).strip_no_audit);
}

#[test]
fn full_run_without_stripping() {
    let mut want = expected_prefix();
    want.push(Action::WritePolicy);
    want.push(Action::Finish);
    assert_eq!(actions(false, &good_events(false)), want);
}

#[test]
fn full_run_with_stripping() {
    let mut want = expected_prefix();
    want.push(Action::StripNoAudit);
    want.push(Action::WritePolicy);
    want.push(Action::Finish);
    assert_eq!(actions(true, &good_events(true)), want);
}

#[test]
fn unresolved_name_aborts_before_any_change() {
    let reasons = [
        PatchError::TypeNotFound(TypeName::UntrustedApp),
        PatchError::TypeNotFound(TypeName::UntrustedAppUserfaultfd),
        PatchError::TypeNotFound(TypeName::HalGooglebattery),
        PatchError::TypeNotFound(TypeName::HalGooglebatteryService),
        PatchError::ClassNotFound(ClassName::Binder),
        PatchError::PermissionNotFound(PermName::Call),
        PatchError::ClassNotFound(ClassName::ServiceManager),
        PatchError::PermissionNotFound(PermName::Find),
    ];
    for (i, reason) in reasons.iter().enumerate() {
        let mut events = good_events(true);
        events[i] = Event::Absent;
        let got = actions(true, &events);
        for (k, a) in got.iter().enumerate() {
            if k <= i {
                assert!(matches!(
                    a,
                    Action::LookupType(_) | Action::LookupClass(_) | Action::LookupPermission(_, _)
                ));
            } else {
                assert_eq!(*a, Action::Abort(*reason));
            }
        }
    }
}

#[test]
fn taken_name_aborts() {
    let mut events = good_events(false);
    events[8] = Event::Failed;
    let got = actions(false, &events);
    assert_eq!(got[8], Action::CreateType(TypeName::ChargelimitApp));
    for a in &got[9..] {
        assert_eq!(*a, Action::Abort(PatchError::TypeExists(TypeName::ChargelimitApp)));
    }
    let mut events = good_events(false);
    events[9] = Event::Failed;
    let got = actions(false, &events);
    for a in &got[10..] {
        assert_eq!(*a, Action::Abort(PatchError::TypeExists(TypeName::ChargelimitAppUserfaultfd)));
    }
}

#[test]
fn failed_copy_aborts_with_its_reason() {
    let cases = [
        (10, StoreOp::CopyRoles),
        (11, StoreOp::CopyRoles),
        (12, StoreOp::CopyAttributes),
        (13, StoreOp::CopyAttributes),
        (16, StoreOp::CopyRules),
    ];
    for (i, op) in cases {
        let mut events = good_events(false);
        events[i] = Event::Failed;
        let got = actions(false, &events);
        for a in &got[i + 1..] {
            assert_eq!(*a, Action::Abort(PatchError::StoreFailed(op)));
        }
        assert!(!got.contains(&Action::WritePolicy));
    }
}

#[test]
fn failed_write_aborts() {
    let mut events = good_events(false);
    events[19] = Event::Failed;
    let got = actions(false, &events);
    assert_eq!(got[19], Action::WritePolicy);
    assert_eq!(got[20], Action::Abort(PatchError::WriteFailed));
}

#[test]
fn request_without_failure_mode_takes_no_failure() {
    for i in [14usize, 15, 17, 18] {
        let mut events = good_events(false);
        events[i] = Event::Failed;
        let got = actions(false, &events);
        assert_eq!(got[i + 1], Action::Abort(PatchError::UnexpectedEvent));
    }
    let mut events = good_events(true);
    events[19] = Event::Failed;
    let got = actions(true, &events);
    assert_eq!(got[19], Action::StripNoAudit);
    assert_eq!(got[20], Action::Abort(PatchError::UnexpectedEvent));
}

#[test]
fn answer_of_the_wrong_kind_aborts() {
    let run = Run::new(false);
    assert_eq!(run.absorb(Event::Done).stage, Stage::Aborted(PatchError::UnexpectedEvent));
    assert_eq!(run.absorb(Event::Failed).stage, Stage::Aborted(PatchError::UnexpectedEvent));
    let mut events = good_events(false);
    events[8] = Event::Absent;
    assert_eq!(actions(false, &events)[9], Action::Abort(PatchError::UnexpectedEvent));
    let mut events = good_events(false);
    events[10] = Event::Id(3);
    assert_eq!(actions(false, &events)[11], Action::Abort(PatchError::UnexpectedEvent));
}

#[test]
fn ended_run_ignores_answers() {
    let mut run = Run::new(false);
    for e in good_events(false) {
        run = run.absorb(e);
    }
    assert_eq!(run.stage, Stage::Finished);
    let ids = run.ids;
    for e in [Event::Id(77), Event::Absent, Event::Done, Event::Failed] {
        let next = run.absorb(e);
        assert_eq!(next, run);
        assert_eq!(next.ids, ids);
        assert_eq!(next.action(), Action::Finish);
    }
    let aborted = Run::new(true).absorb(Event::Absent);
    for e in [Event::Id(77), Event::Absent, Event::Done, Event::Failed] {
        assert_eq!(aborted.absorb(e), aborted);
    }
}

#[test]
fn ids_are_recorded_in_their_places() {
    let mut run = Run::new(false);
    for e in &good_events(false)[..10] {
        run = run.absorb(*e);
    }
    assert_eq!(
        run.ids,
        Ids {
            source: 1,
            companion: 2,
            hal: 3,
            hal_service: 4,
            binder: 5,
            call: 6,
            service_manager: 7,
            find: 8,
            clone: 9,
            companion_clone: 10,
        }
    );
    assert_eq!(Ids::empty().record(Stage::FindHal, 5).hal, 5);
    assert_eq!(Ids::empty().record(Stage::CopyRules, 5), Ids::empty());
}

#[test]
fn stage_helpers() {
    assert!(Stage::FindSource.resolves_name());
    assert!(Stage::FindFind.resolves_name());
    assert!(!Stage::CreateClone.resolves_name());
    assert!(Stage::CreateClone.creates_type());
    assert!(Stage::CreateCompanionClone.creates_type());
    assert!(!Stage::CopyRoles.creates_type());
    assert!(Stage::Finished.has_ended());
    assert!(Stage::Aborted(PatchError::WriteFailed).has_ended());
    assert!(!Stage::Write.has_ended());
    assert_eq!(Stage::GrantCall.next(true), Stage::Strip);
    assert_eq!(Stage::GrantCall.next(false), Stage::Write);
    assert_eq!(Stage::Strip.next(false), Stage::Write);
    assert_eq!(Stage::Write.next(false), Stage::Finished);
    assert_eq!(Stage::Finished.next(true), Stage::Finished);
    assert_eq!(Stage::CopyConstraints.failure_reason(), None);
    assert_eq!(Stage::GrantFind.failure_reason(), None);
    assert_eq!(Stage::Write.failure_reason(), Some(PatchError::WriteFailed));
    assert_eq!(Stage::FindSource.judge(Event::Id(4)), Verdict::Store(4));
    assert_eq!(Stage::FindSource.judge(Event::Absent), Verdict::Fail);
    assert_eq!(Stage::FindSource.judge(Event::Failed), Verdict::Unexpected);
    assert_eq!(Stage::CreateClone.judge(Event::Failed), Verdict::Fail);
    assert_eq!(Stage::CreateClone.judge(Event::Absent), Verdict::Unexpected);
    assert_eq!(Stage::CopyRoles.judge(Event::Done), Verdict::Proceed);
    assert_eq!(Stage::CopyRoles.judge(Event::Failed), Verdict::Fail);
    assert_eq!(Stage::CopyConstraints.judge(Event::Failed), Verdict::Unexpected);
    assert_eq!(Stage::Finished.judge(Event::Done), Verdict::Unexpected);
}

#[test]
fn names_are_spelt_as_in_the_policy() {
    assert_eq!(TypeName::UntrustedApp.as_str(), "untrusted_app");
    assert_eq!(TypeName::UntrustedAppUserfaultfd.as_str(), "untrusted_app_userfaultfd");
    assert_eq!(TypeName::ChargelimitApp.as_str(), "chargelimit_app");
    assert_eq!(TypeName::ChargelimitAppUserfaultfd.as_str(), "chargelimit_app_userfaultfd");
    assert_eq!(TypeName::HalGooglebattery.as_str(), "hal_googlebattery");
    assert_eq!(TypeName::HalGooglebatteryService.as_str(), "hal_googlebattery_service");
    assert_eq!(ClassName::Binder.as_str(), "binder");
    assert_eq!(ClassName::ServiceManager.as_str(), "service_manager");
    assert_eq!(PermName::Call.as_str(), "call");
    assert_eq!(PermName::Find.as_str(), "find");
    assert_eq!(PermName::Call.class(), ClassName::Binder);
    assert_eq!(PermName::Find.class(), ClassName::ServiceManager);
}

#[test]
fn patch_error_messages() {
    let e = PatchError::TypeNotFound(TypeName::HalGooglebattery);
    assert_eq!(e.message(), "Type not found");
    assert_eq!(e.subject(), Some("hal_googlebattery"));
    let e = PatchError::ClassNotFound(ClassName::Binder);
    assert_eq!(e.message(), "Class not found");
    assert_eq!(e.subject(), Some("binder"));
    let e = PatchError::PermissionNotFound(PermName::Find);
    assert_eq!(e.message(), "Permission not found");
    assert_eq!(e.subject(), Some("find"));
    let e = PatchError::TypeExists(TypeName::ChargelimitApp);
    assert_eq!(e.message(), "Type already exists");
    assert_eq!(e.subject(), Some("chargelimit_app"));
    assert_eq!(PatchError::StoreFailed(StoreOp::CopyRoles).message(), "Failed to copy roles");
    assert_eq!(
        PatchError::StoreFailed(StoreOp::CopyAttributes).message(),
        "Failed to copy attributes"
    );
    assert_eq!(PatchError::StoreFailed(StoreOp::CopyRules).message(), "Failed to copy rules");
    assert_eq!(PatchError::StoreFailed(StoreOp::CopyRules).subject(), None);
    assert_eq!(PatchError::WriteFailed.message(), "Failed to write sepolicy");
    assert_eq!(PatchError::WriteFailed.subject(), None);
}
