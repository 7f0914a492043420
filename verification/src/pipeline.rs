//! The run as a state machine.
//!
//! The policy store is outside this crate, so a run is a dialogue: the
//! machine names the next request, the caller performs it on the store and
//! reports what came back, and the machine moves on. All names are resolved
//! before the first request that changes the policy, and the policy is
//! written out last, only after every change has gone through.

use vstd::prelude::*;
use crate::error::{PatchError, StoreOp};
use crate::names::{ClassName, PermName, TypeName};
use crate::remap::CloneMap;

verus! {

/// What an access-vector rule does with the accesses it matches.
#[derive(Clone, Copy, Debug, PartialEq, Eq, Structural)]
pub enum RuleAction {
    Allow,
    AuditAllow,
    DontAudit,
    DontAuditXperm,
    NeverAllow,
}

/// One permission to be granted by an access-vector rule.
#[derive(Clone, Copy, Debug, PartialEq, Eq, Structural)]
pub struct Grant {
    pub source: u32,
    pub target: u32,
    pub class: u32,
    pub permission: u32,
    pub action: RuleAction,
}

/// A request to the policy store, or the end of the run.
#[derive(Clone, Copy, Debug, PartialEq, Eq, Structural)]
pub enum Action {
    /// Resolve a type's name to its identifier.
    LookupType(TypeName),
    /// Resolve a class's name to its identifier.
    LookupClass(ClassName),
    /// Resolve the name of a permission of the class with this identifier.
    LookupPermission(u32, PermName),
    /// Create a type (not an attribute) of this name.
    CreateType(TypeName),
    /// Add `dst` to every role that has `src`.
    CopyRoles { src: u32, dst: u32 },
    /// Add `dst` to every attribute that `src` belongs to.
    CopyAttributes { src: u32, dst: u32 },
    /// Add `dst` to every type set of a constraint that holds `src`.
    CopyConstraints { src: u32, dst: u32 },
    /// Give every rule the twin that the map assigns to it.
    CopyRules(CloneMap),
    /// Insert the permission into the rule with its key, creating the rule if
    /// there is none.
    SetRule(Grant),
    /// Remove all rules that suppress audit messages.
    StripNoAudit,
    /// Write the policy out.
    WritePolicy,
    /// Nothing is left to do.
    Finish,
    /// The run is given up.
    Abort(PatchError),
}

/// What the policy store answered to the request that was open.
#[derive(Clone, Copy, Debug, PartialEq, Eq, Structural)]
pub enum Event {
    /// The identifier that was looked up or created.
    Id(u32),
    /// The name that was looked up does not exist.
    Absent,
    /// The request was carried out.
    Done,
    /// The request was turned down.
    Failed,
}

/// The request that is open.
#[derive(Clone, Copy, Debug, PartialEq, Eq, Structural)]
pub enum Stage {
    FindSource,
    FindCompanion,
    FindHal,
    FindHalService,
    FindBinder,
    FindCall,
    FindServiceManager,
    FindFind,
    CreateClone,
    CreateCompanionClone,
    CopyRoles,
    CopyCompanionRoles,
    CopyAttributes,
    CopyCompanionAttributes,
    CopyConstraints,
    CopyCompanionConstraints,
    CopyRules,
    GrantFind,
    GrantCall,
    Strip,
    Write,
    Finished,
    Aborted(PatchError),
}

/// How an answer bears on the open request.
#[derive(Clone, Copy, Debug, PartialEq, Eq, Structural)]
pub enum Verdict {
    /// The request succeeded and gave this identifier.
    Store(u32),
    /// The request succeeded.
    Proceed,
    /// The request failed in the way that it may fail.
    Fail,
    /// The answer is none that the request can have.
    Unexpected,
}

/// The identifiers learnt so far. One that is not yet known is zero.
#[derive(Clone, Copy, Debug, PartialEq, Eq, Structural)]
pub struct Ids {
    pub source: u32,
    pub companion: u32,
    pub hal: u32,
    pub hal_service: u32,
    pub binder: u32,
    pub call: u32,
    pub service_manager: u32,
    pub find: u32,
    pub clone: u32,
    pub companion_clone: u32,
}

/// A run: the open request, the identifiers learnt so far, and whether rules
/// that suppress audit messages are to be removed.
#[derive(Clone, Copy, Debug, PartialEq, Eq, Structural)]
pub struct Run {
    pub stage: Stage,
    pub ids: Ids,
    pub strip_no_audit: bool,
}

impl Stage {
    /// The request resolves a name.
    pub open spec fn is_lookup(self) -> bool {
        match self {
            Stage::FindSource
            | Stage::FindCompanion
            | Stage::FindHal
            | Stage::FindHalService
            | Stage::FindBinder
            | Stage::FindCall
            | Stage::FindServiceManager
            | Stage::FindFind => true,
            _ => false,
        }
    }

    /// The request creates a type.
    pub open spec fn is_creation(self) -> bool {
        self == Stage::CreateClone || self == Stage::CreateCompanionClone
    }

    /// The run has ended, well or not.
    pub open spec fn is_terminal(self) -> bool {
        self == Stage::Finished || self is Aborted
    }

    /// The reason for giving up when the request fails, or `None` where the
    /// request has no way to fail.
    pub open spec fn failure(self) -> Option<PatchError> {
        match self {
            Stage::FindSource => Some(PatchError::TypeNotFound(TypeName::UntrustedApp)),
            Stage::FindCompanion => Some(
                PatchError::TypeNotFound(TypeName::UntrustedAppUserfaultfd),
            ),
            Stage::FindHal => Some(PatchError::TypeNotFound(TypeName::HalGooglebattery)),
            Stage::FindHalService => Some(
                PatchError::TypeNotFound(TypeName::HalGooglebatteryService),
            ),
            Stage::FindBinder => Some(PatchError::ClassNotFound(ClassName::Binder)),
            Stage::FindCall => Some(PatchError::PermissionNotFound(PermName::Call)),
            Stage::FindServiceManager => Some(
                PatchError::ClassNotFound(ClassName::ServiceManager),
            ),
            Stage::FindFind => Some(PatchError::PermissionNotFound(PermName::Find)),
            Stage::CreateClone => Some(PatchError::TypeExists(TypeName::ChargelimitApp)),
            Stage::CreateCompanionClone => Some(
                PatchError::TypeExists(TypeName::ChargelimitAppUserfaultfd),
            ),
            Stage::CopyRoles | Stage::CopyCompanionRoles => Some(
                PatchError::StoreFailed(StoreOp::CopyRoles),
            ),
            Stage::CopyAttributes | Stage::CopyCompanionAttributes => Some(
                PatchError::StoreFailed(StoreOp::CopyAttributes),
            ),
            Stage::CopyRules => Some(PatchError::StoreFailed(StoreOp::CopyRules)),
            Stage::Write => Some(PatchError::WriteFailed),
            _ => None,
        }
    }

    /// The request that follows when this one has succeeded. A run that has
    /// ended stays where it is.
    pub open spec fn successor(self, strip_no_audit: bool) -> Stage {
        match self {
            Stage::FindSource => Stage::FindCompanion,
            Stage::FindCompanion => Stage::FindHal,
            Stage::FindHal => Stage::FindHalService,
            Stage::FindHalService => Stage::FindBinder,
            Stage::FindBinder => Stage::FindCall,
            Stage::FindCall => Stage::FindServiceManager,
            Stage::FindServiceManager => Stage::FindFind,
            Stage::FindFind => Stage::CreateClone,
            Stage::CreateClone => Stage::CreateCompanionClone,
            Stage::CreateCompanionClone => Stage::CopyRoles,
            Stage::CopyRoles => Stage::CopyCompanionRoles,
            Stage::CopyCompanionRoles => Stage::CopyAttributes,
            Stage::CopyAttributes => Stage::CopyCompanionAttributes,
            Stage::CopyCompanionAttributes => Stage::CopyConstraints,
            Stage::CopyConstraints => Stage::CopyCompanionConstraints,
            Stage::CopyCompanionConstraints => Stage::CopyRules,
            Stage::CopyRules => Stage::GrantFind,
            Stage::GrantFind => Stage::GrantCall,
            Stage::GrantCall => if strip_no_audit {
                Stage::Strip
            } else {
                Stage::Write
            },
            Stage::Strip => Stage::Write,
            Stage::Write => Stage::Finished,
            Stage::Finished => Stage::Finished,
            Stage::Aborted(e) => Stage::Aborted(e),
        }
    }

    /// How `event` bears on the request. A lookup gives an identifier or finds
    /// the name absent; a creation gives an identifier or is turned down;
    /// every other request is carried out, or turned down if it can be.
    pub open spec fn judged(self, event: Event) -> Verdict {
        if self.is_terminal() {
            Verdict::Unexpected
        } else if self.is_lookup() {
            match event {
                Event::Id(id) => Verdict::Store(id),
                Event::Absent => Verdict::Fail,
                _ => Verdict::Unexpected,
            }
        } else if self.is_creation() {
            match event {
                Event::Id(id) => Verdict::Store(id),
                Event::Failed => Verdict::Fail,
                _ => Verdict::Unexpected,
            }
        } else {
            match event {
                Event::Done => Verdict::Proceed,
                Event::Failed => if self.failure().is_some() {
                    Verdict::Fail
                } else {
                    Verdict::Unexpected
                },
                _ => Verdict::Unexpected,
            }
        }
    }

    /// Tells whether the request resolves a name.
    pub fn resolves_name(self) -> (r: bool)
        ensures
            r == self.is_lookup(),
    {
        match self {
            Stage::FindSource
            | Stage::FindCompanion
            | Stage::FindHal
            | Stage::FindHalService
            | Stage::FindBinder
            | Stage::FindCall
            | Stage::FindServiceManager
            | Stage::FindFind => true,
            _ => false,
        }
    }

    /// Tells whether the request creates a type.
    pub fn creates_type(self) -> (r: bool)
        ensures
            r == self.is_creation(),
    {
        match self {
            Stage::CreateClone | Stage::CreateCompanionClone => true,
            _ => false,
        }
    }

    /// Tells whether the run has ended.
    pub fn has_ended(self) -> (r: bool)
        ensures
            r == self.is_terminal(),
    {
        match self {
            Stage::Finished | Stage::Aborted(_) => true,
            _ => false,
        }
    }

    /// The reason for giving up when the request fails.
    pub fn failure_reason(self) -> (r: Option<PatchError>)
        ensures
            r == self.failure(),
    {
        match self {
            Stage::FindSource => Some(PatchError::TypeNotFound(TypeName::UntrustedApp)),
            Stage::FindCompanion => Some(
                PatchError::TypeNotFound(TypeName::UntrustedAppUserfaultfd),
            ),
            Stage::FindHal => Some(PatchError::TypeNotFound(TypeName::HalGooglebattery)),
            Stage::FindHalService => Some(
                PatchError::TypeNotFound(TypeName::HalGooglebatteryService),
            ),
            Stage::FindBinder => Some(PatchError::ClassNotFound(ClassName::Binder)),
            Stage::FindCall => Some(PatchError::PermissionNotFound(PermName::Call)),
            Stage::FindServiceManager => Some(
                PatchError::ClassNotFound(ClassName::ServiceManager),
            ),
            Stage::FindFind => Some(PatchError::PermissionNotFound(PermName::Find)),
            Stage::CreateClone => Some(PatchError::TypeExists(TypeName::ChargelimitApp)),
            Stage::CreateCompanionClone => Some(
                PatchError::TypeExists(TypeName::ChargelimitAppUserfaultfd),
            ),
            Stage::CopyRoles | Stage::CopyCompanionRoles => Some(
                PatchError::StoreFailed(StoreOp::CopyRoles),
            ),
            Stage::CopyAttributes | Stage::CopyCompanionAttributes => Some(
                PatchError::StoreFailed(StoreOp::CopyAttributes),
            ),
            Stage::CopyRules => Some(PatchError::StoreFailed(StoreOp::CopyRules)),
            Stage::Write => Some(PatchError::WriteFailed),
            _ => None,
        }
    }

    /// The request that follows when this one has succeeded.
    pub fn next(self, strip_no_audit: bool) -> (r: Stage)
        ensures
            r == self.successor(strip_no_audit),
    {
        match self {
            Stage::FindSource => Stage::FindCompanion,
            Stage::FindCompanion => Stage::FindHal,
            Stage::FindHal => Stage::FindHalService,
            Stage::FindHalService => Stage::FindBinder,
            Stage::FindBinder => Stage::FindCall,
            Stage::FindCall => Stage::FindServiceManager,
            Stage::FindServiceManager => Stage::FindFind,
            Stage::FindFind => Stage::CreateClone,
            Stage::CreateClone => Stage::CreateCompanionClone,
            Stage::CreateCompanionClone => Stage::CopyRoles,
            Stage::CopyRoles => Stage::CopyCompanionRoles,
            Stage::CopyCompanionRoles => Stage::CopyAttributes,
            Stage::CopyAttributes => Stage::CopyCompanionAttributes,
            Stage::CopyCompanionAttributes => Stage::CopyConstraints,
            Stage::CopyConstraints => Stage::CopyCompanionConstraints,
            Stage::CopyCompanionConstraints => Stage::CopyRules,
            Stage::CopyRules => Stage::GrantFind,
            Stage::GrantFind => Stage::GrantCall,
            Stage::GrantCall => if strip_no_audit {
                Stage::Strip
            } else {
                Stage::Write
            },
            Stage::Strip => Stage::Write,
            Stage::Write => Stage::Finished,
            Stage::Finished => Stage::Finished,
            Stage::Aborted(e) => Stage::Aborted(e),
        }
    }

    /// Judges an answer to the request.
    pub fn judge(self, event: Event) -> (v: Verdict)
        ensures
            v == self.judged(event),
    {
        if self.has_ended() {
            Verdict::Unexpected
        } else if self.resolves_name() {
            match event {
                Event::Id(id) => Verdict::Store(id),
                Event::Absent => Verdict::Fail,
                _ => Verdict::Unexpected,
            }
        } else if self.creates_type() {
            match event {
                Event::Id(id) => Verdict::Store(id),
                Event::Failed => Verdict::Fail,
                _ => Verdict::Unexpected,
            }
        } else {
            match event {
                Event::Done => Verdict::Proceed,
                Event::Failed => if self.failure_reason().is_some() {
                    Verdict::Fail
                } else {
                    Verdict::Unexpected
                },
                _ => Verdict::Unexpected,
            }
        }
    }
}

impl Ids {
    /// The identifiers with `id` put where the request of `stage` belongs.
    /// A request that gives no identifier changes nothing.
    pub open spec fn with(self, stage: Stage, id: u32) -> Ids {
        match stage {
            Stage::FindSource => Ids { source: id, ..self },
            Stage::FindCompanion => Ids { companion: id, ..self },
            Stage::FindHal => Ids { hal: id, ..self },
            Stage::FindHalService => Ids { hal_service: id, ..self },
            Stage::FindBinder => Ids { binder: id, ..self },
            Stage::FindCall => Ids { call: id, ..self },
            Stage::FindServiceManager => Ids { service_manager: id, ..self },
            Stage::FindFind => Ids { find: id, ..self },
            Stage::CreateClone => Ids { clone: id, ..self },
            Stage::CreateCompanionClone => Ids { companion_clone: id, ..self },
            _ => self,
        }
    }

    /// The map from the cloned types to their clones.
    pub open spec fn clone_map(self) -> CloneMap {
        CloneMap {
            source: self.source,
            clone: self.clone,
            companion: self.companion,
            companion_clone: self.companion_clone,
        }
    }

    /// No identifier is known yet.
    pub fn empty() -> (r: Ids)
        ensures
            r == (Ids {
                source: 0,
                companion: 0,
                hal: 0,
                hal_service: 0,
                binder: 0,
                call: 0,
                service_manager: 0,
                find: 0,
                clone: 0,
                companion_clone: 0,
            }),
    {
        Ids {
            source: 0,
            companion: 0,
            hal: 0,
            hal_service: 0,
            binder: 0,
            call: 0,
            service_manager: 0,
            find: 0,
            clone: 0,
            companion_clone: 0,
        }
    }

    /// Records the identifier that the request of `stage` gave.
    pub fn record(self, stage: Stage, id: u32) -> (r: Ids)
        ensures
            r == self.with(stage, id),
    {
        let mut ids = self;
        match stage {
            Stage::FindSource => { ids.source = id; },
            Stage::FindCompanion => { ids.companion = id; },
            Stage::FindHal => { ids.hal = id; },
            Stage::FindHalService => { ids.hal_service = id; },
            Stage::FindBinder => { ids.binder = id; },
            Stage::FindCall => { ids.call = id; },
            Stage::FindServiceManager => { ids.service_manager = id; },
            Stage::FindFind => { ids.find = id; },
            Stage::CreateClone => { ids.clone = id; },
            Stage::CreateCompanionClone => { ids.companion_clone = id; },
            _ => {},
        }
        ids
    }
}

impl Run {
    /// The run before anything was asked: the first name is to be resolved.
    pub open spec fn initial(strip_no_audit: bool) -> Run {
        Run {
            stage: Stage::FindSource,
            ids: Ids {
                source: 0,
                companion: 0,
                hal: 0,
                hal_service: 0,
                binder: 0,
                call: 0,
                service_manager: 0,
                find: 0,
                clone: 0,
                companion_clone: 0,
            },
            strip_no_audit,
        }
    }

    /// The request that is open, with the identifiers it is about.
    pub open spec fn requested(self) -> Action {
        let ids = self.ids;
        match self.stage {
            Stage::FindSource => Action::LookupType(TypeName::UntrustedApp),
            Stage::FindCompanion => Action::LookupType(TypeName::UntrustedAppUserfaultfd),
            Stage::FindHal => Action::LookupType(TypeName::HalGooglebattery),
            Stage::FindHalService => Action::LookupType(TypeName::HalGooglebatteryService),
            Stage::FindBinder => Action::LookupClass(ClassName::Binder),
            Stage::FindCall => Action::LookupPermission(ids.binder, PermName::Call),
            Stage::FindServiceManager => Action::LookupClass(ClassName::ServiceManager),
            Stage::FindFind => Action::LookupPermission(ids.service_manager, PermName::Find),
            Stage::CreateClone => Action::CreateType(TypeName::ChargelimitApp),
            Stage::CreateCompanionClone => Action::CreateType(
                TypeName::ChargelimitAppUserfaultfd,
            ),
            Stage::CopyRoles => Action::CopyRoles { src: ids.source, dst: ids.clone },
            Stage::CopyCompanionRoles => Action::CopyRoles {
                src: ids.companion,
                dst: ids.companion_clone,
            },
            Stage::CopyAttributes => Action::CopyAttributes { src: ids.source, dst: ids.clone },
            Stage::CopyCompanionAttributes => Action::CopyAttributes {
                src: ids.companion,
                dst: ids.companion_clone,
            },
            Stage::CopyConstraints => Action::CopyConstraints { src: ids.source, dst: ids.clone },
            Stage::CopyCompanionConstraints => Action::CopyConstraints {
                src: ids.companion,
                dst: ids.companion_clone,
            },
            Stage::CopyRules => Action::CopyRules(ids.clone_map()),
            Stage::GrantFind => Action::SetRule(
                Grant {
                    source: ids.clone,
                    target: ids.hal_service,
                    class: ids.service_manager,
                    permission: ids.find,
                    action: RuleAction::Allow,
                },
            ),
            Stage::GrantCall => Action::SetRule(
                Grant {
                    source: ids.clone,
                    target: ids.hal,
                    class: ids.binder,
                    permission: ids.call,
                    action: RuleAction::Allow,
                },
            ),
            Stage::Strip => Action::StripNoAudit,
            Stage::Write => Action::WritePolicy,
            Stage::Finished => Action::Finish,
            Stage::Aborted(e) => Action::Abort(e),
        }
    }

    /// The run after `event` has answered the open request. Success moves on
    /// to the next request and keeps an identifier that came back. A failure
    /// ends the run with its reason, and so does an answer that the request
    /// cannot have. A run that has ended stays as it is.
    pub open spec fn absorbed(self, event: Event) -> Run {
        if self.stage.is_terminal() {
            self
        } else {
            match self.stage.judged(event) {
                Verdict::Store(id) => Run {
                    stage: self.stage.successor(self.strip_no_audit),
                    ids: self.ids.with(self.stage, id),
                    strip_no_audit: self.strip_no_audit,
                },
                Verdict::Proceed => Run {
                    stage: self.stage.successor(self.strip_no_audit),
                    ids: self.ids,
                    strip_no_audit: self.strip_no_audit,
                },
                Verdict::Fail => Run {
                    stage: Stage::Aborted(self.stage.failure().unwrap()),
                    ids: self.ids,
                    strip_no_audit: self.strip_no_audit,
                },
                Verdict::Unexpected => Run {
                    stage: Stage::Aborted(PatchError::UnexpectedEvent),
                    ids: self.ids,
                    strip_no_audit: self.strip_no_audit,
                },
            }
        }
    }

    /// The run after the answers `events`, taken in order.
    pub open spec fn after(self, events: Seq<Event>) -> Run
        decreases events.len(),
    {
        if events.len() == 0 {
            self
        } else {
            self.after(events.drop_last()).absorbed(events.last())
        }
    }

    /// Starts a run.
    pub fn new(strip_no_audit: bool) -> (run: Run)
        ensures
            run == Run::initial(strip_no_audit),
    {
        Run { stage: Stage::FindSource, ids: Ids::empty(), strip_no_audit }
    }

    /// The request that is open.
    pub fn action(&self) -> (a: Action)
        ensures
            a == self.requested(),
    {
        let ids = self.ids;
        match self.stage {
            Stage::FindSource => Action::LookupType(TypeName::UntrustedApp),
            Stage::FindCompanion => Action::LookupType(TypeName::UntrustedAppUserfaultfd),
            Stage::FindHal => Action::LookupType(TypeName::HalGooglebattery),
            Stage::FindHalService => Action::LookupType(TypeName::HalGooglebatteryService),
            Stage::FindBinder => Action::LookupClass(ClassName::Binder),
            Stage::FindCall => Action::LookupPermission(ids.binder, PermName::Call),
            Stage::FindServiceManager => Action::LookupClass(ClassName::ServiceManager),
            Stage::FindFind => Action::LookupPermission(ids.service_manager, PermName::Find),
            Stage::CreateClone => Action::CreateType(TypeName::ChargelimitApp),
            Stage::CreateCompanionClone => Action::CreateType(
                TypeName::ChargelimitAppUserfaultfd,
            ),
            Stage::CopyRoles => Action::CopyRoles { src: ids.source, dst: ids.clone },
            Stage::CopyCompanionRoles => Action::CopyRoles {
                src: ids.companion,
                dst: ids.companion_clone,
            },
            Stage::CopyAttributes => Action::CopyAttributes { src: ids.source, dst: ids.clone },
            Stage::CopyCompanionAttributes => Action::CopyAttributes {
                src: ids.companion,
                dst: ids.companion_clone,
            },
            Stage::CopyConstraints => Action::CopyConstraints { src: ids.source, dst: ids.clone },
            Stage::CopyCompanionConstraints => Action::CopyConstraints {
                src: ids.companion,
                dst: ids.companion_clone,
            },
            Stage::CopyRules => Action::CopyRules(
                CloneMap {
                    source: ids.source,
                    clone: ids.clone,
                    companion: ids.companion,
                    companion_clone: ids.companion_clone,
                },
            ),
            Stage::GrantFind => Action::SetRule(
                Grant {
                    source: ids.clone,
                    target: ids.hal_service,
                    class: ids.service_manager,
                    permission: ids.find,
                    action: RuleAction::Allow,
                },
            ),
            Stage::GrantCall => Action::SetRule(
                Grant {
                    source: ids.clone,
                    target: ids.hal,
                    class: ids.binder,
                    permission: ids.call,
                    action: RuleAction::Allow,
                },
            ),
            Stage::Strip => Action::StripNoAudit,
            Stage::Write => Action::WritePolicy,
            Stage::Finished => Action::Finish,
            Stage::Aborted(e) => Action::Abort(e),
        }
    }

    /// Takes the answer to the open request and moves on.
    pub fn absorb(self, event: Event) -> (next: Run)
        ensures
            next == self.absorbed(event),
    {
        if self.stage.has_ended() {
            return self;
        }
        let strip_no_audit = self.strip_no_audit;
        match self.stage.judge(event) {
            Verdict::Store(id) => Run {
                stage: self.stage.next(strip_no_audit),
                ids: self.ids.record(self.stage, id),
                strip_no_audit,
            },
            Verdict::Proceed => Run {
                stage: self.stage.next(strip_no_audit),
                ids: self.ids,
                strip_no_audit,
            },
            Verdict::Fail => {
                match self.stage.failure_reason() {
                    Some(e) => Run { stage: Stage::Aborted(e), ids: self.ids, strip_no_audit },
                    None => Run {
                        stage: Stage::Aborted(PatchError::UnexpectedEvent),
                        ids: self.ids,
                        strip_no_audit,
                    },
                }
            },
            Verdict::Unexpected => Run {
                stage: Stage::Aborted(PatchError::UnexpectedEvent),
                ids: self.ids,
                strip_no_audit,
            },
        }
    }

    /// Takes the answer to the open request, moves on, and names the request
    /// that is open then.
    pub fn step(self, event: Event) -> (r: (Run, Action))
        ensures
            r.0 == self.absorbed(event),
            r.1 == self.absorbed(event).requested(),
    {
        let next = self.absorb(event);
        let action = next.action();
        (next, action)
    }
}

} // verus!
