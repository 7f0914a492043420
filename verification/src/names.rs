//! The symbolic names that a run resolves or creates.

use vstd::prelude::*;

verus! {

/// A security type that the run looks up or creates.
#[derive(Clone, Copy, Debug, PartialEq, Eq, Structural)]
pub enum TypeName {
    /// The domain that is cloned.
    UntrustedApp,
    /// Its userfaultfd companion type.
    UntrustedAppUserfaultfd,
    /// The clone of the domain.
    ChargelimitApp,
    /// The clone of the companion type.
    ChargelimitAppUserfaultfd,
    /// The battery HAL's domain.
    HalGooglebattery,
    /// The battery HAL's service type.
    HalGooglebatteryService,
}

/// An object class that the run looks up.
#[derive(Clone, Copy, Debug, PartialEq, Eq, Structural)]
pub enum ClassName {
    Binder,
    ServiceManager,
}

/// A permission that the run looks up inside a class.
#[derive(Clone, Copy, Debug, PartialEq, Eq, Structural)]
pub enum PermName {
    /// `call` of class `binder`.
    Call,
    /// `find` of class `service_manager`.
    Find,
}

impl TypeName {
    /// The name as the policy spells it.
    pub open spec fn text(self) -> Seq<char> {
        match self {
            TypeName::UntrustedApp => "untrusted_app"@,
            TypeName::UntrustedAppUserfaultfd => "untrusted_app_userfaultfd"@,
            TypeName::ChargelimitApp => "chargelimit_app"@,
            TypeName::ChargelimitAppUserfaultfd => "chargelimit_app_userfaultfd"@,
            TypeName::HalGooglebattery => "hal_googlebattery"@,
            TypeName::HalGooglebatteryService => "hal_googlebattery_service"@,
        }
    }

    /// The name as the policy spells it.
    pub fn as_str(self) -> (s: &'static str)
        ensures
            s@ == self.text(),
    {
        match self {
            TypeName::UntrustedApp => "untrusted_app",
            TypeName::UntrustedAppUserfaultfd => "untrusted_app_userfaultfd",
            TypeName::ChargelimitApp => "chargelimit_app",
            TypeName::ChargelimitAppUserfaultfd => "chargelimit_app_userfaultfd",
            TypeName::HalGooglebattery => "hal_googlebattery",
            TypeName::HalGooglebatteryService => "hal_googlebattery_service",
        }
    }
}

impl ClassName {
    /// The name as the policy spells it.
    pub open spec fn text(self) -> Seq<char> {
        match self {
            ClassName::Binder => "binder"@,
            ClassName::ServiceManager => "service_manager"@,
        }
    }

    /// The name as the policy spells it.
    pub fn as_str(self) -> (s: &'static str)
        ensures
            s@ == self.text(),
    {
        match self {
            ClassName::Binder => "binder",
            ClassName::ServiceManager => "service_manager",
        }
    }
}

impl PermName {
    /// The name as the policy spells it.
    pub open spec fn text(self) -> Seq<char> {
        match self {
            PermName::Call => "call"@,
            PermName::Find => "find"@,
        }
    }

    /// The class that owns the permission.
    pub open spec fn owner(self) -> ClassName {
        match self {
            PermName::Call => ClassName::Binder,
            PermName::Find => ClassName::ServiceManager,
        }
    }

    /// The name as the policy spells it.
    pub fn as_str(self) -> (s: &'static str)
        ensures
            s@ == self.text(),
    {
        match self {
            PermName::Call => "call",
            PermName::Find => "find",
        }
    }

    /// The class that owns the permission.
    pub fn class(self) -> (c: ClassName)
        ensures
            c == self.owner(),
    {
        match self {
            PermName::Call => ClassName::Binder,
            PermName::Find => ClassName::ServiceManager,
        }
    }
}

} // verus!
