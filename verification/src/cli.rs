//! Where the policy is read from and where the patched policy goes.

use vstd::prelude::*;

verus! {

/// The node from which the kernel hands out the policy it has loaded.
pub const KERNEL_POLICY_PATH: &'static str = "/sys/fs/selinux/policy";

/// The node through which the kernel takes a new policy.
pub const KERNEL_LOAD_PATH: &'static str = "/sys/fs/selinux/load";

/// Selects the policy to patch: a file, or the policy the kernel has loaded.
#[derive(Debug)]
pub struct SourceGroup {
    /// Source policy file.
    pub source: Option<String>,
    /// Use the currently loaded policy as source.
    pub source_kernel: bool,
}

/// Selects where the patched policy goes: a file, or the kernel.
#[derive(Debug)]
pub struct TargetGroup {
    /// Target policy file.
    pub target: Option<String>,
    /// Load the patched policy into the kernel.
    pub target_kernel: bool,
}

/// The options of one run.
#[derive(Debug)]
pub struct Cli {
    pub source: SourceGroup,
    pub target: TargetGroup,
    /// Remove dontaudit/dontauditxperm rules.
    pub strip_no_audit: bool,
}

impl SourceGroup {
    /// Exactly one of the two selectors is given.
    pub open spec fn is_exclusive(&self) -> bool {
        self.source.is_some() != self.source_kernel
    }

    /// At least one of the two selectors is given.
    pub open spec fn is_selected(&self) -> bool {
        self.source.is_some() || self.source_kernel
    }

    /// The path that the selection stands for. An explicit file wins.
    pub open spec fn path(&self) -> Seq<char> {
        match self.source {
            Some(p) => p@,
            None => "/sys/fs/selinux/policy"@,
        }
    }

    /// Tells whether exactly one selector is given.
    pub fn check(&self) -> (ok: bool)
        ensures
            ok == self.is_exclusive(),
    {
        self.source.is_some() != self.source_kernel
    }

    /// The path to read the policy from.
    pub fn as_path(&self) -> (p: &str)
        requires
            self.is_selected(),
        ensures
            p@ == self.path(),
    {
        match &self.source {
            Some(path) => path.as_str(),
            None => KERNEL_POLICY_PATH,
        }
    }
}

impl TargetGroup {
    /// Exactly one of the two selectors is given.
    pub open spec fn is_exclusive(&self) -> bool {
        self.target.is_some() != self.target_kernel
    }

    /// At least one of the two selectors is given.
    pub open spec fn is_selected(&self) -> bool {
        self.target.is_some() || self.target_kernel
    }

    /// The path that the selection stands for. An explicit file wins.
    pub open spec fn path(&self) -> Seq<char> {
        match self.target {
            Some(p) => p@,
            None => "/sys/fs/selinux/load"@,
        }
    }

    /// Tells whether exactly one selector is given.
    pub fn check(&self) -> (ok: bool)
        ensures
            ok == self.is_exclusive(),
    {
        self.target.is_some() != self.target_kernel
    }

    /// The path to write the patched policy to.
    pub fn as_path(&self) -> (p: &str)
        requires
            self.is_selected(),
        ensures
            p@ == self.path(),
    {
        match &self.target {
            Some(path) => path.as_str(),
            None => KERNEL_LOAD_PATH,
        }
    }
}

impl Cli {
    /// Exactly one source and exactly one target are selected.
    pub open spec fn is_well_formed(&self) -> bool {
        self.source.is_exclusive() && self.target.is_exclusive()
    }

    /// Tells whether exactly one source and exactly one target are selected.
    pub fn check(&self) -> (ok: bool)
        ensures
            ok == self.is_well_formed(),
    {
        self.source.check() && self.target.check()
    }
}

} // verus!
