//! How an access-vector rule is mirrored onto the clones.
//!
//! A rule is keyed by its source type, its target type and its class. When a
//! domain is cloned, every rule that names the domain gets a twin that names
//! the clone in its place. The two sides of a rule are looked at one by one.

use vstd::prelude::*;

verus! {

/// The two types that are cloned, each with its clone.
#[derive(Clone, Copy, Debug, PartialEq, Eq, Structural)]
pub struct CloneMap {
    /// The domain that is cloned.
    pub source: u32,
    /// The clone of the domain.
    pub clone: u32,
    /// The domain's companion type.
    pub companion: u32,
    /// The clone of the companion type.
    pub companion_clone: u32,
}

impl CloneMap {
    /// The clone that stands for `t`, if `t` is one of the cloned types.
    pub open spec fn image(&self, t: u32) -> Option<u32> {
        if t == self.source {
            Some(self.clone)
        } else if t == self.companion {
            Some(self.companion_clone)
        } else {
            None
        }
    }

    /// `t` seen through the map: its clone if it has one, else `t` itself.
    pub open spec fn mirror(&self, t: u32) -> u32 {
        match self.image(t) {
            Some(c) => c,
            None => t,
        }
    }

    /// The key of the twin of the rule keyed `(source_type, target_type, class)`,
    /// or `None` where the rule names no cloned type and so has no twin.
    pub open spec fn rewritten(&self, source_type: u32, target_type: u32, class: u32) -> Option<
        (u32, u32, u32),
    > {
        if self.image(source_type).is_none() && self.image(target_type).is_none() {
            None
        } else {
            Some((self.mirror(source_type), self.mirror(target_type), class))
        }
    }

    /// Looks up the clone of one type.
    pub fn lookup(&self, t: u32) -> (r: Option<u32>)
        ensures
            r == self.image(t),
    {
        if t == self.source {
            Some(self.clone)
        } else if t == self.companion {
            Some(self.companion_clone)
        } else {
            None
        }
    }

    /// Rewrites the key of one rule. Each side that is a cloned type is
    /// replaced by its clone, the other side and the class are kept. A rule
    /// without a cloned type on either side gives `None`.
    pub fn rewrite(&self, source_type: u32, target_type: u32, class: u32) -> (r: Option<
        (u32, u32, u32),
    >)
        ensures
            r == self.rewritten(source_type, target_type, class),
    {
        let new_source = self.lookup(source_type);
        let new_target = self.lookup(target_type);
        match (new_source, new_target) {
            (None, None) => None,
            (Some(s), None) => Some((s, target_type, class)),
            (None, Some(t)) => Some((source_type, t, class)),
            (Some(s), Some(t)) => Some((s, t, class)),
        }
    }

    /// Every rule that names the cloned domain on either side has a twin. The
    /// twin has the clone wherever the rule has the domain, keeps a side that
    /// is no cloned type, and keeps the class.
    pub proof fn lemma_rule_of_source_has_twin(&self, source_type: u32, target_type: u32, class: u32)
        requires
            source_type == self.source || target_type == self.source,
        ensures
            self.rewritten(source_type, target_type, class).is_some(),
            self.rewritten(source_type, target_type, class).unwrap().2 == class,
            source_type == self.source ==> self.rewritten(
                source_type,
                target_type,
                class,
            ).unwrap().0 == self.clone,
            target_type == self.source ==> self.rewritten(
                source_type,
                target_type,
                class,
            ).unwrap().1 == self.clone,
            self.image(source_type).is_none() ==> self.rewritten(
                source_type,
                target_type,
                class,
            ).unwrap().0 == source_type,
            self.image(target_type).is_none() ==> self.rewritten(
                source_type,
                target_type,
                class,
            ).unwrap().1 == target_type,
    {
    }

    /// A rule from the cloned domain to itself has exactly the twin from the
    /// clone to the clone: never one with the clone on one side only.
    pub proof fn lemma_self_rule_has_self_twin(&self, class: u32)
        ensures
            self.rewritten(self.source, self.source, class) == Some(
                (self.clone, self.clone, class),
            ),
            self.clone != self.source ==> self.rewritten(self.source, self.source, class) != Some(
                (self.clone, self.source, class),
            ) && self.rewritten(self.source, self.source, class) != Some(
                (self.source, self.clone, class),
            ),
    {
    }

    /// A rule has a twin exactly if one of its sides is a cloned type, and
    /// the twin differs from the rule only on such sides.
    pub proof fn lemma_twin_iff_tracked(&self, source_type: u32, target_type: u32, class: u32)
        ensures
            self.rewritten(source_type, target_type, class).is_some() <==> (source_type
                == self.source || source_type == self.companion || target_type == self.source
                || target_type == self.companion),
            self.rewritten(source_type, target_type, class).is_some() ==> self.rewritten(
                source_type,
                target_type,
                class,
            ) == Some((self.mirror(source_type), self.mirror(target_type), class)),
    {
    }
}

} // verus!
