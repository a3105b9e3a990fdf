use crate::flags::ExtraOption;
use crate::options::{CLike, EnumSet};
use vstd::prelude::*;

verus! {

/// The settings of a pattern's extra block, the side table that studying
/// creates: which optional fields are in use, and the two match limits.
/// The study data itself stays with the engine.
pub struct PcreExtra {
    flags: EnumSet<ExtraOption>,
    match_limit_: u32,
    match_limit_recursion_: u32,
}

impl PcreExtra {
    pub closed spec fn spec_flags(&self) -> EnumSet<ExtraOption> {
        self.flags
    }

    pub closed spec fn spec_match_limit(&self) -> u32 {
        self.match_limit_
    }

    pub closed spec fn spec_match_limit_recursion(&self) -> u32 {
        self.match_limit_recursion_
    }

    pub open spec fn wf(&self) -> bool {
        self.spec_flags().wf()
    }

    /// The extra block the engine created with the fields named in `flags`
    /// in use; the limits start unset.
    pub fn new(flags: EnumSet<ExtraOption>) -> (r: Self)
        requires
            flags.wf(),
        ensures
            r.wf(),
            r.spec_flags() == flags,
            r.spec_match_limit() == 0,
            r.spec_match_limit_recursion() == 0,
    {
        PcreExtra { flags, match_limit_: 0, match_limit_recursion_: 0 }
    }

    /// The fields in use.
    pub fn flags(&self) -> (r: EnumSet<ExtraOption>)
        ensures
            r == self.spec_flags(),
    {
        self.flags
    }

    /// The match limit, if one was set.
    pub fn match_limit(&self) -> (r: Option<usize>)
        requires
            self.wf(),
        ensures
            r == (if self.spec_flags()@.contains(ExtraOption::ExtraMatchLimit) {
                Some(self.spec_match_limit() as usize)
            } else {
                None
            }),
    {
        if self.flags.contains(&ExtraOption::ExtraMatchLimit) {
            Some(self.match_limit_ as usize)
        } else {
            None
        }
    }

    /// The recursion depth limit, if one was set.
    pub fn match_limit_recursion(&self) -> (r: Option<usize>)
        requires
            self.wf(),
        ensures
            r == (if self.spec_flags()@.contains(ExtraOption::ExtraMatchLimitRecursion) {
                Some(self.spec_match_limit_recursion() as usize)
            } else {
                None
            }),
    {
        if self.flags.contains(&ExtraOption::ExtraMatchLimitRecursion) {
            Some(self.match_limit_recursion_ as usize)
        } else {
            None
        }
    }

    /// Marks the mark field as in use: the engine then reports the name of
    /// the mark a match passed.
    pub fn set_mark(&mut self)
        requires
            old(self).wf(),
        ensures
            final(self).wf(),
            final(self).spec_flags()@ == old(self).spec_flags()@.insert(ExtraOption::ExtraMark),
            final(self).spec_match_limit() == old(self).spec_match_limit(),
            final(self).spec_match_limit_recursion() == old(self).spec_match_limit_recursion(),
    {
        self.flags.insert(ExtraOption::ExtraMark);
    }

    /// Sets the match limit to `limit` in place of the engine's default.
    pub fn set_match_limit(&mut self, limit: u32)
        requires
            old(self).wf(),
        ensures
            final(self).wf(),
            final(self).spec_flags()@ == old(self).spec_flags()@.insert(
                ExtraOption::ExtraMatchLimit,
            ),
            final(self).spec_match_limit() == limit,
            final(self).spec_match_limit_recursion() == old(self).spec_match_limit_recursion(),
    {
        self.flags.insert(ExtraOption::ExtraMatchLimit);
        self.match_limit_ = limit;
    }

    /// Sets the recursion depth limit to `limit` in place of the engine's
    /// default.
    pub fn set_match_limit_recursion(&mut self, limit: u32)
        requires
            old(self).wf(),
        ensures
            final(self).wf(),
            final(self).spec_flags()@ == old(self).spec_flags()@.insert(
                ExtraOption::ExtraMatchLimitRecursion,
            ),
            final(self).spec_match_limit_recursion() == limit,
            final(self).spec_match_limit() == old(self).spec_match_limit(),
    {
        self.flags.insert(ExtraOption::ExtraMatchLimitRecursion);
        self.match_limit_recursion_ = limit;
    }

    /// Stops the engine from reporting mark names.
    pub fn unset_mark(&mut self)
        requires
            old(self).wf(),
        ensures
            final(self).wf(),
            final(self).spec_flags()@ == old(self).spec_flags()@.remove(ExtraOption::ExtraMark),
            final(self).spec_match_limit() == old(self).spec_match_limit(),
            final(self).spec_match_limit_recursion() == old(self).spec_match_limit_recursion(),
    {
        let _ = self.flags.remove(&ExtraOption::ExtraMark);
    }
}

/// The extra-block fields whose native bits are set in `bits`.
pub fn extra_flags_from_native(bits: u32) -> (r: EnumSet<ExtraOption>)
    ensures
        r.wf(),
        forall|e: ExtraOption| #[trigger] r@.contains(e) <==> bits & e.spec_native() != 0,
{
    let mut r: EnumSet<ExtraOption> = EnumSet::empty();
    let mut n: usize = 1;
    while n <= 7
        invariant
            1 <= n <= 8,
            r.wf(),
            forall|e: ExtraOption| #[trigger] r@.contains(e) <==> (e.spec_to_usize() < n
                && bits & e.spec_native() != 0),
        decreases 8 - n,
    {
        let e = ExtraOption::from_usize(n);
        if bits & e.native() != 0 {
            r.insert(e);
        }
        n = n + 1;
    }
    r
}

} // verus!
