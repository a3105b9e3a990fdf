use crate::extra::PcreExtra;
use crate::flags::{ExecOption, ExtraOption};
use crate::iterator::{spec_ovector_size, MatchIterator, ScanState};
use crate::matching::{spec_exec, Match};
use crate::options::EnumSet;
use vstd::prelude::*;
use vstd::string::StringSliceAdditionalSpecFns;

verus! {

/// Why a pattern could not be compiled: the engine's message, if it gave
/// one, and the byte offset in the pattern where compilation stopped. A
/// usage error is a pattern the engine could not even be handed (it holds a
/// NUL byte); any other error is the engine's verdict on the pattern.
pub struct CompilationError {
    opt_err: Option<String>,
    erroffset: usize,
    usage: bool,
}

impl CompilationError {
    pub closed spec fn spec_message(&self) -> Option<Seq<char>> {
        match self.opt_err {
            Some(s) => Some(s@),
            None => None,
        }
    }

    pub closed spec fn spec_offset(&self) -> nat {
        self.erroffset as nat
    }

    pub closed spec fn spec_is_usage_error(&self) -> bool {
        self.usage
    }

    /// The engine's report of a failed compilation.
    pub fn new(message: Option<String>, offset: usize) -> (r: Self)
        ensures
            r.spec_message() == (match message {
                Some(s) => Some(s@),
                None => None::<Seq<char>>,
            }),
            r.spec_offset() == offset,
            !r.spec_is_usage_error(),
    {
        CompilationError { opt_err: message, erroffset: offset, usage: false }
    }

    /// A pattern that cannot be handed to the engine, with the reason and
    /// the offending byte offset.
    fn usage_error(message: String, offset: usize) -> (r: Self)
        ensures
            r.spec_message() == Some(message@),
            r.spec_offset() == offset,
            r.spec_is_usage_error(),
    {
        CompilationError { opt_err: Some(message), erroffset: offset, usage: true }
    }

    /// Whether the caller misused the library (a NUL byte in the pattern)
    /// rather than the engine rejecting the pattern.
    pub fn is_usage_error(&self) -> (r: bool)
        ensures
            r == self.spec_is_usage_error(),
    {
        self.usage
    }

    /// The engine's message, if any.
    pub fn message(&self) -> (r: Option<String>)
        ensures
            match r {
                Some(s) => self.spec_message() == Some(s@),
                None => self.spec_message() is None,
            },
    {
        match &self.opt_err {
            Some(s) => Some(s.clone()),
            None => None,
        }
    }

    /// The byte offset in the pattern where compilation stopped.
    pub fn offset(&self) -> (r: usize)
        ensures
            r == self.spec_offset(),
    {
        self.erroffset
    }
}

/// The index of the first NUL byte in `b`, if there is one.
pub open spec fn spec_first_nul(b: Seq<u8>) -> Option<nat> {
    if exists|i: int| 0 <= i < b.len() && b[i] == 0 {
        let i = choose|i: int|
            0 <= i < b.len() && b[i] == 0 && forall|j: int| 0 <= j < i ==> b[j] != 0;
        Some(i as nat)
    } else {
        None
    }
}

/// The pattern's bytes followed by a NUL byte, as the engine reads a
/// pattern. A pattern that itself holds a NUL byte cannot be passed this
/// way: that is an error at the offset of its first NUL byte, never a
/// silent truncation.
pub fn pattern_cstring(pattern: &str) -> (r: Result<Vec<u8>, CompilationError>)
    ensures
        match spec_first_nul(pattern.spec_bytes()) {
            None => r matches Ok(v) && v@ == pattern.spec_bytes().push(0u8),
            Some(i) => r matches Err(e) && e.spec_is_usage_error() && e.spec_offset() == i
                && e.spec_message() is Some,
        },
{
    let bytes = pattern.as_bytes();
    let mut v: Vec<u8> = Vec::new();
    let mut i: usize = 0;
    while i < bytes.len()
        invariant
            i <= bytes@.len(),
            bytes@ == pattern.spec_bytes(),
            v@ == bytes@.subrange(0, i as int),
            forall|j: int| 0 <= j < i ==> bytes@[j] != 0,
        decreases bytes@.len() - i,
    {
        if bytes[i] == 0 {
            let ghost b = bytes@;
            proof {
                let k = choose|k: int|
                    0 <= k < b.len() && b[k] == 0 && forall|j: int| 0 <= j < k ==> b[j] != 0;
                assert(k == i) by {
                    if k < i {
                    } else if k > i {
                        assert(b[i as int] == 0);
                    }
                }
            }
            let message = "pattern contains a NUL byte".to_owned();
            return Err(CompilationError::usage_error(message, i));
        }
        v.push(bytes[i]);
        i = i + 1;
        assert(v@ =~= bytes@.subrange(0, i as int));
    }
    v.push(0u8);
    assert(v@ =~= pattern.spec_bytes().push(0u8));
    Ok(v)
}

/// Whether a pattern whose shared reference count is `refcount` may have its
/// extra block replaced: only when nothing but the pattern itself holds a
/// reference, since a live iterator may still read the current one.
pub open spec fn spec_study_permitted(refcount: int) -> bool {
    refcount == 1
}

/// Whether an owner whose release left the shared reference count at
/// `count_after` must free the engine's resources.
pub open spec fn spec_release_needed(count_after: int) -> bool {
    count_after == 0
}

/// Whether an owner that has just dropped its reference, leaving
/// `count_after`, must free the compiled pattern and its extra block.
pub fn release_needed(count_after: i32) -> (r: bool)
    ensures
        r == spec_release_needed(count_after as int),
{
    count_after == 0
}

/// Dropping one of `owners` owners of a compiled pattern frees it exactly
/// when that owner was the last: while a cloned iterator is alive beside
/// the pattern, dropping the pattern frees nothing.
pub proof fn lemma_release_only_by_last_owner(owners: nat)
    requires
        owners >= 1,
    ensures
        spec_release_needed(owners - 1) <==> owners == 1,
        owners >= 2 ==> !spec_release_needed(owners - 1),
{
}

/// What the library knows of a compiled pattern: its capture-group count,
/// fixed when it was compiled, and the settings of its extra block, if it
/// has been studied.
pub struct Pcre {
    capture_count_: usize,
    extra: Option<PcreExtra>,
}

impl Pcre {
    pub closed spec fn spec_capture_count(&self) -> nat {
        self.capture_count_ as nat
    }

    pub closed spec fn spec_extra(&self) -> Option<PcreExtra> {
        self.extra
    }

    pub open spec fn wf(&self) -> bool {
        &&& self.spec_capture_count() < usize::MAX / 6
        &&& self.spec_extra() matches Some(x) ==> x.wf()
    }

    /// The state after studying with the engine's answer `studied`, when
    /// the shared reference count is `refcount`.
    pub open spec fn spec_after_study(self, refcount: int, studied: Option<PcreExtra>) -> (
        Pcre,
        bool,
    ) {
        if spec_study_permitted(refcount) {
            (self.spec_with_extra(studied), studied is Some)
        } else {
            (self, false)
        }
    }

    pub closed spec fn spec_with_extra(self, extra: Option<PcreExtra>) -> Pcre {
        Pcre { capture_count_: self.capture_count_, extra }
    }

    /// A freshly compiled pattern with `capture_count` capture groups, as
    /// the engine reported, and no extra block.
    pub fn new(capture_count: usize) -> (r: Self)
        requires
            capture_count < usize::MAX / 6,
        ensures
            r.wf(),
            r.spec_capture_count() == capture_count,
            r.spec_extra() is None,
    {
        Pcre { capture_count_: capture_count, extra: None }
    }

    /// The number of capture groups, not counting the whole match.
    pub fn capture_count(&self) -> (r: usize)
        ensures
            r == self.spec_capture_count(),
    {
        self.capture_count_
    }

    /// Turns on the reporting of mark names. This needs an extra block: the
    /// result says whether there was one; without one nothing changes.
    pub fn enable_mark(&mut self) -> (r: bool)
        requires
            old(self).wf(),
        ensures
            final(self).wf(),
            r == old(self).spec_extra() is Some,
            final(self).spec_capture_count() == old(self).spec_capture_count(),
            match old(self).spec_extra() {
                None => *final(self) == *old(self),
                Some(x) => final(self).spec_extra() matches Some(y) && y.spec_flags()@
                    == x.spec_flags()@.insert(ExtraOption::ExtraMark) && y.spec_match_limit()
                    == x.spec_match_limit() && y.spec_match_limit_recursion()
                    == x.spec_match_limit_recursion(),
            },
    {
        match self.extra.take() {
            None => false,
            Some(mut x) => {
                x.set_mark();
                self.extra = Some(x);
                true
            },
        }
    }

    /// The extra block's settings, if the pattern has been studied.
    pub fn extra(&self) -> (r: Option<&PcreExtra>)
        ensures
            match self.spec_extra() {
                None => r is None,
                Some(x) => r matches Some(y) && *y == x,
            },
    {
        match &self.extra {
            None => None,
            Some(x) => Some(x),
        }
    }

    /// Replaces the extra block's settings, as a caller that changed a
    /// limit hands them back.
    pub fn set_extra(&mut self, extra: PcreExtra) -> (r: bool)
        requires
            old(self).wf(),
            extra.wf(),
        ensures
            final(self).wf(),
            r == old(self).spec_extra() is Some,
            final(self).spec_capture_count() == old(self).spec_capture_count(),
            final(self).spec_extra() == (if r {
                Some(extra)
            } else {
                None
            }),
    {
        if self.extra.is_some() {
            self.extra = Some(extra);
            true
        } else {
            false
        }
    }

    /// Whether studying may replace the extra block now that the shared
    /// reference count is `refcount`: the engine is asked to study only then.
    pub fn study_permitted(refcount: i32) -> (r: bool)
        ensures
            r == spec_study_permitted(refcount as int),
    {
        refcount == 1
    }

    /// Takes the result of studying: the engine's new extra block, or
    /// `None` when it created none. When the reference count `refcount`
    /// does not permit studying, the pattern is left as it is and the
    /// result is `false`; otherwise the block is replaced and the result
    /// says whether there is one.
    pub fn finish_study(&mut self, refcount: i32, studied: Option<PcreExtra>) -> (r: bool)
        requires
            old(self).wf(),
            studied matches Some(x) ==> x.wf(),
        ensures
            final(self).wf(),
            (*final(self), r) == old(self).spec_after_study(refcount as int, studied),
            final(self).spec_capture_count() == old(self).spec_capture_count(),
            final(self).spec_extra() == (if spec_study_permitted(refcount as int) {
                studied
            } else {
                old(self).spec_extra()
            }),
            r == (spec_study_permitted(refcount as int) && studied is Some),
    {
        if Pcre::study_permitted(refcount) {
            let r = studied.is_some();
            self.extra = studied;
            r
        } else {
            false
        }
    }

    /// The size of the offset vector the engine needs for one match.
    pub fn ovector_size(&self) -> (r: usize)
        requires
            self.wf(),
        ensures
            r == spec_ovector_size(self.spec_capture_count()),
    {
        3 * (self.capture_count_ + 1)
    }

    /// The match the engine reported for one call on `subject` from byte
    /// offset `startoffset`: its result code `rc` and the offset vector it
    /// filled. `None` when there was no match, or when what was reported is
    /// not a match at or after `startoffset`.
    pub fn exec_result<'a>(&self, subject: &'a str, startoffset: usize, rc: i32, ovector: &[i32]) -> (r: Option<
        Match<'a>,
    >)
        requires
            self.wf(),
        ensures
            match spec_exec(
                subject.spec_bytes(),
                ovector@,
                self.spec_capture_count(),
                rc as int,
                startoffset as int,
            ) {
                None => r is None,
                Some(ov) => r matches Some(m) && m.wf() && m.spec_subject() == subject
                    && m.offsets() == ov && m.spec_string_count() == rc as nat,
            },
    {
        match Match::from_ovector(subject, ovector, self.capture_count_, rc) {
            None => None,
            Some(m) => {
                if m.start_of_whole() < startoffset {
                    None
                } else {
                    Some(m)
                }
            },
        }
    }

    /// A cursor over the matches of the pattern in `subject`.
    pub fn matches<'a>(&self, subject: &'a str) -> (r: MatchIterator<'a>)
        requires
            self.wf(),
        ensures
            r.wf(),
            r.spec_subject() == subject,
            r.spec_capture_count() == self.spec_capture_count(),
            r.spec_options()@ == Set::<ExecOption>::empty(),
            r.state() == (ScanState { offset: 0, exhausted: false }),
    {
        self.matches_with_options(subject, EnumSet::empty())
    }

    /// A cursor over the matches of the pattern in `subject`, each scan made
    /// with `options`.
    pub fn matches_with_options<'a>(&self, subject: &'a str, options: EnumSet<ExecOption>) -> (r:
        MatchIterator<'a>)
        requires
            self.wf(),
            options.wf(),
        ensures
            r.wf(),
            r.spec_subject() == subject,
            r.spec_capture_count() == self.spec_capture_count(),
            r.spec_options() == options,
            r.state() == (ScanState { offset: 0, exhausted: false }),
    {
        MatchIterator::new(subject, self.capture_count_, options)
    }
}

/// The capture count is fixed when the pattern is compiled: studying, allowed
/// or refused, with or without a new extra block, leaves it as it was.
pub proof fn lemma_capture_count_fixed(p: Pcre, refcount: int, studied: Option<PcreExtra>)
    ensures
        p.spec_after_study(refcount, studied).0.spec_capture_count() == p.spec_capture_count(),
{
}

/// Each live iterator derived from a pattern holds a reference beside the
/// pattern's own; while there is one, studying is refused and leaves the
/// pattern, its extra block included, as it was.
pub proof fn lemma_study_refused_while_iterating(
    p: Pcre,
    live_iterators: nat,
    studied: Option<PcreExtra>,
)
    requires
        live_iterators >= 1,
    ensures
        p.spec_after_study(1 + live_iterators as int, studied) == (p, false),
{
}

} // verus!
