use crate::flags::ExecOption;
use crate::matching::{spec_exec, Match};
use crate::options::EnumSet;
use vstd::prelude::*;
use vstd::string::StringSliceAdditionalSpecFns;

verus! {

/// Where an iteration stands: the byte offset the next scan starts at, or
/// exhausted.
pub struct ScanState {
    pub offset: nat,
    pub exhausted: bool,
}

/// The offset the scan after a match `start..end` starts at: the end of the
/// match, or one byte past it when the match is empty, so that the scan
/// always moves forward.
pub open spec fn spec_next_offset(start: int, end: int) -> int {
    if start == end {
        end + 1
    } else {
        end
    }
}

/// One step of an iteration over a subject with bytes `bytes`, for a pattern
/// with `capture_count` groups, given what the engine reported (`rc` and
/// `ovector`) for a scan from `st.offset`: the next state and the offset
/// table of the match produced, if any.
///
/// An exhausted iteration stays so and produces nothing. A report of no
/// match, or of a match that is not a well-formed span at or after the scan
/// offset, ends the iteration.
pub open spec fn spec_step(
    bytes: Seq<u8>,
    st: ScanState,
    capture_count: nat,
    rc: int,
    ovector: Seq<i32>,
) -> (ScanState, Option<Seq<i32>>) {
    if st.exhausted {
        (st, None)
    } else {
        match spec_exec(bytes, ovector, capture_count, rc, st.offset as int) {
            None => (ScanState { offset: st.offset, exhausted: true }, None),
            Some(ov) => {
                let next = spec_next_offset(ov[0] as int, ov[1] as int);
                (ScanState { offset: next as nat, exhausted: next > bytes.len() }, Some(ov))
            },
        }
    }
}

/// How many more scans an iteration can make at most.
pub open spec fn spec_remaining(bytes: Seq<u8>, st: ScanState) -> nat {
    if st.exhausted || st.offset > bytes.len() {
        0
    } else {
        (bytes.len() + 1 - st.offset) as nat
    }
}

/// The size of the offset vector the engine needs for a pattern with
/// `capture_count` capture groups: three entries per group, group 0 included.
pub open spec fn spec_ovector_size(capture_count: nat) -> nat {
    3 * (capture_count + 1)
}

/// Matching once from the start of a subject and taking the first match of
/// an iteration over it agree: for the same answer of the engine both give
/// the same offset table, or both give none.
pub proof fn lemma_exec_agrees_with_first_match(
    bytes: Seq<u8>,
    capture_count: nat,
    rc: int,
    ovector: Seq<i32>,
)
    ensures
        spec_step(bytes, ScanState { offset: 0, exhausted: false }, capture_count, rc, ovector).1
            == spec_exec(bytes, ovector, capture_count, rc, 0),
{
}

/// Iteration moves forward and ends: each match starts at or after the scan
/// offset, the next scan starts at its end, or one past it when it is empty,
/// so strictly later; the number of scans left drops with every match; and
/// an exhausted iteration stays exhausted and produces nothing.
pub proof fn lemma_scan_moves_forward(
    bytes: Seq<u8>,
    st: ScanState,
    capture_count: nat,
    rc: int,
    ovector: Seq<i32>,
)
    requires
        !st.exhausted ==> st.offset <= bytes.len(),
    ensures
        ({
            let (next, m) = spec_step(bytes, st, capture_count, rc, ovector);
            &&& st.exhausted ==> next == st && m is None
            &&& m is None ==> next.exhausted
            &&& !next.exhausted ==> next.offset <= bytes.len()
            &&& m matches Some(t) ==> {
                &&& st.offset <= t[0] <= t[1]
                &&& next.offset == spec_next_offset(t[0] as int, t[1] as int)
                &&& next.offset >= t[1]
                &&& next.offset > st.offset
                &&& spec_remaining(bytes, next) < spec_remaining(bytes, st)
            }
        }),
{
    let (next, m) = spec_step(bytes, st, capture_count, rc, ovector);
    if let Some(t) = m {
        assert(crate::matching::spec_pair_ok(bytes, t, 0));
    }
}

/// A cursor over the successive matches of one compiled pattern in one
/// subject. The engine is asked for a match from [`MatchIterator::offset`];
/// [`MatchIterator::advance`] takes its answer and moves the cursor on.
pub struct MatchIterator<'a> {
    capture_count: usize,
    subject: &'a str,
    subject_cstring: Vec<u8>,
    offset: usize,
    exhausted: bool,
    options: EnumSet<ExecOption>,
}

impl<'a> MatchIterator<'a> {
    pub closed spec fn spec_subject(&self) -> &'a str {
        self.subject
    }

    pub closed spec fn spec_capture_count(&self) -> nat {
        self.capture_count as nat
    }

    pub closed spec fn spec_options(&self) -> EnumSet<ExecOption> {
        self.options
    }

    pub closed spec fn spec_cstring(&self) -> Seq<u8> {
        self.subject_cstring@
    }

    pub closed spec fn state(&self) -> ScanState {
        ScanState { offset: self.offset as nat, exhausted: self.exhausted }
    }

    /// The subject's bytes.
    pub open spec fn bytes(&self) -> Seq<u8> {
        self.spec_subject().spec_bytes()
    }

    pub open spec fn wf(&self) -> bool {
        &&& self.spec_capture_count() < usize::MAX / 6
        &&& !self.state().exhausted ==> self.state().offset <= self.bytes().len()
        &&& self.spec_cstring() == self.bytes().push(0u8)
        &&& self.spec_options().wf()
    }

    /// A cursor at the start of `subject`, for a pattern with `capture_count`
    /// capture groups, matching with `options`.
    pub fn new(subject: &'a str, capture_count: usize, options: EnumSet<ExecOption>) -> (r: Self)
        requires
            capture_count < usize::MAX / 6,
            options.wf(),
        ensures
            r.wf(),
            r.spec_subject() == subject,
            r.spec_capture_count() == capture_count,
            r.spec_options() == options,
            r.state() == (ScanState { offset: 0, exhausted: false }),
    {
        MatchIterator {
            capture_count,
            subject,
            subject_cstring: nul_terminated_copy(subject),
            offset: 0,
            exhausted: false,
            options,
        }
    }

    /// The byte offset the engine is to scan from next.
    pub fn offset(&self) -> (r: usize)
        ensures
            r == self.state().offset,
    {
        self.offset
    }

    /// Whether the iteration is over: no further scan is to be made.
    pub fn is_exhausted(&self) -> (r: bool)
        ensures
            r == self.state().exhausted,
    {
        self.exhausted
    }

    /// The subject with a terminating NUL byte, as the engine reads it. The
    /// subject itself may hold NUL bytes: the engine is also given its length.
    pub fn subject_cstring(&self) -> (r: &Vec<u8>)
        ensures
            r@ == self.spec_cstring(),
    {
        &self.subject_cstring
    }

    /// The subject as the caller gave it.
    pub fn subject(&self) -> (r: &'a str)
        ensures
            r == self.spec_subject(),
    {
        self.subject
    }

    /// The options each scan is made with.
    pub fn options(&self) -> (r: EnumSet<ExecOption>)
        ensures
            r == self.spec_options(),
    {
        self.options
    }

    /// The size of the offset vector to hand the engine for each scan.
    pub fn ovector_size(&self) -> (r: usize)
        requires
            self.wf(),
        ensures
            r == spec_ovector_size(self.spec_capture_count()),
    {
        3 * (self.capture_count + 1)
    }

    /// Takes the engine's answer to a scan from [`MatchIterator::offset`]:
    /// its result code `rc` and the offset vector it filled. Produces the
    /// match found, if any, and moves the cursor past it.
    pub fn advance(&mut self, rc: i32, ovector: &[i32]) -> (r: Option<Match<'a>>)
        requires
            old(self).wf(),
        ensures
            final(self).wf(),
            final(self).spec_subject() == old(self).spec_subject(),
            final(self).spec_capture_count() == old(self).spec_capture_count(),
            final(self).spec_options() == old(self).spec_options(),
            ({
                let (st, ov) = spec_step(
                    old(self).bytes(),
                    old(self).state(),
                    old(self).spec_capture_count(),
                    rc as int,
                    ovector@,
                );
                &&& final(self).state() == st
                &&& match ov {
                    None => r is None,
                    Some(t) => r matches Some(m) && m.wf() && m.spec_subject()
                        == old(self).spec_subject() && m.offsets() == t && m.spec_string_count()
                        == rc as nat,
                }
            }),
    {
        if self.exhausted {
            return None;
        }
        match Match::from_ovector(self.subject, ovector, self.capture_count, rc) {
            None => {
                self.exhausted = true;
                None
            },
            Some(m) => {
                let start = m.start_of_whole();
                let end = m.end_of_whole();
                if start < self.offset {
                    self.exhausted = true;
                    return None;
                }
                let next = if start == end {
                    end + 1
                } else {
                    end
                };
                self.offset = next;
                self.exhausted = next > self.subject.as_bytes().len();
                Some(m)
            },
        }
    }
}

impl<'a> Clone for MatchIterator<'a> {
    /// An independent cursor at the same place, with its own copy of the
    /// subject for the engine.
    fn clone(&self) -> (r: Self)
        ensures
            self.wf() ==> r.wf(),
            r.spec_subject() == self.spec_subject(),
            r.spec_capture_count() == self.spec_capture_count(),
            r.spec_options() == self.spec_options(),
            r.state() == self.state(),
            r.spec_cstring() == self.bytes().push(0u8),
    {
        MatchIterator {
            capture_count: self.capture_count,
            subject: self.subject,
            subject_cstring: nul_terminated_copy(self.subject),
            offset: self.offset,
            exhausted: self.exhausted,
            options: self.options.clone(),
        }
    }
}

/// The bytes of `s` followed by a NUL byte. Interior NUL bytes are kept.
fn nul_terminated_copy(s: &str) -> (r: Vec<u8>)
    ensures
        r@ == s.spec_bytes().push(0u8),
{
    let bytes = s.as_bytes();
    let mut r: Vec<u8> = Vec::new();
    let mut i: usize = 0;
    while i < bytes.len()
        invariant
            i <= bytes@.len(),
            bytes@ == s.spec_bytes(),
            r@ == bytes@.subrange(0, i as int),
        decreases bytes@.len() - i,
    {
        r.push(bytes[i]);
        i = i + 1;
        assert(r@ =~= bytes@.subrange(0, i as int));
    }
    r.push(0u8);
    assert(r@ =~= s.spec_bytes().push(0u8));
    r
}

} // verus!
