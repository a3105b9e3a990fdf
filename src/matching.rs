use vstd::prelude::*;
use vstd::string::StringSliceAdditionalSpecFns;
use vstd::utf8::*;

verus! {

broadcast use vstd::utf8::group_utf8_lib;

/// Whether capture group `n` of the offset table `ov` is set: the engine
/// writes negative offsets for a group that took no part in the match.
pub open spec fn spec_group_set(ov: Seq<i32>, n: int) -> bool {
    ov[2 * n] >= 0
}

/// Whether the pair of offsets for group `n` is either unset (both `-1`) or
/// a span `start <= end` within `bytes` whose ends fall on character
/// boundaries.
pub open spec fn spec_pair_ok(bytes: Seq<u8>, ov: Seq<i32>, n: int) -> bool {
    let s = ov[2 * n] as int;
    let e = ov[2 * n + 1] as int;
    (s == -1 && e == -1) || (0 <= s <= e <= bytes.len() && is_char_boundary(bytes, s)
        && is_char_boundary(bytes, e))
}

/// Whether `ov`, the valid prefix of an offset vector for `groups` groups
/// (group 0 included), describes a match in `bytes` that `rc` groups were
/// reported for: every pair is well formed and the whole match is set.
pub open spec fn spec_table_ok(bytes: Seq<u8>, ov: Seq<i32>, groups: nat, rc: int) -> bool {
    &&& ov.len() == 2 * groups
    &&& groups >= 1
    &&& 1 <= rc <= groups
    &&& forall|n: int| 0 <= n < groups ==> #[trigger] spec_pair_ok(bytes, ov, n)
    &&& spec_group_set(ov, 0)
}

/// The result the engine reports for one call, as the offset table a match
/// is built from: `None` when `rc` says there is no match (an engine
/// code of 0 only means the vector was too small, which its sizing rules out) or the first
/// `2 * (capture_count + 1)` entries of `ovector` do not describe one.
pub open spec fn spec_shape(bytes: Seq<u8>, ovector: Seq<i32>, capture_count: nat, rc: int) -> Option<Seq<i32>> {
    let groups = capture_count + 1;
    if rc >= 1 && ovector.len() >= 2 * groups && spec_table_ok(
        bytes,
        ovector.subrange(0, 2 * groups as int),
        groups,
        rc,
    ) {
        Some(ovector.subrange(0, 2 * groups as int))
    } else {
        None
    }
}

proof fn lemma_boundary_in_tail(bytes: Seq<u8>, s: int, e: int)
    requires
        valid_utf8(bytes),
        0 <= s <= e <= bytes.len(),
        is_char_boundary(bytes, s),
        is_char_boundary(bytes, e),
    ensures
        valid_utf8(bytes.subrange(s, bytes.len() as int)),
        is_char_boundary(bytes.subrange(s, bytes.len() as int), e - s),
{
    let rest = bytes.subrange(s, bytes.len() as int);
    valid_utf8_split(bytes, s);
    if e == bytes.len() {
        is_char_boundary_start_end_of_seq(rest);
        assert(rest.len() == e - s);
    } else {
        is_char_boundary_iff_not_is_continuation_byte(bytes, e);
        is_char_boundary_iff_not_is_continuation_byte(rest, e - s);
        assert(rest[e - s] == bytes[e]);
    }
}

/// One match of a compiled pattern in a subject: the subject it borrows and
/// the start and end byte offsets of each capture group.
pub struct Match<'a> {
    subject: &'a str,
    partial_ovector: Vec<i32>,
    string_count_: usize,
}

impl<'a> Match<'a> {
    pub closed spec fn spec_subject(&self) -> &'a str {
        self.subject
    }

    /// The offset table: a start and an end for each group, group 0 first.
    pub closed spec fn offsets(&self) -> Seq<i32> {
        self.partial_ovector@
    }

    pub closed spec fn spec_string_count(&self) -> nat {
        self.string_count_ as nat
    }

    /// The number of groups the table holds, group 0 included.
    pub open spec fn groups(&self) -> nat {
        (self.offsets().len() / 2) as nat
    }

    pub open spec fn wf(&self) -> bool {
        &&& self.offsets().len() < usize::MAX
        &&& spec_table_ok(
            self.spec_subject().spec_bytes(),
            self.offsets(),
            self.groups(),
            self.spec_string_count() as int,
        )
    }

    /// Builds the match the engine reported for `subject`: `rc` is the
    /// engine's result code and `ovector` the offset vector it filled, for a
    /// pattern with `capture_count` capture groups.
    ///
    /// The result is `None` when `rc` is below 1 (no match) or when the
    /// offsets for the `capture_count + 1` groups are not spans of `subject`.
    pub fn from_ovector(subject: &'a str, ovector: &[i32], capture_count: usize, rc: i32) -> (r:
        Option<Match<'a>>)
        requires
            capture_count < usize::MAX / 2,
        ensures
            match spec_shape(subject.spec_bytes(), ovector@, capture_count as nat, rc as int) {
                None => r is None,
                Some(ov) => r matches Some(m) && m.wf() && m.spec_subject() == subject
                    && m.offsets() == ov && m.spec_string_count() == rc as nat,
            },
    {
        let groups = capture_count + 1;
        if rc < 1 || ovector.len() < 2 * groups || rc as usize > groups {
            return None;
        }
        let ghost bytes = subject.spec_bytes();
        let mut table: Vec<i32> = Vec::new();
        let mut n: usize = 0;
        while n < groups
            invariant
                groups == capture_count + 1,
                capture_count < usize::MAX / 2,
                ovector@.len() >= 2 * groups,
                n <= groups,
                bytes == subject.spec_bytes(),
                table@ == ovector@.subrange(0, 2 * n as int),
                forall|j: int| 0 <= j < n ==> #[trigger] spec_pair_ok(bytes, table@, j),
            decreases groups - n,
        {
            let s = ovector[2 * n];
            let e = ovector[2 * n + 1];
            let ok = (s == -1 && e == -1) || (0 <= s && s <= e
                && subject.is_char_boundary(s as usize) && subject.is_char_boundary(e as usize));
            if !ok {
                proof {
                    let ov = ovector@.subrange(0, 2 * groups as int);
                    assert(ov[2 * n as int] == s && ov[2 * n + 1] == e);
                    assert(!spec_pair_ok(bytes, ov, n as int));
                }
                return None;
            }
            let ghost prev = table@;
            table.push(s);
            table.push(e);
            proof {
                assert(table@ =~= ovector@.subrange(0, 2 * (n + 1) as int));
                assert forall|j: int| 0 <= j < n + 1 implies #[trigger] spec_pair_ok(bytes, table@, j) by {
                    if j < n {
                        assert(spec_pair_ok(bytes, prev, j));
                        assert(table@[2 * j] == prev[2 * j]);
                        assert(table@[2 * j + 1] == prev[2 * j + 1]);
                    }
                }
            }
            n = n + 1;
        }
        if table[0] < 0 {
            return None;
        }
        proof {
            assert(table@.len() / 2 == groups);
        }
        Some(Match { subject, partial_ovector: table, string_count_: rc as usize })
    }

    /// The start offset of the whole match.
    pub fn start_of_whole(&self) -> (r: usize)
        requires
            self.wf(),
        ensures
            r as int == self.offsets()[0],
    {
        assert(spec_pair_ok(self.subject.spec_bytes(), self.offsets(), 0));
        self.partial_ovector[0] as usize
    }

    /// The end offset of the whole match; it lies within the subject.
    pub fn end_of_whole(&self) -> (r: usize)
        requires
            self.wf(),
        ensures
            r as int == self.offsets()[1],
            self.offsets()[0] <= r <= self.spec_subject().spec_bytes().len(),
    {
        assert(spec_pair_ok(self.subject.spec_bytes(), self.offsets(), 0));
        self.partial_ovector[1] as usize
    }

    /// Whether group `n` took part in the match.
    pub fn is_group_set(&self, n: usize) -> (r: bool)
        requires
            self.wf(),
            n < self.groups(),
        ensures
            r == spec_group_set(self.offsets(), n as int),
    {
        self.partial_ovector[2 * n] >= 0
    }

    /// The start byte offset of group `n` in the subject.
    pub fn group_start(&self, n: usize) -> (r: usize)
        requires
            self.wf(),
            n < self.spec_string_count(),
            spec_group_set(self.offsets(), n as int),
        ensures
            r as int == self.offsets()[2 * n as int],
    {
        assert(spec_pair_ok(self.subject.spec_bytes(), self.offsets(), n as int));
        self.partial_ovector[2 * n] as usize
    }

    /// The end byte offset of group `n` in the subject.
    pub fn group_end(&self, n: usize) -> (r: usize)
        requires
            self.wf(),
            n < self.spec_string_count(),
            spec_group_set(self.offsets(), n as int),
        ensures
            r as int == self.offsets()[2 * n + 1],
    {
        assert(spec_pair_ok(self.subject.spec_bytes(), self.offsets(), n as int));
        self.partial_ovector[2 * n + 1] as usize
    }

    /// The length in bytes of the substring that group `n` matched.
    pub fn group_len(&self, n: usize) -> (r: usize)
        requires
            self.wf(),
            n < self.spec_string_count(),
            spec_group_set(self.offsets(), n as int),
        ensures
            r as int == self.offsets()[2 * n + 1] - self.offsets()[2 * n as int],
    {
        assert(spec_pair_ok(self.subject.spec_bytes(), self.offsets(), n as int));
        (self.partial_ovector[2 * n + 1] - self.partial_ovector[2 * n]) as usize
    }

    /// The substring that group `n` matched, a slice of the subject.
    pub fn group(&self, n: usize) -> (r: &'a str)
        requires
            self.wf(),
            n < self.spec_string_count(),
            spec_group_set(self.offsets(), n as int),
        ensures
            r.spec_bytes() == self.spec_subject().spec_bytes().subrange(
                self.offsets()[2 * n as int] as int,
                self.offsets()[2 * n + 1] as int,
            ),
    {
        let ghost bytes = self.subject.spec_bytes();
        assert(spec_pair_ok(bytes, self.offsets(), n as int));
        let s = self.partial_ovector[2 * n] as usize;
        let e = self.partial_ovector[2 * n + 1] as usize;
        proof {
            encode_utf8_valid_utf8(self.subject@);
            lemma_boundary_in_tail(bytes, s as int, e as int);
        }
        let subject: &'a str = self.subject;
        let (_, rest) = subject.split_at(s);
        let (mid, _) = rest.split_at(e - s);
        assert(mid.spec_bytes() =~= bytes.subrange(s as int, e as int));
        mid
    }

    /// The number of groups the engine reported, group 0 included.
    pub fn string_count(&self) -> (r: usize)
        ensures
            r == self.spec_string_count(),
    {
        self.string_count_
    }
}

/// What a single match from byte offset `start` yields: the match's offset
/// table, provided the match begins at or after `start`.
pub open spec fn spec_exec(
    bytes: Seq<u8>,
    ovector: Seq<i32>,
    capture_count: nat,
    rc: int,
    start: int,
) -> Option<Seq<i32>> {
    match spec_shape(bytes, ovector, capture_count, rc) {
        Some(ov) => if ov[0] as int >= start {
            Some(ov)
        } else {
            None
        },
        None => None,
    }
}

} // verus!
