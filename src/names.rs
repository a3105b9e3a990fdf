use vstd::prelude::*;
use vstd::utf8::{decode_utf8, valid_utf8};

verus! {

/// The first index in `from..to` where `t` holds a NUL byte, or `to`.
pub open spec fn spec_nul_at_or_after(t: Seq<u8>, from: int, to: int) -> int
    decreases to - from,
{
    if from >= to {
        to
    } else if t[from] == 0 {
        from
    } else {
        spec_nul_at_or_after(t, from + 1, to)
    }
}

/// The bytes of the name in entry `i` of a name table whose entries are
/// `size` bytes long: two bytes of group number, then the name up to its
/// terminating NUL byte.
pub open spec fn spec_name_bytes(t: Seq<u8>, size: nat, i: nat) -> Seq<u8> {
    let base = (i * size) as int;
    t.subrange(base + 2, spec_nul_at_or_after(t, base + 2, base + size))
}

/// The group number in entry `i`, stored most significant byte first.
pub open spec fn spec_group_number(t: Seq<u8>, size: nat, i: nat) -> usize {
    let base = (i * size) as int;
    ((t[base] as nat) * 256 + t[base + 1] as nat) as usize
}

/// Whether entry `i` is well formed: its name ends within the entry and is
/// valid UTF-8.
pub open spec fn spec_entry_ok(t: Seq<u8>, size: nat, i: nat) -> bool {
    let base = (i * size) as int;
    spec_nul_at_or_after(t, base + 2, base + size) < base + size && valid_utf8(
        spec_name_bytes(t, size, i),
    )
}

/// Whether `t` holds `count` well-formed entries of `size` bytes each.
pub open spec fn spec_table_ok(t: Seq<u8>, count: nat, size: nat) -> bool {
    &&& size >= 3
    &&& count * size <= t.len()
    &&& forall|i: nat| i < count ==> #[trigger] spec_entry_ok(t, size, i)
}

/// The entries of a well-formed table, in the engine's order: each name
/// with its group number.
pub open spec fn spec_entries(t: Seq<u8>, count: nat, size: nat) -> Seq<(Seq<char>, usize)> {
    Seq::new(count, |i: int| (decode_utf8(spec_name_bytes(t, size, i as nat)), spec_group_number(t, size, i as nat)))
}

/// The group numbers listed under `name` in `entries`, in order.
pub open spec fn spec_groups_named(entries: Seq<(Seq<char>, usize)>, name: Seq<char>) -> Seq<usize>
    decreases entries.len(),
{
    if entries.len() == 0 {
        Seq::empty()
    } else {
        let rest = spec_groups_named(entries.drop_last(), name);
        if entries.last().0 == name {
            rest.push(entries.last().1)
        } else {
            rest
        }
    }
}

/// Whether `name` is one of the names in `table`.
pub open spec fn spec_lists(table: Seq<(Seq<char>, Seq<usize>)>, name: Seq<char>) -> bool {
    exists|a: int| 0 <= a < table.len() && #[trigger] table[a].0 == name
}

/// Whether `name` is the name of one of `entries`.
pub open spec fn spec_names(entries: Seq<(Seq<char>, usize)>, name: Seq<char>) -> bool {
    exists|k: int| 0 <= k < entries.len() && #[trigger] entries[k].0 == name
}

/// Whether `table` maps names to group numbers as `entries` list them: each
/// name once, with all its group numbers in order; every listed name is a
/// key, and every key is a listed name.
pub open spec fn spec_grouped(table: Seq<(Seq<char>, Seq<usize>)>, entries: Seq<(Seq<char>, usize)>) -> bool {
    &&& forall|a: int, b: int|
        #![trigger table[a], table[b]]
        0 <= a < b < table.len() ==> table[a].0 != table[b].0
    &&& forall|a: int| 0 <= a < table.len() ==> #[trigger] table[a].1 == spec_groups_named(entries, table[a].0)
    &&& forall|k: int| 0 <= k < entries.len() ==> spec_lists(table, #[trigger] entries[k].0)
    &&& forall|a: int| 0 <= a < table.len() ==> spec_names(entries, #[trigger] table[a].0)
}

/// Relies on `String::from_utf8`: it succeeds exactly on valid UTF-8, and the
/// string then holds those bytes.
#[verifier::external_body]
pub(crate) fn string_from_utf8(bytes: Vec<u8>) -> (r: Option<String>)
    ensures
        r is Some <==> valid_utf8(bytes@),
        r matches Some(s) ==> s@ == decode_utf8(bytes@),
{
    String::from_utf8(bytes).ok()
}

/// The view of a decoded table: each name's characters with its group
/// numbers.
pub open spec fn spec_table_view(v: Seq<(String, Vec<usize>)>) -> Seq<(Seq<char>, Seq<usize>)> {
    v.map_values(|p: (String, Vec<usize>)| (p.0@, p.1@))
}

/// Decodes entry `i` of a name table whose entries are `size` bytes long.
fn decode_entry(t: &[u8], size: usize, i: usize) -> (r: Option<(String, usize)>)
    requires
        size >= 3,
        (i + 1) * size <= t@.len(),
    ensures
        r is Some <==> spec_entry_ok(t@, size as nat, i as nat),
        r matches Some(p) ==> p.0@ == decode_utf8(spec_name_bytes(t@, size as nat, i as nat))
            && p.1 == spec_group_number(t@, size as nat, i as nat),
{
    let total = t.len();
    proof {
        assert((i + 1) * size == i * size + size) by (nonlinear_arith);
    }
    let base = i * size;
    let end = base + size;
    let mut j = base + 2;
    while j < end && t[j] != 0
        invariant
            base + 2 <= j <= end,
            end <= t@.len(),
            spec_nul_at_or_after(t@, j as int, end as int) == spec_nul_at_or_after(
                t@,
                base + 2,
                end as int,
            ),
        decreases end - j,
    {
        j = j + 1;
    }
    if j == end {
        return None;
    }
    let mut name: Vec<u8> = Vec::new();
    let mut k = base + 2;
    while k < j
        invariant
            base + 2 <= k <= j < end <= t@.len(),
            name@ == t@.subrange(base + 2, k as int),
        decreases j - k,
    {
        name.push(t[k]);
        k = k + 1;
        assert(name@ =~= t@.subrange(base + 2, k as int));
    }
    let number = (t[base] as usize) * 256 + t[base + 1] as usize;
    match string_from_utf8(name) {
        None => None,
        Some(s) => Some((s, number)),
    }
}

/// Builds the name-to-group-numbers table from the engine's raw name table
/// `table`: `name_count` entries of `entry_size` bytes. A name may be listed
/// more than once (under the duplicate-names compile option); its group
/// numbers are then collected in the table's order, never overwritten.
///
/// The result is `None` when the bytes do not hold that many well-formed
/// entries.
pub fn name_table(table: &[u8], name_count: usize, entry_size: usize) -> (r: Option<
    Vec<(String, Vec<usize>)>,
>)
    ensures
        r is Some <==> spec_table_ok(table@, name_count as nat, entry_size as nat),
        r matches Some(v) ==> spec_grouped(
            spec_table_view(v@),
            spec_entries(table@, name_count as nat, entry_size as nat),
        ),
{
    if entry_size < 3 || name_count > table.len() / entry_size {
        proof {
            if entry_size >= 3 {
                assert(name_count * entry_size > table@.len()) by (nonlinear_arith)
                    requires
                        name_count > table@.len() / (entry_size as nat),
                        entry_size >= 3,
                ;
            }
        }
        return None;
    }
    proof {
        assert(name_count * entry_size <= table@.len()) by (nonlinear_arith)
            requires
                name_count <= table@.len() / (entry_size as nat),
                entry_size >= 3,
        ;
    }
    let ghost es = spec_entries(table@, name_count as nat, entry_size as nat);
    let mut entries: Vec<(String, usize)> = Vec::new();
    let mut i: usize = 0;
    while i < name_count
        invariant
            i <= name_count,
            entry_size >= 3,
            name_count * entry_size <= table@.len(),
            es == spec_entries(table@, name_count as nat, entry_size as nat),
            entries@.len() == i,
            forall|k: nat| k < i ==> #[trigger] spec_entry_ok(table@, entry_size as nat, k),
            forall|k: int| 0 <= k < i ==> (#[trigger] entries@[k]).0@ == es[k].0 && entries@[k].1 == es[k].1,
        decreases name_count - i,
    {
        proof {
            assert((i + 1) * entry_size <= name_count * entry_size) by (nonlinear_arith)
                requires
                    i < name_count,
            ;
        }
        match decode_entry(table, entry_size, i) {
            None => {
                return None;
            },
            Some(p) => {
                entries.push(p);
            },
        }
        i = i + 1;
    }
    let ghost ev = entries@.map_values(|p: (String, usize)| (p.0@, p.1));
    assert(ev =~= es);
    let n = entries.len();
    let mut out: Vec<(String, Vec<usize>)> = Vec::new();
    let mut i: usize = 0;
    while i < n
        invariant
            i <= n,
            n == entries@.len(),
            ev == es,
            ev == entries@.map_values(|p: (String, usize)| (p.0@, p.1)),
            forall|a: int, b: int| 0 <= a < b < out@.len() ==> spec_table_view(out@)[a].0 != spec_table_view(out@)[b].0,
            forall|a: int| 0 <= a < out@.len() ==> #[trigger] spec_table_view(out@)[a].1 == spec_groups_named(ev, spec_table_view(out@)[a].0),
            forall|k: int| 0 <= k < i ==> spec_lists(spec_table_view(out@), #[trigger] ev[k].0),
            forall|a: int| 0 <= a < out@.len() ==> spec_names(ev, #[trigger] spec_table_view(out@)[a].0),
        decreases n - i,
    {
        let name = &entries[i].0;
        let mut seen = false;
        let mut a: usize = 0;
        while a < out.len()
            invariant
                a <= out@.len(),
                seen ==> exists|b: int| 0 <= b < out@.len() && spec_table_view(out@)[b].0 == name@,
                !seen ==> forall|b: int| 0 <= b < a ==> spec_table_view(out@)[b].0 != name@,
            decreases out@.len() - a,
        {
            if out[a].0 == *name {
                seen = true;
                assert(spec_table_view(out@)[a as int].0 == name@);
            }
            a = a + 1;
        }
        let ghost prev = out@;
        if !seen {
            let mut list: Vec<usize> = Vec::new();
            let mut j: usize = 0;
            while j < n
                invariant
                    j <= n,
                    n == entries@.len(),
                    ev == entries@.map_values(|p: (String, usize)| (p.0@, p.1)),
                    list@ == spec_groups_named(ev.take(j as int), name@),
                decreases n - j,
            {
                if entries[j].0 == *name {
                    list.push(entries[j].1);
                }
                assert(ev.take(j + 1).drop_last() =~= ev.take(j as int));
                j = j + 1;
            }
            assert(ev.take(n as int) =~= ev);
            let ghost before = out@;
            out.push((name.clone(), list));
            proof {
                assert(spec_table_view(out@) =~= spec_table_view(before).push((name@, list@)));
            }
        }
        proof {
            let tv = spec_table_view(out@);
            let pv = spec_table_view(prev);
            assert(name@ == ev[i as int].0);
            assert forall|a: int| 0 <= a < out@.len() implies spec_names(ev, #[trigger] tv[a].0) by {
                if a < prev.len() {
                    assert(tv[a].0 == pv[a].0);
                    assert(spec_names(ev, pv[a].0));
                } else {
                    assert(tv[a].0 == ev[i as int].0);
                }
            }
            assert forall|k: int| 0 <= k < i + 1 implies spec_lists(tv, #[trigger] ev[k].0) by {
                if k < i {
                    assert(spec_lists(pv, ev[k].0));
                    let a = choose|a: int| 0 <= a < pv.len() && #[trigger] pv[a].0 == ev[k].0;
                    assert(tv[a].0 == pv[a].0);
                } else if seen {
                    let a = choose|a: int| 0 <= a < prev.len() && pv[a].0 == name@;
                    assert(tv[a].0 == pv[a].0);
                } else {
                    assert(tv[prev.len() as int].0 == name@);
                }
            }
        }
        i = i + 1;
    }
    proof {
        let tv = spec_table_view(out@);
        assert forall|k: int| 0 <= k < es.len() implies spec_lists(tv, #[trigger] es[k].0) by {
            assert(ev[k] == es[k]);
            assert(spec_lists(tv, ev[k].0));
        }
        assert forall|a: int, b: int| 0 <= a < b < tv.len() implies tv[a].0 != tv[b].0 by {
            assert(spec_table_view(out@)[a].0 != spec_table_view(out@)[b].0);
        }
        assert(forall|a: int| 0 <= a < tv.len() ==> #[trigger] tv[a].1 == spec_groups_named(es, tv[a].0));
        assert forall|a: int| 0 <= a < tv.len() implies spec_names(es, #[trigger] tv[a].0) by {
            assert(spec_names(ev, tv[a].0));
        }
        assert(spec_grouped(tv, es));
    }
    Some(out)
}

/// The engine's version text, from the NUL-terminated buffer it hands out:
/// the bytes before the first NUL byte (all of them if there is none),
/// decoded as UTF-8; `None` if they are not valid UTF-8.
pub fn pcre_version(raw: &[u8]) -> (r: Option<String>)
    ensures
        ({
            let text = raw@.subrange(0, spec_nul_at_or_after(raw@, 0, raw@.len() as int));
            &&& r is Some <==> valid_utf8(text)
            &&& r matches Some(s) ==> s@ == decode_utf8(text)
        }),
{
    let mut v: Vec<u8> = Vec::new();
    let mut i: usize = 0;
    while i < raw.len() && raw[i] != 0
        invariant
            i <= raw@.len(),
            v@ == raw@.subrange(0, i as int),
            spec_nul_at_or_after(raw@, i as int, raw@.len() as int) == spec_nul_at_or_after(
                raw@,
                0,
                raw@.len() as int,
            ),
        decreases raw@.len() - i,
    {
        v.push(raw[i]);
        i = i + 1;
        assert(v@ =~= raw@.subrange(0, i as int));
    }
    string_from_utf8(v)
}

} // verus!
