use pcre::{Match, MatchIterator, Pcre};
use pcre::{EnumSet, ExecOption};

fn digits_pair_first() -> Vec<i32> {
    vec![0, 5, 0, 2, 3, 5, 0, 0, 0]
}

fn digits_pair_second() -> Vec<i32> {
    vec![6, 11, 6, 8, 9, 11, 0, 0, 0]
}

#[test]
fn first_match_groups_of_two_numbers() {
    let subject = "12-34 56-78";
    let p = Pcre::new(2);
    let m = p.exec_result(subject, 0, 3, &digits_pair_first()).unwrap();
    assert_eq!(m.string_count(), 3);
    assert_eq!(m.group(0), "12-34");
    assert_eq!(m.group(1), "12");
    assert_eq!(m.group(2), "34");
    assert_eq!((m.group_start(0), m.group_end(0)), (0, 5));
    assert_eq!((m.group_start(1), m.group_end(1)), (0, 2));
    assert_eq!((m.group_start(2), m.group_end(2)), (3, 5));
    assert_eq!(m.group_len(0), 5);
    assert_eq!(m.group_len(2), 2);
}

#[test]
fn iterator_yields_two_matches_then_none() {
    let subject = "12-34 56-78";
    let p = Pcre::new(2);
    let mut it = p.matches(subject);
    assert_eq!(it.offset(), 0);
    assert_eq!(it.ovector_size(), 9);
    let first = it.advance(3, &digits_pair_first()).unwrap();
    assert_eq!(first.group(0), "12-34");
    assert_eq!(it.offset(), 5);
    let second = it.advance(3, &digits_pair_second()).unwrap();
    assert_eq!(second.group(0), "56-78");
    assert_eq!((second.group_start(0), second.group_end(0)), (6, 11));
    assert_eq!(second.group(1), "56");
    assert_eq!(second.group(2), "78");
    assert_eq!(it.offset(), 11);
    assert!(!it.is_exhausted());
    assert!(it.advance(-1, &vec![0; 9]).is_none());
    assert!(it.is_exhausted());
    // An exhausted iterator produces nothing, whatever it is handed.
    assert!(it.advance(3, &digits_pair_second()).is_none());
    // Results outlive the cursor's later steps.
    assert_eq!(first.group(1), "12");
}

#[test]
fn exec_and_first_iteration_agree() {
    let subject = "12-34 56-78";
    let p = Pcre::new(2);
    let ov = digits_pair_first();
    let a = p.exec_result(subject, 0, 3, &ov).unwrap();
    let mut it = p.matches(subject);
    let b = it.advance(3, &ov).unwrap();
    assert_eq!(a.string_count(), b.string_count());
    for n in 0..3 {
        assert_eq!(a.group_start(n), b.group_start(n));
        assert_eq!(a.group_end(n), b.group_end(n));
    }
}

#[test]
fn empty_matches_advance_by_one() {
    let subject = "ab";
    let p = Pcre::new(0);
    let mut it = p.matches(subject);
    let m = it.advance(1, &vec![0, 0, 0]).unwrap();
    assert_eq!(m.group(0), "");
    assert_eq!(it.offset(), 1);
    it.advance(1, &vec![1, 1, 0]).unwrap();
    assert_eq!(it.offset(), 2);
    it.advance(1, &vec![2, 2, 0]).unwrap();
    assert!(it.is_exhausted());
}

#[test]
fn nonempty_match_moves_to_its_end() {
    let subject = "aaa";
    let p = Pcre::new(0);
    let mut it = p.matches(subject);
    it.advance(1, &vec![0, 2, 0]).unwrap();
    assert_eq!(it.offset(), 2);
}

#[test]
fn match_before_scan_offset_ends_iteration() {
    let subject = "abcabc";
    let p = Pcre::new(0);
    let mut it = p.matches(subject);
    it.advance(1, &vec![3, 6, 0]).unwrap();
    assert_eq!(it.offset(), 6);
    assert!(!it.is_exhausted());
    assert!(it.advance(1, &vec![0, 3, 0]).is_none());
    assert!(it.is_exhausted());
}

#[test]
fn unset_group_is_reported_unset() {
    // `(a)|(b)` against "b": group 1 took no part.
    let m = Match::from_ovector("b", &vec![0, 1, -1, -1, 0, 1, 0, 0, 0], 2, 3).unwrap();
    assert_eq!(m.string_count(), 3);
    assert!(m.is_group_set(0));
    assert!(!m.is_group_set(1));
    assert!(m.is_group_set(2));
    assert_eq!(m.group(2), "b");
}

#[test]
fn malformed_offsets_give_no_match() {
    // End past the subject.
    assert!(Match::from_ovector("ab", &vec![0, 3, 0], 0, 1).is_none());
    // Start after end.
    assert!(Match::from_ovector("ab", &vec![2, 1, 0], 0, 1).is_none());
    // Whole match unset.
    assert!(Match::from_ovector("ab", &vec![-1, -1, 0], 0, 1).is_none());
    // Offset vector too short for the groups.
    assert!(Match::from_ovector("ab", &vec![0, 1], 1, 1).is_none());
    // More groups reported than the pattern has.
    assert!(Match::from_ovector("ab", &vec![0, 1, 0], 0, 2).is_none());
    // Inside a multi-byte character.
    assert!(Match::from_ovector("é", &vec![0, 1, 0], 0, 1).is_none());
    // No match.
    assert!(Match::from_ovector("ab", &vec![0, 1, 0], 0, -1).is_none());
}

#[test]
fn groups_slice_multibyte_subjects() {
    let m = Match::from_ovector("aéb", &vec![1, 3, 0], 0, 1).unwrap();
    assert_eq!(m.group(0), "é");
    assert_eq!(m.group_len(0), 2);
}

#[test]
fn clone_is_an_independent_cursor() {
    let subject = "12-34 56-78";
    let p = Pcre::new(2);
    let mut it = p.matches(subject);
    let copy = it.clone();
    it.advance(3, &digits_pair_first()).unwrap();
    assert_eq!(it.offset(), 5);
    assert_eq!(copy.offset(), 0);
    let mut copy = copy;
    let m = copy.advance(3, &digits_pair_first()).unwrap();
    assert_eq!(m.group(0), "12-34");
}

#[test]
fn cursor_keeps_a_nul_terminated_copy() {
    let subject = "a\0b";
    let it = MatchIterator::new(subject, 0, EnumSet::empty());
    assert_eq!(it.subject_cstring(), &vec![b'a', 0, b'b', 0]);
    assert_eq!(it.subject(), subject);
}

#[test]
fn cursor_carries_its_options() {
    let mut opts: EnumSet<ExecOption> = EnumSet::empty();
    opts.insert(ExecOption::ExecNotBol);
    let p = Pcre::new(1);
    let it = p.matches_with_options("x", opts);
    assert!(it.options().contains(&ExecOption::ExecNotBol));
    assert_eq!(it.options().native_bits(), 0x80);
    assert_eq!(it.ovector_size(), 6);
}

#[test]
fn exec_result_refuses_match_before_start_offset() {
    let subject = "12-34 56-78";
    let p = Pcre::new(2);
    assert!(p.exec_result(subject, 6, 3, &digits_pair_first()).is_none());
    let m = p.exec_result(subject, 6, 3, &digits_pair_second()).unwrap();
    assert_eq!(m.group(0), "56-78");
    assert!(p.exec_result(subject, 1, 3, &digits_pair_first()).is_none());
}

#[test]
fn engine_code_zero_is_no_match() {
    let p = Pcre::new(2);
    assert!(p.exec_result("12-34 56-78", 0, 0, &digits_pair_first()).is_none());
    assert!(Match::from_ovector("ab", &vec![0, 1, 0], 0, 0).is_none());
}
