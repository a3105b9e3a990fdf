use pcre::{extra_flags_from_native, name_table, pattern_cstring, pcre_version, release_needed};
use pcre::{CompilationError, EnumSet, ExtraOption, Pcre, PcreExtra};

fn studied() -> PcreExtra {
    let mut flags: EnumSet<ExtraOption> = EnumSet::empty();
    flags.insert(ExtraOption::ExtraStudyData);
    PcreExtra::new(flags)
}

#[test]
fn pattern_with_nul_byte_is_a_usage_error() {
    let e = pattern_cstring("a\0b").err().unwrap();
    assert_eq!(e.offset(), 1);
    assert!(e.message().is_some());
    assert!(e.is_usage_error());
}

#[test]
fn pattern_without_nul_is_terminated() {
    assert_eq!(pattern_cstring("(\\d+)").ok().unwrap(), b"(\\d+)\0".to_vec());
    assert_eq!(pattern_cstring("").ok().unwrap(), vec![0u8]);
}

#[test]
fn compilation_error_keeps_message_and_offset() {
    let e = CompilationError::new(Some("missing )".to_string()), 4);
    assert_eq!(e.message(), Some("missing )".to_string()));
    assert_eq!(e.offset(), 4);
    assert!(!e.is_usage_error());
    let e = CompilationError::new(None, 0);
    assert_eq!(e.message(), None);
    assert!(!e.is_usage_error());
}

#[test]
fn capture_count_is_fixed_across_studying() {
    let mut p = Pcre::new(2);
    assert_eq!(p.capture_count(), 2);
    assert_eq!(p.capture_count(), 2);
    assert!(p.finish_study(1, Some(studied())));
    assert_eq!(p.capture_count(), 2);
    assert!(!p.finish_study(2, None));
    assert_eq!(p.capture_count(), 2);
}

#[test]
fn study_is_refused_while_an_iterator_is_alive() {
    let mut p = Pcre::new(1);
    assert!(p.finish_study(1, Some(studied())));
    p.extra().unwrap();
    let it = p.matches("abc");
    // The pattern and the iterator hold a reference each.
    assert!(!Pcre::study_permitted(2));
    assert!(!p.finish_study(2, None));
    // The extra block is still there, unchanged.
    assert!(p.extra().unwrap().flags().contains(&ExtraOption::ExtraStudyData));
    assert_eq!(it.offset(), 0);
    assert!(Pcre::study_permitted(1));
}

#[test]
fn study_replaces_the_extra_block_when_alone() {
    let mut p = Pcre::new(0);
    assert!(p.extra().is_none());
    assert!(p.finish_study(1, Some(studied())));
    assert!(p.extra().is_some());
    assert!(!p.finish_study(1, None));
    assert!(p.extra().is_none());
}

#[test]
fn release_happens_only_for_the_last_owner() {
    // Pattern dropped while a cloned iterator lives: count goes 2 -> 1.
    assert!(!release_needed(1));
    assert!(release_needed(0));
}

#[test]
fn enable_mark_needs_an_extra_block() {
    let mut p = Pcre::new(0);
    assert!(!p.enable_mark());
    assert!(p.extra().is_none());
    p.finish_study(1, Some(studied()));
    assert!(p.enable_mark());
    let flags = p.extra().unwrap().flags();
    assert!(flags.contains(&ExtraOption::ExtraMark));
    assert!(flags.contains(&ExtraOption::ExtraStudyData));
}

#[test]
fn extra_limits() {
    let mut x = studied();
    assert_eq!(x.match_limit(), None);
    assert_eq!(x.match_limit_recursion(), None);
    x.set_match_limit(1000);
    assert_eq!(x.match_limit(), Some(1000));
    assert_eq!(x.match_limit_recursion(), None);
    x.set_match_limit_recursion(50);
    assert_eq!(x.match_limit_recursion(), Some(50));
    assert_eq!(x.match_limit(), Some(1000));
    x.set_mark();
    assert!(x.flags().contains(&ExtraOption::ExtraMark));
    x.unset_mark();
    assert!(!x.flags().contains(&ExtraOption::ExtraMark));
    assert_eq!(x.flags().native_bits(), 0x01 | 0x02 | 0x10);
}

#[test]
fn set_extra_hands_settings_back() {
    let mut p = Pcre::new(0);
    assert!(!p.set_extra(studied()));
    p.finish_study(1, Some(studied()));
    let mut x = studied();
    x.set_match_limit(7);
    assert!(p.set_extra(x));
    assert_eq!(p.extra().unwrap().match_limit(), Some(7));
}

#[test]
fn extra_flags_decode_native_bits() {
    let f = extra_flags_from_native(0x01 | 0x40);
    assert!(f.contains(&ExtraOption::ExtraStudyData));
    assert!(f.contains(&ExtraOption::ExtraExecutableJit));
    assert!(!f.contains(&ExtraOption::ExtraMatchLimit));
    assert_eq!(f.native_bits(), 0x41);
}

#[test]
fn duplicate_names_collect_both_groups() {
    // `(?P<x>a)|(?P<x>b)` compiled with duplicate names allowed.
    let table = vec![0, 1, b'x', 0, 0, 2, b'x', 0];
    let t = name_table(&table, 2, 4).unwrap();
    assert_eq!(t.len(), 1);
    assert_eq!(t[0].0, "x");
    assert_eq!(t[0].1, vec![1, 2]);
}

#[test]
fn distinct_names_each_get_their_group() {
    let table = vec![0, 2, b'd', b'a', b'y', 0, 0, 1, b'y', b'r', 0, 0, 1, 0, b'z', 0, 0, 0];
    let t = name_table(&table, 3, 6).unwrap();
    assert_eq!(t.len(), 3);
    assert_eq!(t[0], ("day".to_string(), vec![2]));
    assert_eq!(t[1], ("yr".to_string(), vec![1]));
    assert_eq!(t[2], ("z".to_string(), vec![256]));
}

#[test]
fn empty_name_table() {
    assert_eq!(name_table(&[], 0, 3).unwrap().len(), 0);
}

#[test]
fn malformed_name_tables_are_refused() {
    // Name not terminated within its entry.
    assert!(name_table(&[0, 1, b'x', b'y'], 1, 4).is_none());
    // Too few bytes for the entries.
    assert!(name_table(&[0, 1, b'x', 0], 2, 4).is_none());
    // Entry too small to hold a name.
    assert!(name_table(&[0, 1], 1, 2).is_none());
    // Name not UTF-8.
    assert!(name_table(&[0, 1, 0xff, 0], 1, 4).is_none());
}

#[test]
fn version_text_stops_at_nul() {
    assert_eq!(pcre_version(b"8.45 2021-06-15\0junk"), Some("8.45 2021-06-15".to_string()));
    assert_eq!(pcre_version(b"8.45"), Some("8.45".to_string()));
    assert_eq!(pcre_version(&[0xff, 0]), None);
}
