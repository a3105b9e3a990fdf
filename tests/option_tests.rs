use pcre::{CLike, CompileOption, EnumSet, ExecOption, ExtraOption, StudyOption};
use pcre::{ExecNoStartOptimize, ExecPartial};

#[test]
fn numbering_round_trips() {
    for n in 1..=21 {
        assert_eq!(CompileOption::from_usize(n).to_usize(), n);
    }
    for n in 1..=15 {
        assert_eq!(ExecOption::from_usize(n).to_usize(), n);
    }
    for n in 1..=7 {
        assert_eq!(ExtraOption::from_usize(n).to_usize(), n);
    }
    for n in 1..=4 {
        assert_eq!(StudyOption::from_usize(n).to_usize(), n);
    }
    assert_eq!(CompileOption::Caseless.to_usize(), 1);
    assert_eq!(CompileOption::Ucp.to_usize(), 21);
    assert_eq!(ExecOption::ExecNotEmptyAtStart.to_usize(), 15);
}

#[test]
fn native_constants() {
    assert_eq!(CompileOption::Caseless.native(), 0x00000001);
    assert_eq!(CompileOption::Ungreedy.native(), 0x00000200);
    assert_eq!(CompileOption::DupNames.native(), 0x00080000);
    assert_eq!(CompileOption::NewlineCRLF.native(), 0x00300000);
    assert_eq!(CompileOption::Ucp.native(), 0x20000000);
    assert_eq!(ExecOption::ExecAnchored.native(), 0x00000010);
    assert_eq!(ExecOption::ExecNotEmptyAtStart.native(), 0x10000000);
    assert_eq!(ExtraOption::ExtraMark.native(), 0x0020);
    assert_eq!(StudyOption::StudyExtraNeeded.native(), 0x0008);
    assert_eq!(ExecPartial, ExecOption::ExecPartialSoft);
    assert_eq!(ExecNoStartOptimize, ExecOption::ExecNoStartOptimise);
}

#[test]
fn empty_set_encodes_no_options() {
    let s: EnumSet<CompileOption> = EnumSet::empty();
    assert_eq!(s.native_bits(), 0);
    assert!(!s.contains(&CompileOption::Caseless));
}

#[test]
fn set_encoding_is_order_and_repeat_free() {
    let mut a: EnumSet<CompileOption> = EnumSet::empty();
    assert!(a.insert(CompileOption::Caseless));
    assert!(a.insert(CompileOption::DupNames));
    assert!(!a.insert(CompileOption::Caseless));
    let mut b: EnumSet<CompileOption> = EnumSet::empty();
    b.insert(CompileOption::DupNames);
    b.insert(CompileOption::Caseless);
    assert_eq!(a.native_bits(), b.native_bits());
    assert_eq!(a.native_bits(), 0x00080001);
}

#[test]
fn set_remove() {
    let mut s: EnumSet<StudyOption> = EnumSet::empty();
    s.insert(StudyOption::StudyJitCompile);
    s.insert(StudyOption::StudyExtraNeeded);
    assert!(s.remove(&StudyOption::StudyJitCompile));
    assert!(!s.remove(&StudyOption::StudyJitCompile));
    assert!(s.contains(&StudyOption::StudyExtraNeeded));
    assert_eq!(s.native_bits(), 0x0008);
}

#[test]
fn overlapping_native_bits_combine() {
    let mut s: EnumSet<ExecOption> = EnumSet::empty();
    s.insert(ExecOption::ExecNewlineCR);
    s.insert(ExecOption::ExecNewlineLF);
    assert_eq!(s.native_bits(), 0x00300000);
    let mut all: EnumSet<CompileOption> = EnumSet::empty();
    for n in 1..=21 {
        all.insert(CompileOption::from_usize(n));
    }
    assert_eq!(all.native_bits(), 0x23fc527f);
}
