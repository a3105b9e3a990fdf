use vstd::prelude::*;
use crate::options::CLike;

verus! {

/// The options accepted when a pattern is compiled.
#[derive(Clone, Copy, Debug, PartialEq, Eq, Structural)]
pub enum CompileOption {
    Caseless,
    Multiline,
    DotAll,
    Extended,
    Anchored,
    DollarEndOnly,
    Extra,
    Ungreedy,
    NoAutoCapture,
    AutoCallout,
    FirstLine,
    DupNames,
    NewlineCR,
    NewlineLF,
    NewlineCRLF,
    NewlineAny,
    NewlineAnyCRLF,
    BsrAnyCRLF,
    BsrUnicode,
    JavaScriptCompat,
    Ucp,
}

impl CLike for CompileOption {
    open spec fn spec_to_usize(&self) -> nat {
        match self {
            CompileOption::Caseless => 1,
            CompileOption::Multiline => 2,
            CompileOption::DotAll => 3,
            CompileOption::Extended => 4,
            CompileOption::Anchored => 5,
            CompileOption::DollarEndOnly => 6,
            CompileOption::Extra => 7,
            CompileOption::Ungreedy => 8,
            CompileOption::NoAutoCapture => 9,
            CompileOption::AutoCallout => 10,
            CompileOption::FirstLine => 11,
            CompileOption::DupNames => 12,
            CompileOption::NewlineCR => 13,
            CompileOption::NewlineLF => 14,
            CompileOption::NewlineCRLF => 15,
            CompileOption::NewlineAny => 16,
            CompileOption::NewlineAnyCRLF => 17,
            CompileOption::BsrAnyCRLF => 18,
            CompileOption::BsrUnicode => 19,
            CompileOption::JavaScriptCompat => 20,
            CompileOption::Ucp => 21,
        }
    }

    open spec fn spec_from_usize(n: nat) -> Self {
        if n == 1 {
            CompileOption::Caseless
        } else if n == 2 {
            CompileOption::Multiline
        } else if n == 3 {
            CompileOption::DotAll
        } else if n == 4 {
            CompileOption::Extended
        } else if n == 5 {
            CompileOption::Anchored
        } else if n == 6 {
            CompileOption::DollarEndOnly
        } else if n == 7 {
            CompileOption::Extra
        } else if n == 8 {
            CompileOption::Ungreedy
        } else if n == 9 {
            CompileOption::NoAutoCapture
        } else if n == 10 {
            CompileOption::AutoCallout
        } else if n == 11 {
            CompileOption::FirstLine
        } else if n == 12 {
            CompileOption::DupNames
        } else if n == 13 {
            CompileOption::NewlineCR
        } else if n == 14 {
            CompileOption::NewlineLF
        } else if n == 15 {
            CompileOption::NewlineCRLF
        } else if n == 16 {
            CompileOption::NewlineAny
        } else if n == 17 {
            CompileOption::NewlineAnyCRLF
        } else if n == 18 {
            CompileOption::BsrAnyCRLF
        } else if n == 19 {
            CompileOption::BsrUnicode
        } else if n == 20 {
            CompileOption::JavaScriptCompat
        } else {
            CompileOption::Ucp
        }
    }

    open spec fn spec_count() -> nat {
        21
    }

    open spec fn spec_native(&self) -> u32 {
        match self {
            CompileOption::Caseless => 0x00000001,
            CompileOption::Multiline => 0x00000002,
            CompileOption::DotAll => 0x00000004,
            CompileOption::Extended => 0x00000008,
            CompileOption::Anchored => 0x00000010,
            CompileOption::DollarEndOnly => 0x00000020,
            CompileOption::Extra => 0x00000040,
            CompileOption::Ungreedy => 0x00000200,
            CompileOption::NoAutoCapture => 0x00001000,
            CompileOption::AutoCallout => 0x00004000,
            CompileOption::FirstLine => 0x00040000,
            CompileOption::DupNames => 0x00080000,
            CompileOption::NewlineCR => 0x00100000,
            CompileOption::NewlineLF => 0x00200000,
            CompileOption::NewlineCRLF => 0x00300000,
            CompileOption::NewlineAny => 0x00400000,
            CompileOption::NewlineAnyCRLF => 0x00500000,
            CompileOption::BsrAnyCRLF => 0x00800000,
            CompileOption::BsrUnicode => 0x01000000,
            CompileOption::JavaScriptCompat => 0x02000000,
            CompileOption::Ucp => 0x20000000,
        }
    }

    proof fn lemma_numbering(x: Self, n: nat) {
    }

    fn from_usize(n: usize) -> (r: Self) {
        match n {
            1 => CompileOption::Caseless,
            2 => CompileOption::Multiline,
            3 => CompileOption::DotAll,
            4 => CompileOption::Extended,
            5 => CompileOption::Anchored,
            6 => CompileOption::DollarEndOnly,
            7 => CompileOption::Extra,
            8 => CompileOption::Ungreedy,
            9 => CompileOption::NoAutoCapture,
            10 => CompileOption::AutoCallout,
            11 => CompileOption::FirstLine,
            12 => CompileOption::DupNames,
            13 => CompileOption::NewlineCR,
            14 => CompileOption::NewlineLF,
            15 => CompileOption::NewlineCRLF,
            16 => CompileOption::NewlineAny,
            17 => CompileOption::NewlineAnyCRLF,
            18 => CompileOption::BsrAnyCRLF,
            19 => CompileOption::BsrUnicode,
            20 => CompileOption::JavaScriptCompat,
            _ => CompileOption::Ucp,
        }
    }

    fn to_usize(&self) -> (r: usize) {
        match self {
            CompileOption::Caseless => 1,
            CompileOption::Multiline => 2,
            CompileOption::DotAll => 3,
            CompileOption::Extended => 4,
            CompileOption::Anchored => 5,
            CompileOption::DollarEndOnly => 6,
            CompileOption::Extra => 7,
            CompileOption::Ungreedy => 8,
            CompileOption::NoAutoCapture => 9,
            CompileOption::AutoCallout => 10,
            CompileOption::FirstLine => 11,
            CompileOption::DupNames => 12,
            CompileOption::NewlineCR => 13,
            CompileOption::NewlineLF => 14,
            CompileOption::NewlineCRLF => 15,
            CompileOption::NewlineAny => 16,
            CompileOption::NewlineAnyCRLF => 17,
            CompileOption::BsrAnyCRLF => 18,
            CompileOption::BsrUnicode => 19,
            CompileOption::JavaScriptCompat => 20,
            CompileOption::Ucp => 21,
        }
    }

    fn native(&self) -> (r: u32) {
        match self {
            CompileOption::Caseless => 0x00000001,
            CompileOption::Multiline => 0x00000002,
            CompileOption::DotAll => 0x00000004,
            CompileOption::Extended => 0x00000008,
            CompileOption::Anchored => 0x00000010,
            CompileOption::DollarEndOnly => 0x00000020,
            CompileOption::Extra => 0x00000040,
            CompileOption::Ungreedy => 0x00000200,
            CompileOption::NoAutoCapture => 0x00001000,
            CompileOption::AutoCallout => 0x00004000,
            CompileOption::FirstLine => 0x00040000,
            CompileOption::DupNames => 0x00080000,
            CompileOption::NewlineCR => 0x00100000,
            CompileOption::NewlineLF => 0x00200000,
            CompileOption::NewlineCRLF => 0x00300000,
            CompileOption::NewlineAny => 0x00400000,
            CompileOption::NewlineAnyCRLF => 0x00500000,
            CompileOption::BsrAnyCRLF => 0x00800000,
            CompileOption::BsrUnicode => 0x01000000,
            CompileOption::JavaScriptCompat => 0x02000000,
            CompileOption::Ucp => 0x20000000,
        }
    }
}

/// The options accepted when a compiled pattern is matched.
#[derive(Clone, Copy, Debug, PartialEq, Eq, Structural)]
pub enum ExecOption {
    ExecAnchored,
    ExecNotBol,
    ExecNotEol,
    ExecNotEmpty,
    ExecPartialSoft,
    ExecNewlineCR,
    ExecNewlineLF,
    ExecNewlineCRLF,
    ExecNewlineAny,
    ExecNewlineAnyCRLF,
    ExecBsrAnyCRLF,
    ExecBsrUnicode,
    ExecNoStartOptimise,
    ExecPartialHard,
    ExecNotEmptyAtStart,
}

impl CLike for ExecOption {
    open spec fn spec_to_usize(&self) -> nat {
        match self {
            ExecOption::ExecAnchored => 1,
            ExecOption::ExecNotBol => 2,
            ExecOption::ExecNotEol => 3,
            ExecOption::ExecNotEmpty => 4,
            ExecOption::ExecPartialSoft => 5,
            ExecOption::ExecNewlineCR => 6,
            ExecOption::ExecNewlineLF => 7,
            ExecOption::ExecNewlineCRLF => 8,
            ExecOption::ExecNewlineAny => 9,
            ExecOption::ExecNewlineAnyCRLF => 10,
            ExecOption::ExecBsrAnyCRLF => 11,
            ExecOption::ExecBsrUnicode => 12,
            ExecOption::ExecNoStartOptimise => 13,
            ExecOption::ExecPartialHard => 14,
            ExecOption::ExecNotEmptyAtStart => 15,
        }
    }

    open spec fn spec_from_usize(n: nat) -> Self {
        if n == 1 {
            ExecOption::ExecAnchored
        } else if n == 2 {
            ExecOption::ExecNotBol
        } else if n == 3 {
            ExecOption::ExecNotEol
        } else if n == 4 {
            ExecOption::ExecNotEmpty
        } else if n == 5 {
            ExecOption::ExecPartialSoft
        } else if n == 6 {
            ExecOption::ExecNewlineCR
        } else if n == 7 {
            ExecOption::ExecNewlineLF
        } else if n == 8 {
            ExecOption::ExecNewlineCRLF
        } else if n == 9 {
            ExecOption::ExecNewlineAny
        } else if n == 10 {
            ExecOption::ExecNewlineAnyCRLF
        } else if n == 11 {
            ExecOption::ExecBsrAnyCRLF
        } else if n == 12 {
            ExecOption::ExecBsrUnicode
        } else if n == 13 {
            ExecOption::ExecNoStartOptimise
        } else if n == 14 {
            ExecOption::ExecPartialHard
        } else {
            ExecOption::ExecNotEmptyAtStart
        }
    }

    open spec fn spec_count() -> nat {
        15
    }

    open spec fn spec_native(&self) -> u32 {
        match self {
            ExecOption::ExecAnchored => 0x00000010,
            ExecOption::ExecNotBol => 0x00000080,
            ExecOption::ExecNotEol => 0x00000100,
            ExecOption::ExecNotEmpty => 0x00000400,
            ExecOption::ExecPartialSoft => 0x00008000,
            ExecOption::ExecNewlineCR => 0x00100000,
            ExecOption::ExecNewlineLF => 0x00200000,
            ExecOption::ExecNewlineCRLF => 0x00300000,
            ExecOption::ExecNewlineAny => 0x00400000,
            ExecOption::ExecNewlineAnyCRLF => 0x00500000,
            ExecOption::ExecBsrAnyCRLF => 0x00800000,
            ExecOption::ExecBsrUnicode => 0x01000000,
            ExecOption::ExecNoStartOptimise => 0x04000000,
            ExecOption::ExecPartialHard => 0x08000000,
            ExecOption::ExecNotEmptyAtStart => 0x10000000,
        }
    }

    proof fn lemma_numbering(x: Self, n: nat) {
    }

    fn from_usize(n: usize) -> (r: Self) {
        match n {
            1 => ExecOption::ExecAnchored,
            2 => ExecOption::ExecNotBol,
            3 => ExecOption::ExecNotEol,
            4 => ExecOption::ExecNotEmpty,
            5 => ExecOption::ExecPartialSoft,
            6 => ExecOption::ExecNewlineCR,
            7 => ExecOption::ExecNewlineLF,
            8 => ExecOption::ExecNewlineCRLF,
            9 => ExecOption::ExecNewlineAny,
            10 => ExecOption::ExecNewlineAnyCRLF,
            11 => ExecOption::ExecBsrAnyCRLF,
            12 => ExecOption::ExecBsrUnicode,
            13 => ExecOption::ExecNoStartOptimise,
            14 => ExecOption::ExecPartialHard,
            _ => ExecOption::ExecNotEmptyAtStart,
        }
    }

    fn to_usize(&self) -> (r: usize) {
        match self {
            ExecOption::ExecAnchored => 1,
            ExecOption::ExecNotBol => 2,
            ExecOption::ExecNotEol => 3,
            ExecOption::ExecNotEmpty => 4,
            ExecOption::ExecPartialSoft => 5,
            ExecOption::ExecNewlineCR => 6,
            ExecOption::ExecNewlineLF => 7,
            ExecOption::ExecNewlineCRLF => 8,
            ExecOption::ExecNewlineAny => 9,
            ExecOption::ExecNewlineAnyCRLF => 10,
            ExecOption::ExecBsrAnyCRLF => 11,
            ExecOption::ExecBsrUnicode => 12,
            ExecOption::ExecNoStartOptimise => 13,
            ExecOption::ExecPartialHard => 14,
            ExecOption::ExecNotEmptyAtStart => 15,
        }
    }

    fn native(&self) -> (r: u32) {
        match self {
            ExecOption::ExecAnchored => 0x00000010,
            ExecOption::ExecNotBol => 0x00000080,
            ExecOption::ExecNotEol => 0x00000100,
            ExecOption::ExecNotEmpty => 0x00000400,
            ExecOption::ExecPartialSoft => 0x00008000,
            ExecOption::ExecNewlineCR => 0x00100000,
            ExecOption::ExecNewlineLF => 0x00200000,
            ExecOption::ExecNewlineCRLF => 0x00300000,
            ExecOption::ExecNewlineAny => 0x00400000,
            ExecOption::ExecNewlineAnyCRLF => 0x00500000,
            ExecOption::ExecBsrAnyCRLF => 0x00800000,
            ExecOption::ExecBsrUnicode => 0x01000000,
            ExecOption::ExecNoStartOptimise => 0x04000000,
            ExecOption::ExecPartialHard => 0x08000000,
            ExecOption::ExecNotEmptyAtStart => 0x10000000,
        }
    }
}

/// The flags that mark which fields of an extra block are in use.
#[derive(Clone, Copy, Debug, PartialEq, Eq, Structural)]
pub enum ExtraOption {
    ExtraStudyData,
    ExtraMatchLimit,
    ExtraCalloutData,
    ExtraTables,
    ExtraMatchLimitRecursion,
    ExtraMark,
    ExtraExecutableJit,
}

impl CLike for ExtraOption {
    open spec fn spec_to_usize(&self) -> nat {
        match self {
            ExtraOption::ExtraStudyData => 1,
            ExtraOption::ExtraMatchLimit => 2,
            ExtraOption::ExtraCalloutData => 3,
            ExtraOption::ExtraTables => 4,
            ExtraOption::ExtraMatchLimitRecursion => 5,
            ExtraOption::ExtraMark => 6,
            ExtraOption::ExtraExecutableJit => 7,
        }
    }

    open spec fn spec_from_usize(n: nat) -> Self {
        if n == 1 {
            ExtraOption::ExtraStudyData
        } else if n == 2 {
            ExtraOption::ExtraMatchLimit
        } else if n == 3 {
            ExtraOption::ExtraCalloutData
        } else if n == 4 {
            ExtraOption::ExtraTables
        } else if n == 5 {
            ExtraOption::ExtraMatchLimitRecursion
        } else if n == 6 {
            ExtraOption::ExtraMark
        } else {
            ExtraOption::ExtraExecutableJit
        }
    }

    open spec fn spec_count() -> nat {
        7
    }

    open spec fn spec_native(&self) -> u32 {
        match self {
            ExtraOption::ExtraStudyData => 0x00000001,
            ExtraOption::ExtraMatchLimit => 0x00000002,
            ExtraOption::ExtraCalloutData => 0x00000004,
            ExtraOption::ExtraTables => 0x00000008,
            ExtraOption::ExtraMatchLimitRecursion => 0x00000010,
            ExtraOption::ExtraMark => 0x00000020,
            ExtraOption::ExtraExecutableJit => 0x00000040,
        }
    }

    proof fn lemma_numbering(x: Self, n: nat) {
    }

    fn from_usize(n: usize) -> (r: Self) {
        match n {
            1 => ExtraOption::ExtraStudyData,
            2 => ExtraOption::ExtraMatchLimit,
            3 => ExtraOption::ExtraCalloutData,
            4 => ExtraOption::ExtraTables,
            5 => ExtraOption::ExtraMatchLimitRecursion,
            6 => ExtraOption::ExtraMark,
            _ => ExtraOption::ExtraExecutableJit,
        }
    }

    fn to_usize(&self) -> (r: usize) {
        match self {
            ExtraOption::ExtraStudyData => 1,
            ExtraOption::ExtraMatchLimit => 2,
            ExtraOption::ExtraCalloutData => 3,
            ExtraOption::ExtraTables => 4,
            ExtraOption::ExtraMatchLimitRecursion => 5,
            ExtraOption::ExtraMark => 6,
            ExtraOption::ExtraExecutableJit => 7,
        }
    }

    fn native(&self) -> (r: u32) {
        match self {
            ExtraOption::ExtraStudyData => 0x00000001,
            ExtraOption::ExtraMatchLimit => 0x00000002,
            ExtraOption::ExtraCalloutData => 0x00000004,
            ExtraOption::ExtraTables => 0x00000008,
            ExtraOption::ExtraMatchLimitRecursion => 0x00000010,
            ExtraOption::ExtraMark => 0x00000020,
            ExtraOption::ExtraExecutableJit => 0x00000040,
        }
    }
}

/// The options accepted when a compiled pattern is studied.
#[derive(Clone, Copy, Debug, PartialEq, Eq, Structural)]
pub enum StudyOption {
    StudyJitCompile,
    StudyJitPartialSoftCompile,
    StudyJitPartialHardCompile,
    /// Always create an extra block.
    StudyExtraNeeded,
}

impl CLike for StudyOption {
    open spec fn spec_to_usize(&self) -> nat {
        match self {
            StudyOption::StudyJitCompile => 1,
            StudyOption::StudyJitPartialSoftCompile => 2,
            StudyOption::StudyJitPartialHardCompile => 3,
            StudyOption::StudyExtraNeeded => 4,
        }
    }

    open spec fn spec_from_usize(n: nat) -> Self {
        if n == 1 {
            StudyOption::StudyJitCompile
        } else if n == 2 {
            StudyOption::StudyJitPartialSoftCompile
        } else if n == 3 {
            StudyOption::StudyJitPartialHardCompile
        } else {
            StudyOption::StudyExtraNeeded
        }
    }

    open spec fn spec_count() -> nat {
        4
    }

    open spec fn spec_native(&self) -> u32 {
        match self {
            StudyOption::StudyJitCompile => 0x00000001,
            StudyOption::StudyJitPartialSoftCompile => 0x00000002,
            StudyOption::StudyJitPartialHardCompile => 0x00000004,
            StudyOption::StudyExtraNeeded => 0x00000008,
        }
    }

    proof fn lemma_numbering(x: Self, n: nat) {
    }

    fn from_usize(n: usize) -> (r: Self) {
        match n {
            1 => StudyOption::StudyJitCompile,
            2 => StudyOption::StudyJitPartialSoftCompile,
            3 => StudyOption::StudyJitPartialHardCompile,
            _ => StudyOption::StudyExtraNeeded,
        }
    }

    fn to_usize(&self) -> (r: usize) {
        match self {
            StudyOption::StudyJitCompile => 1,
            StudyOption::StudyJitPartialSoftCompile => 2,
            StudyOption::StudyJitPartialHardCompile => 3,
            StudyOption::StudyExtraNeeded => 4,
        }
    }

    fn native(&self) -> (r: u32) {
        match self {
            StudyOption::StudyJitCompile => 0x00000001,
            StudyOption::StudyJitPartialSoftCompile => 0x00000002,
            StudyOption::StudyJitPartialHardCompile => 0x00000004,
            StudyOption::StudyExtraNeeded => 0x00000008,
        }
    }
}

/// Another name for partial matching of the soft kind.
#[allow(non_upper_case_globals)]
pub const ExecPartial: ExecOption = ExecOption::ExecPartialSoft;

/// The American spelling of [`ExecOption::ExecNoStartOptimise`].
#[allow(non_upper_case_globals)]
pub const ExecNoStartOptimize: ExecOption = ExecOption::ExecNoStartOptimise;

} // verus!
