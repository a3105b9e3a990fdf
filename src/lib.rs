//! A safe handle over a native regular-expression engine: option sets and
//! their native encoding, the shaping of the engine's offset vector into
//! bounds-checked capture groups, the match-iteration state machine, the
//! name-table decoding and the shared-ownership rules of a compiled pattern.

pub mod extra;
pub mod flags;
pub mod iterator;
pub mod matching;
pub mod names;
pub mod options;
pub mod pattern;

pub use extra::{extra_flags_from_native, PcreExtra};
pub use flags::{
    CompileOption, ExecNoStartOptimize, ExecOption, ExecPartial, ExtraOption, StudyOption,
};
pub use iterator::MatchIterator;
pub use matching::Match;
pub use names::{name_table, pcre_version};
pub use options::{CLike, EnumSet};
pub use pattern::{pattern_cstring, release_needed, CompilationError, Pcre};
