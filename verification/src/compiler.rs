//! The one decision of the build-time compiler wrapper that is plain
//! computation: telling from the wrapper executable's name whether it stands
//! in for a C or a C++ frontend.
//!
//! The wrapper itself — argument passthrough, invoking the underlying
//! compiler, injecting coverage instrumentation — is an external
//! collaborator; a name that identifies neither frontend is a programmer
//! error the wrapper treats as fatal.

use vstd::prelude::*;

verus! {

/// Which compiler frontend a wrapper executable stands in for.
#[derive(Debug, Clone, Copy, PartialEq, Eq, Structural)]
pub enum CompilerKind {
    /// A C frontend (the name ends in `cc`).
    C,
    /// A C++ frontend (the name ends in `++`, `pp` or `xx`).
    Cpp,
}

/// Whether the two final characters, compared case-insensitively, spell the
/// C-frontend suffix `cc`.
pub open spec fn is_c_suffix(a: char, b: char) -> bool {
    (a == 'c' || a == 'C') && (b == 'c' || b == 'C')
}

/// Whether the two final characters, compared case-insensitively, spell one
/// of the C++-frontend suffixes `++`, `pp` or `xx`.
pub open spec fn is_cpp_suffix(a: char, b: char) -> bool {
    ||| (a == '+' && b == '+')
    ||| ((a == 'p' || a == 'P') && (b == 'p' || b == 'P'))
    ||| ((a == 'x' || a == 'X') && (b == 'x' || b == 'X'))
}

/// The frontend a wrapper name identifies: decided by its last two
/// characters, case-insensitively; names shorter than two characters, and
/// names with an unrecognized suffix, identify none.
pub open spec fn spec_classify(name: Seq<char>) -> Option<CompilerKind> {
    if name.len() < 2 {
        None
    } else if is_c_suffix(name[name.len() - 2], name[name.len() - 1]) {
        Some(CompilerKind::C)
    } else if is_cpp_suffix(name[name.len() - 2], name[name.len() - 1]) {
        Some(CompilerKind::Cpp)
    } else {
        None
    }
}

/// Classifies a wrapper executable name as a C or C++ frontend by its
/// suffix, or as neither.
pub fn classify_wrapper_name(name: &str) -> (r: Option<CompilerKind>)
    ensures
        r == spec_classify(name@),
{
    let n = name.unicode_len();
    if n < 2 {
        return None;
    }
    let a = name.get_char(n - 2);
    let b = name.get_char(n - 1);
    if (a == 'c' || a == 'C') && (b == 'c' || b == 'C') {
        Some(CompilerKind::C)
    } else if (a == '+' && b == '+') || ((a == 'p' || a == 'P') && (b == 'p' || b == 'P')) || ((a
        == 'x' || a == 'X') && (b == 'x' || b == 'X')) {
        Some(CompilerKind::Cpp)
    } else {
        None
    }
}

} // verus!
