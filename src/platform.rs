//! The platform families whose directory conventions differ.
use vstd::prelude::*;

verus! {

/// A platform family, picked once from the operating system's identifier.
#[derive(Clone, Copy, Debug, PartialEq, Eq, Structural)]
pub enum Platform {
    /// Apple's macOS.
    MacOs,
    /// Microsoft Windows.
    Windows,
    /// Linux and every other system, which follow the XDG defaults.
    Posix,
}

/// The family that an operating system identifier (`"linux"`, `"macos"`,
/// `"windows"`, ...) belongs to.
pub open spec fn platform_of(os: Seq<char>) -> Platform {
    if os == "macos"@ {
        Platform::MacOs
    } else if os == "windows"@ {
        Platform::Windows
    } else {
        Platform::Posix
    }
}

/// Whether two strings hold the same characters.
fn str_eq(a: &str, b: &str) -> (r: bool)
    ensures
        r == (a@ == b@),
{
    let n = a.unicode_len();
    if n != b.unicode_len() {
        return false;
    }
    let mut i: usize = 0;
    while i < n
        invariant
            n == a@.len(),
            n == b@.len(),
            i <= n,
            forall|j: int| 0 <= j < i ==> a@[j] == b@[j],
        decreases n - i,
    {
        if a.get_char(i) != b.get_char(i) {
            return false;
        }
        i = i + 1;
    }
    assert(a@ =~= b@);
    true
}

impl Platform {
    /// The family of the operating system named `os`, as Rust's
    /// `std::env::consts::OS` spells it.
    pub fn from_os(os: &str) -> (r: Platform)
        ensures
            r == platform_of(os@),
    {
        if str_eq(os, "macos") {
            Platform::MacOs
        } else if str_eq(os, "windows") {
            Platform::Windows
        } else {
            Platform::Posix
        }
    }
}

} // verus!
