//! The kit's architecture directories, and the rule that picks one for an
//! architecture token at a given API level.

use crate::text::str_eq;
use vstd::prelude::*;

verus! {

/// The first API level for which the kit ships 64-bit system roots.
pub const FIRST_64_BIT_API: u8 = 21;

/// The first API level for which the kit ships system roots other than ARM.
pub const FIRST_MULTI_ARCH_API: u8 = 9;

/// The architecture directory that the kit uses for `token` at `api`.
///
/// The 64-bit architectures fall back to their 32-bit form below
/// [`FIRST_64_BIT_API`]; a token without a rule of its own names its own
/// directory.
pub open spec fn mapped_arch(token: Seq<char>, api: u8) -> Seq<char> {
    if token == "arm"@ || token == "armv7"@ {
        "arm"@
    } else if token == "aarch64"@ {
        if api < FIRST_64_BIT_API {
            "arm"@
        } else {
            "arm64"@
        }
    } else if token == "i686"@ {
        "x86"@
    } else if token == "x86_64"@ {
        if api < FIRST_64_BIT_API {
            "x86"@
        } else {
            "x86_64"@
        }
    } else if token == "mips64"@ {
        if api < FIRST_64_BIT_API {
            "mips"@
        } else {
            "mips64"@
        }
    } else {
        token
    }
}

/// Whether the kit ships a system root for `arch` at `api`: below
/// [`FIRST_MULTI_ARCH_API`] it ships them for ARM alone.
pub open spec fn is_supported(arch: Seq<char>, api: u8) -> bool {
    api >= FIRST_MULTI_ARCH_API || arch == "arm"@
}

/// Whether `token` names an architecture that has a 32-bit and a 64-bit
/// directory.
pub open spec fn is_64_bit_capable(token: Seq<char>) -> bool {
    token == "aarch64"@ || token == "x86_64"@ || token == "mips64"@
}

/// The directory of the 32-bit form of a 64-bit-capable `token`.
pub open spec fn narrow_arch(token: Seq<char>) -> Seq<char> {
    if token == "aarch64"@ {
        "arm"@
    } else if token == "x86_64"@ {
        "x86"@
    } else {
        "mips"@
    }
}

/// The directory of the 64-bit form of a 64-bit-capable `token`.
pub open spec fn wide_arch(token: Seq<char>) -> Seq<char> {
    if token == "aarch64"@ {
        "arm64"@
    } else {
        token
    }
}

/// Makes the characters of every name in the table known to the solver.
pub proof fn lemma_arch_names()
    ensures
        "arm"@ == seq!['a', 'r', 'm'],
        "armv7"@ == seq!['a', 'r', 'm', 'v', '7'],
        "arm64"@ == seq!['a', 'r', 'm', '6', '4'],
        "aarch64"@ == seq!['a', 'a', 'r', 'c', 'h', '6', '4'],
        "i686"@ == seq!['i', '6', '8', '6'],
        "x86"@ == seq!['x', '8', '6'],
        "x86_64"@ == seq!['x', '8', '6', '_', '6', '4'],
        "mips"@ == seq!['m', 'i', 'p', 's'],
        "mips64"@ == seq!['m', 'i', 'p', 's', '6', '4'],
{
    reveal_strlit("arm");
    reveal_strlit("armv7");
    reveal_strlit("arm64");
    reveal_strlit("aarch64");
    reveal_strlit("i686");
    reveal_strlit("x86");
    reveal_strlit("x86_64");
    reveal_strlit("mips");
    reveal_strlit("mips64");
}

/// A 64-bit-capable architecture resolves to its 32-bit directory at every
/// API level below [`FIRST_64_BIT_API`] and to its 64-bit directory at every
/// level from there on, and the two directories differ: the switch happens
/// exactly at that level.
pub proof fn lemma_switch_at_first_64_bit_api(token: Seq<char>, api: u8)
    requires
        is_64_bit_capable(token),
    ensures
        api < FIRST_64_BIT_API ==> mapped_arch(token, api) == narrow_arch(token),
        api >= FIRST_64_BIT_API ==> mapped_arch(token, api) == wide_arch(token),
        narrow_arch(token) != wide_arch(token),
        mapped_arch(token, api) == wide_arch(token) <==> api >= FIRST_64_BIT_API,
{
    lemma_arch_names();
    assert(narrow_arch(token).len() != wide_arch(token).len());
}

/// From [`FIRST_MULTI_ARCH_API`] on, every architecture is supported; below
/// it, exactly the tokens that resolve to ARM are.
pub proof fn lemma_supported_tokens(token: Seq<char>, api: u8)
    ensures
        api >= FIRST_MULTI_ARCH_API ==> is_supported(mapped_arch(token, api), api),
        api < FIRST_MULTI_ARCH_API ==> (is_supported(mapped_arch(token, api), api) <==> token
            == "arm"@ || token == "armv7"@ || token == "aarch64"@),
{
    lemma_arch_names();
}

/// The lookup is a function of the token and the API level: whatever two
/// runs of it on the same token at the same level return, they return the
/// same directory, the one that [`mapped_arch`] names.
pub proof fn lemma_map_arch_deterministic(token: &str, api: u8, first: &str, second: &str)
    requires
        call_ensures(map_arch, (token, api), first),
        call_ensures(map_arch, (token, api), second),
    ensures
        first@ == second@,
        first@ == mapped_arch(token@, api),
{
}

/// Looks `token` up in the table of architecture directories.
pub fn map_arch<'a>(token: &'a str, api: u8) -> (arch: &'a str)
    ensures
        arch@ == mapped_arch(token@, api),
{
    if str_eq(token, "arm") || str_eq(token, "armv7") {
        "arm"
    } else if str_eq(token, "aarch64") {
        if api < FIRST_64_BIT_API {
            "arm"
        } else {
            "arm64"
        }
    } else if str_eq(token, "i686") {
        "x86"
    } else if str_eq(token, "x86_64") {
        if api < FIRST_64_BIT_API {
            "x86"
        } else {
            "x86_64"
        }
    } else if str_eq(token, "mips64") {
        if api < FIRST_64_BIT_API {
            "mips"
        } else {
            "mips64"
        }
    } else {
        token
    }
}

/// Tells whether the kit ships a system root for `arch` at `api`.
pub fn check_supported(arch: &str, api: u8) -> (supported: bool)
    ensures
        supported == is_supported(arch@, api),
{
    api >= FIRST_MULTI_ARCH_API || str_eq(arch, "arm")
}

} // verus!
