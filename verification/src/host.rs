//! The build host, as the kit names it in the directories of its prebuilt
//! compilers.

use crate::text::str_eq;
use vstd::prelude::*;
use vstd::string::StringExecFns;

verus! {

/// The kit's name for the operating system that calls itself `os`: macOS
/// hosts are filed under `darwin`, every other name is used as it is.
pub open spec fn kit_os_name(os: Seq<char>) -> Seq<char> {
    if os == "macos"@ {
        "darwin"@
    } else {
        os
    }
}

/// The host triple: the kit's name for the operating system, a dash, and the
/// CPU architecture.
pub open spec fn host_triple_of(os: Seq<char>, cpu: Seq<char>) -> Seq<char> {
    kit_os_name(os) + "-"@ + cpu
}

/// A macOS host is filed under `darwin-`, not under `macos-`; any other
/// host is filed under the very name its operating system reports.
pub proof fn lemma_host_triple_prefix(os: Seq<char>, cpu: Seq<char>)
    ensures
        os == "macos"@ ==> "darwin-"@.is_prefix_of(host_triple_of(os, cpu)),
        os == "macos"@ ==> !"macos-"@.is_prefix_of(host_triple_of(os, cpu)),
        os != "macos"@ ==> (os + "-"@).is_prefix_of(host_triple_of(os, cpu)),
        host_triple_of(os, cpu).len() == kit_os_name(os).len() + 1 + cpu.len(),
{
    reveal_strlit("macos");
    reveal_strlit("darwin");
    reveal_strlit("-");
    reveal_strlit("darwin-");
    reveal_strlit("macos-");
    if os == "macos"@ {
        assert("macos-"@[0] == 'm');
    }
}

/// Gives the kit's name for the host operating system `os`.
pub fn normalize_host_os<'a>(os: &'a str) -> (name: &'a str)
    ensures
        name@ == kit_os_name(os@),
{
    if str_eq(os, "macos") {
        "darwin"
    } else {
        os
    }
}

/// Builds the host triple of a host that reports `os` and `cpu`.
pub fn host_triple(os: &str, cpu: &str) -> (triple: String)
    ensures
        triple@ == host_triple_of(os@, cpu@),
{
    let mut triple = String::from_str(normalize_host_os(os));
    triple.append("-");
    triple.append(cpu);
    triple
}

} // verus!
