//! The toolchain configuration and the paths that follow from it.

use crate::arch::{
    check_supported, is_64_bit_capable, is_supported, lemma_switch_at_first_64_bit_api, map_arch,
    mapped_arch, narrow_arch, wide_arch, FIRST_64_BIT_API, FIRST_MULTI_ARCH_API,
};
use crate::error::{ConfigurationError, ConfigurationErrorView};
use crate::host::{host_triple, host_triple_of};
use crate::text::{
    decimal, ends_with_slash, has_double_slash, lemma_decimal_digits, lemma_double_slash_concat,
    push_decimal, starts_with_slash,
};
use crate::triple::{arch_token, split_arch_token};
use vstd::prelude::*;
use vstd::string::StringExecFns;

verus! {

/// The compiler family whose prebuilt binaries the kit ships.
pub open spec fn toolchain_family() -> Seq<char> {
    "llvm"@
}

/// The outcome of resolving the architecture directory for `target` at
/// `api`.
///
/// An empty triple is malformed. Any other triple resolves through the
/// table of architecture directories, and is turned down where the kit
/// ships no system root for the outcome at that API level.
pub open spec fn resolve_platform_arch(target: Seq<char>, api: u8) -> Result<
    Seq<char>,
    ConfigurationErrorView,
> {
    if target.len() == 0 {
        Err(ConfigurationErrorView::MalformedInput)
    } else if is_supported(mapped_arch(arch_token(target), api), api) {
        Ok(mapped_arch(arch_token(target), api))
    } else {
        Err(ConfigurationErrorView::UnsupportedCombination { target, api_level: api })
    }
}

/// A toolchain configuration: where the kit lies, which host it runs on, and
/// which target it compiles for. It does not change once made.
#[derive(Debug)]
pub struct Toolchain {
    ndk: String,
    toolchain: String,
    api: u8,
    toolchain_host: String,
    platform_arch: String,
}

/// What a [`Toolchain`] holds, as plain values.
pub struct ToolchainView {
    /// The directory in which the kit is installed.
    pub ndk_root: Seq<char>,
    /// The compiler family.
    pub toolchain_name: Seq<char>,
    /// The minimum platform API level of the target.
    pub api_level: u8,
    /// The build host, as the kit names it.
    pub host_triple: Seq<char>,
    /// The kit's architecture directory for the target.
    pub platform_arch: Seq<char>,
}

impl ToolchainView {
    /// What holds of every configuration: the compiler family is the one
    /// that the kit ships, and the kit has a system root for the
    /// architecture directory at the API level.
    pub open spec fn well_formed(self) -> bool {
        &&& self.toolchain_name == toolchain_family()
        &&& is_supported(self.platform_arch, self.api_level)
    }

    /// The configuration that `target` and `api` give on a host that
    /// reports `host_os` and `host_cpu`, for a kit installed at `ndk_root`.
    pub open spec fn configured(
        ndk_root: Seq<char>,
        api: u8,
        target: Seq<char>,
        host_os: Seq<char>,
        host_cpu: Seq<char>,
    ) -> Result<ToolchainView, ConfigurationErrorView> {
        match resolve_platform_arch(target, api) {
            Ok(platform_arch) => Ok(
                ToolchainView {
                    ndk_root,
                    toolchain_name: toolchain_family(),
                    api_level: api,
                    host_triple: host_triple_of(host_os, host_cpu),
                    platform_arch,
                },
            ),
            Err(e) => Err(e),
        }
    }

    /// The path of the prebuilt compiler binary called `binary`.
    pub open spec fn compiler_path(self, binary: Seq<char>) -> Seq<char> {
        self.ndk_root + "/toolchains/"@ + self.toolchain_name + "/prebuilt/"@ + self.host_triple
            + "/bin/"@ + binary
    }

    /// The path of the system root for the target.
    pub open spec fn sysroot_path(self) -> Seq<char> {
        self.ndk_root + "/platforms/android-"@ + decimal(self.api_level as nat) + "/arch-"@
            + self.platform_arch
    }
}

impl View for Toolchain {
    type V = ToolchainView;

    closed spec fn view(&self) -> ToolchainView {
        ToolchainView {
            ndk_root: self.ndk@,
            toolchain_name: self.toolchain@,
            api_level: self.api,
            host_triple: self.toolchain_host@,
            platform_arch: self.platform_arch@,
        }
    }
}

impl Toolchain {
    /// Every configuration that exists is well formed.
    #[verifier::type_invariant]
    spec fn consistent(&self) -> bool {
        self@.well_formed()
    }

    /// Resolves the kit's architecture directory for `target` at `api`.
    ///
    /// Fails on an empty triple, and on a triple whose architecture has no
    /// system root at `api`.
    pub fn platform_arch<'a>(target: &'a str, api: u8) -> (outcome: Result<
        &'a str,
        ConfigurationError,
    >)
        ensures
            resolve_platform_arch(target@, api) == match outcome {
                Ok(arch) => Ok(arch@),
                Err(e) => Err(e@),
            },
    {
        if target.is_empty() {
            return Err(ConfigurationError::MalformedInput);
        }
        let arch = map_arch(split_arch_token(target), api);
        if !check_supported(arch, api) {
            return Err(
                ConfigurationError::UnsupportedCombination {
                    target: String::from_str(target),
                    api_level: api,
                },
            );
        }
        Ok(arch)
    }

    /// Makes the configuration for a kit installed at `ndk_dir`, on a host
    /// that reports `host_os` and `host_cpu`.
    ///
    /// Fails where [`Toolchain::platform_arch`] fails, with its error.
    /// Whether anything exists at `ndk_dir` is not looked at.
    pub fn with_ndk(
        ndk_dir: String,
        api: u8,
        target: &str,
        host_os: &str,
        host_cpu: &str,
    ) -> (outcome: Result<Toolchain, ConfigurationError>)
        ensures
            ToolchainView::configured(ndk_dir@, api, target@, host_os@, host_cpu@)
                == match outcome {
                Ok(toolchain) => Ok(toolchain@),
                Err(e) => Err(e@),
            },
            outcome matches Ok(toolchain) ==> toolchain@.well_formed(),
    {
        let platform_arch = match Self::platform_arch(target, api) {
            Ok(arch) => arch,
            Err(e) => {
                return Err(e);
            },
        };
        Ok(
            Toolchain {
                ndk: ndk_dir,
                toolchain: String::from_str("llvm"),
                api,
                toolchain_host: host_triple(host_os, host_cpu),
                platform_arch: String::from_str(platform_arch),
            },
        )
    }

    /// The path of the C compiler.
    pub fn cc(&self) -> (path: String)
        ensures
            path@ == self@.compiler_path("clang"@),
            self@.well_formed(),
    {
        proof {
            use_type_invariant(self);
        }
        self.compiler("clang")
    }

    /// The path of the C++ compiler.
    pub fn cxx(&self) -> (path: String)
        ensures
            path@ == self@.compiler_path("clang++"@),
            self@.well_formed(),
    {
        proof {
            use_type_invariant(self);
        }
        self.compiler("clang++")
    }

    /// The path of the system root for the target.
    pub fn sysroot(&self) -> (path: String)
        ensures
            path@ == self@.sysroot_path(),
            self@.well_formed(),
    {
        proof {
            use_type_invariant(self);
        }
        let mut path = self.ndk.clone();
        path.append("/platforms/android-");
        push_decimal(&mut path, self.api);
        path.append("/arch-");
        path.append(self.platform_arch.as_str());
        path
    }

    fn compiler(&self, binary: &str) -> (path: String)
        ensures
            path@ == self@.compiler_path(binary@),
    {
        let mut path = self.ndk.clone();
        path.append("/toolchains/");
        path.append(self.toolchain.as_str());
        path.append("/prebuilt/");
        path.append(self.toolchain_host.as_str());
        path.append("/bin/");
        path.append(binary);
        path
    }
}

/// Resolving the same triple at the same API level twice gives the same
/// outcome twice: the same directory, or the same error. From
/// [`FIRST_MULTI_ARCH_API`] on, the outcome for a triple that is not empty
/// is a directory.
pub proof fn lemma_platform_arch_deterministic(
    target: &str,
    api: u8,
    first: Result<&str, ConfigurationError>,
    second: Result<&str, ConfigurationError>,
)
    requires
        call_ensures(Toolchain::platform_arch, (target, api), first),
        call_ensures(Toolchain::platform_arch, (target, api), second),
    ensures
        first is Ok <==> second is Ok,
        first is Ok ==> first->Ok_0@ == second->Ok_0@,
        first is Err ==> first->Err_0@ == second->Err_0@,
        target@.len() > 0 && api >= FIRST_MULTI_ARCH_API ==> first is Ok,
{
}

/// Resolution looks at the architecture token and the API level and at
/// nothing else: two triples that start with the same token resolve to the
/// same directory at the same level, or are both turned down, whatever
/// follows the token.
pub proof fn lemma_resolution_by_token(first: Seq<char>, second: Seq<char>, api: u8)
    requires
        first.len() > 0,
        second.len() > 0,
        arch_token(first) == arch_token(second),
    ensures
        resolve_platform_arch(first, api) is Ok <==> resolve_platform_arch(second, api) is Ok,
        resolve_platform_arch(first, api) is Ok ==> resolve_platform_arch(first, api)
            == resolve_platform_arch(second, api),
{
}

/// From [`FIRST_MULTI_ARCH_API`] on, every triple that is not empty
/// resolves, and to the directory that the table gives for its token.
pub proof fn lemma_resolution_total(target: Seq<char>, api: u8)
    requires
        target.len() > 0,
        api >= FIRST_MULTI_ARCH_API,
    ensures
        resolve_platform_arch(target, api) == Ok::<Seq<char>, ConfigurationErrorView>(
            mapped_arch(arch_token(target), api),
        ),
{
}

/// A triple for a 64-bit-capable architecture resolves to the 32-bit
/// directory below [`FIRST_64_BIT_API`] and to the 64-bit directory from
/// there on.
pub proof fn lemma_resolution_switch(target: Seq<char>, api: u8)
    requires
        is_64_bit_capable(arch_token(target)),
        api >= FIRST_MULTI_ARCH_API,
    ensures
        api < FIRST_64_BIT_API ==> resolve_platform_arch(target, api) == Ok::<
            Seq<char>,
            ConfigurationErrorView,
        >(narrow_arch(arch_token(target))),
        api >= FIRST_64_BIT_API ==> resolve_platform_arch(target, api) == Ok::<
            Seq<char>,
            ConfigurationErrorView,
        >(wide_arch(arch_token(target))),
{
    lemma_switch_at_first_64_bit_api(arch_token(target), api);
    reveal_strlit("aarch64");
    reveal_strlit("x86_64");
    reveal_strlit("mips64");
    assert(arch_token(target).len() > 0);
}

/// The compiler paths of a well-formed configuration, with the compiler
/// family written out: the root, the fixed middle part, the host triple, and
/// the fixed tail, with nothing between them.
pub proof fn lemma_compiler_path_template(toolchain: ToolchainView)
    requires
        toolchain.well_formed(),
    ensures
        toolchain.compiler_path("clang"@) == toolchain.ndk_root + "/toolchains/llvm/prebuilt/"@
            + toolchain.host_triple + "/bin/clang"@,
        toolchain.compiler_path("clang++"@) == toolchain.ndk_root + "/toolchains/llvm/prebuilt/"@
            + toolchain.host_triple + "/bin/clang++"@,
{
    reveal_strlit("/toolchains/");
    reveal_strlit("llvm");
    reveal_strlit("/prebuilt/");
    reveal_strlit("/toolchains/llvm/prebuilt/");
    reveal_strlit("/bin/");
    reveal_strlit("clang");
    reveal_strlit("clang++");
    reveal_strlit("/bin/clang");
    reveal_strlit("/bin/clang++");
    let root = toolchain.ndk_root;
    let host = toolchain.host_triple;
    let middle = "/toolchains/"@ + "llvm"@ + "/prebuilt/"@;
    assert(toolchain.compiler_path("clang"@) =~= root + middle + host + ("/bin/"@ + "clang"@));
    assert(toolchain.compiler_path("clang++"@) =~= root + middle + host + ("/bin/"@ + "clang++"@));
}

/// A compiler path of a well-formed configuration holds a double slash
/// exactly where the root holds one or ends with a slash, or where the host
/// triple is empty, holds one, or starts or ends with a slash. The path of
/// the system root holds one exactly where the root holds one or ends with a
/// slash, or where the architecture directory holds one.
pub proof fn lemma_double_slashes(toolchain: ToolchainView)
    requires
        toolchain.well_formed(),
    ensures
        has_double_slash(toolchain.compiler_path("clang"@)) <==> has_double_slash(
            toolchain.ndk_root,
        ) || ends_with_slash(toolchain.ndk_root) || toolchain.host_triple.len() == 0
            || has_double_slash(toolchain.host_triple) || starts_with_slash(toolchain.host_triple)
            || ends_with_slash(toolchain.host_triple),
        has_double_slash(toolchain.compiler_path("clang++"@)) <==> has_double_slash(
            toolchain.compiler_path("clang"@),
        ),
        has_double_slash(toolchain.sysroot_path()) <==> has_double_slash(toolchain.ndk_root)
            || ends_with_slash(toolchain.ndk_root) || has_double_slash(toolchain.platform_arch),
{
    let root = toolchain.ndk_root;
    let host = toolchain.host_triple;
    let arch = toolchain.platform_arch;
    let number = decimal(toolchain.api_level as nat);
    lemma_compiler_path_template(toolchain);
    lemma_decimal_digits(toolchain.api_level as nat);
    reveal_strlit("/toolchains/llvm/prebuilt/");
    reveal_strlit("/bin/clang");
    reveal_strlit("/bin/clang++");
    reveal_strlit("/platforms/android-");
    reveal_strlit("/arch-");
    let middle = "/toolchains/llvm/prebuilt/"@;
    lemma_double_slash_concat(root, middle);
    lemma_double_slash_concat(root + middle, host);
    lemma_double_slash_concat(root + middle + host, "/bin/clang"@);
    lemma_double_slash_concat(root + middle + host, "/bin/clang++"@);
    let platforms = "/platforms/android-"@;
    lemma_double_slash_concat(root, platforms);
    lemma_double_slash_concat(root + platforms, number);
    lemma_double_slash_concat(root + platforms + number, "/arch-"@);
    lemma_double_slash_concat(root + platforms + number + "/arch-"@, arch);
}

} // verus!
