//! The closed set of target platforms, with their `lib.platforms` attribute
//! references.

use crate::text::is_prefix;
use vstd::prelude::*;

verus! {

/// A platform, or a named group of platforms, that a package can be built for.
#[allow(non_camel_case_types)]
#[derive(Debug, Clone, Copy, PartialEq, Eq, Structural)]
pub enum NixPlatforms {
    Aarch64,
    Aarch64Darwin,
    Aarch64Genode,
    Aarch64Linux,
    Aarch64Netbsd,
    Aarch64None,
    All,
    Arm,
    ArmNone,
    Armv5telLinux,
    Armv6lLinux,
    Armv6lNetbsd,
    Armv6lNone,
    Armv7aDarwin,
    Armv7aLinux,
    Armv7aNetbsd,
    Armv7lLinux,
    Armv7lNetbsd,
    AvrNone,
    BigEndian,
    Cygwin,
    Darwin,
    Embedded,
    FreeBSD,
    Genode,
    Gnu,
    I686,
    I686Cygwin,
    I686Darwin,
    I686Freebsd,
    I686Genode,
    I686Linux,
    I686Netbsd,
    I686None,
    I686Openbsd,
    I686Windows,
    Illumos,
    Js,
    JsGhcjs,
    Linux,
    LittleEndian,
    M68k,
    M68kLinux,
    M68kNetbsd,
    M68kNone,
    MesaPlatforms,
    Mips,
    MipselLinux,
    MipselNetbsd,
    Mmix,
    MmixMmixware,
    Msp430None,
    Netbsd,
    NoPlatforms,
    Openbsd,
    Or1k,
    Or1kNone,
    Powerpc64leLinux,
    Powerpc64Linux,
    PowerpcNetbsd,
    PowerpcNone,
    Redox,
    Riscv,
    Riscv32Linux,
    Riscv32Netbsd,
    Riscv32None,
    Riscv64Linux,
    Riscv64Netbsd,
    Riscv64None,
    S390,
    S390Linux,
    S390None,
    Unix,
    Vc4,
    Vc4None,
    Wasi,
    Wasm32Wasi,
    Wasm64Wasi,
    Windows,
    X86,
    X86_64,
    X86_64Cygwin,
    X86_64Darwin,
    X86_64Freebsd,
    X86_64Genode,
    X86_64Linux,
    X86_64Netbsd,
    X86_64None,
    X86_64Openbsd,
    X86_64Redox,
    X86_64Solaris,
    X86_64Windows,
}

impl NixPlatforms {
    /// The `lib.platforms` attribute reference of a platform.
    pub open spec fn nix_meta(self) -> Seq<char> {
        match self {
            NixPlatforms::Aarch64 => "lib.platforms.aarch64"@,
            NixPlatforms::Aarch64Darwin => "lib.platforms.aarch64-darwin"@,
            NixPlatforms::Aarch64Genode => "lib.platforms.aarch64-genode"@,
            NixPlatforms::Aarch64Linux => "lib.platforms.aarch64-linux"@,
            NixPlatforms::Aarch64Netbsd => "lib.platforms.aarch64-netbsd"@,
            NixPlatforms::Aarch64None => "lib.platforms.aarch64-none"@,
            NixPlatforms::All => "lib.platforms.all"@,
            NixPlatforms::Arm => "lib.platforms.arm"@,
            NixPlatforms::ArmNone => "lib.platforms.arm-none"@,
            NixPlatforms::Armv5telLinux => "lib.platforms.armv5tel-linux"@,
            NixPlatforms::Armv6lLinux => "lib.platforms.armv6l-linux"@,
            NixPlatforms::Armv6lNetbsd => "lib.platforms.armv6l-netbsd"@,
            NixPlatforms::Armv6lNone => "lib.platforms.armv6l-none"@,
            NixPlatforms::Armv7aDarwin => "lib.platforms.armv7a-darwin"@,
            NixPlatforms::Armv7aLinux => "lib.platforms.armv7a-linux"@,
            NixPlatforms::Armv7aNetbsd => "lib.platforms.armv7a-netbsd"@,
            NixPlatforms::Armv7lLinux => "lib.platforms.armv7-linux"@,
            NixPlatforms::Armv7lNetbsd => "lib.platforms.armv7-netbsd"@,
            NixPlatforms::AvrNone => "lib.platforms.avr-none"@,
            NixPlatforms::BigEndian => "lib.platforms.bigEndian"@,
            NixPlatforms::Cygwin => "lib.platforms.cygwin"@,
            NixPlatforms::Darwin => "lib.platforms.darwin"@,
            NixPlatforms::Embedded => "lib.platforms.embedded"@,
            NixPlatforms::FreeBSD => "lib.platforms.freeBSD"@,
            NixPlatforms::Genode => "lib.platforms.genode"@,
            NixPlatforms::Gnu => "lib.platforms.gnu"@,
            NixPlatforms::I686 => "lib.platforms.i686"@,
            NixPlatforms::I686Cygwin => "lib.platforms.i686-cygwin"@,
            NixPlatforms::I686Darwin => "lib.platforms.i686-darwin"@,
            NixPlatforms::I686Freebsd => "lib.platforms.i686-freeBSD"@,
            NixPlatforms::I686Genode => "lib.platforms.i686-genode"@,
            NixPlatforms::I686Linux => "lib.platforms.i686-linux"@,
            NixPlatforms::I686Netbsd => "lib.platforms.i686-netbsd"@,
            NixPlatforms::I686None => "lib.platforms.i686-none"@,
            NixPlatforms::I686Openbsd => "lib.platforms.i686-openbsd"@,
            NixPlatforms::I686Windows => "lib.platforms.i686-windows"@,
            NixPlatforms::Illumos => "lib.platforms.illumos"@,
            NixPlatforms::Js => "lib.platforms.js"@,
            NixPlatforms::JsGhcjs => "lib.platforms.js-ghcjs"@,
            NixPlatforms::Linux => "lib.platforms.linux"@,
            NixPlatforms::LittleEndian => "lib.platforms.littleEndian"@,
            NixPlatforms::M68k => "lib.platforms.m68k"@,
            NixPlatforms::M68kLinux => "lib.platforms.m68k-linux"@,
            NixPlatforms::M68kNetbsd => "lib.platforms.m68k-netbsd"@,
            NixPlatforms::M68kNone => "lib.platforms.m68k-none"@,
            NixPlatforms::MesaPlatforms => "lib.platforms.mesaPlatforms"@,
            NixPlatforms::Mips => "lib.platforms.mips"@,
            NixPlatforms::MipselLinux => "lib.platforms.mipsel-linux"@,
            NixPlatforms::MipselNetbsd => "lib.platforms.mipsel-netbsd"@,
            NixPlatforms::Mmix => "lib.platforms.mmix"@,
            NixPlatforms::MmixMmixware => "lib.platforms.mmix-mmixware"@,
            NixPlatforms::Msp430None => "lib.platforms.msp430-none"@,
            NixPlatforms::Netbsd => "lib.platforms.netbsd"@,
            NixPlatforms::NoPlatforms => "lib.platforms.none"@,
            NixPlatforms::Openbsd => "lib.platforms.openbsd"@,
            NixPlatforms::Or1k => "lib.platforms.or1k"@,
            NixPlatforms::Or1kNone => "lib.platforms.or1k-none"@,
            NixPlatforms::Powerpc64leLinux => "lib.platforms.powerpc64le-linux"@,
            NixPlatforms::Powerpc64Linux => "lib.platforms.powerpc64-linux"@,
            NixPlatforms::PowerpcNetbsd => "lib.platforms.powerpc-netbsd"@,
            NixPlatforms::PowerpcNone => "lib.platforms.powerpc-none"@,
            NixPlatforms::Redox => "lib.platforms.redox"@,
            NixPlatforms::Riscv => "lib.platforms.riscv"@,
            NixPlatforms::Riscv32Linux => "lib.platforms.riscv32-linux"@,
            NixPlatforms::Riscv32Netbsd => "lib.platforms.riscv32-netbsd"@,
            NixPlatforms::Riscv32None => "lib.platforms.riscv32-none"@,
            NixPlatforms::Riscv64Linux => "lib.platforms.riscv64-linux"@,
            NixPlatforms::Riscv64Netbsd => "lib.platforms.riscv64-netbsd"@,
            NixPlatforms::Riscv64None => "lib.platforms.riscv64-none"@,
            NixPlatforms::S390 => "lib.platforms.s390"@,
            NixPlatforms::S390Linux => "lib.platforms.s390-linux"@,
            NixPlatforms::S390None => "lib.platforms.s390-none"@,
            NixPlatforms::Unix => "lib.platforms.unix"@,
            NixPlatforms::Vc4 => "lib.platforms.vc4"@,
            NixPlatforms::Vc4None => "lib.platforms.vc4-none"@,
            NixPlatforms::Wasi => "lib.platforms.wasi"@,
            NixPlatforms::Wasm32Wasi => "lib.platforms.wasm32-wasi"@,
            NixPlatforms::Wasm64Wasi => "lib.platforms.wasm64-wasi"@,
            NixPlatforms::Windows => "lib.platforms.windows"@,
            NixPlatforms::X86 => "lib.platforms.x86"@,
            NixPlatforms::X86_64 => "lib.platforms.x86-"@,
            NixPlatforms::X86_64Cygwin => "lib.platforms.x86-cygwin"@,
            NixPlatforms::X86_64Darwin => "lib.platforms.x86-darwin"@,
            NixPlatforms::X86_64Freebsd => "lib.platforms.x86-freebsd"@,
            NixPlatforms::X86_64Genode => "lib.platforms.x86-genode"@,
            NixPlatforms::X86_64Linux => "lib.platforms.x86-linux"@,
            NixPlatforms::X86_64Netbsd => "lib.platforms.x86-netbsd"@,
            NixPlatforms::X86_64None => "lib.platforms.x86-none"@,
            NixPlatforms::X86_64Openbsd => "lib.platforms.x86-openbsd"@,
            NixPlatforms::X86_64Redox => "lib.platforms.x86-redox"@,
            NixPlatforms::X86_64Solaris => "lib.platforms.x86-solaris"@,
            NixPlatforms::X86_64Windows => "lib.platforms.x86-windows"@,
        }
    }

    /// The `lib.platforms` attribute reference of a platform, as text.
    pub fn to_nix_meta(&self) -> (r: String)
        ensures
            r@ == self.nix_meta(),
    {
        let name: &'static str = match self {
            NixPlatforms::Aarch64 => "lib.platforms.aarch64",
            NixPlatforms::Aarch64Darwin => "lib.platforms.aarch64-darwin",
            NixPlatforms::Aarch64Genode => "lib.platforms.aarch64-genode",
            NixPlatforms::Aarch64Linux => "lib.platforms.aarch64-linux",
            NixPlatforms::Aarch64Netbsd => "lib.platforms.aarch64-netbsd",
            NixPlatforms::Aarch64None => "lib.platforms.aarch64-none",
            NixPlatforms::All => "lib.platforms.all",
            NixPlatforms::Arm => "lib.platforms.arm",
            NixPlatforms::ArmNone => "lib.platforms.arm-none",
            NixPlatforms::Armv5telLinux => "lib.platforms.armv5tel-linux",
            NixPlatforms::Armv6lLinux => "lib.platforms.armv6l-linux",
            NixPlatforms::Armv6lNetbsd => "lib.platforms.armv6l-netbsd",
            NixPlatforms::Armv6lNone => "lib.platforms.armv6l-none",
            NixPlatforms::Armv7aDarwin => "lib.platforms.armv7a-darwin",
            NixPlatforms::Armv7aLinux => "lib.platforms.armv7a-linux",
            NixPlatforms::Armv7aNetbsd => "lib.platforms.armv7a-netbsd",
            NixPlatforms::Armv7lLinux => "lib.platforms.armv7-linux",
            NixPlatforms::Armv7lNetbsd => "lib.platforms.armv7-netbsd",
            NixPlatforms::AvrNone => "lib.platforms.avr-none",
            NixPlatforms::BigEndian => "lib.platforms.bigEndian",
            NixPlatforms::Cygwin => "lib.platforms.cygwin",
            NixPlatforms::Darwin => "lib.platforms.darwin",
            NixPlatforms::Embedded => "lib.platforms.embedded",
            NixPlatforms::FreeBSD => "lib.platforms.freeBSD",
            NixPlatforms::Genode => "lib.platforms.genode",
            NixPlatforms::Gnu => "lib.platforms.gnu",
            NixPlatforms::I686 => "lib.platforms.i686",
            NixPlatforms::I686Cygwin => "lib.platforms.i686-cygwin",
            NixPlatforms::I686Darwin => "lib.platforms.i686-darwin",
            NixPlatforms::I686Freebsd => "lib.platforms.i686-freeBSD",
            NixPlatforms::I686Genode => "lib.platforms.i686-genode",
            NixPlatforms::I686Linux => "lib.platforms.i686-linux",
            NixPlatforms::I686Netbsd => "lib.platforms.i686-netbsd",
            NixPlatforms::I686None => "lib.platforms.i686-none",
            NixPlatforms::I686Openbsd => "lib.platforms.i686-openbsd",
            NixPlatforms::I686Windows => "lib.platforms.i686-windows",
            NixPlatforms::Illumos => "lib.platforms.illumos",
            NixPlatforms::Js => "lib.platforms.js",
            NixPlatforms::JsGhcjs => "lib.platforms.js-ghcjs",
            NixPlatforms::Linux => "lib.platforms.linux",
            NixPlatforms::LittleEndian => "lib.platforms.littleEndian",
            NixPlatforms::M68k => "lib.platforms.m68k",
            NixPlatforms::M68kLinux => "lib.platforms.m68k-linux",
            NixPlatforms::M68kNetbsd => "lib.platforms.m68k-netbsd",
            NixPlatforms::M68kNone => "lib.platforms.m68k-none",
            NixPlatforms::MesaPlatforms => "lib.platforms.mesaPlatforms",
            NixPlatforms::Mips => "lib.platforms.mips",
            NixPlatforms::MipselLinux => "lib.platforms.mipsel-linux",
            NixPlatforms::MipselNetbsd => "lib.platforms.mipsel-netbsd",
            NixPlatforms::Mmix => "lib.platforms.mmix",
            NixPlatforms::MmixMmixware => "lib.platforms.mmix-mmixware",
            NixPlatforms::Msp430None => "lib.platforms.msp430-none",
            NixPlatforms::Netbsd => "lib.platforms.netbsd",
            NixPlatforms::NoPlatforms => "lib.platforms.none",
            NixPlatforms::Openbsd => "lib.platforms.openbsd",
            NixPlatforms::Or1k => "lib.platforms.or1k",
            NixPlatforms::Or1kNone => "lib.platforms.or1k-none",
            NixPlatforms::Powerpc64leLinux => "lib.platforms.powerpc64le-linux",
            NixPlatforms::Powerpc64Linux => "lib.platforms.powerpc64-linux",
            NixPlatforms::PowerpcNetbsd => "lib.platforms.powerpc-netbsd",
            NixPlatforms::PowerpcNone => "lib.platforms.powerpc-none",
            NixPlatforms::Redox => "lib.platforms.redox",
            NixPlatforms::Riscv => "lib.platforms.riscv",
            NixPlatforms::Riscv32Linux => "lib.platforms.riscv32-linux",
            NixPlatforms::Riscv32Netbsd => "lib.platforms.riscv32-netbsd",
            NixPlatforms::Riscv32None => "lib.platforms.riscv32-none",
            NixPlatforms::Riscv64Linux => "lib.platforms.riscv64-linux",
            NixPlatforms::Riscv64Netbsd => "lib.platforms.riscv64-netbsd",
            NixPlatforms::Riscv64None => "lib.platforms.riscv64-none",
            NixPlatforms::S390 => "lib.platforms.s390",
            NixPlatforms::S390Linux => "lib.platforms.s390-linux",
            NixPlatforms::S390None => "lib.platforms.s390-none",
            NixPlatforms::Unix => "lib.platforms.unix",
            NixPlatforms::Vc4 => "lib.platforms.vc4",
            NixPlatforms::Vc4None => "lib.platforms.vc4-none",
            NixPlatforms::Wasi => "lib.platforms.wasi",
            NixPlatforms::Wasm32Wasi => "lib.platforms.wasm32-wasi",
            NixPlatforms::Wasm64Wasi => "lib.platforms.wasm64-wasi",
            NixPlatforms::Windows => "lib.platforms.windows",
            NixPlatforms::X86 => "lib.platforms.x86",
            NixPlatforms::X86_64 => "lib.platforms.x86-",
            NixPlatforms::X86_64Cygwin => "lib.platforms.x86-cygwin",
            NixPlatforms::X86_64Darwin => "lib.platforms.x86-darwin",
            NixPlatforms::X86_64Freebsd => "lib.platforms.x86-freebsd",
            NixPlatforms::X86_64Genode => "lib.platforms.x86-genode",
            NixPlatforms::X86_64Linux => "lib.platforms.x86-linux",
            NixPlatforms::X86_64Netbsd => "lib.platforms.x86-netbsd",
            NixPlatforms::X86_64None => "lib.platforms.x86-none",
            NixPlatforms::X86_64Openbsd => "lib.platforms.x86-openbsd",
            NixPlatforms::X86_64Redox => "lib.platforms.x86-redox",
            NixPlatforms::X86_64Solaris => "lib.platforms.x86-solaris",
            NixPlatforms::X86_64Windows => "lib.platforms.x86-windows",
        };
        name.to_owned()
    }

    /// Every platform has an attribute reference, a non-empty name under
    /// `lib.platforms.`.
    #[verifier::rlimit(100)]
    #[verifier::spinoff_prover]
    pub proof fn lemma_meta_prefix(p: NixPlatforms)
        ensures
            is_prefix("lib.platforms."@, p.nix_meta()),
            p.nix_meta().len() > "lib.platforms."@.len(),
    {
        reveal_strlit("lib.platforms.");
        reveal_strlit("lib.platforms.aarch64");
        reveal_strlit("lib.platforms.aarch64-darwin");
        reveal_strlit("lib.platforms.aarch64-genode");
        reveal_strlit("lib.platforms.aarch64-linux");
        reveal_strlit("lib.platforms.aarch64-netbsd");
        reveal_strlit("lib.platforms.aarch64-none");
        reveal_strlit("lib.platforms.all");
        reveal_strlit("lib.platforms.arm");
        reveal_strlit("lib.platforms.arm-none");
        reveal_strlit("lib.platforms.armv5tel-linux");
        reveal_strlit("lib.platforms.armv6l-linux");
        reveal_strlit("lib.platforms.armv6l-netbsd");
        reveal_strlit("lib.platforms.armv6l-none");
        reveal_strlit("lib.platforms.armv7a-darwin");
        reveal_strlit("lib.platforms.armv7a-linux");
        reveal_strlit("lib.platforms.armv7a-netbsd");
        reveal_strlit("lib.platforms.armv7-linux");
        reveal_strlit("lib.platforms.armv7-netbsd");
        reveal_strlit("lib.platforms.avr-none");
        reveal_strlit("lib.platforms.bigEndian");
        reveal_strlit("lib.platforms.cygwin");
        reveal_strlit("lib.platforms.darwin");
        reveal_strlit("lib.platforms.embedded");
        reveal_strlit("lib.platforms.freeBSD");
        reveal_strlit("lib.platforms.genode");
        reveal_strlit("lib.platforms.gnu");
        reveal_strlit("lib.platforms.i686");
        reveal_strlit("lib.platforms.i686-cygwin");
        reveal_strlit("lib.platforms.i686-darwin");
        reveal_strlit("lib.platforms.i686-freeBSD");
        reveal_strlit("lib.platforms.i686-genode");
        reveal_strlit("lib.platforms.i686-linux");
        reveal_strlit("lib.platforms.i686-netbsd");
        reveal_strlit("lib.platforms.i686-none");
        reveal_strlit("lib.platforms.i686-openbsd");
        reveal_strlit("lib.platforms.i686-windows");
        reveal_strlit("lib.platforms.illumos");
        reveal_strlit("lib.platforms.js");
        reveal_strlit("lib.platforms.js-ghcjs");
        reveal_strlit("lib.platforms.linux");
        reveal_strlit("lib.platforms.littleEndian");
        reveal_strlit("lib.platforms.m68k");
        reveal_strlit("lib.platforms.m68k-linux");
        reveal_strlit("lib.platforms.m68k-netbsd");
        reveal_strlit("lib.platforms.m68k-none");
        reveal_strlit("lib.platforms.mesaPlatforms");
        reveal_strlit("lib.platforms.mips");
        reveal_strlit("lib.platforms.mipsel-linux");
        reveal_strlit("lib.platforms.mipsel-netbsd");
        reveal_strlit("lib.platforms.mmix");
        reveal_strlit("lib.platforms.mmix-mmixware");
        reveal_strlit("lib.platforms.msp430-none");
        reveal_strlit("lib.platforms.netbsd");
        reveal_strlit("lib.platforms.none");
        reveal_strlit("lib.platforms.openbsd");
        reveal_strlit("lib.platforms.or1k");
        reveal_strlit("lib.platforms.or1k-none");
        reveal_strlit("lib.platforms.powerpc64le-linux");
        reveal_strlit("lib.platforms.powerpc64-linux");
        reveal_strlit("lib.platforms.powerpc-netbsd");
        reveal_strlit("lib.platforms.powerpc-none");
        reveal_strlit("lib.platforms.redox");
        reveal_strlit("lib.platforms.riscv");
        reveal_strlit("lib.platforms.riscv32-linux");
        reveal_strlit("lib.platforms.riscv32-netbsd");
        reveal_strlit("lib.platforms.riscv32-none");
        reveal_strlit("lib.platforms.riscv64-linux");
        reveal_strlit("lib.platforms.riscv64-netbsd");
        reveal_strlit("lib.platforms.riscv64-none");
        reveal_strlit("lib.platforms.s390");
        reveal_strlit("lib.platforms.s390-linux");
        reveal_strlit("lib.platforms.s390-none");
        reveal_strlit("lib.platforms.unix");
        reveal_strlit("lib.platforms.vc4");
        reveal_strlit("lib.platforms.vc4-none");
        reveal_strlit("lib.platforms.wasi");
        reveal_strlit("lib.platforms.wasm32-wasi");
        reveal_strlit("lib.platforms.wasm64-wasi");
        reveal_strlit("lib.platforms.windows");
        reveal_strlit("lib.platforms.x86");
        reveal_strlit("lib.platforms.x86-");
        reveal_strlit("lib.platforms.x86-cygwin");
        reveal_strlit("lib.platforms.x86-darwin");
        reveal_strlit("lib.platforms.x86-freebsd");
        reveal_strlit("lib.platforms.x86-genode");
        reveal_strlit("lib.platforms.x86-linux");
        reveal_strlit("lib.platforms.x86-netbsd");
        reveal_strlit("lib.platforms.x86-none");
        reveal_strlit("lib.platforms.x86-openbsd");
        reveal_strlit("lib.platforms.x86-redox");
        reveal_strlit("lib.platforms.x86-solaris");
        reveal_strlit("lib.platforms.x86-windows");
        let m = p.nix_meta();
        assert(m.len() > 14);
        assert(m.subrange(0, 14) =~= "lib.platforms."@);
    }

    /// No two platforms share an attribute reference.
    #[verifier::rlimit(100)]
    #[verifier::spinoff_prover]
    pub proof fn lemma_nix_meta_injective(a: NixPlatforms, b: NixPlatforms)
        requires
            a.nix_meta() == b.nix_meta(),
        ensures
            a == b,
    {
        reveal_strlit("lib.platforms.aarch64");
        reveal_strlit("lib.platforms.aarch64-darwin");
        reveal_strlit("lib.platforms.aarch64-genode");
        reveal_strlit("lib.platforms.aarch64-linux");
        reveal_strlit("lib.platforms.aarch64-netbsd");
        reveal_strlit("lib.platforms.aarch64-none");
        reveal_strlit("lib.platforms.all");
        reveal_strlit("lib.platforms.arm");
        reveal_strlit("lib.platforms.arm-none");
        reveal_strlit("lib.platforms.armv5tel-linux");
        reveal_strlit("lib.platforms.armv6l-linux");
        reveal_strlit("lib.platforms.armv6l-netbsd");
        reveal_strlit("lib.platforms.armv6l-none");
        reveal_strlit("lib.platforms.armv7a-darwin");
        reveal_strlit("lib.platforms.armv7a-linux");
        reveal_strlit("lib.platforms.armv7a-netbsd");
        reveal_strlit("lib.platforms.armv7-linux");
        reveal_strlit("lib.platforms.armv7-netbsd");
        reveal_strlit("lib.platforms.avr-none");
        reveal_strlit("lib.platforms.bigEndian");
        reveal_strlit("lib.platforms.cygwin");
        reveal_strlit("lib.platforms.darwin");
        reveal_strlit("lib.platforms.embedded");
        reveal_strlit("lib.platforms.freeBSD");
        reveal_strlit("lib.platforms.genode");
        reveal_strlit("lib.platforms.gnu");
        reveal_strlit("lib.platforms.i686");
        reveal_strlit("lib.platforms.i686-cygwin");
        reveal_strlit("lib.platforms.i686-darwin");
        reveal_strlit("lib.platforms.i686-freeBSD");
        reveal_strlit("lib.platforms.i686-genode");
        reveal_strlit("lib.platforms.i686-linux");
        reveal_strlit("lib.platforms.i686-netbsd");
        reveal_strlit("lib.platforms.i686-none");
        reveal_strlit("lib.platforms.i686-openbsd");
        reveal_strlit("lib.platforms.i686-windows");
        reveal_strlit("lib.platforms.illumos");
        reveal_strlit("lib.platforms.js");
        reveal_strlit("lib.platforms.js-ghcjs");
        reveal_strlit("lib.platforms.linux");
        reveal_strlit("lib.platforms.littleEndian");
        reveal_strlit("lib.platforms.m68k");
        reveal_strlit("lib.platforms.m68k-linux");
        reveal_strlit("lib.platforms.m68k-netbsd");
        reveal_strlit("lib.platforms.m68k-none");
        reveal_strlit("lib.platforms.mesaPlatforms");
        reveal_strlit("lib.platforms.mips");
        reveal_strlit("lib.platforms.mipsel-linux");
        reveal_strlit("lib.platforms.mipsel-netbsd");
        reveal_strlit("lib.platforms.mmix");
        reveal_strlit("lib.platforms.mmix-mmixware");
        reveal_strlit("lib.platforms.msp430-none");
        reveal_strlit("lib.platforms.netbsd");
        reveal_strlit("lib.platforms.none");
        reveal_strlit("lib.platforms.openbsd");
        reveal_strlit("lib.platforms.or1k");
        reveal_strlit("lib.platforms.or1k-none");
        reveal_strlit("lib.platforms.powerpc64le-linux");
        reveal_strlit("lib.platforms.powerpc64-linux");
        reveal_strlit("lib.platforms.powerpc-netbsd");
        reveal_strlit("lib.platforms.powerpc-none");
        reveal_strlit("lib.platforms.redox");
        reveal_strlit("lib.platforms.riscv");
        reveal_strlit("lib.platforms.riscv32-linux");
        reveal_strlit("lib.platforms.riscv32-netbsd");
        reveal_strlit("lib.platforms.riscv32-none");
        reveal_strlit("lib.platforms.riscv64-linux");
        reveal_strlit("lib.platforms.riscv64-netbsd");
        reveal_strlit("lib.platforms.riscv64-none");
        reveal_strlit("lib.platforms.s390");
        reveal_strlit("lib.platforms.s390-linux");
        reveal_strlit("lib.platforms.s390-none");
        reveal_strlit("lib.platforms.unix");
        reveal_strlit("lib.platforms.vc4");
        reveal_strlit("lib.platforms.vc4-none");
        reveal_strlit("lib.platforms.wasi");
        reveal_strlit("lib.platforms.wasm32-wasi");
        reveal_strlit("lib.platforms.wasm64-wasi");
        reveal_strlit("lib.platforms.windows");
        reveal_strlit("lib.platforms.x86");
        reveal_strlit("lib.platforms.x86-");
        reveal_strlit("lib.platforms.x86-cygwin");
        reveal_strlit("lib.platforms.x86-darwin");
        reveal_strlit("lib.platforms.x86-freebsd");
        reveal_strlit("lib.platforms.x86-genode");
        reveal_strlit("lib.platforms.x86-linux");
        reveal_strlit("lib.platforms.x86-netbsd");
        reveal_strlit("lib.platforms.x86-none");
        reveal_strlit("lib.platforms.x86-openbsd");
        reveal_strlit("lib.platforms.x86-redox");
        reveal_strlit("lib.platforms.x86-solaris");
        reveal_strlit("lib.platforms.x86-windows");
        let x = a.nix_meta();
        let y = b.nix_meta();
        assert(x.len() == y.len());
        assert(x[14] == y[14]);
        assert(x[15] == y[15]);
        assert(x[16] == y[16]);
        assert(x[17] == y[17]);
        assert(x[18] == y[18]);
        assert(x[19] == y[19]);
        assert(x[20] == y[20]);
        assert(x[21] == y[21]);
        assert(x[22] == y[22]);
        assert(x[23] == y[23]);
        assert(x[24] == y[24]);
        assert(x[25] == y[25]);
        assert(x[26] == y[26]);
        assert(x[27] == y[27]);
        assert(x[28] == y[28]);
        assert(x[29] == y[29]);
        assert(x[30] == y[30]);
    }
}

} // verus!
