//! The description of the bare-metal little-endian Cortex-R4/R5 target
//! (ARMv7-R).
use vstd::prelude::*;

verus! {

/// Whether the linker is driven through a C compiler.
#[derive(Clone, Copy, PartialEq, Eq, Structural)]
pub enum Cc {
    Yes,
    No,
}

/// Whether the linker is LLD.
#[derive(Clone, Copy, PartialEq, Eq, Structural)]
pub enum Lld {
    Yes,
    No,
}

/// The command-line interface of the linker.
#[derive(Clone, Copy, PartialEq, Eq, Structural)]
pub enum LinkerFlavor {
    /// A GNU-style linker.
    Gnu(Cc, Lld),
}

/// How code is relocated.
#[derive(Clone, Copy, PartialEq, Eq, Structural)]
pub enum RelocModel {
    Static,
    Pic,
    Pie,
    DynamicNoPic,
    Ropi,
    Rwpi,
    RopiRwpi,
}

/// What a panic does.
#[derive(Clone, Copy, PartialEq, Eq, Structural)]
pub enum PanicStrategy {
    Unwind,
    Abort,
}

/// The options that a target sets.
pub struct TargetOptions {
    pub abi: String,
    /// The CPU features to enable, comma-separated; none unless the target
    /// asks for some.
    pub features: String,
    pub linker_flavor: LinkerFlavor,
    pub linker: Option<String>,
    pub relocation_model: RelocModel,
    pub panic_strategy: PanicStrategy,
    pub max_atomic_width: Option<u64>,
    pub emit_debug_gdb_scripts: bool,
    pub c_enum_min_bits: Option<u64>,
}

/// A compilation target.
pub struct Target {
    pub llvm_target: String,
    pub pointer_width: u32,
    pub data_layout: String,
    pub arch: String,
    pub options: TargetOptions,
}

/// The target `armv7r-none-eabi`: 32-bit ARM, statically linked with
/// `crablang-lld` used as a GNU-style linker, aborting on panic, with atomics
/// of up to 32 bits, no GDB scripts and C enums of at least 8 bits; it asks
/// for no CPU features.
pub fn target() -> (t: Target)
    ensures
        t.llvm_target@ == "armv7r-unknown-none-eabi"@,
        t.pointer_width == 32,
        t.data_layout@ == "e-m:e-p:32:32-Fi8-i64:64-v128:64:128-a:0:32-n32-S64"@,
        t.arch@ == "arm"@,
        t.options.abi@ == "eabi"@,
        t.options.features@ == Seq::<char>::empty(),
        t.options.linker_flavor == LinkerFlavor::Gnu(Cc::No, Lld::Yes),
        t.options.linker matches Some(l) && l@ == "crablang-lld"@,
        t.options.relocation_model == RelocModel::Static,
        t.options.panic_strategy == PanicStrategy::Abort,
        t.options.max_atomic_width == Some(32u64),
        !t.options.emit_debug_gdb_scripts,
        t.options.c_enum_min_bits == Some(8u64),
{
    Target {
        llvm_target: String::from_str("armv7r-unknown-none-eabi"),
        pointer_width: 32,
        data_layout: String::from_str("e-m:e-p:32:32-Fi8-i64:64-v128:64:128-a:0:32-n32-S64"),
        arch: String::from_str("arm"),
        options: TargetOptions {
            abi: String::from_str("eabi"),
            features: String::new(),
            linker_flavor: LinkerFlavor::Gnu(Cc::No, Lld::Yes),
            linker: Some(String::from_str("crablang-lld")),
            relocation_model: RelocModel::Static,
            panic_strategy: PanicStrategy::Abort,
            max_atomic_width: Some(32),
            emit_debug_gdb_scripts: false,
            c_enum_min_bits: Some(8),
        },
    }
}

} // verus!
