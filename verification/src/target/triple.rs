//! Target triples: what of a triple of `target_lexicon` this library reads.

use vstd::prelude::*;
use target_lexicon::{Architecture, BinaryFormat, CallingConvention, Triple, X86_32Architecture};
use crate::contxt::obj::object_builder::BinFormat;
use crate::target::call_conv::CallConv;

verus! {

/// A target triple of `target_lexicon`. Nothing is known of what it holds.
#[verifier::external_type_specification]
#[verifier::external_body]
pub struct ExTriple(Triple);

/// The architectures that this library tells apart.
#[derive(Debug, Clone, Copy, PartialEq, Eq, Structural)]
pub enum Arch {
    /// x86 with 64-bit addresses.
    X86_64,
    /// x86 with 32-bit addresses: i386, i586 or i686.
    X86_32,
    /// Any other.
    Other,
}

/// What this library makes of the field `architecture` of the triple: x86 with
/// 64-bit addresses, x86 with 32-bit addresses for i386, i586 and i686, and
/// `Other` for every other architecture.
pub uninterp spec fn arch_of(target: Triple) -> Arch;

/// The field `architecture` of the triple as `target_lexicon` displays it.
pub uninterp spec fn arch_name_of(target: Triple) -> Seq<char>;

/// What `Triple::default_calling_convention` gives for the triple: the
/// convention, where it is that of System V or that of Windows; else the name
/// of the convention as `target_lexicon` writes it for debugging, and the empty
/// name where `target_lexicon` knows of no convention for the triple.
pub uninterp spec fn call_conv_of(target: Triple) -> Result<CallConv, Seq<char>>;

/// The field `binary_format` of the triple, where it is ELF, COFF or Mach-O;
/// nothing, where it is another.
pub uninterp spec fn format_of(target: Triple) -> Option<BinFormat>;

/// Reads the field `architecture` of the triple and tells x86-64, the three
/// kinds of x86-32 that are named, and all others apart: the result is `arch_of`
/// of the triple.
#[verifier::external_body]
pub(crate) fn triple_arch(target: &Triple) -> (arch: Arch)
    ensures
        arch == arch_of(*target),
{
    match target.architecture {
        Architecture::X86_64 => Arch::X86_64,
        Architecture::X86_32(X86_32Architecture::I386) => Arch::X86_32,
        Architecture::X86_32(X86_32Architecture::I586) => Arch::X86_32,
        Architecture::X86_32(X86_32Architecture::I686) => Arch::X86_32,
        _ => Arch::Other,
    }
}

/// Writes the field `architecture` of the triple through the `Display` of
/// `target_lexicon::Architecture`: the result is `arch_name_of` of the triple.
#[verifier::external_body]
pub(crate) fn triple_arch_name(target: &Triple) -> (name: String)
    ensures
        name@ == arch_name_of(*target),
{
    format!("{}", target.architecture)
}

/// Whether `call` is the convention, or the name in place of it, that `named` holds.
pub open spec fn is_call_conv(
    call: Result<CallConv, String>,
    named: Result<CallConv, Seq<char>>,
) -> bool {
    match call {
        Ok(conv) => named == Ok::<CallConv, Seq<char>>(conv),
        Err(name) => named == Err::<CallConv, Seq<char>>(name@),
    }
}

/// Calls `Triple::default_calling_convention`. The two conventions that this
/// library knows are handed on; of another the name is handed on, as its
/// `Debug` writes it; where the call fails, an empty name. The result is
/// `call_conv_of` of the triple.
#[verifier::external_body]
pub(crate) fn triple_call_conv(target: &Triple) -> (call: Result<CallConv, String>)
    ensures
        is_call_conv(call, call_conv_of(*target)),
{
    match target.default_calling_convention() {
        Ok(CallingConvention::SystemV) => Ok(CallConv::SystemV),
        Ok(CallingConvention::WindowsFastcall) => Ok(CallConv::WindowsFastcall),
        Ok(other) => Err(format!("{:?}", other)),
        Err(_) => Err(String::new()),
    }
}

/// Reads the field `binary_format` of the triple, and keeps the three formats
/// that this library knows: the result is `format_of` of the triple.
#[verifier::external_body]
pub(crate) fn triple_format(target: &Triple) -> (format: Option<BinFormat>)
    ensures
        format == format_of(*target),
{
    match target.binary_format {
        BinaryFormat::Elf => Some(BinFormat::Elf),
        BinaryFormat::Coff => Some(BinFormat::Coff),
        BinaryFormat::Macho => Some(BinFormat::Macho),
        _ => None,
    }
}

/// Calls `Triple::host`: the triple of the machine that this library was built
/// for. Nothing is claimed of the result.
#[verifier::external_body]
pub(crate) fn host_triple() -> Triple {
    Triple::host()
}

} // verus!
