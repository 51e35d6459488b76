//! The set of configuration bits a session is opened or reconfigured with.
use vstd::prelude::*;

use crate::magic;

verus! {

/// A set of engine configuration bits.
///
/// Any bit may be set: which combinations the engine accepts is decided by
/// the engine when a session is opened or reconfigured.
#[derive(Clone, Copy, Debug, PartialEq, Eq, Structural, PartialOrd, Ord, Hash, Default)]
pub struct Flags {
    bits: u32,
}

impl View for Flags {
    type V = u32;

    closed spec fn view(&self) -> u32 {
        self.bits
    }
}

impl Flags {
    /// Trace the engine's work on standard error.
    pub fn debug() -> (r: Flags)
        ensures
            r@ == magic::MAGIC_DEBUG,
    {
        Flags { bits: magic::MAGIC_DEBUG }
    }

    /// Follow symbolic links.
    pub fn symlink() -> (r: Flags)
        ensures
            r@ == magic::MAGIC_SYMLINK,
    {
        Flags { bits: magic::MAGIC_SYMLINK }
    }

    /// Look inside compressed files.
    pub fn compress() -> (r: Flags)
        ensures
            r@ == magic::MAGIC_COMPRESS,
    {
        Flags { bits: magic::MAGIC_COMPRESS }
    }

    /// Look into block and character devices.
    pub fn devices() -> (r: Flags)
        ensures
            r@ == magic::MAGIC_DEVICES,
    {
        Flags { bits: magic::MAGIC_DEVICES }
    }

    /// Report the MIME type rather than a description.
    pub fn mime_type() -> (r: Flags)
        ensures
            r@ == magic::MAGIC_MIME_TYPE,
    {
        Flags { bits: magic::MAGIC_MIME_TYPE }
    }

    /// Report every match, not only the first.
    pub fn continue_matching() -> (r: Flags)
        ensures
            r@ == magic::MAGIC_CONTINUE,
    {
        Flags { bits: magic::MAGIC_CONTINUE }
    }

    /// Check the database for consistency.
    pub fn check() -> (r: Flags)
        ensures
            r@ == magic::MAGIC_CHECK,
    {
        Flags { bits: magic::MAGIC_CHECK }
    }

    /// Restore a file's access time after reading it.
    pub fn preserve_atime() -> (r: Flags)
        ensures
            r@ == magic::MAGIC_PRESERVE_ATIME,
    {
        Flags { bits: magic::MAGIC_PRESERVE_ATIME }
    }

    /// Leave unprintable characters unescaped.
    pub fn raw() -> (r: Flags)
        ensures
            r@ == magic::MAGIC_RAW,
    {
        Flags { bits: magic::MAGIC_RAW }
    }

    /// Report errors as errors rather than as descriptions.
    pub fn error() -> (r: Flags)
        ensures
            r@ == magic::MAGIC_ERROR,
    {
        Flags { bits: magic::MAGIC_ERROR }
    }

    /// Report the MIME encoding.
    pub fn mime_encoding() -> (r: Flags)
        ensures
            r@ == magic::MAGIC_MIME_ENCODING,
    {
        Flags { bits: magic::MAGIC_MIME_ENCODING }
    }

    /// Report the MIME type and encoding.
    pub fn mime() -> (r: Flags)
        ensures
            r@ == magic::MAGIC_MIME,
    {
        Flags { bits: magic::MAGIC_MIME }
    }

    /// Report the Apple creator and type.
    pub fn apple() -> (r: Flags)
        ensures
            r@ == magic::MAGIC_APPLE,
    {
        Flags { bits: magic::MAGIC_APPLE }
    }

    /// Report the file extensions that fit the type.
    pub fn extension() -> (r: Flags)
        ensures
            r@ == magic::MAGIC_EXTENSION,
    {
        Flags { bits: magic::MAGIC_EXTENSION }
    }

    /// Report extension, MIME or Apple data instead of a description.
    pub fn nodesc() -> (r: Flags)
        ensures
            r@ == magic::MAGIC_NODESC,
    {
        Flags { bits: magic::MAGIC_NODESC }
    }

    /// Skip the test for compressed files.
    pub fn no_check_compress() -> (r: Flags)
        ensures
            r@ == magic::MAGIC_NO_CHECK_COMPRESS,
    {
        Flags { bits: magic::MAGIC_NO_CHECK_COMPRESS }
    }

    /// Skip the test for tar archives.
    pub fn no_check_tar() -> (r: Flags)
        ensures
            r@ == magic::MAGIC_NO_CHECK_TAR,
    {
        Flags { bits: magic::MAGIC_NO_CHECK_TAR }
    }

    /// Skip the tests of the database.
    pub fn no_check_soft() -> (r: Flags)
        ensures
            r@ == magic::MAGIC_NO_CHECK_SOFT,
    {
        Flags { bits: magic::MAGIC_NO_CHECK_SOFT }
    }

    /// Skip the test for application types.
    pub fn no_check_apptype() -> (r: Flags)
        ensures
            r@ == magic::MAGIC_NO_CHECK_APPTYPE,
    {
        Flags { bits: magic::MAGIC_NO_CHECK_APPTYPE }
    }

    /// Skip the details of ELF files.
    pub fn no_check_elf() -> (r: Flags)
        ensures
            r@ == magic::MAGIC_NO_CHECK_ELF,
    {
        Flags { bits: magic::MAGIC_NO_CHECK_ELF }
    }

    /// Skip the test for text files.
    pub fn no_check_text() -> (r: Flags)
        ensures
            r@ == magic::MAGIC_NO_CHECK_TEXT,
    {
        Flags { bits: magic::MAGIC_NO_CHECK_TEXT }
    }

    /// Skip the test for compound document files.
    pub fn no_check_cdf() -> (r: Flags)
        ensures
            r@ == magic::MAGIC_NO_CHECK_CDF,
    {
        Flags { bits: magic::MAGIC_NO_CHECK_CDF }
    }

    /// Skip the test for CSV files.
    pub fn no_check_csv() -> (r: Flags)
        ensures
            r@ == magic::MAGIC_NO_CHECK_CSV,
    {
        Flags { bits: magic::MAGIC_NO_CHECK_CSV }
    }

    /// Skip the test for known text tokens.
    pub fn no_check_tokens() -> (r: Flags)
        ensures
            r@ == magic::MAGIC_NO_CHECK_TOKENS,
    {
        Flags { bits: magic::MAGIC_NO_CHECK_TOKENS }
    }

    /// Skip the test for text encodings.
    pub fn no_check_encoding() -> (r: Flags)
        ensures
            r@ == magic::MAGIC_NO_CHECK_ENCODING,
    {
        Flags { bits: magic::MAGIC_NO_CHECK_ENCODING }
    }

    /// Skip the test for JSON files.
    pub fn no_check_json() -> (r: Flags)
        ensures
            r@ == magic::MAGIC_NO_CHECK_JSON,
    {
        Flags { bits: magic::MAGIC_NO_CHECK_JSON }
    }

    /// Skip every built-in test but the database's.
    pub fn no_check_builtin() -> (r: Flags)
        ensures
            r@ == magic::MAGIC_NO_CHECK_BUILTIN,
    {
        Flags { bits: magic::MAGIC_NO_CHECK_BUILTIN }
    }

    /// The flag set whose bits are exactly `bits`.
    pub closed spec fn spec_from_bits(bits: u32) -> Flags {
        Flags { bits }
    }

    pub fn empty() -> (r: Flags)
        ensures
            r@ == 0,
    {
        Flags { bits: 0 }
    }

    pub fn bits(&self) -> (r: u32)
        ensures
            r == self@,
    {
        self.bits
    }

    pub fn from_bits_retain(bits: u32) -> (r: Flags)
        ensures
            r == Flags::spec_from_bits(bits),
            r@ == bits,
    {
        Flags { bits }
    }

    /// The flag set with every bit set.
    pub fn all() -> (r: Flags)
        ensures
            r@ == 0xffff_ffffu32,
    {
        Flags { bits: 0xffff_ffffu32 }
    }

    pub fn from_bits(bits: u32) -> (r: Option<Flags>)
        ensures
            r == Some(Flags::spec_from_bits(bits)),
            r is Some && r->Some_0@ == bits,
    {
        Some(Flags { bits })
    }

    pub fn is_empty(&self) -> (r: bool)
        ensures
            r == (self@ == 0),
    {
        self.bits == 0
    }

    /// Whether every bit of `other` is set in `self`.
    pub fn contains(&self, other: Flags) -> (r: bool)
        ensures
            r == (self@ & other@ == other@),
    {
        self.bits & other.bits == other.bits
    }

    /// Whether `self` and `other` share a bit.
    pub fn intersects(&self, other: Flags) -> (r: bool)
        ensures
            r == (self@ & other@ != 0),
    {
        self.bits & other.bits != 0
    }

    pub fn union(self, other: Flags) -> (r: Flags)
        ensures
            r@ == self@ | other@,
    {
        Flags { bits: self.bits | other.bits }
    }

    pub fn intersection(self, other: Flags) -> (r: Flags)
        ensures
            r@ == self@ & other@,
    {
        Flags { bits: self.bits & other.bits }
    }

    /// The bits of `self` that are not in `other`.
    pub fn difference(self, other: Flags) -> (r: Flags)
        ensures
            r@ == self@ & !other@,
    {
        Flags { bits: self.bits & !other.bits }
    }

    pub fn symmetric_difference(self, other: Flags) -> (r: Flags)
        ensures
            r@ == self@ ^ other@,
    {
        Flags { bits: self.bits ^ other.bits }
    }

    pub fn complement(self) -> (r: Flags)
        ensures
            r@ == !self@,
    {
        Flags { bits: !self.bits }
    }

    pub fn insert(&mut self, other: Flags)
        ensures
            final(self)@ == old(self)@ | other@,
    {
        self.bits = self.bits | other.bits;
    }

    pub fn remove(&mut self, other: Flags)
        ensures
            final(self)@ == old(self)@ & !other@,
    {
        self.bits = self.bits & !other.bits;
    }
}

/// Round trip: turning a flag set into its bits and back gives the same flag
/// set, and turning bits into a flag set and back gives the same bits.
pub proof fn lemma_bits_round_trip(f: Flags, bits: u32)
    ensures
        Flags::spec_from_bits(f@) == f,
        Flags::spec_from_bits(bits)@ == bits,
{
}

} // verus!
