//! Per-run ABI configuration: pointer/word width, enum sizing policy and
//! `char` signedness.  Constructed once and shared by reference through an
//! entire parse.

use vstd::prelude::*;

verus! {

/// The width of the platform's native word, assumed to equal the size of
/// `long` and of all pointers.
#[derive(Clone, Copy, PartialEq, Eq, Structural, Debug)]
pub enum WordSize {
    Size16,
    Size32,
    Size64,
}

impl WordSize {
    /// The word width in bits.
    pub fn bits(&self) -> (r: usize)
        ensures
            r == self.spec_bits(),
    {
        match self {
            WordSize::Size16 => 16,
            WordSize::Size32 => 32,
            WordSize::Size64 => 64,
        }
    }

    /// The word width in bytes.
    pub fn bytes(&self) -> (r: usize)
        ensures
            r == self.spec_bytes(),
    {
        match self {
            WordSize::Size16 => 2,
            WordSize::Size32 => 4,
            WordSize::Size64 => 8,
        }
    }

    /// The compiler flag that selects this word width.
    pub fn clang_arg(&self) -> (r: &'static str)
        ensures
            *self is Size16 ==> r@ == "-m16"@,
            *self is Size32 ==> r@ == "-m32"@,
            *self is Size64 ==> r@ == "-m64"@,
    {
        match self {
            WordSize::Size16 => "-m16",
            WordSize::Size32 => "-m32",
            WordSize::Size64 => "-m64",
        }
    }

    pub open spec fn spec_bits(self) -> usize {
        match self {
            WordSize::Size16 => 16,
            WordSize::Size32 => 32,
            WordSize::Size64 => 64,
        }
    }

    pub open spec fn spec_bytes(self) -> usize {
        match self {
            WordSize::Size16 => 2,
            WordSize::Size32 => 4,
            WordSize::Size64 => 8,
        }
    }
}

/// Immutable ABI configuration consumed everywhere sizes are computed.
#[derive(Clone, Copy, PartialEq, Eq, Structural, Debug)]
pub struct Env {
    pub word_size: WordSize,
    pub short_enums: bool,
    pub signed_char: bool,
}

/// The options an [`Env`] is built from.
#[derive(Clone, Copy, PartialEq, Eq, Structural, Debug)]
pub struct EnvOptions {
    pub word_size: WordSize,
    pub short_enums: bool,
    pub signed_char: bool,
}

impl Env {
    pub fn new(options: EnvOptions) -> (r: Self)
        ensures
            r.spec_word_size() == options.word_size,
            r.spec_short_enums() == options.short_enums,
            r.spec_signed_char() == options.signed_char,
    {
        let EnvOptions { word_size, short_enums, signed_char } = options;
        Env { word_size, short_enums, signed_char }
    }

    pub fn word_size(&self) -> (r: &WordSize)
        ensures
            *r == self.spec_word_size(),
    {
        &self.word_size
    }

    /// The compiler flag matching the configured enum-sizing policy.
    pub fn short_enums_clang_arg(&self) -> (r: &'static str)
        ensures
            self.spec_short_enums() ==> r@ == "-fshort-enums"@,
            !self.spec_short_enums() ==> r@ == "-fno-short-enums"@,
    {
        if self.short_enums {
            "-fshort-enums"
        } else {
            "-fno-short-enums"
        }
    }

    /// The compiler flag matching the configured `char` signedness.
    pub fn signed_char_clang_arg(&self) -> (r: &'static str)
        ensures
            self.spec_signed_char() ==> r@ == "-fsigned-char"@,
            !self.spec_signed_char() ==> r@ == "-funsigned-char"@,
    {
        if self.signed_char {
            "-fsigned-char"
        } else {
            "-funsigned-char"
        }
    }

    pub open spec fn spec_word_size(self) -> WordSize {
        self.word_size
    }

    pub open spec fn spec_short_enums(self) -> bool {
        self.short_enums
    }

    pub open spec fn spec_signed_char(self) -> bool {
        self.signed_char
    }

    /// The word width in bytes, as used for word-sized scalars and pointers.
    pub open spec fn spec_word_bytes(self) -> usize {
        self.word_size.spec_bytes()
    }
}

impl Default for EnvOptions {
    /// A 64-bit environment with compactly sized enums and signed `char`.
    fn default() -> (r: Self)
        ensures
            r.word_size == WordSize::Size64,
            r.short_enums,
            r.signed_char,
    {
        EnvOptions { word_size: WordSize::Size64, short_enums: true, signed_char: true }
    }
}

} // verus!
