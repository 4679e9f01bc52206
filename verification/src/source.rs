//! Everything the evaluation pipeline decides before the engine runs:
//! whether the bytes can be framed for the engine at all, whether they are a
//! module or a global script, and which evaluation flags follow from that.

use vstd::prelude::*;
use vstd::string::*;

use crate::exception::Error;

verus! {

/// A byte sequence holds a NUL byte somewhere.
pub open spec fn has_nul(bytes: Seq<u8>) -> bool {
    exists|i: int| 0 <= i < bytes.len() && bytes[i] == 0u8
}

/// A file name and a source text can be handed to the engine: neither holds
/// a NUL byte.
pub open spec fn encodable(filename: Seq<u8>, source: Seq<u8>) -> bool {
    !has_nul(filename) && !has_nul(source)
}

/// The engine's input form of a source text: the bytes followed by one NUL.
pub open spec fn framed(bytes: Seq<u8>) -> Seq<u8> {
    bytes.push(0u8)
}

/// `text` ends with `suffix`.
pub open spec fn ends_with(text: Seq<u8>, suffix: Seq<u8>) -> bool {
    suffix.len() <= text.len() && text.subrange(text.len() - suffix.len(), text.len() as int)
        == suffix
}

/// The bytes of the file-name suffix `.mjs`, which forces module evaluation.
pub open spec fn module_suffix() -> Seq<u8> {
    seq![0x2eu8, 0x6du8, 0x6au8, 0x73u8]
}

/// How a source text is evaluated.
#[derive(Clone, Copy, Debug, PartialEq, Eq, Structural)]
pub enum SourceKind {
    /// As an ECMAScript module.
    Module,
    /// As a script in the global scope.
    GlobalScript,
}

/// The classification rule: a source is a module when its file name ends in
/// `.mjs` or when the engine's syntax sniffer matched; otherwise it is
/// a global script. The suffix alone is enough, whatever the sniffer said.
pub open spec fn kind_of(filename: Seq<u8>, sniffed_module: bool) -> SourceKind {
    if ends_with(filename, module_suffix()) || sniffed_module {
        SourceKind::Module
    } else {
        SourceKind::GlobalScript
    }
}

/// The flag set handed to the engine's evaluate entry point.
#[derive(Clone, Copy, Debug, PartialEq, Eq, Structural)]
pub struct EvalFlags {
    /// Evaluate as a module.
    pub module: bool,
    /// Evaluate as a global script.
    pub global: bool,
    /// Force strict mode.
    pub strict: bool,
    /// Wrap a global script in an asynchronous function, so that it may use
    /// top-level `await` and evaluates to a promise.
    pub async_wrap: bool,
}

impl EvalFlags {
    /// The two evaluation types exclude each other, and exactly one is set.
    pub open spec fn consistent(self) -> bool {
        self.module != self.global
    }
}

/// The flag set for a kind of source: the matching evaluation type and
/// strict mode.
///
/// Policy: asynchronous wrapping is never requested. A global script
/// evaluates to its completion value and a throw in it is an error of the
/// evaluation itself; a source that needs top-level `await` is evaluated as
/// a module, where it is part of the language.
pub open spec fn flags_of(kind: SourceKind) -> EvalFlags {
    EvalFlags {
        module: kind == SourceKind::Module,
        global: kind == SourceKind::GlobalScript,
        strict: true,
        async_wrap: false,
    }
}

/// Looks for a NUL byte.
pub fn contains_nul(bytes: &[u8]) -> (found: bool)
    ensures
        found == has_nul(bytes@),
{
    let mut i: usize = 0;
    while i < bytes.len()
        invariant
            i <= bytes.len(),
            forall|j: int| 0 <= j < i ==> bytes@[j] != 0u8,
        decreases bytes.len() - i,
    {
        if bytes[i] == 0 {
            return true;
        }
        i += 1;
    }
    false
}

/// Frames a source text for the engine: a copy of the bytes with a
/// terminating NUL. A text that already holds a NUL byte cannot be framed and
/// is refused with [`Error::Encoding`].
pub fn frame_source(source: &[u8]) -> (res: Result<Vec<u8>, Error>)
    ensures
        has_nul(source@) <==> res is Err,
        res matches Err(e) ==> e@ is Encoding,
        res matches Ok(buffer) ==> buffer@ == framed(source@),
{
    if contains_nul(source) {
        return Err(Error::Encoding);
    }
    let mut buffer: Vec<u8> = Vec::new();
    let mut i: usize = 0;
    while i < source.len()
        invariant
            i <= source.len(),
            buffer@ == source@.subrange(0, i as int),
        decreases source.len() - i,
    {
        buffer.push(source[i]);
        i += 1;
    }
    assert(source@.subrange(0, source@.len() as int) == source@);
    buffer.push(0);
    Ok(buffer)
}

/// Tells whether a file name ends in `.mjs`.
pub fn has_module_suffix(filename: &str) -> (found: bool)
    ensures
        found == ends_with(filename.spec_bytes(), module_suffix()),
{
    let bytes = filename.as_bytes();
    let n = bytes.len();
    if n < 4 {
        return false;
    }
    let found = bytes[n - 4] == 0x2e && bytes[n - 3] == 0x6d && bytes[n - 2] == 0x6a && bytes[n
        - 1] == 0x73;
    proof {
        let tail = bytes@.subrange(n - 4, n as int);
        if found {
            assert(tail == module_suffix());
        } else {
            assert(tail[0] != 0x2eu8 || tail[1] != 0x6du8 || tail[2] != 0x6au8 || tail[3] != 0x73u8);
        }
    }
    found
}

/// Classifies a source text from its file name and the verdict of the
/// engine's module-syntax sniffer on the text.
pub fn classify(filename: &str, sniffed_module: bool) -> (kind: SourceKind)
    ensures
        kind == kind_of(filename.spec_bytes(), sniffed_module),
{
    if has_module_suffix(filename) || sniffed_module {
        SourceKind::Module
    } else {
        SourceKind::GlobalScript
    }
}

/// Builds the evaluation flags for a kind of source.
pub fn select_flags(kind: SourceKind) -> (flags: EvalFlags)
    ensures
        flags == flags_of(kind),
        flags.consistent(),
        flags.strict,
        !flags.async_wrap,
{
    match kind {
        SourceKind::Module => EvalFlags {
            module: true,
            global: false,
            strict: true,
            async_wrap: false,
        },
        SourceKind::GlobalScript => EvalFlags {
            module: false,
            global: true,
            strict: true,
            async_wrap: false,
        },
    }
}

/// The UTF-8 bytes of a text of ASCII characters are its characters, one
/// byte each.
pub proof fn lemma_ascii_bytes(text: &str)
    requires
        vstd::utf8::is_ascii_chars(text@),
    ensures
        text.spec_bytes().len() == text@.len(),
        forall|i: int| 0 <= i < text@.len() ==> #[trigger] text.spec_bytes()[i] == text@[i] as u8,
{
    vstd::utf8::is_ascii_chars_encode_utf8(text@);
}

/// The suffix bytes are the UTF-8 encoding of the text `.mjs`.
pub proof fn lemma_module_suffix_is_mjs()
    ensures
        module_suffix() == ".mjs".spec_bytes(),
{
    reveal_strlit(".mjs");
    lemma_ascii_bytes(".mjs");
}

/// Decides, before the engine is touched, whether and how a source text is
/// evaluated.
///
/// A file name or a source with a NUL byte is refused with
/// [`Error::Encoding`]. Everything else is evaluated, with the flags that
/// belong to its kind: a module when the file name ends in `.mjs` or the
/// sniffer matched, a global script otherwise, and strict in both cases.
pub fn prepare(filename: &str, source: &[u8], sniffed_module: bool) -> (res: Result<
    EvalFlags,
    Error,
>)
    ensures
        res is Ok <==> encodable(filename.spec_bytes(), source@),
        res matches Err(e) ==> e@ is Encoding,
        res matches Ok(flags) ==> flags == flags_of(kind_of(filename.spec_bytes(), sniffed_module)),
        res matches Ok(flags) ==> flags.consistent() && flags.strict,
        res matches Ok(flags) ==> (flags.module <==> ends_with(
            filename.spec_bytes(),
            module_suffix(),
        ) || sniffed_module),
{
    if contains_nul(filename.as_bytes()) || contains_nul(source) {
        return Err(Error::Encoding);
    }
    Ok(select_flags(classify(filename, sniffed_module)))
}

/// A file name that ends in `.mjs` selects the module flags whatever the
/// sniffer reported, and never the global flag.
pub proof fn lemma_suffix_forces_module(filename: Seq<u8>, sniffed_module: bool)
    requires
        ends_with(filename, module_suffix()),
    ensures
        kind_of(filename, sniffed_module) == SourceKind::Module,
        flags_of(kind_of(filename, sniffed_module)).module,
        !flags_of(kind_of(filename, sniffed_module)).global,
{
}

/// A positive sniffer verdict selects the module flags whatever the file
/// name is.
pub proof fn lemma_sniffer_selects_module(filename: Seq<u8>)
    ensures
        kind_of(filename, true) == SourceKind::Module,
        flags_of(kind_of(filename, true)).module,
        !flags_of(kind_of(filename, true)).global,
{
}

/// Without the suffix and without a sniffer match the source is a global
/// script.
pub proof fn lemma_plain_source_is_global(filename: Seq<u8>)
    requires
        !ends_with(filename, module_suffix()),
    ensures
        kind_of(filename, false) == SourceKind::GlobalScript,
        flags_of(kind_of(filename, false)).global,
        !flags_of(kind_of(filename, false)).module,
{
}

/// Under the file name `anonymous` the mode follows the sniffer alone: the
/// name holds no NUL byte and has no `.mjs` suffix, so the module flag is set
/// exactly when the sniffer matched, the global flag exactly when it did
/// not, and strict mode in both cases.
pub proof fn lemma_anonymous_follows_sniffer(sniffed_module: bool)
    ensures
        !has_nul("anonymous".spec_bytes()),
        !ends_with("anonymous".spec_bytes(), module_suffix()),
        flags_of(kind_of("anonymous".spec_bytes(), sniffed_module)).module == sniffed_module,
        flags_of(kind_of("anonymous".spec_bytes(), sniffed_module)).global == !sniffed_module,
        flags_of(kind_of("anonymous".spec_bytes(), sniffed_module)).strict,
{
    reveal_strlit("anonymous");
    lemma_ascii_bytes("anonymous");
    let bytes = "anonymous".spec_bytes();
    assert(bytes.len() == 9);
    assert(bytes.subrange(5, 9)[0] == bytes[5]);
    assert(bytes[5] == 0x6du8);
}

/// Every flag set the pipeline can select names exactly one evaluation type,
/// forces strict mode and asks for no asynchronous wrapping.
pub proof fn lemma_flags_exclusive_and_strict(kind: SourceKind)
    ensures
        flags_of(kind).consistent(),
        flags_of(kind).strict,
        !flags_of(kind).async_wrap,
{
}

} // verus!
