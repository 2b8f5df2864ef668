//! Classifies the leading bytes of a file ("probe") as executable or not by
//! matching them against a fixed table of magic-byte signatures: the ELF and
//! DOS/PE markers, and several shebang forms. Classification is a pure, total
//! function of the bytes; reading the probe from disk is left to the caller.

use vstd::prelude::*;

verus! {

/// Maximum number of leading bytes a probe holds.
pub const PROBE_SIZE: usize = 16;

/// The two-valued result of classifying a probe.
#[derive(Clone, Copy, Debug, PartialEq, Eq, Structural)]
pub enum Classification {
    Executable,
    NotExecutable,
}

/// An ASCII digit or letter: the bytes accepted as the start of a bare
/// interpreter name in a shebang line.
pub open spec fn is_ascii_alphanumeric_byte(b: u8) -> bool {
    (0x30 <= b && b <= 0x39) || (0x41 <= b && b <= 0x5a) || (0x61 <= b && b <= 0x7a)
}

/// The probe starts with the ELF marker `0x7F 'E' 'L' 'F'`.
pub open spec fn starts_elf(s: Seq<u8>) -> bool {
    s.len() >= 4 && s[0] == 0x7f && s[1] == 0x45 && s[2] == 0x4c && s[3] == 0x46
}

/// The probe starts with the DOS/PE marker `'M' 'Z'`.
pub open spec fn starts_dos(s: Seq<u8>) -> bool {
    s.len() >= 2 && s[0] == 0x4d && s[1] == 0x5a
}

/// A byte that may begin a shebang's interpreter token: the start of an
/// absolute path, of a relative path, or of a bare command name.
pub open spec fn starts_interpreter_token(b: u8) -> bool {
    b == 0x2f || b == 0x2e || is_ascii_alphanumeric_byte(b)
}

/// The probe starts with `#!`, then at most one space, then a byte that can
/// begin an interpreter token. A bare `#!`, one followed only by whitespace,
/// or one followed by any other punctuation does not count: this keeps text
/// that merely opens with `#!` (attribute syntax, say) out.
pub open spec fn starts_shebang(s: Seq<u8>) -> bool {
    &&& s.len() >= 3
    &&& s[0] == 0x23
    &&& s[1] == 0x21
    &&& {
        ||| starts_interpreter_token(s[2])
        ||| (s[2] == 0x20 && s.len() >= 4 && starts_interpreter_token(s[3]))
    }
}

/// A probe matches the signature table iff some rule of it matches. The
/// rules' required prefixes are pairwise disjoint, so no priority order is
/// needed to resolve an overlap.
pub open spec fn matches_signature(s: Seq<u8>) -> bool {
    starts_elf(s) || starts_dos(s) || starts_shebang(s)
}

/// What a probe classifies as: `Executable` exactly when it matches a
/// signature of the table.
pub open spec fn classification_of(s: Seq<u8>) -> Classification {
    if matches_signature(s) {
        Classification::Executable
    } else {
        Classification::NotExecutable
    }
}

/// True iff the byte is an ASCII digit or letter.
fn is_alphanumeric(b: u8) -> (r: bool)
    ensures
        r == is_ascii_alphanumeric_byte(b),
{
    (0x30 <= b && b <= 0x39) || (0x41 <= b && b <= 0x5a) || (0x61 <= b && b <= 0x7a)
}

/// True iff the byte may begin a shebang's interpreter token.
fn is_interpreter_start(b: u8) -> (r: bool)
    ensures
        r == starts_interpreter_token(b),
{
    b == 0x2f || b == 0x2e || is_alphanumeric(b)
}

/// True iff the probe matches one of the executable signatures. Total over
/// probes of every length, the empty one included; a probe shorter than a
/// rule's prefix simply fails that rule.
pub fn check_magic(text: &[u8]) -> (r: bool)
    ensures
        r == matches_signature(text@),
{
    let n = text.len();
    if n >= 4 && text[0] == 0x7f && text[1] == 0x45 && text[2] == 0x4c && text[3] == 0x46 {
        return true;
    }
    if n >= 2 && text[0] == 0x4d && text[1] == 0x5a {
        return true;
    }
    if n >= 3 && text[0] == 0x23 && text[1] == 0x21 {
        if is_interpreter_start(text[2]) {
            return true;
        }
        if text[2] == 0x20 && n >= 4 && is_interpreter_start(text[3]) {
            return true;
        }
    }
    false
}

/// Classifies a probe: `Executable` iff its bytes match a signature of the
/// table, `NotExecutable` otherwise. Never fails, whatever the probe's length.
pub fn classify(probe: &[u8]) -> (c: Classification)
    ensures
        c == classification_of(probe@),
{
    if check_magic(probe) {
        Classification::Executable
    } else {
        Classification::NotExecutable
    }
}

/// A probe whose first four bytes are the ELF marker is classified
/// `Executable`, whatever its remaining bytes and length.
pub proof fn lemma_elf_prefix_executable(s: Seq<u8>)
    requires
        s.len() >= 4,
        s[0] == 0x7f,
        s[1] == 0x45,
        s[2] == 0x4c,
        s[3] == 0x46,
    ensures
        classification_of(s) == Classification::Executable,
{
}

/// A probe shorter than two bytes is classified `NotExecutable`: no rule's
/// required prefix fits in it.
pub proof fn lemma_short_probe_not_executable(s: Seq<u8>)
    requires
        s.len() < 2,
    ensures
        classification_of(s) == Classification::NotExecutable,
{
}

/// Classification is a pure function of the bytes: two probes that hold the
/// same byte sequence classify the same, however often it is asked.
pub proof fn lemma_classification_deterministic(s1: Seq<u8>, s2: Seq<u8>)
    requires
        s1 == s2,
    ensures
        classification_of(s1) == classification_of(s2),
{
}

} // verus!

