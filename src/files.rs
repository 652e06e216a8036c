//! What a file dropped onto the editor window is taken for.
use vstd::prelude::*;

verus! {

/// The suffix of effect files.
pub const EFFECT_FILE_SUFFIX: &'static str = ".particle.ron";

/// How the editor reads a dropped file.
#[derive(Debug, Clone, Copy, PartialEq, Eq, Structural)]
pub enum DroppedFile {
    /// A particle effect, to be parsed and loaded into the scene.
    Effect,
    /// Anything else, to be decoded as a PNG texture.
    Texture,
}

/// Whether `suffix` ends `s`.
pub open spec fn has_suffix(s: Seq<char>, suffix: Seq<char>) -> bool {
    suffix.len() <= s.len() && s.subrange(s.len() - suffix.len(), s.len() as int) == suffix
}

/// Whether `suffix` ends `s`, compared character by character.
fn ends_with(s: &str, suffix: &str) -> (r: bool)
    ensures
        r == has_suffix(s@, suffix@),
{
    let n = s.unicode_len();
    let m = suffix.unicode_len();
    if m > n {
        return false;
    }
    let start = n - m;
    let mut i: usize = 0;
    while i < m
        invariant
            n == s@.len(),
            m == suffix@.len(),
            m <= n,
            start == n - m,
            i <= m,
            forall|j: int| 0 <= j < i ==> s@[start + j] == #[trigger] suffix@[j],
        decreases m - i,
    {
        if s.get_char(start + i) != suffix.get_char(i) {
            assert(s@.subrange(start as int, n as int)[i as int] != suffix@[i as int]);
            return false;
        }
        i = i + 1;
    }
    assert(s@.subrange(start as int, n as int) =~= suffix@);
    true
}

/// How a dropped file with the given path is read: as an effect when its
/// name ends in `.particle.ron`, as a texture otherwise.
pub fn dropped_file_kind(path: &str) -> (r: DroppedFile)
    ensures
        r == (if has_suffix(path@, EFFECT_FILE_SUFFIX@) {
            DroppedFile::Effect
        } else {
            DroppedFile::Texture
        }),
{
    if ends_with(path, EFFECT_FILE_SUFFIX) {
        DroppedFile::Effect
    } else {
        DroppedFile::Texture
    }
}

} // verus!
