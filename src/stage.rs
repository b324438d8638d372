use vstd::prelude::*;

use crate::error::Error;

verus! {

/// A programmable step of the pipeline that is compiled on its own.
#[derive(Debug, Clone, Copy, PartialEq, Eq, Structural)]
pub enum ShaderKind {
    Vertex,
    Fragment,
}

/// `s` ends with `suffix`.
pub open spec fn has_suffix(s: Seq<char>, suffix: Seq<char>) -> bool {
    suffix.len() <= s.len() && s.subrange(s.len() - suffix.len(), s.len() as int) == suffix
}

pub open spec fn vertex_suffix() -> Seq<char> {
    seq!['.', 'v', 'e', 'r', 't']
}

pub open spec fn fragment_suffix() -> Seq<char> {
    seq!['.', 'f', 'r', 'a', 'g']
}

/// The stage that a resource name announces by its suffix, if any.
pub open spec fn kind_of_name(name: Seq<char>) -> Option<ShaderKind> {
    if has_suffix(name, vertex_suffix()) {
        Some(ShaderKind::Vertex)
    } else if has_suffix(name, fragment_suffix()) {
        Some(ShaderKind::Fragment)
    } else {
        None
    }
}

fn ends_with(s: &str, suffix: &str) -> (r: bool)
    ensures
        r == has_suffix(s@, suffix@),
{
    let n = s.unicode_len();
    let m = suffix.unicode_len();
    if m > n {
        return false;
    }
    let start: usize = n - m;
    let mut i: usize = 0;
    while i < m
        invariant
            n == s@.len(),
            m == suffix@.len(),
            start == n - m,
            i <= m,
            forall|j: int| 0 <= j < i ==> s@[start + j] == suffix@[j],
        decreases m - i,
    {
        if s.get_char(start + i) != suffix.get_char(i) {
            assert(s@.subrange(start as int, n as int)[i as int] != suffix@[i as int]);
            return false;
        }
        i = i + 1;
    }
    assert(s@.subrange(start as int, n as int) =~= suffix@);
    true
}

/// Resolves the stage of a resource from the suffix of its name:
/// `.vert` is a vertex stage, `.frag` a fragment stage.
pub fn shader_kind_for_name(name: &str) -> (r: Result<ShaderKind, Error>)
    ensures
        kind_of_name(name@) matches Some(k) ==> r == Ok::<ShaderKind, Error>(k),
        kind_of_name(name@) is None ==> (r matches Err(
            Error::CanNotDetermineShaderTypeForResource { name: n },
        ) && n@ == name@),
{
    proof {
        reveal_strlit(".vert");
        reveal_strlit(".frag");
        assert(".vert"@ =~= vertex_suffix());
        assert(".frag"@ =~= fragment_suffix());
    }
    if ends_with(name, ".vert") {
        Ok(ShaderKind::Vertex)
    } else if ends_with(name, ".frag") {
        Ok(ShaderKind::Fragment)
    } else {
        Err(Error::CanNotDetermineShaderTypeForResource { name: name.to_owned() })
    }
}

} // verus!
