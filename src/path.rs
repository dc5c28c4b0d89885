//! Reading the parts of a request path that resolution builds keys from.
use vstd::prelude::*;

verus! {

/// Index of the first `/` of `p` at or after `from`, or `p.len()` when there
/// is none.
pub open spec fn slash_from(p: Seq<char>, from: int) -> int
    decreases p.len() - from,
{
    if from < 0 || from >= p.len() {
        p.len() as int
    } else if p[from] == '/' {
        from
    } else {
        slash_from(p, from + 1)
    }
}

/// The owner segment: what stands between the first and the second `/`, or
/// after the first when there is no second. None when `p` holds no `/`.
pub open spec fn owner_segment(p: Seq<char>) -> Option<Seq<char>> {
    let a = slash_from(p, 0);
    if a >= p.len() {
        None
    } else {
        Some(p.subrange(a + 1, slash_from(p, a + 1)))
    }
}

/// What follows the owner segment and its closing `/`; `"/"` when that is
/// empty or missing.
pub open spec fn user_path(p: Seq<char>) -> Seq<char> {
    let a = slash_from(p, 0);
    let b = slash_from(p, a + 1);
    if a < p.len() && b + 1 < p.len() {
        p.subrange(b + 1, p.len() as int)
    } else {
        seq!['/']
    }
}

/// The path with its leading `/` taken off.
pub open spec fn root_path(p: Seq<char>) -> Seq<char> {
    if p.len() > 0 && p[0] == '/' {
        p.subrange(1, p.len() as int)
    } else {
        p
    }
}

/// Index of the first `/` of `p` at or after `from`, or the length.
fn find_slash(p: &str, len: usize, from: usize) -> (r: usize)
    requires
        len == p@.len(),
        from <= len,
    ensures
        r == slash_from(p@, from as int),
        from <= r <= len,
{
    let mut i: usize = from;
    while i < len
        invariant
            from <= i <= len,
            len == p@.len(),
            slash_from(p@, from as int) == slash_from(p@, i as int),
        decreases len - i,
    {
        if p.get_char(i) == '/' {
            return i;
        }
        i = i + 1;
    }
    i
}

/// The owner segment of `p`, see [`owner_segment`].
pub fn owner_segment_of(p: &str) -> (r: Option<&str>)
    ensures
        match r {
            Some(s) => owner_segment(p@) == Some(s@),
            None => owner_segment(p@) is None,
        },
{
    let len = p.unicode_len();
    let a = find_slash(p, len, 0);
    if a >= len {
        None
    } else {
        let b = find_slash(p, len, a + 1);
        Some(p.substring_char(a + 1, b))
    }
}

/// The path under the owner segment, see [`user_path`].
pub fn user_path_of(p: &str) -> (r: String)
    ensures
        r@ == user_path(p@),
{
    let len = p.unicode_len();
    let a = find_slash(p, len, 0);
    if a < len {
        let b = find_slash(p, len, a + 1);
        if b < len && b + 1 < len {
            return p.substring_char(b + 1, len).to_owned();
        }
    }
    let slash = "/".to_owned();
    proof {
        reveal_strlit("/");
    }
    assert(slash@ =~= seq!['/']);
    slash
}

/// The path with its leading `/` taken off, see [`root_path`].
pub fn root_path_of(p: &str) -> (r: String)
    ensures
        r@ == root_path(p@),
{
    let len = p.unicode_len();
    if len > 0 && p.get_char(0) == '/' {
        p.substring_char(1, len).to_owned()
    } else {
        p.to_owned()
    }
}

} // verus!
