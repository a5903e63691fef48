//! Validation and resolution of client-supplied request paths.
//!
//! A request path arrives as the percent-decoded path component of a URL,
//! here treated as a sequence of bytes whose segments are separated by `/`.
//! A path is safe when it carries no absolute anchor (a leading `/`) and no
//! parent-directory segment (`..`); current-directory segments (`.`) and
//! empty segments are harmless and permitted. A safe path is resolved by
//! joining it onto the server root; a path that resolves to a directory is
//! completed with the default file name `index.html`.

use vstd::prelude::*;

verus! {

/// Byte value of `/`, the segment separator.
pub const SLASH: u8 = 47;

/// Byte value of `.`.
pub const DOT: u8 = 46;

/// A parent-directory segment starts at `i`: the two bytes `..`, delimited
/// on both sides by a separator or by an end of the path.
pub open spec fn parent_segment_at(p: Seq<u8>, i: int) -> bool {
    &&& 0 <= i
    &&& i + 2 <= p.len()
    &&& p[i] == DOT
    &&& p[i + 1] == DOT
    &&& (i == 0 || p[i - 1] == SLASH)
    &&& (i + 2 == p.len() || p[i + 2] == SLASH)
}

/// The path contains a parent-directory segment somewhere.
pub open spec fn has_parent_segment(p: Seq<u8>) -> bool {
    exists|i: int| parent_segment_at(p, i)
}

/// The path starts with an absolute anchor.
pub open spec fn has_absolute_anchor(p: Seq<u8>) -> bool {
    p.len() > 0 && p[0] == SLASH
}

/// A request path may touch the file system only when it anchors nowhere
/// and never steps up to a parent directory.
pub open spec fn path_is_safe(p: Seq<u8>) -> bool {
    !has_absolute_anchor(p) && !has_parent_segment(p)
}

/// Decides whether a client-supplied path is safe to resolve.
pub fn validate_path(path: &[u8]) -> (r: bool)
    ensures
        r == path_is_safe(path@),
{
    let n = path.len();
    if n > 0 && path[0] == SLASH {
        return false;
    }
    let mut i: usize = 0;
    while i < n
        invariant
            n == path@.len(),
            0 <= i <= n,
            forall|j: int| parent_segment_at(path@, j) ==> j >= i,
        decreases n - i,
    {
        if n - i >= 2 && path[i] == DOT && path[i + 1] == DOT && (i == 0 || path[i - 1] == SLASH)
            && (i + 2 == n || path[i + 2] == SLASH) {
            assert(parent_segment_at(path@, i as int));
            return false;
        }
        assert(!parent_segment_at(path@, i as int));
        i = i + 1;
    }
    assert(forall|j: int| parent_segment_at(path@, j) ==> 0 <= j && j + 2 <= path@.len());
    true
}

/// The default file name appended when a request resolves to a directory.
pub open spec fn index_file() -> Seq<u8> {
    seq![105u8, 110u8, 100u8, 101u8, 120u8, 46u8, 104u8, 116u8, 109u8, 108u8]
}

/// A request path joined onto the server root: the root itself for the empty
/// request, else root, separator, request.
pub open spec fn joined_path(root: Seq<u8>, req: Seq<u8>) -> Seq<u8> {
    if req.len() == 0 {
        root
    } else {
        root + seq![SLASH] + req
    }
}

/// Appends the bytes `src[from..to]` to `dst`.
pub fn push_range(dst: &mut Vec<u8>, src: &[u8], from: usize, to: usize)
    requires
        from <= to <= src@.len(),
    ensures
        final(dst)@ == old(dst)@ + src@.subrange(from as int, to as int),
{
    let mut i = from;
    while i < to
        invariant
            from <= i <= to <= src@.len(),
            dst@ == old(dst)@ + src@.subrange(from as int, i as int),
        decreases to - i,
    {
        dst.push(src[i]);
        assert(src@.subrange(from as int, i + 1 as int) =~= src@.subrange(
            from as int,
            i as int,
        ).push(src@[i as int]));
        i = i + 1;
    }
}

/// Appends all of `src` to `dst`.
pub fn push_all(dst: &mut Vec<u8>, src: &[u8])
    ensures
        final(dst)@ == old(dst)@ + src@,
{
    push_range(dst, src, 0, src.len());
    assert(src@.subrange(0, src@.len() as int) =~= src@);
}

/// Joins a validated request path onto the server root.
pub fn resolve_under_root(root: &[u8], req: &[u8]) -> (r: Vec<u8>)
    ensures
        r@ == joined_path(root@, req@),
{
    let mut out: Vec<u8> = Vec::new();
    push_all(&mut out, root);
    if req.len() > 0 {
        out.push(SLASH);
        push_all(&mut out, req);
        assert(out@ =~= joined_path(root@, req@));
    } else {
        assert(out@ =~= joined_path(root@, req@));
    }
    out
}

/// Completes a path that denotes a directory with the default file name.
pub fn with_index_file(path: &mut Vec<u8>)
    ensures
        final(path)@ == old(path)@ + seq![SLASH] + index_file(),
{
    path.push(SLASH);
    path.push(105);
    path.push(110);
    path.push(100);
    path.push(101);
    path.push(120);
    path.push(46);
    path.push(104);
    path.push(116);
    path.push(109);
    path.push(108);
    assert(path@ =~= old(path)@ + seq![SLASH] + index_file());
}

/// Validates a client-supplied request path and resolves it under the
/// server root. An unsafe path — one with an absolute anchor or a
/// parent-directory segment — is rejected outright, and the caller answers
/// it with "not found", whatever the file system may hold at the place the
/// path points to.
pub fn resolve_request(root: &[u8], req: &[u8]) -> (r: Option<Vec<u8>>)
    ensures
        r is Some <==> path_is_safe(req@),
        r is Some ==> r->0@ == joined_path(root@, req@),
{
    if validate_path(req) {
        Some(resolve_under_root(root, req))
    } else {
        None
    }
}

} // verus!
