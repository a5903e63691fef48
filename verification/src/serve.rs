//! Content responses: reload-script injection into HTML and the decision
//! which documents get it.
//!
//! An HTML document is served with the live-reload client script inserted
//! exactly once: immediately before the first closing `</body>` tag when the
//! document has one, appended at the very end when it has none. Every other
//! file is served byte-for-byte unchanged. Whether a file counts as HTML is
//! decided by media-type inference from its path name, an outside concern
//! the crate only calls.

use vstd::prelude::*;

use crate::paths::push_all;

verus! {

/// The pattern `pat` occurs in `doc` starting at index `i`.
pub open spec fn is_match_at(doc: Seq<u8>, pat: Seq<u8>, i: int) -> bool {
    &&& 0 <= i
    &&& i + pat.len() <= doc.len()
    &&& doc.subrange(i, i + pat.len()) == pat
}

/// The index of the first occurrence of `pat` in `doc` at or after `i`,
/// if there is one.
pub open spec fn first_match_from(doc: Seq<u8>, pat: Seq<u8>, i: int) -> Option<int>
    decreases doc.len() - i
        when 0 <= i && pat.len() > 0
{
    if i + pat.len() > doc.len() {
        None
    } else if is_match_at(doc, pat, i) {
        Some(i)
    } else {
        first_match_from(doc, pat, i + 1)
    }
}

/// The index of the first occurrence of `pat` in `doc`, if there is one.
pub open spec fn first_match(doc: Seq<u8>, pat: Seq<u8>) -> Option<int> {
    first_match_from(doc, pat, 0)
}

/// `first_match_from` finds exactly the first occurrence: a found index
/// carries a match and nothing before it does; `None` means no occurrence
/// at all from `i` on.
pub proof fn lemma_first_match_from(doc: Seq<u8>, pat: Seq<u8>, i: int)
    requires
        0 <= i,
        pat.len() > 0,
    ensures
        match first_match_from(doc, pat, i) {
            Some(k) => i <= k && is_match_at(doc, pat, k) && forall|j: int|
                i <= j < k ==> !is_match_at(doc, pat, j),
            None => forall|j: int| j >= i ==> !is_match_at(doc, pat, j),
        },
    decreases doc.len() - i,
{
    if i + pat.len() > doc.len() {
    } else if is_match_at(doc, pat, i) {
    } else {
        lemma_first_match_from(doc, pat, i + 1);
    }
}

/// The closing tag the script is inserted before: the bytes of `</body>`.
pub open spec fn body_close_tag() -> Seq<u8> {
    seq![60u8, 47u8, 98u8, 111u8, 100u8, 121u8, 62u8]
}

/// The document with `block` inserted immediately before the first closing
/// `</body>` tag, or appended at the end when the document has none.
pub open spec fn injected(doc: Seq<u8>, block: Seq<u8>) -> Seq<u8> {
    match first_match(doc, body_close_tag()) {
        Some(i) => doc.take(i) + block + doc.skip(i),
        None => doc + block,
    }
}

/// The reload block is injected exactly once. A document with a closing
/// body tag carries the block immediately before the first such tag: the
/// bytes before the insertion point, the block, and the bytes from the tag
/// on, each byte-for-byte unchanged, with the tag right after the block
/// and no earlier closing tag anywhere. A document without the tag carries
/// the block appended at the very end.
pub proof fn lemma_injected_shape(doc: Seq<u8>, block: Seq<u8>)
    ensures
        match first_match(doc, body_close_tag()) {
            Some(i) => {
                let out = injected(doc, block);
                &&& 0 <= i && i + body_close_tag().len() <= doc.len()
                &&& out.len() == doc.len() + block.len()
                &&& out.take(i) == doc.take(i)
                &&& out.subrange(i, i + block.len()) == block
                &&& out.skip(i + block.len()) == doc.skip(i)
                &&& is_match_at(out, body_close_tag(), i + block.len())
                &&& forall|j: int| 0 <= j < i ==> !is_match_at(doc, body_close_tag(), j)
            },
            None => {
                &&& injected(doc, block) == doc + block
                &&& forall|j: int| !is_match_at(doc, body_close_tag(), j)
            },
        },
{
    lemma_first_match_from(doc, body_close_tag(), 0);
    match first_match(doc, body_close_tag()) {
        Some(i) => {
            let tag = body_close_tag();
            let out = injected(doc, block);
            assert(out.take(i) =~= doc.take(i));
            assert(out.subrange(i, i + block.len()) =~= block);
            assert(out.skip(i + block.len()) =~= doc.skip(i));
            assert forall|j: int|
                0 <= j < tag.len() implies out.subrange(
                i + block.len(),
                i + block.len() + tag.len(),
            )[j] == tag[j] by {
                assert(doc.subrange(i, i + tag.len())[j] == tag[j]);
                assert(out[i + block.len() + j] == doc[i + j]);
            }
            assert(out.subrange(i + block.len(), i + block.len() + tag.len()) =~= tag);
        },
        None => {},
    }
}

/// Decides whether `pat` occurs in `doc` at index `i`.
fn matches_at(doc: &[u8], pat: &[u8], i: usize) -> (r: bool)
    requires
        i + pat@.len() <= doc@.len(),
    ensures
        r == is_match_at(doc@, pat@, i as int),
{
    let m = pat.len();
    let n = doc.len();
    let mut k: usize = 0;
    while k < m
        invariant
            0 <= k <= m == pat@.len(),
            n == doc@.len(),
            i + m <= n,
            forall|j: int| 0 <= j < k ==> doc@[i + j] == pat@[j],
        decreases m - k,
    {
        if doc[i + k] != pat[k] {
            assert(doc@.subrange(i as int, i + pat@.len()) != pat@) by {
                assert(doc@.subrange(i as int, i + pat@.len())[k as int] == doc@[i + k]);
            }
            return false;
        }
        k = k + 1;
    }
    assert(doc@.subrange(i as int, i + pat@.len()) =~= pat@);
    true
}

/// Finds the first occurrence of `pat` in `doc`.
pub fn find_first(doc: &[u8], pat: &[u8]) -> (r: Option<usize>)
    requires
        pat@.len() > 0,
    ensures
        match r {
            Some(i) => first_match(doc@, pat@) == Some(i as int),
            None => first_match(doc@, pat@) is None,
        },
{
    let n = doc.len();
    let m = pat.len();
    let mut i: usize = 0;
    while i <= n && n - i >= m
        invariant
            0 <= i <= n == doc@.len(),
            m == pat@.len() > 0,
            first_match(doc@, pat@) == first_match_from(doc@, pat@, i as int),
        decreases n - i,
    {
        if matches_at(doc, pat, i) {
            return Some(i);
        }
        i = i + 1;
    }
    None
}

/// Inserts `block` immediately before the first closing `</body>` tag of
/// `doc`, or appends it at the end when the document has none.
pub fn inject_before_body_close(doc: &[u8], block: &[u8]) -> (r: Vec<u8>)
    ensures
        r@ == injected(doc@, block@),
{
    let mut tag: Vec<u8> = Vec::new();
    tag.push(60);
    tag.push(47);
    tag.push(98);
    tag.push(111);
    tag.push(100);
    tag.push(121);
    tag.push(62);
    assert(tag@ =~= body_close_tag());
    let mut out: Vec<u8> = Vec::new();
    match find_first(doc, tag.as_slice()) {
        Some(i) => {
            proof {
                lemma_first_match_from(doc@, body_close_tag(), 0);
            }
            crate::paths::push_range(&mut out, doc, 0, i);
            push_all(&mut out, block);
            crate::paths::push_range(&mut out, doc, i, doc.len());
            assert(out@ =~= injected(doc@, block@));
        },
        None => {
            push_all(&mut out, doc);
            push_all(&mut out, block);
            assert(out@ =~= injected(doc@, block@));
        },
    }
    out
}

/// The opening of the injected script element: the bytes of `<script>`.
pub open spec fn script_open() -> Seq<u8> {
    seq![60u8, 115u8, 99u8, 114u8, 105u8, 112u8, 116u8, 62u8]
}

/// The closing of the injected script element: the bytes of `</script>`.
pub open spec fn script_close() -> Seq<u8> {
    seq![60u8, 47u8, 115u8, 99u8, 114u8, 105u8, 112u8, 116u8, 62u8]
}

/// Wraps the reload client code in a script element.
pub fn script_block(script: &[u8]) -> (r: Vec<u8>)
    ensures
        r@ == script_open() + script@ + script_close(),
{
    let mut out: Vec<u8> = Vec::new();
    out.push(60);
    out.push(115);
    out.push(99);
    out.push(114);
    out.push(105);
    out.push(112);
    out.push(116);
    out.push(62);
    assert(out@ =~= script_open());
    push_all(&mut out, script);
    out.push(60);
    out.push(47);
    out.push(115);
    out.push(99);
    out.push(114);
    out.push(105);
    out.push(112);
    out.push(116);
    out.push(62);
    assert(out@ =~= script_open() + script@ + script_close());
    out
}

/// The body of a response: an HTML document carries the injected block,
/// every other file is passed through byte-identical to its source.
pub fn response_body(doc: &[u8], is_html: bool, block: &[u8]) -> (r: Vec<u8>)
    ensures
        is_html ==> r@ == injected(doc@, block@),
        !is_html ==> r@ == doc@,
{
    if is_html {
        inject_before_body_close(doc, block)
    } else {
        let mut out: Vec<u8> = Vec::new();
        push_all(&mut out, doc);
        out
    }
}

/// The media type that marks a document as HTML: the bytes of `text/html`.
pub open spec fn html_media_type() -> Seq<u8> {
    seq![116u8, 101u8, 120u8, 116u8, 47u8, 104u8, 116u8, 109u8, 108u8]
}

/// The media type inferred from a path name, as the essence bytes of the
/// first guess, if any; a pure function of the path bytes.
pub uninterp spec fn media_type_of(path: Seq<u8>) -> Option<Seq<u8>>;

/// Relies on mime_guess::from_path: the first guessed media type depends on
/// the path name alone; its essence is the bare type/subtype pair.
#[verifier::external_body]
fn guess_media_type(path: &[u8]) -> (r: Option<Vec<u8>>)
    ensures
        r is Some <==> media_type_of(path@) is Some,
        r is Some ==> r->0@ == media_type_of(path@)->0,
{
    match core::str::from_utf8(path) {
        Ok(s) => mime_guess::from_path(s).first().map(|m| m.essence_str().as_bytes().to_vec()),
        Err(_) => None,
    }
}

/// Decides whether two byte strings are equal.
pub fn bytes_eq(a: &[u8], b: &[u8]) -> (r: bool)
    ensures
        r == (a@ == b@),
{
    let n = a.len();
    if n != b.len() {
        return false;
    }
    let mut i: usize = 0;
    while i < n
        invariant
            0 <= i <= n,
            n == a@.len() == b@.len(),
            forall|j: int| 0 <= j < i ==> a@[j] == b@[j],
        decreases n - i,
    {
        if a[i] != b[i] {
            return false;
        }
        i = i + 1;
    }
    assert(a@ =~= b@);
    true
}

/// Decides whether the file at `path` is served as HTML — with the reload
/// script injected — or streamed unchanged: exactly the paths whose inferred
/// media type is `text/html`.
pub fn is_html_path(path: &[u8]) -> (r: bool)
    ensures
        r == (media_type_of(path@) == Some(html_media_type())),
{
    match guess_media_type(path) {
        Some(mt) => {
            let mut html: Vec<u8> = Vec::new();
            html.push(116);
            html.push(101);
            html.push(120);
            html.push(116);
            html.push(47);
            html.push(104);
            html.push(116);
            html.push(109);
            html.push(108);
            assert(html@ =~= html_media_type());
            bytes_eq(mt.as_slice(), html.as_slice())
        },
        None => false,
    }
}

/// The value of the cache-disabling header every response carries.
pub fn cache_control_value() -> (r: &'static str)
    ensures
        r@ == "no-cache, no-store, must-revalidate"@,
{
    "no-cache, no-store, must-revalidate"
}

/// The uniform body of a "not found" response.
pub fn not_found_text() -> (r: &'static str)
    ensures
        r@ == "404: Page not found."@,
{
    "404: Page not found."
}

} // verus!
