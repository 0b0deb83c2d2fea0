//! Paths as texts whose parts are separated by `/`.
use crate::text::{self, cat2, cat3, ends_with, starts_with};
use vstd::prelude::*;

verus! {

/// The path `rel` as seen from `base`: an absolute path stands for itself.
pub open spec fn joined(base: Seq<char>, rel: Seq<char>) -> Seq<char> {
    if "/"@.is_prefix_of(rel) {
        rel
    } else if base.len() == 0 || "/"@.is_suffix_of(base) {
        base + rel
    } else {
        base + "/"@ + rel
    }
}

/// Returns the path `rel` as seen from `base`.
pub fn join(base: &str, rel: &str) -> (r: String)
    ensures
        r@ == joined(base@, rel@),
{
    if starts_with(rel, "/") {
        rel.to_owned()
    } else if base.unicode_len() == 0 || ends_with(base, "/") {
        cat2(base, rel)
    } else {
        cat3(base, "/", rel)
    }
}

/// A name that stands between two separators: it holds nothing that has a meaning in a path on
/// any machine, and does not stand for a directory itself or the one above.
pub open spec fn plain_part(part: Seq<char>) -> bool {
    part.len() > 0 && !part.contains('/') && !part.contains('\\') && !part.contains(':') && part
        != "."@ && part != ".."@
}

/// A relative path of plain parts.
pub open spec fn plain_path(path: Seq<char>) -> bool {
    exists|parts: Seq<Seq<char>>|
        parts.len() > 0 && (forall|i: int|
            0 <= i < parts.len() ==> plain_part(#[trigger] parts[i])) && path
            == #[trigger] text::joined(parts, "/"@)
}

/// An absolute path of plain parts.
pub open spec fn rooted(path: Seq<char>) -> bool {
    path.len() > 0 && path[0] == '/' && plain_path(path.skip(1))
}

/// Whether `path` is `base`, a separator and `rest`, all of them plain.
pub open spec fn leads_to(base: Seq<char>, path: Seq<char>, rest: Seq<char>) -> bool {
    rooted(base) && plain_path(rest) && path == base + "/"@ + rest
}

/// Whether `rest` may come out where `base` is taken off the front of `path`. What the
/// separators are, and so what comes out, is up to the machine.
pub uninterp spec fn may_leave(path: Seq<char>, base: Seq<char>, rest: Option<Seq<char>>) -> bool;

/// Calls `std::path::Path::strip_prefix`. The claim: what comes back is what taking `base`
/// off the front of `path` may leave, `None` where `base` does not lead to `path`; where `path`
/// is `base`, a separator and a rest, all of plain parts, it is that rest. Nothing is said of what
/// comes out for other paths, which depends on the separators of the machine.
#[verifier::external_body]
fn strip_base(path: &str, base: &str) -> (r: Option<String>)
    ensures
        may_leave(path@, base@, r.deep_view()),
        forall|rest: Seq<char>| #[trigger]
            leads_to(base@, path@, rest) ==> r.deep_view() == Some(rest),
{
    let rest = std::path::Path::new(path).strip_prefix(base).ok()?;
    Some(rest.to_string_lossy().into_owned())
}

/// A path as it is written once its base has been taken off, if that was possible.
pub open spec fn shortened(path: Seq<char>, rest: Option<Seq<char>>) -> Seq<char> {
    match rest {
        Some(r) => r,
        None => path,
    }
}

/// Returns what is left of a path, or the path where nothing could be taken off.
pub fn shorten(path: &str, rest: Option<String>) -> (r: String)
    ensures
        r@ == shortened(path@, rest.deep_view()),
{
    match rest {
        Some(r) => r,
        None => path.to_owned(),
    }
}

/// Returns a path relative to a base, the path itself where the base does not lead to it.
pub fn relative_to(path: &str, base: &str) -> (r: String)
    ensures
        exists|rest: Option<Seq<char>>| #[trigger]
            may_leave(path@, base@, rest) && r@ == shortened(path@, rest),
        forall|rest: Seq<char>| #[trigger] leads_to(base@, path@, rest) ==> r@ == rest,
{
    let rest = strip_base(path, base);
    let ghost left = rest.deep_view();
    let r = shorten(path, rest);
    assert(may_leave(path@, base@, left) && r@ == shortened(path@, left));
    r
}

/// Plain parts one after the other neither begin nor end with a separator.
proof fn lemma_plain_ends(parts: Seq<Seq<char>>)
    requires
        parts.len() > 0,
        forall|i: int| 0 <= i < parts.len() ==> plain_part(#[trigger] parts[i]),
    ensures
        text::joined(parts, "/"@).len() > 0,
        text::joined(parts, "/"@)[0] != '/',
        text::joined(parts, "/"@).last() != '/',
    decreases parts.len(),
{
    let last = parts.last();
    assert(plain_part(parts[parts.len() - 1]));
    assert(last[0] != '/' && last[last.len() - 1] != '/');
    if parts.len() > 1 {
        let front = parts.drop_last();
        assert forall|i: int| 0 <= i < front.len() implies plain_part(#[trigger] front[i]) by {
            assert(plain_part(parts[i]));
        }
        lemma_plain_ends(front);
        let all = text::joined(parts, "/"@);
        assert(all[0] == text::joined(front, "/"@)[0]);
        assert(all.last() == last.last());
    }
}

/// A plain path that is joined to an absolute one is what is left where the latter is taken off
/// again.
pub proof fn joined_paths_lead_back(base: Seq<char>, rest: Seq<char>)
    requires
        rooted(base),
        plain_path(rest),
    ensures
        leads_to(base, joined(base, rest), rest),
{
    reveal_strlit("/");
    let tail = base.skip(1);
    let above = choose|parts: Seq<Seq<char>>|
        parts.len() > 0 && (forall|i: int|
            0 <= i < parts.len() ==> plain_part(#[trigger] parts[i])) && tail
            == #[trigger] text::joined(parts, "/"@);
    let below = choose|parts: Seq<Seq<char>>|
        parts.len() > 0 && (forall|i: int|
            0 <= i < parts.len() ==> plain_part(#[trigger] parts[i])) && rest
            == #[trigger] text::joined(parts, "/"@);
    lemma_plain_ends(above);
    lemma_plain_ends(below);
    assert(base.last() == tail.last());
    if "/"@.is_prefix_of(rest) {
        assert(rest.subrange(0, 1)[0] == '/');
    }
    if "/"@.is_suffix_of(base) {
        assert(base.subrange(base.len() - 1, base.len() as int)[0] == '/');
    }
}

/// A relative path stands behind its base, with one separator between them; an absolute one stands
/// for itself.
pub proof fn relative_paths_stand_behind_their_base(base: Seq<char>, rel: Seq<char>)
    ensures
        rel.len() > 0 && rel[0] == '/' ==> joined(base, rel) == rel,
        rel.len() > 0 && rel[0] != '/' && base.len() > 0 && base.last() != '/' ==> joined(base, rel)
            == base + seq!['/'] + rel,
        rel.len() > 0 && rel[0] != '/' && base.len() > 0 && base.last() == '/' ==> joined(base, rel)
            == base + rel,
        rel.len() > 0 && rel[0] != '/' && base.len() == 0 ==> joined(base, rel) == rel,
{
    reveal_strlit("/");
    if rel.len() > 0 {
        assert("/"@.is_prefix_of(rel) <==> rel[0] == '/') by {
            if rel[0] == '/' {
                assert(rel.subrange(0, 1) =~= "/"@);
            }
            if "/"@.is_prefix_of(rel) {
                assert(rel.subrange(0, 1)[0] == '/');
            }
        }
        if base.len() > 0 {
            assert("/"@.is_suffix_of(base) <==> base.last() == '/') by {
                let n = base.len() as int;
                if base.last() == '/' {
                    assert(base.subrange(n - 1, n) =~= "/"@);
                }
                if "/"@.is_suffix_of(base) {
                    assert(base.subrange(n - 1, n)[0] == '/');
                }
            }
            assert(base + "/"@ + rel =~= base + seq!['/'] + rel);
        } else {
            assert(base + rel =~= rel);
        }
    }
}

} // verus!
