//! The path-traversal screen on user-supplied filenames, and the resolution
//! of a screened filename under the resource root.

use vstd::prelude::*;
use vstd::string::StrSliceExecFns;
use vstd::string::StringExecFns;

verus! {

/// The name holds the two-character sequence `..` somewhere.
pub open spec fn has_dot_dot(s: Seq<char>) -> bool {
    exists|i: int| 0 <= i && i + 1 < s.len() && #[trigger] s[i] == '.' && s[i + 1] == '.'
}

/// A filename is rejected exactly when it holds `..`, a forward slash, or a
/// backslash: the sequences that could make a resolved path escape the
/// resource root.
pub open spec fn filename_rejected(s: Seq<char>) -> bool {
    has_dot_dot(s) || s.contains('/') || s.contains('\\')
}

/// Returns whether `name` passes the path-traversal screen: true exactly
/// when the name holds no `..`, no `/`, and no `\`.
pub fn filename_is_safe(name: &str) -> (r: bool)
    ensures
        r == !filename_rejected(name@),
{
    let n: usize = name.unicode_len();
    let mut i: usize = 0;
    let mut prev_dot = false;
    while i < n
        invariant
            n == name@.len(),
            i <= n,
            prev_dot == (i > 0 && name@[i as int - 1] == '.'),
            forall|j: int| 0 <= j < i ==> name@[j] != '/' && name@[j] != '\\',
            forall|j: int| 0 <= j && j + 1 < i ==> !(#[trigger] name@[j] == '.' && name@[j + 1] == '.'),
        decreases n - i,
    {
        let c = name.get_char(i);
        if c == '/' {
            proof {
                assert(name@.contains('/')) by {
                    assert(name@[i as int] == '/');
                }
            }
            return false;
        }
        if c == '\\' {
            proof {
                assert(name@.contains('\\')) by {
                    assert(name@[i as int] == '\\');
                }
            }
            return false;
        }
        if prev_dot && c == '.' {
            proof {
                assert(has_dot_dot(name@)) by {
                    assert(name@[i as int - 1] == '.' && name@[i as int] == '.');
                }
            }
            return false;
        }
        prev_dot = c == '.';
        i += 1;
    }
    proof {
        assert(!name@.contains('/'));
        assert(!name@.contains('\\'));
        assert(!has_dot_dot(name@));
    }
    true
}

/// The path that a filename resolves to: the root, one separator, then the
/// name as a single segment, with no decoding or normalization.
pub open spec fn resolved(root: Seq<char>, name: Seq<char>) -> Seq<char> {
    root + seq!['/'] + name
}

/// Joins the resource root and a filename into the path to read.
pub fn resolve_path(root: &str, name: &str) -> (p: String)
    ensures
        p@ == resolved(root@, name@),
{
    proof {
        reveal_strlit("/");
        assert("/"@ =~= seq!['/']);
    }
    let mut p = String::from_str(root);
    p.append("/");
    p.append(name);
    proof {
        assert(p@ =~= resolved(root@, name@));
    }
    p
}

/// A screened filename cannot escape the root: the resolved path begins with
/// the root and one separator, and everything after that — the filename —
/// is a single path segment holding no separator and no `..`.
pub proof fn lemma_resolved_within_root(root: Seq<char>, name: Seq<char>)
    requires
        !filename_rejected(name),
    ensures
        resolved(root, name).len() == root.len() + 1 + name.len(),
        resolved(root, name).subrange(0, root.len() as int) =~= root,
        resolved(root, name)[root.len() as int] == '/',
        forall|i: int|
            root.len() + 1 <= i < resolved(root, name).len() ==> resolved(root, name)[i] != '/'
                && resolved(root, name)[i] != '\\',
        forall|i: int|
            root.len() + 1 <= i && i + 1 < resolved(root, name).len() ==> !(#[trigger] resolved(
                root,
                name,
            )[i] == '.' && resolved(root, name)[i + 1] == '.'),
{
    let p = resolved(root, name);
    assert forall|i: int| root.len() + 1 <= i < p.len() implies p[i] != '/' && p[i] != '\\' by {
        assert(p[i] == name[i - root.len() - 1]);
        if p[i] == '/' {
            assert(name.contains('/')) by {
                assert(name[i - root.len() - 1] == '/');
            }
        }
        if p[i] == '\\' {
            assert(name.contains('\\')) by {
                assert(name[i - root.len() - 1] == '\\');
            }
        }
    }
    assert forall|i: int| root.len() + 1 <= i && i + 1 < p.len() implies !(#[trigger] p[i] == '.'
        && p[i + 1] == '.') by {
        assert(p[i] == name[i - root.len() - 1]);
        assert(p[i + 1] == name[i - root.len()]);
        if p[i] == '.' && p[i + 1] == '.' {
            assert(has_dot_dot(name)) by {
                let j = i - root.len() - 1;
                assert(name[j] == '.' && name[j + 1] == '.');
            }
        }
    }
}

} // verus!
