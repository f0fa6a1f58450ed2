//! Folder paths as text, joined the way `std::path::Path::join` joins them.

use vstd::prelude::*;

verus! {

/// A single plain file or folder name: not empty, not `.` or `..`, and free
/// of separators and of the drive colon.
pub open spec fn plain_name(part: Seq<char>) -> bool {
    &&& part.len() > 0
    &&& part != seq!['.']
    &&& part != seq!['.', '.']
    &&& forall|i: int| 0 <= i < part.len() ==> #[trigger] part[i] != '/' && part[i] != '\\' && part[i] != ':'
}

/// A Windows path with a verbatim prefix (`\\?\`).
pub open spec fn verbatim(path: Seq<char>) -> bool {
    path.len() >= 4 && path[0] == '\\' && path[1] == '\\' && path[2] == '?' && path[3] == '\\'
}

/// `joined` is `base` with the plain name `part` adjoined: right after it,
/// or after one separator.
pub open spec fn is_joined(base: Seq<char>, part: Seq<char>, joined: Seq<char>) -> bool {
    ||| joined == base + part
    ||| joined == base + seq!['/'] + part
    ||| joined == base + seq!['\\'] + part
}

/// `joined` is `base`, one separator (`/` or `\`), then `part`.
pub open spec fn joined_with_separator(base: Seq<char>, part: Seq<char>, joined: Seq<char>) -> bool {
    ||| joined == base + seq!['/'] + part
    ||| joined == base + seq!['\\'] + part
}

/// A base that gets a separator before a name joined to it on every
/// platform: not empty, without a verbatim prefix, and not ending in a
/// separator or in the colon of a bare drive such as `C:`.
pub open spec fn needs_separator(base: Seq<char>) -> bool {
    &&& base.len() > 0
    &&& !verbatim(base)
    &&& base.last() != '/'
    &&& base.last() != '\\'
    &&& base.last() != ':'
}

/// What joining the plain name `part` onto `base` gives, as far as it is the
/// same on every platform: the name alone onto an empty base; the base, one
/// separator and the name where the base needs a separator; the base and the
/// name where the base ends in `/`; and in any case without a verbatim
/// prefix, the name adjoined with at most one separator.
pub open spec fn join_of(base: Seq<char>, part: Seq<char>, joined: Seq<char>) -> bool {
    &&& !verbatim(base) ==> is_joined(base, part, joined)
    &&& base.len() == 0 ==> joined == part
    &&& needs_separator(base) ==> joined_with_separator(base, part, joined)
    &&& (!verbatim(base) && base.len() > 0 && base.last() == '/') ==> joined == base + part
}

/// `Path::new(base).join(part)`, as text. For a plain name `part` (relative,
/// without a drive or a root) `PathBuf::push` keeps the base and adds the
/// name: onto an empty base the name alone; after the platform's separator
/// (`/` or `\`) where the base does not end in a separator and is not a bare
/// drive; right after a base that ends in `/`. Which of the two separators
/// is used, what a base ending in `\` gets (a separator on Windows only) and
/// what a base with a verbatim prefix gets are not stated.
#[verifier::external_body]
pub(crate) fn join_path(base: &str, part: &str) -> (r: String)
    ensures
        plain_name(part@) ==> join_of(base@, part@, r@),
{
    std::path::Path::new(base).join(part).to_string_lossy().into_owned()
}

/// Joining a plain name onto a base without a verbatim prefix, other than
/// `\\?`, gives a path that again has no verbatim prefix and needs a
/// separator before a further name.
pub proof fn lemma_join_needs_separator(base: Seq<char>, part: Seq<char>, joined: Seq<char>)
    requires
        !verbatim(base),
        base != seq!['\\', '\\', '?'],
        plain_name(part),
        is_joined(base, part, joined),
    ensures
        needs_separator(joined),
{
    let n = base.len();
    let s: int = if joined == base + part { 0 } else { 1 };
    assert(joined.len() == n + s + part.len());
    assert(forall|i: int| 0 <= i < n ==> joined[i] == base[i]);
    assert(forall|i: int| n + s <= i < joined.len() ==> joined[i] == part[i - n - s]);
    assert(joined.last() == part[part.len() - 1]);
    if verbatim(joined) {
        assert(joined[3] == '\\');
        assert(!(n + s <= 3));
        if n >= 4 {
            assert(base[0] == joined[0] && base[1] == joined[1] && base[2] == joined[2] && base[3] == joined[3]);
        } else {
            assert(n == 3);
            assert(base =~= seq![joined[0], joined[1], joined[2]]);
        }
    }
}

} // verus!
