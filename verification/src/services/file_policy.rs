//! Which uploaded files count as lab sources: text, by their names.

use crate::text;
use crate::text::{ends_with, lowered, replaced, same, split_text, trimmed};
use crate::text_laws;
use vstd::prelude::*;
use vstd::string::*;

verus! {

/// Names that are text without an extension.
pub open spec fn exact_text_name(name: Seq<char>) -> bool {
    name == "Dockerfile"@ || name == "Makefile"@ || name == "README"@
}

/// Extensions that no part of a name may have.
pub open spec fn blocked_extension(extension: Seq<char>) -> bool {
    ||| extension == "exe"@
    ||| extension == "dll"@
    ||| extension == "so"@
    ||| extension == "dylib"@
    ||| extension == "bat"@
    ||| extension == "cmd"@
    ||| extension == "ps1"@
    ||| extension == "msi"@
    ||| extension == "bin"@
    ||| extension == "elf"@
    ||| extension == "jar"@
    ||| extension == "class"@
    ||| extension == "pyc"@
    ||| extension == "pyo"@
    ||| extension == "zip"@
    ||| extension == "tar"@
    ||| extension == "gz"@
    ||| extension == "tgz"@
    ||| extension == "rar"@
}

/// Endings of which a text file has one.
pub open spec fn allowed_ending(name: Seq<char>) -> bool {
    ||| ".txt"@.is_suffix_of(name)
    ||| ".md"@.is_suffix_of(name)
    ||| ".json"@.is_suffix_of(name)
    ||| ".js"@.is_suffix_of(name)
    ||| ".html"@.is_suffix_of(name)
    ||| ".css"@.is_suffix_of(name)
    ||| ".sh"@.is_suffix_of(name)
    ||| ".c"@.is_suffix_of(name)
    ||| ".py"@.is_suffix_of(name)
}

/// The last piece of a path, with `\` read as `/`.
pub open spec fn file_name(path: Seq<char>) -> Seq<char> {
    text::split(text::replace(text::trim(path), '\\', '/'), '/').last()
}

/// What stands behind each dot of a name.
pub open spec fn extensions(name: Seq<char>) -> Seq<Seq<char>> {
    text::split(name, '.').skip(1)
}

/// Whether one of a name's extensions is blocked, in small or capital letters.
pub open spec fn has_blocked_extension(name: Seq<char>) -> bool {
    exists|i: int|
        0 <= i < extensions(name).len() && blocked_extension(
            text::lower(#[trigger] extensions(name)[i]),
        )
}

/// Whether a file of this name is a text file: it has one of the exact names, or
/// extensions of which none is blocked and an allowed ending.
pub open spec fn text_name(name: Seq<char>) -> bool {
    ||| exact_text_name(name)
    ||| {
        &&& extensions(name).len() > 0
        &&& !has_blocked_extension(name)
        &&& allowed_ending(text::lower(name))
    }
}

fn is_exact_text_name(name: &str) -> (r: bool)
    ensures
        r == exact_text_name(name@),
{
    same(name, "Dockerfile") || same(name, "Makefile") || same(name, "README")
}

fn is_blocked_extension(extension: &str) -> (r: bool)
    ensures
        r == blocked_extension(extension@),
{
    same(extension, "exe") || same(extension, "dll") || same(extension, "so") || same(
        extension,
        "dylib",
    ) || same(extension, "bat") || same(extension, "cmd") || same(extension, "ps1") || same(
        extension,
        "msi",
    ) || same(extension, "bin") || same(extension, "elf") || same(extension, "jar") || same(
        extension,
        "class",
    ) || same(extension, "pyc") || same(extension, "pyo") || same(extension, "zip") || same(
        extension,
        "tar",
    ) || same(extension, "gz") || same(extension, "tgz") || same(extension, "rar")
}

fn has_allowed_ending(name: &str) -> (r: bool)
    ensures
        r == allowed_ending(name@),
{
    ends_with(name, ".txt") || ends_with(name, ".md") || ends_with(name, ".json") || ends_with(
        name,
        ".js",
    ) || ends_with(name, ".html") || ends_with(name, ".css") || ends_with(name, ".sh")
        || ends_with(name, ".c") || ends_with(name, ".py")
}

/// Whether a file may be uploaded under this name.
pub fn is_allowed_upload_name(name: &str) -> (r: bool)
    ensures
        r == text_name(file_name(name@)),
{
    is_text_path(name)
}

/// Whether a path names a text file. Only its last piece counts.
pub fn is_text_path(path: &str) -> (r: bool)
    ensures
        r == text_name(file_name(path@)),
{
    let normalized = replaced(trimmed(path).as_str(), '\\', '/');
    let pieces = split_text(normalized.as_str(), '/');
    let filename = &pieces[pieces.len() - 1];
    proof {
        assert(text::texts(pieces@).last() == filename@);
        assert(filename@ == file_name(path@));
    }
    if is_exact_text_name(filename.as_str()) {
        return true;
    }
    let chain = split_text(filename.as_str(), '.');
    assert(extensions(filename@).len() == chain@.len() - 1);
    if chain.len() == 1 {
        return false;
    }
    for i in 1..chain.len()
        invariant
            text::texts(chain@) == text::split(filename@, '.'),
            !exact_text_name(filename@),
            filename@ == file_name(path@),
            forall|j: int|
                0 <= j < i - 1 ==> !blocked_extension(
                    text::lower(#[trigger] extensions(filename@)[j]),
                ),
    {
        assert(text::texts(chain@)[i as int] == chain@[i as int]@);
        assert(extensions(filename@)[i - 1] == chain@[i as int]@);
        if is_blocked_extension(lowered(chain[i].as_str()).as_str()) {
            return false;
        }
    }
    has_allowed_ending(lowered(filename.as_str()).as_str())
}

/// No accepted name hides a blocked extension: `payload.exe.txt` is refused
/// like `payload.exe`.
pub proof fn law_accepted_name_has_no_blocked_extension(path: Seq<char>)
    requires
        text_name(file_name(path)),
    ensures
        !has_blocked_extension(file_name(path)),
{
    let name = file_name(path);
    if exact_text_name(name) {
        reveal_strlit("Dockerfile");
        reveal_strlit("Makefile");
        reveal_strlit("README");
        assert(!name.contains('.'));
        text_laws::lemma_split_single(name, '.');
    }
}

/// Stripping stops at the first character that is not stripped, whatever
/// follows it.
proof fn lemma_strip_start_stops(a: Seq<char>, x: char, b: Seq<char>, p: spec_fn(char) -> bool)
    requires
        !p(x),
    ensures
        text::strip_start(a.push(x) + b, p) == text::strip_start(a, p).push(x) + b,
    decreases a.len(),
{
    let whole = a.push(x) + b;
    if a.len() > 0 && p(a[0]) {
        assert(whole.drop_first() =~= a.drop_first().push(x) + b);
        lemma_strip_start_stops(a.drop_first(), x, b, p);
    } else {
        assert(whole[0] == a.push(x)[0]);
    }
}

/// Directories do not matter: behind a separator, `/` or `\`, only the name
/// counts, whatever stands before it. The name may not have white space at its
/// ends, which is removed where it stands alone.
pub proof fn law_directory_is_ignored(directory: Seq<char>, separator: char, name: Seq<char>)
    requires
        separator == '/' || separator == '\\',
        name.len() > 0 ==> !text::is_white(name[0]) && !text::is_white(name.last()),
    ensures
        file_name(directory.push(separator) + name) == file_name(name),
{
    let p = |c: char| text::is_white(c);
    let whole = directory.push(separator) + name;
    lemma_strip_start_stops(directory, separator, name, p);
    let rest = text::strip_start(directory, p);
    let trimmed = rest.push(separator) + name;
    assert(trimmed.last() == if name.len() > 0 {
        name.last()
    } else {
        separator
    });
    assert(text::trim(whole) == trimmed);
    text_laws::lemma_trim_same(name);
    let d = text::replace(rest, '\\', '/');
    let n = text::replace(name, '\\', '/');
    assert(text::replace(trimmed, '\\', '/') =~= d.push('/') + n);
    text_laws::lemma_split_concat(d, n, '/');
    text_laws::lemma_split_pieces(n, '/');
}

} // verus!
