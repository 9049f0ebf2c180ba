//! Which uploaded files are accepted, said of their names: each accepted ending
//! and each blocked extension on its own.

use crate::services::file_policy;
use crate::text;
use crate::text_laws;
use vstd::prelude::*;
use vstd::string::*;

verus! {

/// The extensions of programs, libraries and archives, in small letters.
pub open spec fn is_harmful(extension: Seq<char>) -> bool {
    ||| extension == "exe"@
    ||| extension == "dll"@
    ||| extension == "so"@
    ||| extension == "dylib"@
    ||| extension == "bat"@
    ||| extension == "cmd"@
    ||| extension == "ps1"@
    ||| extension == "msi"@
    ||| extension == "bin"@
    ||| extension == "elf"@
    ||| extension == "jar"@
    ||| extension == "class"@
    ||| extension == "pyc"@
    ||| extension == "pyo"@
    ||| extension == "zip"@
    ||| extension == "tar"@
    ||| extension == "gz"@
    ||| extension == "tgz"@
    ||| extension == "rar"@
}

/// Whether no part of a name behind a dot is such an extension, in small letters
/// or in capitals.
pub open spec fn is_harmless(name: Seq<char>) -> bool {
    forall|i: int|
        1 <= i < text::split(name, '.').len() ==> !is_harmful(
            text::lower(#[trigger] text::split(name, '.')[i]),
        )
}

/// A name whose end holds a dot has a part behind a dot.
proof fn lemma_has_extension(name: Seq<char>, ending: Seq<char>)
    requires
        ending.len() > 0,
        ending[0] == '.',
        ending.is_suffix_of(text::lower(name)),
    ensures
        text::split(name, '.').len() > 1,
{
    let low = text::lower(name);
    let k = low.len() - ending.len();
    assert(low.subrange(k, low.len() as int)[0] == '.');
    assert(low[k] == '.');
    assert(name[k] == '.');
    let pieces = text::split(name, '.');
    text_laws::law_join_undoes_split(name, '.');
    if pieces.len() == 1 {
        assert(pieces =~= seq![pieces[0]]);
        text_laws::law_join_of_few(pieces[0], pieces[0], '.');
        assert(name.contains('.'));
    }
}

/// The parts of a name behind its dots are those that are looked at.
proof fn lemma_blocked_or_not(name: Seq<char>)
    ensures
        file_policy::has_blocked_extension(name) <==> !is_harmless(name),
        file_policy::extensions(name).len() > 0 <==> text::split(name, '.').len() > 1,
{
    let pieces = text::split(name, '.');
    let extensions = file_policy::extensions(name);
    text_laws::lemma_split_pieces(name, '.');
    if file_policy::has_blocked_extension(name) {
        let i = choose|i: int|
            0 <= i < extensions.len() && file_policy::blocked_extension(
                text::lower(#[trigger] extensions[i]),
            );
        assert(pieces[i + 1] == extensions[i]);
    }
    if !is_harmless(name) {
        let i = choose|i: int|
            1 <= i < pieces.len() && is_harmful(text::lower(#[trigger] pieces[i]));
        assert(extensions[i - 1] == pieces[i]);
    }
}

/// Every name that ends, in small letters or in capitals, in one of the nine
/// endings of texts is accepted, as long as no part of it behind a dot is the
/// extension of a program, a library or an archive.
pub proof fn law_text_ending_is_accepted(name: Seq<char>)
    requires
        is_harmless(name),
    ensures
        ".txt"@.is_suffix_of(text::lower(name)) ==> file_policy::text_name(name),
        ".md"@.is_suffix_of(text::lower(name)) ==> file_policy::text_name(name),
        ".json"@.is_suffix_of(text::lower(name)) ==> file_policy::text_name(name),
        ".js"@.is_suffix_of(text::lower(name)) ==> file_policy::text_name(name),
        ".html"@.is_suffix_of(text::lower(name)) ==> file_policy::text_name(name),
        ".css"@.is_suffix_of(text::lower(name)) ==> file_policy::text_name(name),
        ".sh"@.is_suffix_of(text::lower(name)) ==> file_policy::text_name(name),
        ".c"@.is_suffix_of(text::lower(name)) ==> file_policy::text_name(name),
        ".py"@.is_suffix_of(text::lower(name)) ==> file_policy::text_name(name),
{
    lemma_blocked_or_not(name);
    if ".txt"@.is_suffix_of(text::lower(name)) {
        reveal_strlit(".txt");
        lemma_has_extension(name, ".txt"@);
    }
    if ".md"@.is_suffix_of(text::lower(name)) {
        reveal_strlit(".md");
        lemma_has_extension(name, ".md"@);
    }
    if ".json"@.is_suffix_of(text::lower(name)) {
        reveal_strlit(".json");
        lemma_has_extension(name, ".json"@);
    }
    if ".js"@.is_suffix_of(text::lower(name)) {
        reveal_strlit(".js");
        lemma_has_extension(name, ".js"@);
    }
    if ".html"@.is_suffix_of(text::lower(name)) {
        reveal_strlit(".html");
        lemma_has_extension(name, ".html"@);
    }
    if ".css"@.is_suffix_of(text::lower(name)) {
        reveal_strlit(".css");
        lemma_has_extension(name, ".css"@);
    }
    if ".sh"@.is_suffix_of(text::lower(name)) {
        reveal_strlit(".sh");
        lemma_has_extension(name, ".sh"@);
    }
    if ".c"@.is_suffix_of(text::lower(name)) {
        reveal_strlit(".c");
        lemma_has_extension(name, ".c"@);
    }
    if ".py"@.is_suffix_of(text::lower(name)) {
        reveal_strlit(".py");
        lemma_has_extension(name, ".py"@);
    }
}

/// No other name is accepted, but for three that are accepted as they are.
pub proof fn law_only_texts_are_accepted(name: Seq<char>)
    requires
        file_policy::text_name(name),
    ensures
        name == "Dockerfile"@ || name == "Makefile"@ || name == "README"@ || (is_harmless(name) && (
        ".txt"@.is_suffix_of(text::lower(name)) || ".md"@.is_suffix_of(
            text::lower(name),
        ) || ".json"@.is_suffix_of(
            text::lower(name),
        ) || ".js"@.is_suffix_of(
            text::lower(name),
        ) || ".html"@.is_suffix_of(
            text::lower(name),
        ) || ".css"@.is_suffix_of(
            text::lower(name),
        ) || ".sh"@.is_suffix_of(
            text::lower(name),
        ) || ".c"@.is_suffix_of(
            text::lower(name),
        ) || ".py"@.is_suffix_of(
            text::lower(name),
        ))),
{
    lemma_blocked_or_not(name);
}

/// The three names are accepted as they are.
pub proof fn law_three_names_are_accepted()
    ensures
        file_policy::text_name("Dockerfile"@),
        file_policy::text_name("Makefile"@),
        file_policy::text_name("README"@),
{
}

/// A name with the extension of a program, a library or an archive behind any of
/// its dots is refused, whatever else it ends in.
pub proof fn law_harmful_extension_is_refused(name: Seq<char>, i: int)
    requires
        1 <= i < text::split(name, '.').len(),
        is_harmful(text::lower(text::split(name, '.')[i])),
    ensures
        !file_policy::text_name(name),
{
    lemma_blocked_or_not(name);
    assert(!is_harmless(name));
    if file_policy::exact_text_name(name) {
        reveal_strlit("Dockerfile");
        reveal_strlit("Makefile");
        reveal_strlit("README");
        assert(!name.contains('.'));
        text_laws::lemma_split_single(name, '.');
    }
}

/// How the blocked extensions are written.
proof fn lemma_harmful_shapes(extension: Seq<char>)
    requires
        is_harmful(extension),
    ensures
        extension.len() == 2 || extension.len() == 3 || extension.len() == 5,
        extension.len() == 2 ==> extension[1] == 'o' || extension[1] == 'z',
        extension.len() == 3 ==> extension[1] != 'x' || extension[0] == 'e',
        extension.len() == 3 ==> extension[1] != 's' || extension[0] == 'm' || extension[0] == 'p',
{
    if extension == "exe"@ {
        reveal_strlit("exe");
    }
    if extension == "dll"@ {
        reveal_strlit("dll");
    }
    if extension == "so"@ {
        reveal_strlit("so");
    }
    if extension == "dylib"@ {
        reveal_strlit("dylib");
    }
    if extension == "bat"@ {
        reveal_strlit("bat");
    }
    if extension == "cmd"@ {
        reveal_strlit("cmd");
    }
    if extension == "ps1"@ {
        reveal_strlit("ps1");
    }
    if extension == "msi"@ {
        reveal_strlit("msi");
    }
    if extension == "bin"@ {
        reveal_strlit("bin");
    }
    if extension == "elf"@ {
        reveal_strlit("elf");
    }
    if extension == "jar"@ {
        reveal_strlit("jar");
    }
    if extension == "class"@ {
        reveal_strlit("class");
    }
    if extension == "pyc"@ {
        reveal_strlit("pyc");
    }
    if extension == "pyo"@ {
        reveal_strlit("pyo");
    }
    if extension == "zip"@ {
        reveal_strlit("zip");
    }
    if extension == "tar"@ {
        reveal_strlit("tar");
    }
    if extension == "gz"@ {
        reveal_strlit("gz");
    }
    if extension == "tgz"@ {
        reveal_strlit("tgz");
    }
    if extension == "rar"@ {
        reveal_strlit("rar");
    }
}

/// Whether a text can stand at the end of a name that counts as it is.
pub open spec fn is_plain_ending(ending: Seq<char>) -> bool {
    &&& ending.len() > 0
    &&& !text::is_white(ending.last())
    &&& !ending.contains('/')
    &&& !ending.contains('\\')
}

/// A name with one dot has one part behind it.
proof fn lemma_single_extension(stem: Seq<char>, extension: Seq<char>)
    requires
        !stem.contains('.'),
        !extension.contains('.'),
        !is_harmful(text::lower(extension)),
    ensures
        is_harmless(stem.push('.') + extension),
{
    text_laws::lemma_split_concat(stem, extension, '.');
    text_laws::lemma_split_single(stem, '.');
    text_laws::lemma_split_single(extension, '.');
}

/// A name ends in its ending, in small letters.
proof fn lemma_lower_suffix(stem: Seq<char>, ending: Seq<char>)
    requires
        text::lower(ending) == ending,
    ensures
        ending.is_suffix_of(text::lower(stem + ending)),
{
    let low = text::lower(stem + ending);
    assert(low =~= text::lower(stem) + ending);
    assert(low.subrange(low.len() - ending.len(), low.len() as int) =~= ending);
}

proof fn lemma_plain_txt(stem: Seq<char>)
    requires
        !stem.contains('.'),
    ensures
        file_policy::text_name(stem + ".txt"@),
        is_plain_ending(".txt"@),
{
    reveal_strlit(".txt");
    let extension = seq!['t', 'x', 't'];
    assert(".txt"@ =~= seq!['.'] + extension);
    assert(text::lower(extension) =~= extension);
    assert(text::lower(".txt"@) =~= ".txt"@);
    if is_harmful(extension) {
        lemma_harmful_shapes(extension);
    }
    lemma_single_extension(stem, extension);
    let name = stem + ".txt"@;
    assert(name =~= stem.push('.') + extension);
    lemma_lower_suffix(stem, ".txt"@);
    law_text_ending_is_accepted(name);
}

proof fn lemma_plain_md(stem: Seq<char>)
    requires
        !stem.contains('.'),
    ensures
        file_policy::text_name(stem + ".md"@),
        is_plain_ending(".md"@),
{
    reveal_strlit(".md");
    let extension = seq!['m', 'd'];
    assert(".md"@ =~= seq!['.'] + extension);
    assert(text::lower(extension) =~= extension);
    assert(text::lower(".md"@) =~= ".md"@);
    if is_harmful(extension) {
        lemma_harmful_shapes(extension);
    }
    lemma_single_extension(stem, extension);
    let name = stem + ".md"@;
    assert(name =~= stem.push('.') + extension);
    lemma_lower_suffix(stem, ".md"@);
    law_text_ending_is_accepted(name);
}

proof fn lemma_plain_json(stem: Seq<char>)
    requires
        !stem.contains('.'),
    ensures
        file_policy::text_name(stem + ".json"@),
        is_plain_ending(".json"@),
{
    reveal_strlit(".json");
    let extension = seq!['j', 's', 'o', 'n'];
    assert(".json"@ =~= seq!['.'] + extension);
    assert(text::lower(extension) =~= extension);
    assert(text::lower(".json"@) =~= ".json"@);
    if is_harmful(extension) {
        lemma_harmful_shapes(extension);
    }
    lemma_single_extension(stem, extension);
    let name = stem + ".json"@;
    assert(name =~= stem.push('.') + extension);
    lemma_lower_suffix(stem, ".json"@);
    law_text_ending_is_accepted(name);
}

proof fn lemma_plain_js(stem: Seq<char>)
    requires
        !stem.contains('.'),
    ensures
        file_policy::text_name(stem + ".js"@),
        is_plain_ending(".js"@),
{
    reveal_strlit(".js");
    let extension = seq!['j', 's'];
    assert(".js"@ =~= seq!['.'] + extension);
    assert(text::lower(extension) =~= extension);
    assert(text::lower(".js"@) =~= ".js"@);
    if is_harmful(extension) {
        lemma_harmful_shapes(extension);
    }
    lemma_single_extension(stem, extension);
    let name = stem + ".js"@;
    assert(name =~= stem.push('.') + extension);
    lemma_lower_suffix(stem, ".js"@);
    law_text_ending_is_accepted(name);
}

proof fn lemma_plain_html(stem: Seq<char>)
    requires
        !stem.contains('.'),
    ensures
        file_policy::text_name(stem + ".html"@),
        is_plain_ending(".html"@),
{
    reveal_strlit(".html");
    let extension = seq!['h', 't', 'm', 'l'];
    assert(".html"@ =~= seq!['.'] + extension);
    assert(text::lower(extension) =~= extension);
    assert(text::lower(".html"@) =~= ".html"@);
    if is_harmful(extension) {
        lemma_harmful_shapes(extension);
    }
    lemma_single_extension(stem, extension);
    let name = stem + ".html"@;
    assert(name =~= stem.push('.') + extension);
    lemma_lower_suffix(stem, ".html"@);
    law_text_ending_is_accepted(name);
}

proof fn lemma_plain_css(stem: Seq<char>)
    requires
        !stem.contains('.'),
    ensures
        file_policy::text_name(stem + ".css"@),
        is_plain_ending(".css"@),
{
    reveal_strlit(".css");
    let extension = seq!['c', 's', 's'];
    assert(".css"@ =~= seq!['.'] + extension);
    assert(text::lower(extension) =~= extension);
    assert(text::lower(".css"@) =~= ".css"@);
    if is_harmful(extension) {
        lemma_harmful_shapes(extension);
    }
    lemma_single_extension(stem, extension);
    let name = stem + ".css"@;
    assert(name =~= stem.push('.') + extension);
    lemma_lower_suffix(stem, ".css"@);
    law_text_ending_is_accepted(name);
}

proof fn lemma_plain_sh(stem: Seq<char>)
    requires
        !stem.contains('.'),
    ensures
        file_policy::text_name(stem + ".sh"@),
        is_plain_ending(".sh"@),
{
    reveal_strlit(".sh");
    let extension = seq!['s', 'h'];
    assert(".sh"@ =~= seq!['.'] + extension);
    assert(text::lower(extension) =~= extension);
    assert(text::lower(".sh"@) =~= ".sh"@);
    if is_harmful(extension) {
        lemma_harmful_shapes(extension);
    }
    lemma_single_extension(stem, extension);
    let name = stem + ".sh"@;
    assert(name =~= stem.push('.') + extension);
    lemma_lower_suffix(stem, ".sh"@);
    law_text_ending_is_accepted(name);
}

proof fn lemma_plain_c(stem: Seq<char>)
    requires
        !stem.contains('.'),
    ensures
        file_policy::text_name(stem + ".c"@),
        is_plain_ending(".c"@),
{
    reveal_strlit(".c");
    let extension = seq!['c'];
    assert(".c"@ =~= seq!['.'] + extension);
    assert(text::lower(extension) =~= extension);
    assert(text::lower(".c"@) =~= ".c"@);
    if is_harmful(extension) {
        lemma_harmful_shapes(extension);
    }
    lemma_single_extension(stem, extension);
    let name = stem + ".c"@;
    assert(name =~= stem.push('.') + extension);
    lemma_lower_suffix(stem, ".c"@);
    law_text_ending_is_accepted(name);
}

proof fn lemma_plain_py(stem: Seq<char>)
    requires
        !stem.contains('.'),
    ensures
        file_policy::text_name(stem + ".py"@),
        is_plain_ending(".py"@),
{
    reveal_strlit(".py");
    let extension = seq!['p', 'y'];
    assert(".py"@ =~= seq!['.'] + extension);
    assert(text::lower(extension) =~= extension);
    assert(text::lower(".py"@) =~= ".py"@);
    if is_harmful(extension) {
        lemma_harmful_shapes(extension);
    }
    lemma_single_extension(stem, extension);
    let name = stem + ".py"@;
    assert(name =~= stem.push('.') + extension);
    lemma_lower_suffix(stem, ".py"@);
    law_text_ending_is_accepted(name);
}

/// A name without a dot is accepted with each of the nine endings of texts.
pub proof fn law_each_text_ending_is_accepted(stem: Seq<char>)
    requires
        !stem.contains('.'),
    ensures
        file_policy::text_name(stem + ".txt"@),
        file_policy::text_name(stem + ".md"@),
        file_policy::text_name(stem + ".json"@),
        file_policy::text_name(stem + ".js"@),
        file_policy::text_name(stem + ".html"@),
        file_policy::text_name(stem + ".css"@),
        file_policy::text_name(stem + ".sh"@),
        file_policy::text_name(stem + ".c"@),
        file_policy::text_name(stem + ".py"@),
{
    lemma_plain_txt(stem);
    lemma_plain_md(stem);
    lemma_plain_json(stem);
    lemma_plain_js(stem);
    lemma_plain_html(stem);
    lemma_plain_css(stem);
    lemma_plain_sh(stem);
    lemma_plain_c(stem);
    lemma_plain_py(stem);
}

/// Behind a separator a name that holds none counts as it is.
proof fn lemma_named_in_directory(
    directory: Seq<char>,
    separator: char,
    stem: Seq<char>,
    ending: Seq<char>,
)
    requires
        separator == '/' || separator == '\\',
        stem.len() > 0,
        !text::is_white(stem[0]),
        !stem.contains('/'),
        !stem.contains('\\'),
        is_plain_ending(ending),
    ensures
        file_policy::file_name(directory.push(separator) + (stem + ending)) == stem + ending,
{
    let name = stem + ending;
    assert forall|x: char| (x == '/' || x == '\\') implies !name.contains(x) by {
        if name.contains(x) {
            let k = choose|k: int| 0 <= k < name.len() && name[k] == x;
            if k < stem.len() {
                assert(stem[k] == x);
            } else {
                assert(ending[k - stem.len()] == x);
            }
        }
    }
    assert(name.last() == ending.last());
    file_policy::law_directory_is_ignored(directory, separator, name);
    text_laws::lemma_trim_same(name);
    assert(text::replace(name, '\\', '/') =~= name);
    text_laws::lemma_split_single(name, '/');
}

/// A file is accepted with each of the nine endings of texts in any directory,
/// with slashes or backslashes between the names: `site/index.html` and
/// `site\style.css` are.
pub proof fn law_each_text_ending_is_accepted_in_any_directory(
    directory: Seq<char>,
    separator: char,
    stem: Seq<char>,
)
    requires
        separator == '/' || separator == '\\',
        stem.len() > 0,
        !text::is_white(stem[0]),
        !stem.contains('.'),
        !stem.contains('/'),
        !stem.contains('\\'),
    ensures
        file_policy::text_name(
            file_policy::file_name(directory.push(separator) + (stem + ".txt"@)),
        ),
        file_policy::text_name(
            file_policy::file_name(directory.push(separator) + (stem + ".md"@)),
        ),
        file_policy::text_name(
            file_policy::file_name(directory.push(separator) + (stem + ".json"@)),
        ),
        file_policy::text_name(
            file_policy::file_name(directory.push(separator) + (stem + ".js"@)),
        ),
        file_policy::text_name(
            file_policy::file_name(directory.push(separator) + (stem + ".html"@)),
        ),
        file_policy::text_name(
            file_policy::file_name(directory.push(separator) + (stem + ".css"@)),
        ),
        file_policy::text_name(
            file_policy::file_name(directory.push(separator) + (stem + ".sh"@)),
        ),
        file_policy::text_name(
            file_policy::file_name(directory.push(separator) + (stem + ".c"@)),
        ),
        file_policy::text_name(
            file_policy::file_name(directory.push(separator) + (stem + ".py"@)),
        ),
{
    lemma_plain_txt(stem);
    lemma_named_in_directory(directory, separator, stem, ".txt"@);
    lemma_plain_md(stem);
    lemma_named_in_directory(directory, separator, stem, ".md"@);
    lemma_plain_json(stem);
    lemma_named_in_directory(directory, separator, stem, ".json"@);
    lemma_plain_js(stem);
    lemma_named_in_directory(directory, separator, stem, ".js"@);
    lemma_plain_html(stem);
    lemma_named_in_directory(directory, separator, stem, ".html"@);
    lemma_plain_css(stem);
    lemma_named_in_directory(directory, separator, stem, ".css"@);
    lemma_plain_sh(stem);
    lemma_named_in_directory(directory, separator, stem, ".sh"@);
    lemma_plain_c(stem);
    lemma_named_in_directory(directory, separator, stem, ".c"@);
    lemma_plain_py(stem);
    lemma_named_in_directory(directory, separator, stem, ".py"@);
}

/// The three names, each in two parts that can stand in a name.
proof fn lemma_exact_names_split()
    ensures
        "Dockerfile"@ == "Dock"@ + "erfile"@,
        "Makefile"@ == "Make"@ + "file"@,
        "README"@ == "READ"@ + "ME"@,
        is_plain_ending("Dock"@) && !text::is_white("Dock"@[0]) && is_plain_ending("erfile"@),
        is_plain_ending("Make"@) && !text::is_white("Make"@[0]) && is_plain_ending("file"@),
        is_plain_ending("READ"@) && !text::is_white("READ"@[0]) && is_plain_ending("ME"@),
{
    reveal_strlit("Dockerfile");
    reveal_strlit("Dock");
    reveal_strlit("erfile");
    reveal_strlit("Makefile");
    reveal_strlit("Make");
    reveal_strlit("file");
    reveal_strlit("README");
    reveal_strlit("READ");
    reveal_strlit("ME");
    assert("Dockerfile"@ =~= "Dock"@ + "erfile"@);
    assert("Makefile"@ =~= "Make"@ + "file"@);
    assert("README"@ =~= "READ"@ + "ME"@);
}

/// The names of a Dockerfile, a Makefile and a README are accepted in any
/// directory.
pub proof fn law_three_names_are_accepted_in_any_directory(directory: Seq<char>, separator: char)
    requires
        separator == '/' || separator == '\\',
    ensures
        file_policy::text_name(file_policy::file_name(directory.push(separator) + "Dockerfile"@)),
        file_policy::text_name(file_policy::file_name(directory.push(separator) + "Makefile"@)),
        file_policy::text_name(file_policy::file_name(directory.push(separator) + "README"@)),
{
    lemma_exact_names_split();
    lemma_named_in_directory(directory, separator, "Dock"@, "erfile"@);
    lemma_named_in_directory(directory, separator, "Make"@, "file"@);
    lemma_named_in_directory(directory, separator, "READ"@, "ME"@);
}

} // verus!
