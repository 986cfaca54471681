//! Script files: the name and language of an imported file, the checks a
//! source file must pass before it is imported or synchronized, and the
//! bookkeeping of a synchronization run.
use vstd::prelude::*;
use vstd::string::StringExecFns;
use crate::errors::{CoreError, ServiceError};
use crate::metadata::{split_char, to_lowercase, unicode_lowercase, lemma_split_without_separator};
use crate::text::{append_nat, chars_of, is_unicode_whitespace, is_whitespace, nat_digits};

verus! {

// ---------------------------------------------------------------------------
// Paths
// ---------------------------------------------------------------------------

/// The components of a path that name something: the pieces between '/'
/// without the empty ones and without ".".
pub open spec fn named_segments(s: Seq<char>) -> Seq<Seq<char>> {
    split_char(s, '/').filter(|seg: Seq<char>| seg.len() > 0 && seg != "."@)
}

/// `Path::file_name`: the last component, unless there is none or it is "..".
pub open spec fn file_name_spec(s: Seq<char>) -> Option<Seq<char>> {
    let segs = named_segments(s);
    if segs.len() == 0 || segs.last() == ".."@ {
        None
    } else {
        Some(segs.last())
    }
}

/// The position of the last occurrence of `c` in `s`, searching below `n`.
pub open spec fn last_index_below(s: Seq<char>, c: char, n: int) -> Option<int>
    decreases n,
{
    if n <= 0 {
        None
    } else if s[n - 1] == c {
        Some(n - 1)
    } else {
        last_index_below(s, c, n - 1)
    }
}

/// The extension of a file name: what follows its last '.', provided that
/// dot is not the name's first character.
pub open spec fn name_extension(name: Seq<char>) -> Option<Seq<char>> {
    match last_index_below(name, '.', name.len() as int) {
        Some(i) => if i == 0 {
            None
        } else {
            Some(name.skip(i + 1))
        },
        None => None,
    }
}

/// `Path::extension`: the extension of the file name, if there is one.
pub open spec fn extension_spec(s: Seq<char>) -> Option<Seq<char>> {
    match file_name_spec(s) {
        Some(n) => name_extension(n),
        None => None,
    }
}

/// `Path::file_name` from std (on a path given as UTF-8 text): the final
/// component after '/'-separated pieces that are empty or "." are dropped;
/// `None` when no component is left or the final one is "..".
#[verifier::external_body]
fn path_file_name(p: &str) -> (r: Option<String>)
    ensures
        match (r, file_name_spec(p@)) {
            (Some(n), Some(m)) => n@ == m,
            (None, None) => true,
            _ => false,
        },
{
    std::path::Path::new(p).file_name().and_then(|n| n.to_str()).map(|n| n.to_owned())
}

/// `Path::extension` from std: `None` without a file name, without a '.' in
/// it, or when its only leading '.' is the last one; otherwise the text after
/// the last '.' of the file name.
#[verifier::external_body]
pub(crate) fn path_extension(p: &str) -> (r: Option<String>)
    ensures
        match (r, extension_spec(p@)) {
            (Some(e), Some(x)) => e@ == x,
            (None, None) => true,
            _ => false,
        },
{
    std::path::Path::new(p).extension().and_then(|e| e.to_str()).map(|e| e.to_owned())
}

/// Whether two strings hold the same characters.
pub fn same_text(a: &str, b: &str) -> (r: bool)
    ensures
        r == (a@ == b@),
{
    let x = chars_of(a);
    let y = chars_of(b);
    if x.len() != y.len() {
        return false;
    }
    let mut i: usize = 0;
    while i < x.len()
        invariant
            i <= x@.len(),
            x@.len() == y@.len(),
            x@ == a@,
            y@ == b@,
            forall|k: int| 0 <= k < i ==> x@[k] == y@[k],
        decreases x@.len() - i,
    {
        if x[i] != y[i] {
            return false;
        }
        i = i + 1;
    }
    assert(x@ =~= y@);
    true
}

// ---------------------------------------------------------------------------
// Language detection
// ---------------------------------------------------------------------------

/// File names that name their language without an extension.
pub open spec fn special_name_table() -> Seq<(Seq<char>, Seq<char>)> {
    seq![
        ("Dockerfile"@, "dockerfile"@),
        ("dockerfile"@, "dockerfile"@),
        ("Makefile"@, "makefile"@),
        ("makefile"@, "makefile"@),
        ("GNUmakefile"@, "makefile"@),
        ("Vagrantfile"@, "ruby"@),
        ("Rakefile"@, "ruby"@),
        ("Gemfile"@, "ruby"@),
        ("Jenkinsfile"@, "groovy"@),
        ("CMakeLists.txt"@, "cmake"@),
    ]
}

/// Lower-case extensions and the languages they stand for.
pub open spec fn extension_table() -> Seq<(Seq<char>, Seq<char>)> {
    seq![
        ("py"@, "python"@),
        ("js"@, "javascript"@),
        ("ts"@, "typescript"@),
        ("tsx"@, "typescript"@),
        ("sh"@, "bash"@),
        ("rs"@, "rust"@),
        ("go"@, "go"@),
        ("rb"@, "ruby"@),
        ("java"@, "java"@),
        ("c"@, "c"@),
        ("h"@, "c"@),
        ("cpp"@, "cpp"@),
        ("cc"@, "cpp"@),
        ("hpp"@, "cpp"@),
        ("cs"@, "csharp"@),
        ("swift"@, "swift"@),
        ("kt"@, "kotlin"@),
        ("kts"@, "kotlin"@),
        ("lua"@, "lua"@),
        ("php"@, "php"@),
        ("sql"@, "sql"@),
        ("html"@, "html"@),
        ("htm"@, "html"@),
        ("css"@, "css"@),
        ("yaml"@, "yaml"@),
        ("yml"@, "yaml"@),
        ("json"@, "json"@),
        ("xml"@, "xml"@),
        ("toml"@, "toml"@),
        ("md"@, "markdown"@),
        ("markdown"@, "markdown"@),
        ("zsh"@, "zsh"@),
        ("fish"@, "fish"@),
        ("ps1"@, "powershell"@),
        ("bat"@, "batch"@),
        ("cmd"@, "batch"@),
    ]
}

/// The value of the first entry from position `i` on whose key is `key`.
pub open spec fn table_find(t: Seq<(Seq<char>, Seq<char>)>, key: Seq<char>, i: int) -> Option<
    Seq<char>,
>
    decreases t.len() - i,
{
    if i < 0 || i >= t.len() {
        None
    } else if t[i].0 == key {
        Some(t[i].1)
    } else {
        table_find(t, key, i + 1)
    }
}

/// The views of a table of string pairs.
pub open spec fn pairs_view(v: Seq<(&str, &str)>) -> Seq<(Seq<char>, Seq<char>)> {
    Seq::new(v.len(), |i: int| (v[i].0@, v[i].1@))
}

/// The script language of a file name: a special name decides first, then
/// the lower-cased extension; anything else is "text".
pub open spec fn detect_language_spec(filename: Seq<char>) -> Seq<char> {
    let base = match file_name_spec(filename) {
        Some(b) => b,
        None => filename,
    };
    match table_find(special_name_table(), base, 0) {
        Some(lang) => lang,
        None => {
            let ext = unicode_lowercase(
                match extension_spec(filename) {
                    Some(e) => e,
                    None => ""@,
                },
            );
            match table_find(extension_table(), ext, 0) {
                Some(lang) => lang,
                None => "text"@,
            }
        },
    }
}

fn special_names() -> (t: Vec<(&'static str, &'static str)>)
    ensures
        pairs_view(t@) == special_name_table(),
{
    let t = vec![
        ("Dockerfile", "dockerfile"),
        ("dockerfile", "dockerfile"),
        ("Makefile", "makefile"),
        ("makefile", "makefile"),
        ("GNUmakefile", "makefile"),
        ("Vagrantfile", "ruby"),
        ("Rakefile", "ruby"),
        ("Gemfile", "ruby"),
        ("Jenkinsfile", "groovy"),
        ("CMakeLists.txt", "cmake"),
    ];
    assert(pairs_view(t@) =~= special_name_table());
    t
}

fn extension_languages() -> (t: Vec<(&'static str, &'static str)>)
    ensures
        pairs_view(t@) == extension_table(),
{
    let t = vec![
        ("py", "python"),
        ("js", "javascript"),
        ("ts", "typescript"),
        ("tsx", "typescript"),
        ("sh", "bash"),
        ("rs", "rust"),
        ("go", "go"),
        ("rb", "ruby"),
        ("java", "java"),
        ("c", "c"),
        ("h", "c"),
        ("cpp", "cpp"),
        ("cc", "cpp"),
        ("hpp", "cpp"),
        ("cs", "csharp"),
        ("swift", "swift"),
        ("kt", "kotlin"),
        ("kts", "kotlin"),
        ("lua", "lua"),
        ("php", "php"),
        ("sql", "sql"),
        ("html", "html"),
        ("htm", "html"),
        ("css", "css"),
        ("yaml", "yaml"),
        ("yml", "yaml"),
        ("json", "json"),
        ("xml", "xml"),
        ("toml", "toml"),
        ("md", "markdown"),
        ("markdown", "markdown"),
        ("zsh", "zsh"),
        ("fish", "fish"),
        ("ps1", "powershell"),
        ("bat", "batch"),
        ("cmd", "batch"),
    ];
    assert(pairs_view(t@) =~= extension_table());
    t
}

/// Looks `key` up in a table of string pairs; the first matching entry wins.
pub fn lookup(t: &[(&str, &str)], key: &str) -> (r: Option<String>)
    ensures
        match (r, table_find(pairs_view(t@), key@, 0)) {
            (Some(v), Some(w)) => v@ == w,
            (None, None) => true,
            _ => false,
        },
{
    let ghost pv = pairs_view(t@);
    let mut i: usize = 0;
    while i < t.len()
        invariant
            i <= t@.len(),
            pv == pairs_view(t@),
            table_find(pv, key@, 0) == table_find(pv, key@, i as int),
        decreases t@.len() - i,
    {
        let (k, v) = t[i];
        assert(pv[i as int] == (k@, v@));
        if same_text(k, key) {
            return Some(String::from_str(v));
        }
        i = i + 1;
    }
    None
}

/// Detects the script language from a file name: special names such as
/// "Dockerfile" or "Makefile" first, then the extension (compared in lower
/// case); "text" when nothing matches.
pub fn detect_language(filename: &str) -> (r: String)
    ensures
        r@ == detect_language_spec(filename@),
{
    let base = match path_file_name(filename) {
        Some(b) => b,
        None => String::from_str(filename),
    };
    let ghost b = match file_name_spec(filename@) {
        Some(x) => x,
        None => filename@,
    };
    assert(base@ == b);
    let specials = special_names();
    match lookup(specials.as_slice(), base.as_str()) {
        Some(lang) => {
            return lang;
        },
        None => {},
    }
    let ext = match path_extension(filename) {
        Some(e) => e,
        None => String::new(),
    };
    proof {
        reveal_strlit("");
    }
    assert(ext@ == match extension_spec(filename@) {
        Some(e) => e,
        None => ""@,
    });
    let lower = to_lowercase(ext.as_str());
    let exts = extension_languages();
    match lookup(exts.as_slice(), lower.as_str()) {
        Some(lang) => lang,
        None => String::from_str("text"),
    }
}

/// The language an extension stands for, compared in lower case; "text"
/// when there is no extension or it is unknown.
pub open spec fn extension_language(ext: Option<Seq<char>>) -> Seq<char> {
    let e = unicode_lowercase(
        match ext {
            Some(e) => e,
            None => ""@,
        },
    );
    match table_find(extension_table(), e, 0) {
        Some(lang) => lang,
        None => "text"@,
    }
}

/// A text that ends in a separator followed by a piece without one splits
/// into the pieces before the separator and that piece.
pub proof fn lemma_split_last_piece(a: Seq<char>, sep: char, b: Seq<char>)
    requires
        !b.contains(sep),
    ensures
        split_char(a + seq![sep] + b, sep) == split_char(a, sep).push(b),
    decreases b.len(),
{
    let s = a + seq![sep] + b;
    if b.len() == 0 {
        assert(s.drop_last() =~= a);
        assert(b =~= Seq::<char>::empty());
    } else {
        let d = b.drop_last();
        assert(!d.contains(sep)) by {
            if d.contains(sep) {
                let i = choose|i: int| 0 <= i < d.len() && d[i] == sep;
                assert(b[i] == sep);
            }
        }
        lemma_split_last_piece(a, sep, d);
        assert(s.drop_last() =~= a + seq![sep] + d);
        assert(b.last() != sep) by {
            assert(b[b.len() - 1] == b.last());
        }
        assert(s.last() == b.last());
        assert(d.push(b.last()) =~= b);
        let r = split_char(a, sep).push(d);
        assert(r.update(r.len() - 1, r.last().push(s.last())) =~= split_char(a, sep).push(b));
    }
}

/// The named components of a directory followed by a plain name: those of
/// the directory, then the name.
proof fn lemma_segments_with_name(dir: Seq<char>, name: Seq<char>)
    requires
        name.len() > 0,
        !name.contains('/'),
        name != "."@,
    ensures
        named_segments(dir + "/"@ + name) == named_segments(dir).push(name),
        named_segments(name) == seq![name],
{
    reveal_strlit("/");
    assert("/"@ =~= seq!['/']);
    lemma_split_last_piece(dir, '/', name);
    lemma_split_without_separator(name, '/');
    reveal(Seq::filter);
    assert(split_char(dir, '/').push(name).drop_last() =~= split_char(dir, '/'));
    assert(seq![name].drop_last() =~= Seq::<Seq<char>>::empty());
    assert(named_segments(name) =~= seq![name]);
}

/// A lookup finds nothing when no key from position `i` on matches.
proof fn lemma_table_find_absent(t: Seq<(Seq<char>, Seq<char>)>, key: Seq<char>, i: int)
    requires
        0 <= i,
        forall|j: int| i <= j < t.len() ==> #[trigger] t[j].0 != key,
    ensures
        table_find(t, key, i) is None,
    decreases t.len() - i,
{
    if i < t.len() {
        lemma_table_find_absent(t, key, i + 1);
    }
}

/// No special file name ends in '.'.
proof fn lemma_not_special_when_ending_in_dot(key: Seq<char>)
    requires
        key.len() > 0,
        key.last() == '.',
    ensures
        table_find(special_name_table(), key, 0) is None,
{
    reveal_strlit("Dockerfile");
    reveal_strlit("dockerfile");
    reveal_strlit("Makefile");
    reveal_strlit("makefile");
    reveal_strlit("GNUmakefile");
    reveal_strlit("Vagrantfile");
    reveal_strlit("Rakefile");
    reveal_strlit("Gemfile");
    reveal_strlit("Jenkinsfile");
    reveal_strlit("CMakeLists.txt");
    let t = special_name_table();
    assert forall|j: int| 0 <= j < t.len() implies #[trigger] t[j].0 != key by {
        assert(t[j].0.last() != '.');
    }
    lemma_table_find_absent(t, key, 0);
}

/// Two texts differ in length, in their first or in their last character.
spec fn visibly_differ(a: Seq<char>, b: Seq<char>) -> bool {
    a.len() != b.len() || (a.len() > 0 && (a[0] != b[0] || a[a.len() - 1] != b[b.len() - 1]))
}

/// A lookup finds the first entry whose key matches.
proof fn lemma_table_find_at(t: Seq<(Seq<char>, Seq<char>)>, key: Seq<char>, j: int)
    requires
        0 <= j < t.len(),
        t[j].0 == key,
        forall|k: int| 0 <= k < j ==> visibly_differ(#[trigger] t[k].0, key),
    ensures
        table_find(t, key, 0) == Some(t[j].1),
{
    assert forall|k: int| 0 <= k < j implies #[trigger] t[k].0 != key by {
        assert(visibly_differ(t[k].0, key));
    }
    lemma_table_find_up(t, key, j, 0);
}

proof fn lemma_table_find_up(t: Seq<(Seq<char>, Seq<char>)>, key: Seq<char>, j: int, i: int)
    requires
        0 <= i <= j < t.len(),
        t[j].0 == key,
        forall|k: int| 0 <= k < j ==> #[trigger] t[k].0 != key,
    ensures
        table_find(t, key, i) == Some(t[j].1),
    decreases j - i,
{
    if i < j {
        lemma_table_find_up(t, key, j, i + 1);
    }
}

/// Law: each lower-case extension names its language: a file whose
/// lower-cased extension is one of these, and whose name is not a special
/// one, is detected as the language given here (see
/// `lemma_detect_language_ignores_directory` and `extension_language`).
pub proof fn lemma_extension_languages()
    ensures
        table_find(extension_table(), "py"@, 0) == Some("python"@),
        table_find(extension_table(), "js"@, 0) == Some("javascript"@),
        table_find(extension_table(), "ts"@, 0) == Some("typescript"@),
        table_find(extension_table(), "tsx"@, 0) == Some("typescript"@),
        table_find(extension_table(), "sh"@, 0) == Some("bash"@),
        table_find(extension_table(), "rs"@, 0) == Some("rust"@),
        table_find(extension_table(), "go"@, 0) == Some("go"@),
        table_find(extension_table(), "rb"@, 0) == Some("ruby"@),
        table_find(extension_table(), "java"@, 0) == Some("java"@),
        table_find(extension_table(), "c"@, 0) == Some("c"@),
        table_find(extension_table(), "h"@, 0) == Some("c"@),
        table_find(extension_table(), "cpp"@, 0) == Some("cpp"@),
        table_find(extension_table(), "cc"@, 0) == Some("cpp"@),
        table_find(extension_table(), "hpp"@, 0) == Some("cpp"@),
        table_find(extension_table(), "cs"@, 0) == Some("csharp"@),
        table_find(extension_table(), "swift"@, 0) == Some("swift"@),
        table_find(extension_table(), "kt"@, 0) == Some("kotlin"@),
        table_find(extension_table(), "kts"@, 0) == Some("kotlin"@),
        table_find(extension_table(), "lua"@, 0) == Some("lua"@),
        table_find(extension_table(), "php"@, 0) == Some("php"@),
        table_find(extension_table(), "sql"@, 0) == Some("sql"@),
        table_find(extension_table(), "html"@, 0) == Some("html"@),
        table_find(extension_table(), "htm"@, 0) == Some("html"@),
        table_find(extension_table(), "css"@, 0) == Some("css"@),
        table_find(extension_table(), "yaml"@, 0) == Some("yaml"@),
        table_find(extension_table(), "yml"@, 0) == Some("yaml"@),
        table_find(extension_table(), "json"@, 0) == Some("json"@),
        table_find(extension_table(), "xml"@, 0) == Some("xml"@),
        table_find(extension_table(), "toml"@, 0) == Some("toml"@),
        table_find(extension_table(), "md"@, 0) == Some("markdown"@),
        table_find(extension_table(), "markdown"@, 0) == Some("markdown"@),
        table_find(extension_table(), "zsh"@, 0) == Some("zsh"@),
        table_find(extension_table(), "fish"@, 0) == Some("fish"@),
        table_find(extension_table(), "ps1"@, 0) == Some("powershell"@),
        table_find(extension_table(), "bat"@, 0) == Some("batch"@),
        table_find(extension_table(), "cmd"@, 0) == Some("batch"@),
        forall|e: Seq<char>| #[trigger] unicode_lowercase(e) == "py"@ ==> extension_language(Some(e)) == "python"@,
        forall|e: Seq<char>| #[trigger] unicode_lowercase(e) == "js"@ ==> extension_language(Some(e)) == "javascript"@,
        forall|e: Seq<char>| #[trigger] unicode_lowercase(e) == "ts"@ ==> extension_language(Some(e)) == "typescript"@,
        forall|e: Seq<char>| #[trigger] unicode_lowercase(e) == "tsx"@ ==> extension_language(Some(e)) == "typescript"@,
        forall|e: Seq<char>| #[trigger] unicode_lowercase(e) == "sh"@ ==> extension_language(Some(e)) == "bash"@,
        forall|e: Seq<char>| #[trigger] unicode_lowercase(e) == "rs"@ ==> extension_language(Some(e)) == "rust"@,
        forall|e: Seq<char>| #[trigger] unicode_lowercase(e) == "go"@ ==> extension_language(Some(e)) == "go"@,
        forall|e: Seq<char>| #[trigger] unicode_lowercase(e) == "rb"@ ==> extension_language(Some(e)) == "ruby"@,
        forall|e: Seq<char>| #[trigger] unicode_lowercase(e) == "java"@ ==> extension_language(Some(e)) == "java"@,
        forall|e: Seq<char>| #[trigger] unicode_lowercase(e) == "c"@ ==> extension_language(Some(e)) == "c"@,
        forall|e: Seq<char>| #[trigger] unicode_lowercase(e) == "h"@ ==> extension_language(Some(e)) == "c"@,
        forall|e: Seq<char>| #[trigger] unicode_lowercase(e) == "cpp"@ ==> extension_language(Some(e)) == "cpp"@,
        forall|e: Seq<char>| #[trigger] unicode_lowercase(e) == "cc"@ ==> extension_language(Some(e)) == "cpp"@,
        forall|e: Seq<char>| #[trigger] unicode_lowercase(e) == "hpp"@ ==> extension_language(Some(e)) == "cpp"@,
        forall|e: Seq<char>| #[trigger] unicode_lowercase(e) == "cs"@ ==> extension_language(Some(e)) == "csharp"@,
        forall|e: Seq<char>| #[trigger] unicode_lowercase(e) == "swift"@ ==> extension_language(Some(e)) == "swift"@,
        forall|e: Seq<char>| #[trigger] unicode_lowercase(e) == "kt"@ ==> extension_language(Some(e)) == "kotlin"@,
        forall|e: Seq<char>| #[trigger] unicode_lowercase(e) == "kts"@ ==> extension_language(Some(e)) == "kotlin"@,
        forall|e: Seq<char>| #[trigger] unicode_lowercase(e) == "lua"@ ==> extension_language(Some(e)) == "lua"@,
        forall|e: Seq<char>| #[trigger] unicode_lowercase(e) == "php"@ ==> extension_language(Some(e)) == "php"@,
        forall|e: Seq<char>| #[trigger] unicode_lowercase(e) == "sql"@ ==> extension_language(Some(e)) == "sql"@,
        forall|e: Seq<char>| #[trigger] unicode_lowercase(e) == "html"@ ==> extension_language(Some(e)) == "html"@,
        forall|e: Seq<char>| #[trigger] unicode_lowercase(e) == "htm"@ ==> extension_language(Some(e)) == "html"@,
        forall|e: Seq<char>| #[trigger] unicode_lowercase(e) == "css"@ ==> extension_language(Some(e)) == "css"@,
        forall|e: Seq<char>| #[trigger] unicode_lowercase(e) == "yaml"@ ==> extension_language(Some(e)) == "yaml"@,
        forall|e: Seq<char>| #[trigger] unicode_lowercase(e) == "yml"@ ==> extension_language(Some(e)) == "yaml"@,
        forall|e: Seq<char>| #[trigger] unicode_lowercase(e) == "json"@ ==> extension_language(Some(e)) == "json"@,
        forall|e: Seq<char>| #[trigger] unicode_lowercase(e) == "xml"@ ==> extension_language(Some(e)) == "xml"@,
        forall|e: Seq<char>| #[trigger] unicode_lowercase(e) == "toml"@ ==> extension_language(Some(e)) == "toml"@,
        forall|e: Seq<char>| #[trigger] unicode_lowercase(e) == "md"@ ==> extension_language(Some(e)) == "markdown"@,
        forall|e: Seq<char>| #[trigger] unicode_lowercase(e) == "markdown"@ ==> extension_language(Some(e)) == "markdown"@,
        forall|e: Seq<char>| #[trigger] unicode_lowercase(e) == "zsh"@ ==> extension_language(Some(e)) == "zsh"@,
        forall|e: Seq<char>| #[trigger] unicode_lowercase(e) == "fish"@ ==> extension_language(Some(e)) == "fish"@,
        forall|e: Seq<char>| #[trigger] unicode_lowercase(e) == "ps1"@ ==> extension_language(Some(e)) == "powershell"@,
        forall|e: Seq<char>| #[trigger] unicode_lowercase(e) == "bat"@ ==> extension_language(Some(e)) == "batch"@,
        forall|e: Seq<char>| #[trigger] unicode_lowercase(e) == "cmd"@ ==> extension_language(Some(e)) == "batch"@,
{
    reveal_strlit("py");
    reveal_strlit("python");
    reveal_strlit("js");
    reveal_strlit("javascript");
    reveal_strlit("ts");
    reveal_strlit("typescript");
    reveal_strlit("tsx");
    reveal_strlit("sh");
    reveal_strlit("bash");
    reveal_strlit("rs");
    reveal_strlit("rust");
    reveal_strlit("go");
    reveal_strlit("rb");
    reveal_strlit("ruby");
    reveal_strlit("java");
    reveal_strlit("c");
    reveal_strlit("h");
    reveal_strlit("cpp");
    reveal_strlit("cc");
    reveal_strlit("hpp");
    reveal_strlit("cs");
    reveal_strlit("csharp");
    reveal_strlit("swift");
    reveal_strlit("kt");
    reveal_strlit("kotlin");
    reveal_strlit("kts");
    reveal_strlit("lua");
    reveal_strlit("php");
    reveal_strlit("sql");
    reveal_strlit("html");
    reveal_strlit("htm");
    reveal_strlit("css");
    reveal_strlit("yaml");
    reveal_strlit("yml");
    reveal_strlit("json");
    reveal_strlit("xml");
    reveal_strlit("toml");
    reveal_strlit("md");
    reveal_strlit("markdown");
    reveal_strlit("zsh");
    reveal_strlit("fish");
    reveal_strlit("ps1");
    reveal_strlit("powershell");
    reveal_strlit("bat");
    reveal_strlit("batch");
    reveal_strlit("cmd");
    lemma_table_find_at(extension_table(), "py"@, 0);
    lemma_table_find_at(extension_table(), "js"@, 1);
    lemma_table_find_at(extension_table(), "ts"@, 2);
    lemma_table_find_at(extension_table(), "tsx"@, 3);
    lemma_table_find_at(extension_table(), "sh"@, 4);
    lemma_table_find_at(extension_table(), "rs"@, 5);
    lemma_table_find_at(extension_table(), "go"@, 6);
    lemma_table_find_at(extension_table(), "rb"@, 7);
    lemma_table_find_at(extension_table(), "java"@, 8);
    lemma_table_find_at(extension_table(), "c"@, 9);
    lemma_table_find_at(extension_table(), "h"@, 10);
    lemma_table_find_at(extension_table(), "cpp"@, 11);
    lemma_table_find_at(extension_table(), "cc"@, 12);
    lemma_table_find_at(extension_table(), "hpp"@, 13);
    lemma_table_find_at(extension_table(), "cs"@, 14);
    lemma_table_find_at(extension_table(), "swift"@, 15);
    lemma_table_find_at(extension_table(), "kt"@, 16);
    lemma_table_find_at(extension_table(), "kts"@, 17);
    lemma_table_find_at(extension_table(), "lua"@, 18);
    lemma_table_find_at(extension_table(), "php"@, 19);
    lemma_table_find_at(extension_table(), "sql"@, 20);
    lemma_table_find_at(extension_table(), "html"@, 21);
    lemma_table_find_at(extension_table(), "htm"@, 22);
    lemma_table_find_at(extension_table(), "css"@, 23);
    lemma_table_find_at(extension_table(), "yaml"@, 24);
    lemma_table_find_at(extension_table(), "yml"@, 25);
    lemma_table_find_at(extension_table(), "json"@, 26);
    lemma_table_find_at(extension_table(), "xml"@, 27);
    lemma_table_find_at(extension_table(), "toml"@, 28);
    lemma_table_find_at(extension_table(), "md"@, 29);
    lemma_table_find_at(extension_table(), "markdown"@, 30);
    lemma_table_find_at(extension_table(), "zsh"@, 31);
    lemma_table_find_at(extension_table(), "fish"@, 32);
    lemma_table_find_at(extension_table(), "ps1"@, 33);
    lemma_table_find_at(extension_table(), "bat"@, 34);
    lemma_table_find_at(extension_table(), "cmd"@, 35);
}

/// Law: each special file name names its language, whatever directory the
/// file lies in.
pub proof fn lemma_special_name_languages()
    ensures
        table_find(special_name_table(), "Dockerfile"@, 0) == Some("dockerfile"@),
        table_find(special_name_table(), "dockerfile"@, 0) == Some("dockerfile"@),
        table_find(special_name_table(), "Makefile"@, 0) == Some("makefile"@),
        table_find(special_name_table(), "makefile"@, 0) == Some("makefile"@),
        table_find(special_name_table(), "GNUmakefile"@, 0) == Some("makefile"@),
        table_find(special_name_table(), "Vagrantfile"@, 0) == Some("ruby"@),
        table_find(special_name_table(), "Rakefile"@, 0) == Some("ruby"@),
        table_find(special_name_table(), "Gemfile"@, 0) == Some("ruby"@),
        table_find(special_name_table(), "Jenkinsfile"@, 0) == Some("groovy"@),
        table_find(special_name_table(), "CMakeLists.txt"@, 0) == Some("cmake"@),
{
    reveal_strlit("Dockerfile");
    reveal_strlit("dockerfile");
    reveal_strlit("Makefile");
    reveal_strlit("makefile");
    reveal_strlit("GNUmakefile");
    reveal_strlit("Vagrantfile");
    reveal_strlit("ruby");
    reveal_strlit("Rakefile");
    reveal_strlit("Gemfile");
    reveal_strlit("Jenkinsfile");
    reveal_strlit("groovy");
    reveal_strlit("CMakeLists.txt");
    reveal_strlit("cmake");
    lemma_table_find_at(special_name_table(), "Dockerfile"@, 0);
    lemma_table_find_at(special_name_table(), "dockerfile"@, 1);
    lemma_table_find_at(special_name_table(), "Makefile"@, 2);
    lemma_table_find_at(special_name_table(), "makefile"@, 3);
    lemma_table_find_at(special_name_table(), "GNUmakefile"@, 4);
    lemma_table_find_at(special_name_table(), "Vagrantfile"@, 5);
    lemma_table_find_at(special_name_table(), "Rakefile"@, 6);
    lemma_table_find_at(special_name_table(), "Gemfile"@, 7);
    lemma_table_find_at(special_name_table(), "Jenkinsfile"@, 8);
    lemma_table_find_at(special_name_table(), "CMakeLists.txt"@, 9);
}

/// Law: the directory a file lies in does not change its detected
/// language, and a file whose name is not one of the special names is
/// detected by its lower-cased extension alone ("text" when it has none or
/// an unknown one).
pub proof fn lemma_detect_language_ignores_directory(dir: Seq<char>, name: Seq<char>)
    requires
        name.len() > 0,
        !name.contains('/'),
        name != "."@,
    ensures
        detect_language_spec(dir + "/"@ + name) == detect_language_spec(name),
        table_find(special_name_table(), name, 0) is None ==> detect_language_spec(name)
            == extension_language(name_extension(name)),
        table_find(special_name_table(), name, 0) matches Some(lang) ==> detect_language_spec(name)
            == lang,
{
    lemma_segments_with_name(dir, name);
    let path = dir + "/"@ + name;
    if name == ".."@ {
        reveal_strlit("..");
        reveal_strlit("");
        assert(file_name_spec(path) is None);
        assert(file_name_spec(name) is None);
        assert(path.last() == '.') by {
            assert(path[path.len() - 1] == name[name.len() - 1]);
        }
        lemma_not_special_when_ending_in_dot(path);
        lemma_not_special_when_ending_in_dot(name);
        assert(name_extension(name) == Some(""@)) by {
            assert(last_index_below(name, '.', 2) == Some(1int));
            assert(name.skip(2) =~= ""@);
        }
    } else {
        assert(named_segments(path).last() == name);
        assert(file_name_spec(path) == Some(name));
        assert(file_name_spec(name) == Some(name));
    }
}

// ---------------------------------------------------------------------------
// Source file checks
// ---------------------------------------------------------------------------

/// Maximum size in bytes of a file imported or synchronized as a script
/// (1 MiB).
pub const MAX_FILE_SIZE: u64 = 1048576;

/// What the filesystem reports about a path.
pub enum FileKind {
    /// Nothing exists at the path.
    Missing,
    /// Something exists but it is not a regular file.
    NotRegular,
    /// A regular file.
    Regular,
}

/// Why a source file cannot be used, if it cannot: missing, not a regular
/// file, or larger than `MAX_FILE_SIZE`, checked in that order.
pub open spec fn file_problem(path: Seq<char>, kind: FileKind, size: u64) -> Option<Seq<char>> {
    match kind {
        FileKind::Missing => Some("file not found: "@ + path),
        FileKind::NotRegular => Some("not a regular file: "@ + path),
        FileKind::Regular => if size > MAX_FILE_SIZE {
            Some("file too large ("@ + nat_digits(size as nat) + " bytes, max 1048576)"@)
        } else {
            None
        },
    }
}

/// Checks what the filesystem reports about a source file before it is
/// read; the error is the message describing the problem.
pub fn check_source_file(path: &str, kind: &FileKind, size: u64) -> (r: Result<(), String>)
    ensures
        match (r, file_problem(path@, *kind, size)) {
            (Ok(()), None) => true,
            (Err(m), Some(p)) => m@ == p,
            _ => false,
        },
{
    match kind {
        FileKind::Missing => {
            let mut m = String::from_str("file not found: ");
            m.append(path);
            Err(m)
        },
        FileKind::NotRegular => {
            let mut m = String::from_str("not a regular file: ");
            m.append(path);
            Err(m)
        },
        FileKind::Regular => {
            if size > MAX_FILE_SIZE {
                let mut m = String::from_str("file too large (");
                append_nat(&mut m, size);
                m.append(" bytes, max 1048576)");
                Err(m)
            } else {
                Ok(())
            }
        },
    }
}

/// Whether a string holds a NUL character.
pub fn has_nul(s: &str) -> (b: bool)
    ensures
        b == s@.contains('\0'),
{
    let cs = chars_of(s);
    let mut i: usize = 0;
    while i < cs.len()
        invariant
            i <= cs@.len(),
            cs@ == s@,
            forall|k: int| 0 <= k < i ==> cs@[k] != '\0',
        decreases cs@.len() - i,
    {
        if cs[i] == '\0' {
            assert(s@[i as int] == '\0');
            return true;
        }
        i = i + 1;
    }
    false
}

/// The text read from a source file is usable unless it holds NUL.
pub fn check_source_text(text: &str) -> (r: Result<(), String>)
    ensures
        r is Ok <==> !text@.contains('\0'),
        r matches Err(m) ==> m@ == "file contains null bytes"@,
{
    if has_nul(text) {
        Err(String::from_str("file contains null bytes"))
    } else {
        Ok(())
    }
}

/// A validation failure of the `path` field.
pub open spec fn is_path_error(e: ServiceError, message: Seq<char>) -> bool {
    e matches ServiceError::Core(CoreError::Validation { field, message: m }) && field@ == "path"@
        && m@ == message
}

fn path_error(message: String) -> (e: ServiceError)
    ensures
        is_path_error(e, message@),
{
    ServiceError::Core(CoreError::Validation { field: String::from_str("path"), message })
}

/// Checks a file about to be imported as a script: the problems of
/// `check_source_file`, reported as validation errors of the path.
pub fn check_import_file(path: &str, kind: &FileKind, size: u64) -> (r: Result<(), ServiceError>)
    ensures
        match (r, file_problem(path@, *kind, size)) {
            (Ok(()), None) => true,
            (Err(e), Some(p)) => is_path_error(e, p),
            _ => false,
        },
{
    match check_source_file(path, kind, size) {
        Ok(()) => Ok(()),
        Err(m) => Err(path_error(m)),
    }
}

/// Whether a text is empty or holds only whitespace.
pub open spec fn is_blank_spec(s: Seq<char>) -> bool {
    forall|i: int| 0 <= i < s.len() ==> is_unicode_whitespace(#[trigger] s[i])
}

/// Whether a text is empty or holds only whitespace.
pub fn is_blank(s: &str) -> (b: bool)
    ensures
        b == is_blank_spec(s@),
{
    let cs = chars_of(s);
    let mut i: usize = 0;
    while i < cs.len()
        invariant
            i <= cs@.len(),
            cs@ == s@,
            forall|k: int| 0 <= k < i ==> is_unicode_whitespace(#[trigger] cs@[k]),
        decreases cs@.len() - i,
    {
        if !is_whitespace(cs[i]) {
            return false;
        }
        i = i + 1;
    }
    true
}

/// The error for a file that is empty or holds only whitespace.
pub open spec fn is_blank_content_error(e: ServiceError) -> bool {
    e matches ServiceError::Core(CoreError::Validation { field, message }) && field@ == "content"@
        && message@ == "content must not be empty or whitespace-only"@
}

/// A script about to be created from an imported file.
pub struct NewScriptDraft {
    pub user_id: i64,
    pub title: String,
    pub content: String,
    pub script_language: String,
    pub source_path: Option<String>,
    pub is_synced: bool,
}

/// The title of an imported file: its file name, or "untitled".
pub open spec fn import_title(path: Seq<char>) -> Seq<char> {
    match file_name_spec(path) {
        Some(n) => n,
        None => "untitled"@,
    }
}

/// Builds the script for an imported file from its text (`None` when the
/// bytes were not valid UTF-8); an empty or whitespace-only text is refused.
/// The title is the file name, the language the
/// given override or else the one detected from the title, and the path is
/// kept as the sync source only for a synced import.
pub fn script_from_file(
    user_id: i64,
    path: &str,
    is_synced: bool,
    language_override: Option<&str>,
    text: Option<String>,
) -> (r: Result<NewScriptDraft, ServiceError>)
    ensures
        match text {
            None => r matches Err(e) && is_path_error(e, "file is not valid UTF-8: "@ + path@),
            Some(t) => if is_blank_spec(t@) {
                r matches Err(e) && is_blank_content_error(e)
            } else if t@.contains('\0') {
                r matches Err(e) && is_path_error(e, "file contains null bytes"@)
            } else {
                r matches Ok(d) && d.user_id == user_id && d.title@ == import_title(path@)
                    && d.content@ == t@ && d.script_language@ == (match language_override {
                    Some(l) => l@,
                    None => detect_language_spec(import_title(path@)),
                }) && d.is_synced == is_synced && (d.source_path matches Some(p) ==> p@
                    == path@) && (d.source_path is Some <==> is_synced)
            },
        },
{
    let content = match text {
        None => {
            let mut m = String::from_str("file is not valid UTF-8: ");
            m.append(path);
            return Err(path_error(m));
        },
        Some(t) => t,
    };
    if is_blank(content.as_str()) {
        return Err(
            ServiceError::Core(
                CoreError::Validation {
                    field: String::from_str("content"),
                    message: String::from_str("content must not be empty or whitespace-only"),
                },
            ),
        );
    }
    if has_nul(content.as_str()) {
        return Err(path_error(String::from_str("file contains null bytes")));
    }
    let title = match path_file_name(path) {
        Some(n) => n,
        None => String::from_str("untitled"),
    };
    let script_language = match language_override {
        Some(l) => String::from_str(l),
        None => detect_language(title.as_str()),
    };
    let source_path = if is_synced {
        Some(String::from_str(path))
    } else {
        None
    };
    Ok(NewScriptDraft { user_id, title, content, script_language, source_path, is_synced })
}

// ---------------------------------------------------------------------------
// Synchronization runs
// ---------------------------------------------------------------------------

/// A synced script as stored: its id, title, content and source file.
pub struct SyncedScript {
    pub id: i64,
    pub title: String,
    pub content: String,
    pub source_path: Option<String>,
}

/// Details about a single script that failed to sync.
pub struct SyncError {
    pub script_id: i64,
    pub title: String,
    pub source_path: String,
    pub message: String,
}

/// Summary of a sync operation across all synced scripts.
pub struct SyncReport {
    pub updated: usize,
    pub unchanged: usize,
    pub errors: Vec<SyncError>,
}

/// What a synchronization step asks for next.
pub enum SyncAction {
    /// The script is done with.
    Done,
    /// Read the script's source file at this path.
    Read(String),
    /// Store the file's content as the script's new content.
    Update,
}

/// The view of a sync error: script id, title, path and message.
pub open spec fn sync_error_view(e: SyncError) -> (i64, Seq<char>, Seq<char>, Seq<char>) {
    (e.script_id, e.title@, e.source_path@, e.message@)
}

/// The views of a list of sync errors.
pub open spec fn sync_errors_view(v: Seq<SyncError>) -> Seq<(i64, Seq<char>, Seq<char>, Seq<char>)> {
    v.map_values(|e: SyncError| sync_error_view(e))
}

impl SyncReport {
    /// How many scripts the report accounts for.
    pub open spec fn tally(&self) -> int {
        self.updated + self.unchanged + self.errors@.len()
    }

    /// Whether another script can be counted without overflow.
    pub open spec fn has_room(&self) -> bool {
        self.tally() < usize::MAX
    }

    /// An empty report.
    pub fn new() -> (r: SyncReport)
        ensures
            r.updated == 0,
            r.unchanged == 0,
            r.errors@.len() == 0,
    {
        SyncReport { updated: 0, unchanged: 0, errors: Vec::new() }
    }

    fn push_error(&mut self, script: &SyncedScript, path: &str, message: String)
        ensures
            sync_errors_view(final(self).errors@) == sync_errors_view(old(self).errors@).push(
                (script.id, script.title@, path@, message@),
            ),
            final(self).errors@.len() == old(self).errors@.len() + 1,
            final(self).updated == old(self).updated,
            final(self).unchanged == old(self).unchanged,
    {
        let e = SyncError {
            script_id: script.id,
            title: String::from_str(script.title.as_str()),
            source_path: String::from_str(path),
            message,
        };
        self.errors.push(e);
        assert(sync_errors_view(self.errors@) =~= sync_errors_view(old(self).errors@).push(
            (script.id, script.title@, path@, message@),
        ));
    }

    /// Starts on a script: one without a source file counts as unchanged and
    /// is done; otherwise its file must be read.
    pub fn begin_script(&mut self, script: &SyncedScript) -> (a: SyncAction)
        requires
            old(self).has_room(),
        ensures
            match script.source_path {
                None => a is Done && final(self).unchanged == old(self).unchanged + 1
                    && final(self).updated == old(self).updated && final(self).errors@
                    == old(self).errors@,
                Some(p) => a matches SyncAction::Read(q) && q@ == p@ && *final(self) == *old(self),
            },
            final(self).tally() == old(self).tally() + (if a is Done {
                1int
            } else {
                0int
            }),
    {
        match &script.source_path {
            None => {
                self.unchanged = self.unchanged + 1;
                SyncAction::Done
            },
            Some(p) => SyncAction::Read(String::from_str(p.as_str())),
        }
    }

    /// Takes the outcome of reading the source file: a failure is recorded
    /// with its message, identical content counts as unchanged, and changed
    /// content is to be stored.
    pub fn after_read(&mut self, script: &SyncedScript, read: Result<String, String>) -> (a:
        SyncAction)
        requires
            old(self).has_room(),
            script.source_path is Some,
        ensures
            match read {
                Err(m) => a is Done && sync_errors_view(final(self).errors@) == sync_errors_view(
                    old(self).errors@,
                ).push((script.id, script.title@, script.source_path->Some_0@, m@))
                    && final(self).updated == old(self).updated && final(self).unchanged
                    == old(self).unchanged,
                Ok(c) => if c@ == script.content@ {
                    a is Done && final(self).unchanged == old(self).unchanged + 1
                        && final(self).updated == old(self).updated && final(self).errors@
                        == old(self).errors@
                } else {
                    a is Update && *final(self) == *old(self)
                },
            },
            final(self).tally() == old(self).tally() + (if a is Done {
                1int
            } else {
                0int
            }),
    {
        let path = match &script.source_path {
            Some(p) => p,
            None => {
                return SyncAction::Done;
            },
        };
        match read {
            Err(m) => {
                self.push_error(script, path.as_str(), m);
                SyncAction::Done
            },
            Ok(c) => {
                if same_text(c.as_str(), script.content.as_str()) {
                    self.unchanged = self.unchanged + 1;
                    SyncAction::Done
                } else {
                    SyncAction::Update
                }
            },
        }
    }

    /// Takes the outcome of storing new content: success counts as updated,
    /// a failure is recorded as "failed to update script: " and its text.
    pub fn after_update(&mut self, script: &SyncedScript, result: Result<(), String>)
        requires
            old(self).has_room(),
            script.source_path is Some,
        ensures
            match result {
                Ok(()) => final(self).updated == old(self).updated + 1 && final(self).unchanged
                    == old(self).unchanged && final(self).errors@ == old(self).errors@,
                Err(e) => sync_errors_view(final(self).errors@) == sync_errors_view(
                    old(self).errors@,
                ).push(
                    (
                        script.id,
                        script.title@,
                        script.source_path->Some_0@,
                        "failed to update script: "@ + e@,
                    ),
                ) && final(self).updated == old(self).updated && final(self).unchanged
                    == old(self).unchanged,
            },
            final(self).tally() == old(self).tally() + 1,
    {
        let path = match &script.source_path {
            Some(p) => p,
            None => {
                return;
            },
        };
        match result {
            Ok(()) => {
                self.updated = self.updated + 1;
            },
            Err(e) => {
                let mut m = String::from_str("failed to update script: ");
                m.append(e.as_str());
                self.push_error(script, path.as_str(), m);
            },
        }
    }
}

} // verus!
