//! Markdown bundles: each prompt is a Markdown file whose YAML front-matter
//! (between `---` lines) carries the metadata and whose body is the prompt
//! content. This module splits a file into front-matter text and body,
//! lays out exported files, and bounds the size of imports.
use vstd::prelude::*;
use vstd::string::StringExecFns;
use crate::errors::ServiceError;
use crate::text::{
    append_usize, chars_of, copy_range, eq_pred, lemma_leading_count, leading_count, nat_digits, strip_start,
    string_from_chars, ws_pred, is_whitespace, is_unicode_whitespace,
};
use crate::files::{extension_spec, path_extension, same_text};

verus! {

/// Every "\r\n" replaced by "\n", scanning left to right.
pub open spec fn crlf_to_lf(s: Seq<char>) -> Seq<char>
    decreases s.len(),
{
    if s.len() == 0 {
        Seq::empty()
    } else if s.len() >= 2 && s[0] == '\r' && s[1] == '\n' {
        seq!['\n'] + crlf_to_lf(s.skip(2))
    } else {
        seq![s[0]] + crlf_to_lf(s.skip(1))
    }
}

/// Every remaining '\r' replaced by '\n'.
pub open spec fn cr_to_lf(s: Seq<char>) -> Seq<char> {
    Seq::new(s.len(), |i: int| if s[i] == '\r' { '\n' } else { s[i] })
}

/// Line endings normalized to "\n": first "\r\n", then lone '\r'.
pub open spec fn normalize_newlines(s: Seq<char>) -> Seq<char> {
    cr_to_lf(crlf_to_lf(s))
}

/// The first index at or after `i` where `p` occurs in `s`.
pub open spec fn find_from(s: Seq<char>, p: Seq<char>, i: int) -> Option<int>
    decreases s.len() + 1 - i,
{
    if i < 0 || i + p.len() > s.len() {
        None
    } else if s.subrange(i, i + p.len()) == p {
        Some(i)
    } else {
        find_from(s, p, i + 1)
    }
}

/// How a front-matter file splits, or why it does not.
pub open spec fn frontmatter_split(raw: Seq<char>) -> Result<(Seq<char>, Seq<char>), Seq<char>> {
    let trimmed = strip_start(normalize_newlines(raw), ws_pred());
    if !(trimmed.len() >= 3 && trimmed.take(3) == "---"@) {
        Err("Markdown file missing YAML front-matter delimiter"@)
    } else {
        let after = trimmed.skip(3);
        match find_from(after, "\n---"@, 0) {
            None => Err("Markdown file missing closing front-matter delimiter"@),
            Some(k) => Ok((after.take(k), strip_start(after.skip(k + 4), eq_pred('\n')))),
        }
    }
}

fn normalize(s: &[char]) -> (r: Vec<char>)
    ensures
        r@ == normalize_newlines(s@),
{
    let mut a: Vec<char> = Vec::new();
    let mut i: usize = 0;
    assert(s@.skip(0) =~= s@);
    assert(a@ + crlf_to_lf(s@.skip(0)) =~= crlf_to_lf(s@));
    while i < s.len()
        invariant
            i <= s@.len(),
            a@ + crlf_to_lf(s@.skip(i as int)) == crlf_to_lf(s@),
        decreases s@.len() - i,
    {
        let ghost rest = s@.skip(i as int);
        if s[i] == '\r' && i + 1 < s.len() && s[i + 1] == '\n' {
            proof {
                assert(rest.skip(2) =~= s@.skip(i + 2));
                assert(crlf_to_lf(rest) == seq!['\n'] + crlf_to_lf(rest.skip(2)));
            }
            a.push('\n');
            assert(a@ + crlf_to_lf(s@.skip(i + 2)) =~= crlf_to_lf(s@));
            i = i + 2;
        } else {
            proof {
                assert(rest.skip(1) =~= s@.skip(i + 1));
                assert(crlf_to_lf(rest) == seq![s@[i as int]] + crlf_to_lf(rest.skip(1)));
            }
            a.push(s[i]);
            assert(a@ + crlf_to_lf(s@.skip(i + 1)) =~= crlf_to_lf(s@));
            i = i + 1;
        }
    }
    assert(s@.skip(s@.len() as int) =~= Seq::<char>::empty());
    assert(a@ =~= crlf_to_lf(s@));
    let mut r: Vec<char> = Vec::new();
    let mut j: usize = 0;
    while j < a.len()
        invariant
            j <= a@.len(),
            r@ == cr_to_lf(a@).take(j as int),
        decreases a@.len() - j,
    {
        if a[j] == '\r' {
            r.push('\n');
        } else {
            r.push(a[j]);
        }
        j = j + 1;
        assert(r@ =~= cr_to_lf(a@).take(j as int));
    }
    assert(cr_to_lf(a@).take(a@.len() as int) =~= cr_to_lf(a@));
    r
}

fn find_closing(s: &[char]) -> (r: Option<usize>)
    ensures
        match r {
            Some(k) => find_from(s@, "\n---"@, 0) == Some(k as int),
            None => find_from(s@, "\n---"@, 0) is None,
        },
{
    proof {
        reveal_strlit("\n---");
    }
    let ghost p = "\n---"@;
    let mut i: usize = 0;
    while i < s.len() && s.len() - i >= 4
        invariant
            p == "\n---"@,
            p.len() == 4,
            find_from(s@, p, 0) == find_from(s@, p, i as int),
        decreases s@.len() - i,
    {
        proof {
            reveal_strlit("\n---");
        }
        if s[i] == '\n' && s[i + 1] == '-' && s[i + 2] == '-' && s[i + 3] == '-' {
            assert(s@.subrange(i as int, i + 4) =~= p);
            return Some(i);
        }
        assert(s@.subrange(i as int, i + 4) != p) by {
            if s@.subrange(i as int, i + 4) == p {
                assert(s@.subrange(i as int, i + 4)[0] == s@[i as int]);
                assert(s@.subrange(i as int, i + 4)[1] == s@[i + 1]);
                assert(s@.subrange(i as int, i + 4)[2] == s@[i + 2]);
                assert(s@.subrange(i as int, i + 4)[3] == s@[i + 3]);
            }
        }
        i = i + 1;
    }
    None
}

fn skippable(x: char, ws: bool, c: char) -> (b: bool)
    ensures
        b == (if ws {
            is_unicode_whitespace(x)
        } else {
            x == c
        }),
{
    if ws {
        is_whitespace(x)
    } else {
        x == c
    }
}

fn skip_leading(s: &[char], from: usize, ws: bool, c: char) -> (k: usize)
    requires
        from <= s@.len(),
    ensures
        from <= k <= s@.len(),
        ws ==> k - from == crate::text::leading_count(s@.skip(from as int), ws_pred()),
        !ws ==> k - from == crate::text::leading_count(s@.skip(from as int), eq_pred(c)),
{
    let mut i = from;
    while i < s.len() && skippable(s[i], ws, c)
        invariant
            from <= i <= s@.len(),
            forall|j: int|
                from <= j < i ==> (if ws {
                    is_unicode_whitespace(#[trigger] s@[j])
                } else {
                    s@[j] == c
                }),
        decreases s@.len() - i,
    {
        i = i + 1;
    }
    proof {
        let t = s@.skip(from as int);
        if ws {
            assert forall|j: int| 0 <= j < i - from implies (ws_pred())(#[trigger] t[j]) by {
                assert(t[j] == s@[j + from]);
            }
            if i < s@.len() {
                assert(t[i - from] == s@[i as int]);
            }
            lemma_leading_count(t, ws_pred(), i - from);
        } else {
            assert forall|j: int| 0 <= j < i - from implies (eq_pred(c))(#[trigger] t[j]) by {
                assert(t[j] == s@[j + from]);
            }
            if i < s@.len() {
                assert(t[i - from] == s@[i as int]);
            }
            lemma_leading_count(t, eq_pred(c), i - from);
        }
    }
    i
}

/// Splits a Markdown file into its YAML front-matter text and its body.
/// Line endings are normalized to "\n" first; leading whitespace is
/// skipped; the file must then start with `---`, and the front-matter ends
/// at the first "\n---" after it. The body is what follows that closing
/// delimiter, without leading newlines.
pub fn split_markdown_frontmatter(raw: &str) -> (r: Result<(String, String), ServiceError>)
    ensures
        match (r, frontmatter_split(raw@)) {
            (Ok((y, b)), Ok((ys, bs))) => y@ == ys && b@ == bs,
            (Err(ServiceError::SerializationError(m)), Err(ms)) => m@ == ms,
            _ => false,
        },
{
    proof {
        reveal_strlit("---");
        reveal_strlit("\n---");
    }
    let cs = chars_of(raw);
    let n = normalize(cs.as_slice());
    let start = skip_leading(n.as_slice(), 0, true, ' ');
    let ghost trimmed = strip_start(n@, ws_pred());
    assert(n@.skip(0) =~= n@);
    assert(trimmed =~= n@.skip(start as int));
    if !(n.len() - start >= 3 && n[start] == '-' && n[start + 1] == '-' && n[start + 2] == '-') {
        assert(!(trimmed.len() >= 3 && trimmed.take(3) == "---"@)) by {
            if trimmed.len() >= 3 && trimmed.take(3) == "---"@ {
                assert(trimmed.take(3)[0] == n@[start as int]);
                assert(trimmed.take(3)[1] == n@[start + 1]);
                assert(trimmed.take(3)[2] == n@[start + 2]);
            }
        }
        return Err(ServiceError::SerializationError(String::from_str("Markdown file missing YAML front-matter delimiter")));
    }
    assert(trimmed.take(3) =~= "---"@);
    let after = copy_range(n.as_slice(), start + 3, n.len());
    assert(after@ =~= trimmed.skip(3));
    match find_closing(after.as_slice()) {
        None => Err(ServiceError::SerializationError(String::from_str("Markdown file missing closing front-matter delimiter"))),
        Some(k) => {
            proof {
                lemma_find_from_bounds(after@, "\n---"@, 0);
            }
            let yaml = copy_range(after.as_slice(), 0, k);
            let b = skip_leading(after.as_slice(), k + 4, false, '\n');
            let body = copy_range(after.as_slice(), b, after.len());
            assert(yaml@ =~= after@.take(k as int));
            assert(body@ =~= strip_start(after@.skip(k + 4), eq_pred('\n')));
            Ok((string_from_chars(yaml.as_slice()), string_from_chars(body.as_slice())))
        },
    }
}

proof fn lemma_find_from_bounds(s: Seq<char>, p: Seq<char>, i: int)
    ensures
        find_from(s, p, i) matches Some(k) ==> i <= k && k + p.len() <= s.len(),
    decreases s.len() + 1 - i,
{
    if !(i < 0 || i + p.len() > s.len()) && s.subrange(i, i + p.len()) != p {
        lemma_find_from_bounds(s, p, i + 1);
    }
}

/// The three-digit, zero-padded decimal rendering used in file names.
pub open spec fn pad3(n: nat) -> Seq<char> {
    let d = nat_digits(n);
    if d.len() >= 3 {
        d
    } else if d.len() == 2 {
        seq!['0'] + d
    } else {
        seq!['0', '0'] + d
    }
}

/// The file name of the `idx`-th exported prompt (counting from 0):
/// "prompt_001.md", "prompt_002.md", ...
pub fn export_file_name(idx: usize) -> (s: String)
    requires
        idx < usize::MAX,
    ensures
        s@ == "prompt_"@ + pad3((idx + 1) as nat) + ".md"@,
{
    let n = idx + 1;
    let mut s = String::from_str("prompt_");
    if n < 10 {
        s.append("00");
    } else if n < 100 {
        s.append("0");
    }
    proof {
        reveal_strlit("00");
        reveal_strlit("0");
        lemma_digits_len(n as nat);
    }
    append_usize(&mut s, n);
    s.append(".md");
    proof {
        let d = nat_digits(n as nat);
        if n < 10 {
            assert("00"@ =~= seq!['0', '0']);
        } else if n < 100 {
            assert("0"@ =~= seq!['0']);
        }
    }
    assert(s@ =~= "prompt_"@ + pad3(n as nat) + ".md"@);
    s
}

proof fn lemma_digits_len(n: nat)
    ensures
        n < 10 ==> nat_digits(n).len() == 1,
        10 <= n < 100 ==> nat_digits(n).len() == 2,
        n >= 100 ==> nat_digits(n).len() >= 3,
    decreases n,
{
    if n >= 10 {
        lemma_digits_len(n / 10);
    }
}

/// The text of an exported prompt file: front-matter between `---` lines,
/// an empty line, then the content.
pub fn markdown_file_content(yaml: &str, content: &str) -> (s: String)
    ensures
        s@ == markdown_file_spec(yaml@, content@),
{
    let mut s = String::from_str("---\n");
    s.append(yaml);
    s.append("---\n\n");
    s.append(content);
    s
}

/// The text of an exported Markdown file: the front-matter between `---`
/// lines, an empty line, then the body.
pub open spec fn markdown_file_spec(yaml: Seq<char>, content: Seq<char>) -> Seq<char> {
    "---\n"@ + yaml + "---\n\n"@ + content
}

proof fn lemma_leading_count_bound(s: Seq<char>, p: spec_fn(char) -> bool)
    ensures
        leading_count(s, p) <= s.len(),
    decreases s.len(),
{
    if s.len() > 0 {
        lemma_leading_count_bound(s.drop_first(), p);
    }
}

proof fn lemma_crlf_identity(s: Seq<char>)
    requires
        !s.contains('\r'),
    ensures
        crlf_to_lf(s) == s,
    decreases s.len(),
{
    if s.len() > 0 {
        assert(s[0] != '\r');
        let t = s.skip(1);
        assert(!t.contains('\r')) by {
            if t.contains('\r') {
                let i = choose|i: int| 0 <= i < t.len() && t[i] == '\r';
                assert(s[i + 1] == '\r');
            }
        }
        lemma_crlf_identity(t);
        assert(seq![s[0]] + t =~= s);
    }
}

proof fn lemma_normalize_identity(s: Seq<char>)
    requires
        !s.contains('\r'),
    ensures
        normalize_newlines(s) == s,
{
    lemma_crlf_identity(s);
    assert forall|i: int| 0 <= i < s.len() implies s[i] != '\r' by {
        if s[i] == '\r' {
            assert(s.contains('\r'));
        }
    }
    assert(cr_to_lf(s) =~= s);
}

proof fn lemma_find_from_absent(s: Seq<char>, p: Seq<char>, j: int, i: int)
    requires
        find_from(s, p, j) is None,
        0 <= j <= i,
        i + p.len() <= s.len(),
    ensures
        s.subrange(i, i + p.len()) != p,
    decreases i - j,
{
    if s.subrange(j, j + p.len()) != p && j < i {
        lemma_find_from_absent(s, p, j + 1, i);
    }
}

proof fn lemma_find_from_first(s: Seq<char>, p: Seq<char>, j: int, k: int)
    requires
        0 <= j <= k,
        k + p.len() <= s.len(),
        s.subrange(k, k + p.len()) == p,
        forall|i: int| j <= i < k ==> #[trigger] s.subrange(i, i + p.len()) != p,
    ensures
        find_from(s, p, j) == Some(k),
    decreases k - j,
{
    if j < k {
        lemma_find_from_first(s, p, j + 1, k);
    }
}

/// Law (export, then import): a Markdown file written from front-matter
/// text and a body splits back into that front-matter and body, when the
/// front-matter ends in a line break, none of its lines starts with "---",
/// and neither holds a carriage return. The front-matter comes back behind
/// the opening line break and without its final one, the body without
/// leading line breaks.
pub proof fn lemma_markdown_round_trip(yaml: Seq<char>, body: Seq<char>)
    requires
        yaml.len() > 0,
        yaml.last() == '\n',
        find_from("\n"@ + yaml, "\n---"@, 0) is None,
        !yaml.contains('\r'),
        !body.contains('\r'),
    ensures
        frontmatter_split(markdown_file_spec(yaml, body)) == Ok::<(Seq<char>, Seq<char>), Seq<char>>(
            ("\n"@ + yaml.drop_last(), strip_start(body, eq_pred('\n'))),
        ),
{
    reveal_strlit("---\n");
    reveal_strlit("---\n\n");
    reveal_strlit("\n");
    reveal_strlit("\n---");
    reveal_strlit("---");
    reveal_strlit("\n\n");
    let f = markdown_file_spec(yaml, body);
    let n = yaml.len() as int;
    assert(!f.contains('\r')) by {
        if f.contains('\r') {
            let i = choose|i: int| 0 <= i < f.len() && f[i] == '\r';
            if 4 <= i < 4 + n {
                assert(yaml[i - 4] == '\r');
                assert(yaml.contains('\r'));
            } else if i >= 4 + n + 5 {
                assert(body[i - 4 - n - 5] == '\r');
                assert(body.contains('\r'));
            }
        }
    }
    lemma_normalize_identity(f);
    assert(!is_unicode_whitespace(f[0]));
    lemma_leading_count(f, ws_pred(), 0);
    assert(strip_start(f, ws_pred()) =~= f);
    assert(f.take(3) =~= "---"@);
    let after = f.skip(3);
    let a = "\n"@ + yaml;
    let p = "\n---"@;
    assert(after =~= a + ("---\n\n"@ + body));
    assert forall|i: int| 0 <= i < n implies #[trigger] after.subrange(i, i + p.len()) != p by {
        if i + 4 <= a.len() {
            lemma_find_from_absent(a, p, 0, i);
            assert(after.subrange(i, i + 4) =~= a.subrange(i, i + 4));
        } else {
            assert(after[n] == '\n');
            assert(after.subrange(i, i + 4)[n - i] == after[n]);
            assert(p[n - i] == '-');
        }
    }
    assert(after.subrange(n, n + 4) =~= p);
    lemma_find_from_first(after, p, 0, n);
    assert(after.take(n) =~= "\n"@ + yaml.drop_last());
    let rest = after.skip(n + 4);
    assert(rest =~= "\n\n"@ + body);
    assert(rest.drop_first().drop_first() =~= body);
    assert((eq_pred('\n'))(rest[0]));
    assert((eq_pred('\n'))(rest.drop_first()[0]));
    assert(leading_count(rest.drop_first(), eq_pred('\n')) == 1 + leading_count(body, eq_pred('\n')));
    assert(leading_count(rest, eq_pred('\n')) == 2 + leading_count(body, eq_pred('\n')));
    lemma_leading_count_bound(body, eq_pred('\n'));
    let lc = leading_count(body, eq_pred('\n')) as int;
    assert(rest.skip(2 + lc) =~= body.skip(lc));
    assert(strip_start(rest, eq_pred('\n')) =~= strip_start(body, eq_pred('\n')));
}

/// Maximum allowed size in bytes of a single import file (50 MiB).
pub const MAX_IMPORT_SIZE: u64 = 52428800;

/// Maximum number of Markdown files in one import directory.
pub const MAX_IMPORT_FILES: usize = 10000;

/// An import file must not exceed `MAX_IMPORT_SIZE` bytes.
pub fn check_import_size(len: u64) -> (r: Result<(), ServiceError>)
    ensures
        r is Ok <==> len <= MAX_IMPORT_SIZE,
        r matches Err(e) ==> (e matches ServiceError::IoError(m) && m@
            == "import file exceeds maximum allowed size of 52428800 bytes"@),
{
    if len > MAX_IMPORT_SIZE {
        Err(ServiceError::IoError(String::from_str("import file exceeds maximum allowed size of 52428800 bytes")))
    } else {
        Ok(())
    }
}

/// An import directory must not hold more than `MAX_IMPORT_FILES` Markdown
/// files.
pub fn check_import_file_count(count: usize) -> (r: Result<(), ServiceError>)
    ensures
        r is Ok <==> count <= MAX_IMPORT_FILES,
        r matches Err(e) ==> (e matches ServiceError::IoError(m) && m@ == "import directory contains "@
            + nat_digits(count as nat) + " files, exceeding maximum of 10000"@),
{
    if count > MAX_IMPORT_FILES {
        let mut m = String::from_str("import directory contains ");
        append_usize(&mut m, count);
        m.append(" files, exceeding maximum of 10000");
        Err(ServiceError::IoError(m))
    } else {
        Ok(())
    }
}

/// Whether a directory entry is a Markdown file: its path has the
/// extension "md".
pub fn is_markdown_file_name(path: &str) -> (b: bool)
    ensures
        b == (extension_spec(path@) == Some("md"@)),
{
    match path_extension(path) {
        Some(e) => same_text(e.as_str(), "md"),
        None => false,
    }
}

} // verus!
