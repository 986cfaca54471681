//! Post-processing of the replies of the local language model: the plain
//! text answers of the metadata sub-calls become a description, a language
//! code, notes, tag and category suggestions, and the five answers together
//! become one `DerivedMetadata`.
use vstd::prelude::*;
use vstd::string::StringExecFns;
use crate::errors::ServiceError;
use crate::text::{chars_of, string_from_chars, trim, trim_char, trim_spec, trim_char_spec};

verus! {

/// Structured metadata derived from prompt content by individual model calls.
pub struct DerivedMetadata {
    pub description: String,
    pub language: String,
    pub notes: String,
    pub suggested_tags: Vec<String>,
    pub suggested_categories: Vec<String>,
    /// Names of sub-calls that failed (empty on full success).
    pub errors: Vec<String>,
}

/// The pieces of `s` between occurrences of `sep` (`str::split` with a
/// single character): always at least one piece.
pub open spec fn split_char(s: Seq<char>, sep: char) -> Seq<Seq<char>>
    decreases s.len(),
{
    if s.len() == 0 {
        seq![Seq::<char>::empty()]
    } else {
        let r = split_char(s.drop_last(), sep);
        if s.last() == sep {
            r.push(Seq::<char>::empty())
        } else {
            r.update(r.len() - 1, r.last().push(s.last()))
        }
    }
}

/// A reply stripped of surrounding whitespace and then of surrounding
/// double quotes.
pub open spec fn clean_reply_spec(s: Seq<char>) -> Seq<char> {
    trim_char_spec(trim_spec(s), '"')
}

/// The cleaned, non-empty pieces of a comma-separated list, in order.
pub open spec fn nonempty_cleaned(pieces: Seq<Seq<char>>) -> Seq<Seq<char>>
    decreases pieces.len(),
{
    if pieces.len() == 0 {
        Seq::empty()
    } else {
        let r = nonempty_cleaned(pieces.drop_last());
        let c = clean_reply_spec(pieces.last());
        if c.len() == 0 {
            r
        } else {
            r.push(c)
        }
    }
}

/// At most `max_items` of the cleaned, non-empty comma-separated items.
pub open spec fn comma_list_spec(s: Seq<char>, max_items: nat) -> Seq<Seq<char>> {
    let all = nonempty_cleaned(split_char(s, ','));
    if all.len() <= max_items {
        all
    } else {
        all.take(max_items as int)
    }
}

pub proof fn lemma_split_nonempty(s: Seq<char>, sep: char)
    ensures
        split_char(s, sep).len() >= 1,
    decreases s.len(),
{
    if s.len() > 0 {
        lemma_split_nonempty(s.drop_last(), sep);
    }
}

/// A text without the separator is a single piece.
pub proof fn lemma_split_without_separator(s: Seq<char>, sep: char)
    requires
        !s.contains(sep),
    ensures
        split_char(s, sep) == seq![s],
    decreases s.len(),
{
    if s.len() == 0 {
        assert(s =~= Seq::<char>::empty());
    } else {
        let d = s.drop_last();
        assert(!d.contains(sep)) by {
            if d.contains(sep) {
                let i = choose|i: int| 0 <= i < d.len() && d[i] == sep;
                assert(s[i] == sep);
            }
        }
        lemma_split_without_separator(d, sep);
        assert(s.last() != sep) by {
            assert(s[s.len() - 1] == s.last());
        }
        assert(d.push(s.last()) =~= s);
        assert(seq![d].update(0, d.push(s.last())) =~= seq![s]);
    }
}

/// Splits at every `sep`; the result holds the pieces' characters.
pub fn split_pieces(s: &[char], sep: char) -> (r: Vec<Vec<char>>)
    ensures
        r@.len() == split_char(s@, sep).len(),
        forall|k: int| 0 <= k < r@.len() ==> (#[trigger] r@[k])@ == split_char(s@, sep)[k],
{
    let mut done: Vec<Vec<char>> = Vec::new();
    let mut cur: Vec<char> = Vec::new();
    let mut i: usize = 0;
    while i < s.len()
        invariant
            i <= s@.len(),
            done@.len() + 1 == split_char(s@.take(i as int), sep).len(),
            forall|k: int|
                0 <= k < done@.len() ==> (#[trigger] done@[k])@ == split_char(
                    s@.take(i as int),
                    sep,
                )[k],
            cur@ == split_char(s@.take(i as int), sep).last(),
        decreases s@.len() - i,
    {
        let c = s[i];
        proof {
            lemma_split_nonempty(s@.take(i as int), sep);
            assert(s@.take(i + 1).drop_last() =~= s@.take(i as int));
        }
        if c == sep {
            done.push(cur);
            cur = Vec::new();
        } else {
            cur.push(c);
        }
        i = i + 1;
    }
    assert(s@.take(s@.len() as int) =~= s@);
    done.push(cur);
    done
}

/// Strips surrounding whitespace, then surrounding double quotes.
pub fn clean_reply(raw: &str) -> (r: String)
    ensures
        r@ == clean_reply_spec(raw@),
{
    let cs = chars_of(raw);
    let t = trim(cs.as_slice());
    let u = trim_char(t.as_slice(), '"');
    string_from_chars(u.as_slice())
}

/// Parses a comma-separated response into a list of trimmed, non-empty
/// strings, keeping at most `max_items` of them.
pub fn parse_comma_list(response: &str, max_items: usize) -> (r: Vec<String>)
    ensures
        r@.len() == comma_list_spec(response@, max_items as nat).len(),
        forall|k: int|
            0 <= k < r@.len() ==> (#[trigger] r@[k])@ == comma_list_spec(
                response@,
                max_items as nat,
            )[k],
{
    let cs = chars_of(response);
    let pieces = split_pieces(cs.as_slice(), ',');
    let ghost ps = split_char(response@, ',');
    let mut out: Vec<String> = Vec::new();
    let mut i: usize = 0;
    while i < pieces.len() && out.len() < max_items
        invariant
            i <= pieces@.len(),
            pieces@.len() == ps.len(),
            forall|k: int| 0 <= k < pieces@.len() ==> (#[trigger] pieces@[k])@ == ps[k],
            out@.len() == nonempty_cleaned(ps.take(i as int)).len(),
            out@.len() <= max_items,
            forall|k: int|
                0 <= k < out@.len() ==> (#[trigger] out@[k])@ == nonempty_cleaned(
                    ps.take(i as int),
                )[k],
        decreases pieces@.len() - i,
    {
        let t = trim(pieces[i].as_slice());
        let u = trim_char(t.as_slice(), '"');
        proof {
            assert(ps.take(i + 1).drop_last() =~= ps.take(i as int));
        }
        if u.len() > 0 {
            out.push(string_from_chars(u.as_slice()));
        }
        i = i + 1;
    }
    proof {
        lemma_nonempty_cleaned_prefix(ps, i as int);
        if i == pieces@.len() {
            assert(ps.take(i as int) =~= ps);
        }
    }
    out
}

/// The cleaned list of a longer prefix extends that of a shorter one.
pub proof fn lemma_nonempty_cleaned_prefix(ps: Seq<Seq<char>>, i: int)
    requires
        0 <= i <= ps.len(),
    ensures
        nonempty_cleaned(ps.take(i)).len() <= nonempty_cleaned(ps).len(),
        forall|k: int|
            0 <= k < nonempty_cleaned(ps.take(i)).len() ==> #[trigger] nonempty_cleaned(
                ps.take(i),
            )[k] == nonempty_cleaned(ps)[k],
    decreases ps.len() - i,
{
    if i < ps.len() {
        lemma_nonempty_cleaned_prefix(ps, i + 1);
        assert(ps.take(i + 1).drop_last() =~= ps.take(i));
        let a = nonempty_cleaned(ps.take(i));
        let b = nonempty_cleaned(ps.take(i + 1));
        assert(b.len() >= a.len());
        assert forall|k: int| 0 <= k < a.len() implies #[trigger] a[k] == nonempty_cleaned(ps)[k] by {
            assert(a[k] == b[k]);
        }
    } else {
        assert(ps.take(i) =~= ps);
    }
}

/// `str::to_lowercase` (Unicode case mapping) on a character sequence.
pub uninterp spec fn unicode_lowercase(s: Seq<char>) -> Seq<char>;

/// `str::to_lowercase` from std: the Unicode lowercase mapping of the string;
/// the result depends on the argument alone.
#[verifier::external_body]
pub(crate) fn to_lowercase(s: &str) -> (r: String)
    ensures
        r@ == unicode_lowercase(s@),
{
    s.to_lowercase()
}

/// Exactly two ASCII lowercase letters.
pub open spec fn is_two_letter_code(s: Seq<char>) -> bool {
    s.len() == 2 && forall|i: int| 0 <= i < 2 ==> 'a' <= #[trigger] s[i] && s[i] <= 'z'
}

/// The language code a model reply stands for: the cleaned, lowercased
/// reply when that is a two-letter code, otherwise "en".
pub open spec fn language_code_spec(raw: Seq<char>) -> Seq<char> {
    let code = unicode_lowercase(clean_reply_spec(raw));
    if is_two_letter_code(code) {
        code
    } else {
        "en"@
    }
}

/// Law: the derived language is always a two-letter lowercase code.
pub proof fn lemma_language_code_is_two_letters(raw: Seq<char>)
    ensures
        is_two_letter_code(language_code_spec(raw)),
{
    reveal_strlit("en");
    assert("en"@[0] == 'e' && "en"@[1] == 'n');
}

/// Turns the model's reply to the language question into an ISO 639-1
/// code, falling back to "en" when the reply is not two lowercase letters.
pub fn language_code_from_reply(raw: &str) -> (r: String)
    ensures
        r@ == language_code_spec(raw@),
{
    let cleaned = clean_reply(raw);
    let code = to_lowercase(cleaned.as_str());
    let cs = chars_of(code.as_str());
    if cs.len() == 2 && cs[0] >= 'a' && cs[0] <= 'z' && cs[1] >= 'a' && cs[1] <= 'z' {
        code
    } else {
        String::from_str("en")
    }
}

/// Maximum number of tag suggestions kept from a reply.
pub const MAX_SUGGESTED_TAGS: usize = 4;

/// Maximum number of category suggestions kept from a reply.
pub const MAX_SUGGESTED_CATEGORIES: usize = 3;

/// The views of a vector of strings.
pub open spec fn string_views(v: Seq<String>) -> Seq<Seq<char>> {
    Seq::new(v.len(), |i: int| v[i]@)
}

/// The error entry recorded for a failed sub-call.
pub open spec fn error_entry(name: Seq<char>, e: Seq<char>) -> Seq<char> {
    name + ": "@ + e
}

/// The error entries of the failed sub-calls, in the order description,
/// language, notes, tags, categories.
pub open spec fn metadata_errors(
    description: Result<String, String>,
    language: Result<String, String>,
    notes: Result<String, String>,
    tags: Result<String, String>,
    categories: Result<String, String>,
) -> Seq<Seq<char>> {
    let e1 = if description is Err { seq![error_entry("description"@, description->Err_0@)] } else { Seq::empty() };
    let e2 = if language is Err { seq![error_entry("language"@, language->Err_0@)] } else { Seq::empty() };
    let e3 = if notes is Err { seq![error_entry("notes"@, notes->Err_0@)] } else { Seq::empty() };
    let e4 = if tags is Err { seq![error_entry("tags"@, tags->Err_0@)] } else { Seq::empty() };
    let e5 = if categories is Err { seq![error_entry("categories"@, categories->Err_0@)] } else { Seq::empty() };
    e1 + e2 + e3 + e4 + e5
}

fn push_error(errors: &mut Vec<String>, name: &str, e: &String)
    ensures
        string_views(final(errors)@) == string_views(old(errors)@).push(error_entry(name@, e@)),
{
    let mut s = String::from_str(name);
    s.append(": ");
    s.append(e.as_str());
    errors.push(s);
    assert(string_views(final(errors)@) =~= string_views(old(errors)@).push(error_entry(name@, e@)));
}

/// Combines the raw replies of the five metadata sub-calls (`Err` holds the
/// text of a failed call) into the derived metadata. A failed call leaves
/// its default value ("" for description and notes, "en" for the language,
/// no tags or categories) and an entry "<name>: <error>" in `errors`; when
/// all five failed the model server is taken to be unreachable.
pub fn metadata_from_replies(
    description: Result<String, String>,
    language: Result<String, String>,
    notes: Result<String, String>,
    tags: Result<String, String>,
    categories: Result<String, String>,
) -> (r: Result<DerivedMetadata, ServiceError>)
    ensures
        (description is Err && language is Err && notes is Err && tags is Err
            && categories is Err) <==> r is Err,
        match r {
            Err(ServiceError::OllamaUnavailable(m)) => m@ == "All metadata derivation calls failed"@,
            Err(_) => false,
            Ok(m) => {
                &&& m.description@ == (match description {
                    Ok(raw) => clean_reply_spec(raw@),
                    Err(_) => Seq::<char>::empty(),
                })
                &&& m.language@ == (match language {
                    Ok(raw) => language_code_spec(raw@),
                    Err(_) => "en"@,
                })
                &&& m.notes@ == (match notes {
                    Ok(raw) => clean_reply_spec(raw@),
                    Err(_) => Seq::<char>::empty(),
                })
                &&& string_views(m.suggested_tags@) == (match tags {
                    Ok(raw) => comma_list_spec(raw@, MAX_SUGGESTED_TAGS as nat),
                    Err(_) => Seq::<Seq<char>>::empty(),
                })
                &&& string_views(m.suggested_categories@) == (match categories {
                    Ok(raw) => comma_list_spec(raw@, MAX_SUGGESTED_CATEGORIES as nat),
                    Err(_) => Seq::<Seq<char>>::empty(),
                })
                &&& string_views(m.errors@) == metadata_errors(
                    description,
                    language,
                    notes,
                    tags,
                    categories,
                )
            },
        },
{
    let mut errors: Vec<String> = Vec::new();
    let ghost e0 = string_views(errors@);
    assert(e0 =~= Seq::<Seq<char>>::empty());
    let description_v = match &description {
        Ok(raw) => clean_reply(raw.as_str()),
        Err(e) => {
            push_error(&mut errors, "description", e);
            String::new()
        },
    };
    let language_v = match &language {
        Ok(raw) => language_code_from_reply(raw.as_str()),
        Err(e) => {
            push_error(&mut errors, "language", e);
            String::from_str("en")
        },
    };
    let notes_v = match &notes {
        Ok(raw) => clean_reply(raw.as_str()),
        Err(e) => {
            push_error(&mut errors, "notes", e);
            String::new()
        },
    };
    let tags_v = match &tags {
        Ok(raw) => parse_comma_list(raw.as_str(), MAX_SUGGESTED_TAGS),
        Err(e) => {
            push_error(&mut errors, "tags", e);
            Vec::new()
        },
    };
    let categories_v = match &categories {
        Ok(raw) => parse_comma_list(raw.as_str(), MAX_SUGGESTED_CATEGORIES),
        Err(e) => {
            push_error(&mut errors, "categories", e);
            Vec::new()
        },
    };
    assert(string_views(errors@) =~= metadata_errors(
        description,
        language,
        notes,
        tags,
        categories,
    ));
    if errors.len() == 5 {
        return Err(ServiceError::OllamaUnavailable(String::from_str("All metadata derivation calls failed")));
    }
    assert(string_views(tags_v@) =~= (match tags {
        Ok(raw) => comma_list_spec(raw@, MAX_SUGGESTED_TAGS as nat),
        Err(_) => Seq::<Seq<char>>::empty(),
    }));
    assert(string_views(categories_v@) =~= (match categories {
        Ok(raw) => comma_list_spec(raw@, MAX_SUGGESTED_CATEGORIES as nat),
        Err(_) => Seq::<Seq<char>>::empty(),
    }));
    Ok(
        DerivedMetadata {
            description: description_v,
            language: language_v,
            notes: notes_v,
            suggested_tags: tags_v,
            suggested_categories: categories_v,
            errors,
        },
    )
}

} // verus!
