//! Talking to a local Ollama server: where its endpoints are, what a
//! generation request holds, which instructions the improve and translate
//! workflows send, how the streamed progress of a model download is cut
//! into lines, and what the status endpoint reports.
use vstd::prelude::*;
use vstd::string::StringExecFns;
use crate::metadata::{split_char, split_pieces};
use crate::text::{chars_of, copy_range, string_from_chars, strip_end, eq_pred, trim, trim_spec,
    lemma_trailing_count, trailing_count};

verus! {

/// The address of an Ollama server, kept without trailing slashes.
pub struct OllamaClient {
    base_url: String,
}

/// The text without its trailing `c` characters (`str::trim_end_matches`
/// with a character).
pub fn trim_end_char(s: &str, c: char) -> (r: String)
    ensures
        r@ == strip_end(s@, eq_pred(c)),
{
    let cs = chars_of(s);
    let mut e: usize = cs.len();
    while e > 0 && cs[e - 1] == c
        invariant
            e <= cs@.len(),
            cs@ == s@,
            forall|j: int| e <= j < cs@.len() ==> #[trigger] cs@[j] == c,
        decreases e,
    {
        e = e - 1;
    }
    proof {
        let k = cs@.len() - e;
        assert forall|j: int| cs@.len() - k <= j < cs@.len() implies (eq_pred(c))(
            #[trigger] cs@[j],
        ) by {}
        lemma_trailing_count(cs@, eq_pred(c), k);
        assert(strip_end(cs@, eq_pred(c)) =~= cs@.take(e as int));
    }
    let head = copy_range(cs.as_slice(), 0, e);
    assert(head@ =~= cs@.take(e as int));
    string_from_chars(head.as_slice())
}

impl OllamaClient {
    /// The server address as stored.
    pub closed spec fn spec_base_url(&self) -> Seq<char> {
        self.base_url@
    }

    /// A client for the server at `base_url`; trailing slashes are dropped.
    pub fn with_base_url(base_url: &str) -> (c: OllamaClient)
        ensures
            c.spec_base_url() == strip_end(base_url@, eq_pred('/')),
    {
        OllamaClient { base_url: trim_end_char(base_url, '/') }
    }

    /// The server address without trailing slashes.
    pub fn base_url(&self) -> (s: &str)
        ensures
            s@ == self.spec_base_url(),
    {
        self.base_url.as_str()
    }

    /// The URL of an API endpoint: the address, "/api/" and the endpoint's
    /// name (such as "tags", "ps", "pull", "delete", "show" or "generate").
    pub fn endpoint(&self, name: &str) -> (u: String)
        ensures
            u@ == self.spec_base_url() + "/api/"@ + name@,
    {
        let mut u = String::from_str(self.base_url.as_str());
        u.append("/api/");
        u.append(name);
        u
    }
}

/// Body of a non-streaming generation request.
pub struct GenerateRequest {
    pub model: String,
    pub prompt: String,
    pub stream: bool,
    pub format: Option<String>,
    pub system: Option<String>,
}

/// The generation request for a prompt, with an optional system
/// instruction and output format; the answer is not streamed.
pub fn generate_request(model: &str, prompt: &str, system: Option<&str>, format: Option<&str>) -> (r:
    GenerateRequest)
    ensures
        r.model@ == model@,
        r.prompt@ == prompt@,
        !r.stream,
        match (r.system, system) {
            (Some(a), Some(b)) => a@ == b@,
            (None, None) => true,
            _ => false,
        },
        match (r.format, format) {
            (Some(a), Some(b)) => a@ == b@,
            (None, None) => true,
            _ => false,
        },
{
    GenerateRequest {
        model: String::from_str(model),
        prompt: String::from_str(prompt),
        stream: false,
        format: match format {
            Some(f) => Some(String::from_str(f)),
            None => None,
        },
        system: match system {
            Some(s) => Some(String::from_str(s)),
            None => None,
        },
    }
}

/// The instruction of the improve workflow.
pub open spec fn improve_instruction() -> Seq<char> {
    "You are a prompt engineering expert. Rewrite the following prompt to be more specific and actionable. Rules:\n1. Keep the same language as the original\n2. Keep the same formatting style (markdown, plain text, etc.)\n3. Make vague instructions concrete\n4. Add missing context that would help an AI understand the task\n5. Do not add explanations or commentary\n6. Return only the rewritten prompt"@
}

/// The system instruction that asks the model to improve a prompt.
pub fn improve_system_prompt() -> (s: String)
    ensures
        s@ == improve_instruction(),
{
    String::from_str(
        "You are a prompt engineering expert. Rewrite the following prompt to be more specific and actionable. Rules:\n1. Keep the same language as the original\n2. Keep the same formatting style (markdown, plain text, etc.)\n3. Make vague instructions concrete\n4. Add missing context that would help an AI understand the task\n5. Do not add explanations or commentary\n6. Return only the rewritten prompt",
    )
}

/// The instruction of the translate workflow, for a target language.
pub open spec fn translate_instruction(target_language: Seq<char>) -> Seq<char> {
    "Translate the following text to "@ + target_language
        + ". Rules:\n1. Preserve all formatting (markdown, line breaks, indentation)\n2. Keep technical terms, code snippets, and proper nouns unchanged\n3. Maintain the same tone and register\n4. Return only the translated text, no commentary"@
}

/// The system instruction that asks the model to translate a prompt into
/// the target language.
pub fn translate_system_prompt(target_language: &str) -> (s: String)
    ensures
        s@ == translate_instruction(target_language@),
{
    let mut s = String::from_str("Translate the following text to ");
    s.append(target_language);
    s.append(
        ". Rules:\n1. Preserve all formatting (markdown, line breaks, indentation)\n2. Keep technical terms, code snippets, and proper nouns unchanged\n3. Maintain the same tone and register\n4. Return only the translated text, no commentary",
    );
    s
}

/// The five questions asked to derive a prompt's metadata, one call each.
pub enum MetadataQuestion {
    Description,
    Language,
    Notes,
    Tags,
    Categories,
}

/// The instruction sent for a metadata question; each asks for exactly one
/// piece of information in plain text.
pub open spec fn metadata_instruction(q: MetadataQuestion) -> Seq<char> {
    match q {
        MetadataQuestion::Description => "You are a technical writer. Read the following text and write a one-sentence description of what it does or instructs. Reply with only the description, nothing else."@,
        MetadataQuestion::Language => "What language is the following text written in? Reply with only the ISO 639-1 two-letter language code (e.g. \"en\", \"de\", \"fr\", \"es\"). Nothing else, just the two-letter code."@,
        MetadataQuestion::Notes => "You are a prompt analyst. Read the following prompt and write a brief usage note (1-2 sentences) explaining when and how this prompt is best used. Reply with only the note, nothing else."@,
        MetadataQuestion::Tags => "Read the following text and suggest 2-4 short keyword tags that describe its topic. Reply with only the tags separated by commas, nothing else. Example: coding, python, debugging"@,
        MetadataQuestion::Categories => "Read the following text and suggest 1-3 broad category names that classify it. Reply with only the category names separated by commas, nothing else. Example: Development, Writing, Education"@,
    }
}

/// The system instruction for one metadata question.
pub fn metadata_system_prompt(q: &MetadataQuestion) -> (s: String)
    ensures
        s@ == metadata_instruction(*q),
{
    match q {
        MetadataQuestion::Description => String::from_str(
            "You are a technical writer. Read the following text and write a one-sentence description of what it does or instructs. Reply with only the description, nothing else.",
        ),
        MetadataQuestion::Language => String::from_str(
            "What language is the following text written in? Reply with only the ISO 639-1 two-letter language code (e.g. \"en\", \"de\", \"fr\", \"es\"). Nothing else, just the two-letter code.",
        ),
        MetadataQuestion::Notes => String::from_str(
            "You are a prompt analyst. Read the following prompt and write a brief usage note (1-2 sentences) explaining when and how this prompt is best used. Reply with only the note, nothing else.",
        ),
        MetadataQuestion::Tags => String::from_str(
            "Read the following text and suggest 2-4 short keyword tags that describe its topic. Reply with only the tags separated by commas, nothing else. Example: coding, python, debugging",
        ),
        MetadataQuestion::Categories => String::from_str(
            "Read the following text and suggest 1-3 broad category names that classify it. Reply with only the category names separated by commas, nothing else. Example: Development, Writing, Education",
        ),
    }
}

/// Answer of the status endpoint: whether the server answered, and the
/// names of its local models.
pub struct OllamaStatus {
    pub connected: bool,
    pub models: Vec<String>,
}

impl OllamaStatus {
    /// The status from the outcome of a health check: the model names when
    /// the server answered, nothing otherwise. An unreachable server is a
    /// normal state, not an error.
    pub fn from_health(models: Option<Vec<String>>) -> (s: OllamaStatus)
        ensures
            match models {
                Some(m) => s.connected && s.models@ == m@,
                None => !s.connected && s.models@.len() == 0,
            },
    {
        match models {
            Some(m) => OllamaStatus { connected: true, models: m },
            None => OllamaStatus { connected: false, models: Vec::new() },
        }
    }
}

/// The trimmed, non-empty lines among `pieces`, in order.
pub open spec fn nonempty_trimmed(pieces: Seq<Seq<char>>) -> Seq<Seq<char>>
    decreases pieces.len(),
{
    if pieces.len() == 0 {
        Seq::empty()
    } else {
        let r = nonempty_trimmed(pieces.drop_last());
        let t = trim_spec(pieces.last());
        if t.len() == 0 {
            r
        } else {
            r.push(t)
        }
    }
}

/// How much of a streamed buffer consists of complete lines: up to and
/// including its last line break (0 without one).
pub open spec fn complete_prefix_len(s: Seq<char>) -> int {
    s.len() - trailing_count(s, |c: char| c != '\n')
}

/// The complete lines of a buffer, trimmed, without the empty ones.
pub open spec fn complete_lines(s: Seq<char>) -> Seq<Seq<char>> {
    let n = complete_prefix_len(s);
    if n == 0 {
        Seq::empty()
    } else {
        nonempty_trimmed(split_char(s.take(n - 1), '\n'))
    }
}

/// Takes the complete lines out of the buffer of a streamed answer: the
/// buffer keeps only the text after its last line break, and the lines are
/// returned trimmed, without the empty ones, in order.
pub fn take_complete_lines(buffer: &mut String) -> (lines: Vec<String>)
    ensures
        final(buffer)@ == old(buffer)@.skip(complete_prefix_len(old(buffer)@)),
        old(buffer)@ == old(buffer)@.take(complete_prefix_len(old(buffer)@)) + final(buffer)@,
        lines@.map_values(|l: String| l@) == complete_lines(old(buffer)@),
{
    let ghost text = buffer@;
    let cs = chars_of(buffer.as_str());
    let mut e: usize = cs.len();
    while e > 0 && cs[e - 1] != '\n'
        invariant
            e <= cs@.len(),
            cs@ == text,
            forall|j: int| e <= j < cs@.len() ==> #[trigger] cs@[j] != '\n',
        decreases e,
    {
        e = e - 1;
    }
    proof {
        let k = cs@.len() - e;
        let p = |c: char| c != '\n';
        assert forall|j: int| cs@.len() - k <= j < cs@.len() implies p(#[trigger] cs@[j]) by {}
        if k < cs@.len() {
            assert(!p(cs@[cs@.len() - k - 1]));
        }
        lemma_trailing_count(cs@, p, k);
        assert(complete_prefix_len(text) == e);
    }
    let mut lines: Vec<String> = Vec::new();
    if e == 0 {
        assert(text.skip(0) =~= text);
        assert(text.take(0) + text =~= text);
        assert(lines@.map_values(|l: String| l@) =~= Seq::<Seq<char>>::empty());
        return lines;
    }
    let head = copy_range(cs.as_slice(), 0, e - 1);
    assert(head@ =~= text.take(e - 1));
    let pieces = split_pieces(head.as_slice(), '\n');
    let ghost ps = split_char(text.take(e - 1), '\n');
    let mut i: usize = 0;
    while i < pieces.len()
        invariant
            i <= pieces@.len(),
            pieces@.len() == ps.len(),
            forall|k: int| 0 <= k < pieces@.len() ==> (#[trigger] pieces@[k])@ == ps[k],
            lines@.map_values(|l: String| l@) == nonempty_trimmed(ps.take(i as int)),
        decreases pieces@.len() - i,
    {
        let t = trim(pieces[i].as_slice());
        assert(ps.take(i + 1).drop_last() =~= ps.take(i as int));
        if t.len() > 0 {
            let ghost before = lines@;
            lines.push(string_from_chars(t.as_slice()));
            assert(lines@.map_values(|l: String| l@) =~= before.map_values(|l: String| l@).push(
                t@,
            ));
        }
        i = i + 1;
    }
    assert(ps.take(ps.len() as int) =~= ps);
    let tail = copy_range(cs.as_slice(), e, cs.len());
    assert(tail@ =~= text.skip(e as int));
    *buffer = string_from_chars(tail.as_slice());
    assert(text.take(e as int) + text.skip(e as int) =~= text);
    lines
}

} // verus!
