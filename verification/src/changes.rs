//! Update decisions for prompts, scripts and chains: whether an update
//! changes anything (and so needs a version snapshot), which step list of a
//! chain update applies, which referenced entities must exist, and the
//! checks on imported version histories.
use vstd::prelude::*;
use vstd::string::StringExecFns;
use crate::copy::StepType;
use crate::errors::CoreError;
use crate::text::{append_int, int_decimal};

verus! {

/// Whether two optional strings are equal.
pub fn opt_str_eq(a: &Option<String>, b: &Option<String>) -> (r: bool)
    ensures
        r == (match (a, b) {
            (Some(x), Some(y)) => x@ == y@,
            (None, None) => true,
            _ => false,
        }),
{
    match (a, b) {
        (Some(x), Some(y)) => x.eq(y),
        (None, None) => true,
        _ => false,
    }
}

/// The optional string's characters.
pub open spec fn opt_view(o: Option<String>) -> Option<Seq<char>> {
    match o {
        Some(s) => Some(s@),
        None => None,
    }
}

/// The stored state of a prompt that an update compares against.
pub struct PromptState {
    pub title: String,
    pub content: String,
    pub description: Option<String>,
    pub notes: Option<String>,
    pub language: Option<String>,
}

/// A partial prompt update: `None` leaves a field unchanged; for optional
/// fields `Some(None)` clears the value.
pub struct UpdatePrompt {
    pub prompt_id: i64,
    pub title: Option<String>,
    pub content: Option<String>,
    pub description: Option<Option<String>>,
    pub notes: Option<Option<String>>,
    pub language: Option<Option<String>>,
    pub tag_ids: Option<Vec<i64>>,
    pub category_ids: Option<Vec<i64>>,
    pub collection_ids: Option<Vec<i64>>,
    pub expected_version: Option<i64>,
}

/// A supplied string field that differs from the stored value.
pub open spec fn str_differs(u: Option<String>, cur: String) -> bool {
    u matches Some(v) && v@ != cur@
}

/// A supplied optional field that differs from the stored value.
pub open spec fn opt_differs(u: Option<Option<String>>, cur: Option<String>) -> bool {
    u matches Some(v) && opt_view(v) != opt_view(cur)
}

/// Whether a prompt update changes a content or metadata field.
pub open spec fn prompt_changes(current: PromptState, u: UpdatePrompt) -> bool {
    ||| str_differs(u.title, current.title)
    ||| str_differs(u.content, current.content)
    ||| opt_differs(u.description, current.description)
    ||| opt_differs(u.notes, current.notes)
    ||| opt_differs(u.language, current.language)
}

fn str_field_differs(u: &Option<String>, cur: &String) -> (r: bool)
    ensures
        r == str_differs(*u, *cur),
{
    match u {
        Some(v) => !v.eq(cur),
        None => false,
    }
}

fn opt_field_differs(u: &Option<Option<String>>, cur: &Option<String>) -> (r: bool)
    ensures
        r == opt_differs(*u, *cur),
{
    match u {
        Some(v) => {
            let eq = opt_str_eq(v, cur);
            assert(eq == (opt_view(*v) == opt_view(*cur))) by {
                match (v, cur) {
                    (Some(x), Some(y)) => {
                        if opt_view(*v) == opt_view(*cur) {
                            assert(x@ == y@);
                        }
                    },
                    _ => {},
                }
            }
            !eq
        },
        None => false,
    }
}

/// Compares the supplied update fields against the stored prompt: true when
/// any supplied field differs, in which case a version snapshot is taken
/// before the update is applied.
pub fn has_content_changes(current: &PromptState, update: &UpdatePrompt) -> (r: bool)
    ensures
        r == prompt_changes(*current, *update),
{
    str_field_differs(&update.title, &current.title) || str_field_differs(
        &update.content,
        &current.content,
    ) || opt_field_differs(&update.description, &current.description) || opt_field_differs(
        &update.notes,
        &current.notes,
    ) || opt_field_differs(&update.language, &current.language)
}

/// The stored state of a script that an update compares against.
pub struct ScriptState {
    pub title: String,
    pub content: String,
    pub description: Option<String>,
    pub notes: Option<String>,
    pub script_language: String,
    pub language: Option<String>,
    pub source_path: Option<String>,
    pub is_synced: bool,
}

/// A partial script update.
pub struct UpdateScript {
    pub script_id: i64,
    pub title: Option<String>,
    pub content: Option<String>,
    pub description: Option<Option<String>>,
    pub notes: Option<Option<String>>,
    pub script_language: Option<String>,
    pub language: Option<Option<String>>,
    pub source_path: Option<Option<String>>,
    pub is_synced: Option<bool>,
    pub tag_ids: Option<Vec<i64>>,
    pub category_ids: Option<Vec<i64>>,
    pub collection_ids: Option<Vec<i64>>,
    pub expected_version: Option<i64>,
}

/// Whether a script update changes a content, metadata or sync field.
pub open spec fn script_changes(current: ScriptState, u: UpdateScript) -> bool {
    ||| str_differs(u.title, current.title)
    ||| str_differs(u.content, current.content)
    ||| opt_differs(u.description, current.description)
    ||| opt_differs(u.notes, current.notes)
    ||| str_differs(u.script_language, current.script_language)
    ||| opt_differs(u.language, current.language)
    ||| opt_differs(u.source_path, current.source_path)
    ||| (u.is_synced matches Some(b) && b != current.is_synced)
}

/// Compares the supplied update fields against the stored script: true when
/// any supplied field differs.
pub fn has_script_changes(current: &ScriptState, update: &UpdateScript) -> (r: bool)
    ensures
        r == script_changes(*current, *update),
{
    let synced_differs = match update.is_synced {
        Some(b) => b != current.is_synced,
        None => false,
    };
    str_field_differs(&update.title, &current.title) || str_field_differs(
        &update.content,
        &current.content,
    ) || opt_field_differs(&update.description, &current.description) || opt_field_differs(
        &update.notes,
        &current.notes,
    ) || str_field_differs(&update.script_language, &current.script_language)
        || opt_field_differs(&update.language, &current.language) || opt_field_differs(
        &update.source_path,
        &current.source_path,
    ) || synced_differs
}

/// Law: an update that supplies no fields never counts as a change, for
/// prompts and for scripts, so it never creates a version.
pub proof fn lemma_empty_update_no_change(
    p: PromptState,
    up: UpdatePrompt,
    s: ScriptState,
    us: UpdateScript,
)
    requires
        up.title is None && up.content is None && up.description is None && up.notes is None
            && up.language is None,
        us.title is None && us.content is None && us.description is None && us.notes is None
            && us.script_language is None && us.language is None && us.source_path is None
            && us.is_synced is None,
    ensures
        !prompt_changes(p, up),
        !script_changes(s, us),
{
}

/// Law: a supplied field whose value differs from the stored one is a
/// change, field by field, for prompts and for scripts, so such an update
/// always takes a version snapshot.
pub proof fn lemma_differing_field_is_change(
    p: PromptState,
    up: UpdatePrompt,
    s: ScriptState,
    us: UpdateScript,
)
    ensures
        (up.title matches Some(t) && t@ != p.title@) ==> prompt_changes(p, up),
        (up.content matches Some(c) && c@ != p.content@) ==> prompt_changes(p, up),
        (up.description matches Some(d) && opt_view(d) != opt_view(p.description)) ==> prompt_changes(p, up),
        (up.notes matches Some(n) && opt_view(n) != opt_view(p.notes)) ==> prompt_changes(p, up),
        (up.language matches Some(l) && opt_view(l) != opt_view(p.language)) ==> prompt_changes(p, up),
        (us.title matches Some(t) && t@ != s.title@) ==> script_changes(s, us),
        (us.content matches Some(c) && c@ != s.content@) ==> script_changes(s, us),
        (us.description matches Some(d) && opt_view(d) != opt_view(s.description)) ==> script_changes(s, us),
        (us.notes matches Some(n) && opt_view(n) != opt_view(s.notes)) ==> script_changes(s, us),
        (us.script_language matches Some(l) && l@ != s.script_language@) ==> script_changes(s, us),
        (us.language matches Some(l) && opt_view(l) != opt_view(s.language)) ==> script_changes(s, us),
        (us.source_path matches Some(q) && opt_view(q) != opt_view(s.source_path)) ==> script_changes(s, us),
        (us.is_synced matches Some(b) && b != s.is_synced) ==> script_changes(s, us),
{
}

/// Law: a change is only ever caused by a supplied field that differs
/// from the stored value.
pub proof fn lemma_change_has_a_differing_field(p: PromptState, up: UpdatePrompt)
    requires
        prompt_changes(p, up),
    ensures
        (up.title matches Some(t) && t@ != p.title@) || (up.content matches Some(c) && c@
            != p.content@) || (up.description matches Some(d) && opt_view(d) != opt_view(
            p.description,
        )) || (up.notes matches Some(n) && opt_view(n) != opt_view(p.notes)) || (
        up.language matches Some(l) && opt_view(l) != opt_view(p.language)),
{
}

/// Law: a script change is only ever caused by a supplied field that
/// differs from the stored value.
pub proof fn lemma_script_change_has_a_differing_field(s: ScriptState, us: UpdateScript)
    requires
        script_changes(s, us),
    ensures
        (us.title matches Some(t) && t@ != s.title@) || (us.content matches Some(c) && c@
            != s.content@) || (us.description matches Some(d) && opt_view(d) != opt_view(
            s.description,
        )) || (us.notes matches Some(n) && opt_view(n) != opt_view(s.notes)) || (
        us.script_language matches Some(l) && l@ != s.script_language@) || (
        us.language matches Some(l) && opt_view(l) != opt_view(s.language)) || (
        us.source_path matches Some(q) && opt_view(q) != opt_view(s.source_path)) || (
        us.is_synced matches Some(b) && b != s.is_synced),
{
}

/// Law: an update that repeats the stored values is no change.
pub proof fn lemma_identical_update_no_change(p: PromptState, up: UpdatePrompt)
    requires
        up.title matches Some(t) ==> t@ == p.title@,
        up.content matches Some(c) ==> c@ == p.content@,
        up.description matches Some(d) ==> opt_view(d) == opt_view(p.description),
        up.notes matches Some(n) ==> opt_view(n) == opt_view(p.notes),
        up.language matches Some(l) ==> opt_view(l) == opt_view(p.language),
    ensures
        !prompt_changes(p, up),
{
}

// ---------------------------------------------------------------------------
// Chains
// ---------------------------------------------------------------------------

/// One step of a chain as a client supplies it.
pub struct ChainStepInput {
    pub step_type: StepType,
    pub item_id: i64,
}

/// A partial chain update.
pub struct UpdateChain {
    pub chain_id: i64,
    pub title: Option<String>,
    pub description: Option<Option<String>>,
    pub notes: Option<Option<String>>,
    pub language: Option<Option<String>>,
    pub separator: Option<String>,
    pub prompt_ids: Option<Vec<i64>>,
    pub steps: Option<Vec<ChainStepInput>>,
    pub tag_ids: Option<Vec<i64>>,
    pub category_ids: Option<Vec<i64>>,
    pub collection_ids: Option<Vec<i64>>,
}

/// Whether a chain update sets a metadata field.
pub open spec fn chain_field_updates(u: UpdateChain) -> bool {
    u.title is Some || u.description is Some || u.notes is Some || u.language is Some
        || u.separator is Some
}

/// Whether a chain update sets any metadata field.
pub fn has_field_updates(update: &UpdateChain) -> (r: bool)
    ensures
        r == chain_field_updates(*update),
{
    update.title.is_some() || update.description.is_some() || update.notes.is_some()
        || update.language.is_some() || update.separator.is_some()
}

/// The referenced entity (is_prompt, id) of each step.
pub open spec fn step_refs_spec(steps: Seq<ChainStepInput>) -> Seq<(bool, i64)> {
    Seq::new(steps.len(), |i: int| (steps[i].step_type is Prompt, steps[i].item_id))
}

/// The prompts of a legacy prompt-only step list.
pub open spec fn prompt_refs_spec(ids: Seq<i64>) -> Seq<(bool, i64)> {
    Seq::new(ids.len(), |i: int| (true, ids[i]))
}

/// A referenced entity of a chain step: prompt or script, by id.
pub struct StepReference {
    pub is_prompt: bool,
    pub id: i64,
}

/// The views of a list of step references.
pub open spec fn references_view(v: Seq<StepReference>) -> Seq<(bool, i64)> {
    Seq::new(v.len(), |i: int| (v[i].is_prompt, v[i].id))
}

fn refs_of_steps(steps: &[ChainStepInput]) -> (r: Vec<StepReference>)
    ensures
        references_view(r@) == step_refs_spec(steps@),
{
    let mut r: Vec<StepReference> = Vec::new();
    let mut i: usize = 0;
    while i < steps.len()
        invariant
            i <= steps@.len(),
            references_view(r@) == step_refs_spec(steps@.take(i as int)),
        decreases steps@.len() - i,
    {
        let is_prompt = match steps[i].step_type {
            StepType::Prompt => true,
            StepType::Script => false,
        };
        let ghost old_r = r@;
        r.push(StepReference { is_prompt, id: steps[i].item_id });
        assert(references_view(r@) =~= references_view(old_r).push((is_prompt, steps@[i as int].item_id)));
        assert(steps@.take(i + 1) =~= steps@.take(i as int).push(steps@[i as int]));
        i = i + 1;
        assert(references_view(r@) =~= step_refs_spec(steps@.take(i as int)));
    }
    assert(steps@.take(steps@.len() as int) =~= steps@);
    r
}

fn refs_of_prompts(ids: &[i64]) -> (r: Vec<StepReference>)
    ensures
        references_view(r@) == prompt_refs_spec(ids@),
{
    let mut r: Vec<StepReference> = Vec::new();
    let mut i: usize = 0;
    while i < ids.len()
        invariant
            i <= ids@.len(),
            references_view(r@) == prompt_refs_spec(ids@.take(i as int)),
        decreases ids@.len() - i,
    {
        let ghost old_r = r@;
        r.push(StepReference { is_prompt: true, id: ids[i] });
        assert(references_view(r@) =~= references_view(old_r).push((true, ids@[i as int])));
        assert(ids@.take(i + 1) =~= ids@.take(i as int).push(ids@[i as int]));
        i = i + 1;
        assert(references_view(r@) =~= prompt_refs_spec(ids@.take(i as int)));
    }
    assert(ids@.take(ids@.len() as int) =~= ids@);
    r
}

/// The entities a new chain references, which must all exist: its mixed
/// steps, or the legacy prompt list when no steps are given.
pub fn new_chain_references(steps: &[ChainStepInput], prompt_ids: &[i64]) -> (r: Vec<
    StepReference,
>)
    ensures
        references_view(r@) == (if steps@.len() == 0 {
            prompt_refs_spec(prompt_ids@)
        } else {
            step_refs_spec(steps@)
        }),
{
    if steps.len() == 0 {
        refs_of_prompts(prompt_ids)
    } else {
        refs_of_steps(steps)
    }
}

/// The step replacement a chain update asks for: the mixed steps take
/// precedence over the legacy prompt list; `None` keeps the steps.
pub fn update_chain_references(update: &UpdateChain) -> (r: Option<Vec<StepReference>>)
    ensures
        match update.steps {
            Some(s) => r matches Some(v) && references_view(v@) == step_refs_spec(s@),
            None => match update.prompt_ids {
                Some(p) => r matches Some(v) && references_view(v@) == prompt_refs_spec(p@),
                None => r is None,
            },
        },
{
    match &update.steps {
        Some(s) => Some(refs_of_steps(s.as_slice())),
        None => match &update.prompt_ids {
            Some(p) => Some(refs_of_prompts(p.as_slice())),
            None => None,
        },
    }
}

// ---------------------------------------------------------------------------
// Deletion guard and usernames
// ---------------------------------------------------------------------------

/// An entity referenced by chains cannot be deleted: `EntityInUse` naming
/// the referencing chains' titles, in order.
pub fn check_not_referenced(entity_type: &str, entity_id: i64, referencing_titles: Vec<String>) -> (r:
    Result<(), CoreError>)
    ensures
        r is Ok <==> referencing_titles@.len() == 0,
        r matches Err(e) ==> (e matches CoreError::EntityInUse {
            entity_type: t,
            entity_id: id,
            referencing_titles: titles,
        } && t@ == entity_type@ && id == entity_id && titles@ == referencing_titles@),
{
    if referencing_titles.len() == 0 {
        Ok(())
    } else {
        Err(
            CoreError::EntityInUse {
                entity_type: String::from_str(entity_type),
                entity_id,
                referencing_titles,
            },
        )
    }
}

/// A username may be taken over only by the user who already holds it:
/// `Duplicate` when another user (`holder`) has it.
pub fn check_username_free(user_id: i64, username: &str, holder: Option<i64>) -> (r: Result<
    (),
    CoreError,
>)
    ensures
        r is Ok <==> (holder is None || holder == Some(user_id)),
        r matches Err(e) ==> (e matches CoreError::Duplicate { entity, field, value } && entity@
            == "User"@ && field@ == "username"@ && value@ == username@),
{
    match holder {
        Some(h) => {
            if h != user_id {
                return Err(
                    CoreError::Duplicate {
                        entity: String::from_str("User"),
                        field: String::from_str("username"),
                        value: String::from_str(username),
                    },
                );
            }
            Ok(())
        },
        None => Ok(()),
    }
}

// ---------------------------------------------------------------------------
// Imported version histories
// ---------------------------------------------------------------------------

/// Index of the first version number that repeats an earlier one.
pub open spec fn first_repeat(v: Seq<i64>) -> Option<int> {
    if exists|i: int| 0 <= i < v.len() && v.take(i).contains(#[trigger] v[i]) {
        Some(
            choose|i: int|
                0 <= i < v.len() && v.take(i).contains(#[trigger] v[i]) && forall|j: int|
                    0 <= j < i ==> !v.take(j).contains(#[trigger] v[j]),
        )
    } else {
        None
    }
}

/// The largest element of a non-empty sequence.
pub open spec fn seq_max(v: Seq<i64>) -> int
    decreases v.len(),
{
    if v.len() == 0 {
        0
    } else if v.len() == 1 {
        v[0] as int
    } else {
        let m = seq_max(v.drop_last());
        if v.last() > m {
            v.last() as int
        } else {
            m
        }
    }
}

/// Law: the largest element of a non-empty sequence is one of its elements
/// and no element exceeds it.
pub proof fn lemma_seq_max_is_max(v: Seq<i64>)
    requires
        v.len() > 0,
    ensures
        exists|i: int| 0 <= i < v.len() && v[i] == seq_max(v),
        forall|i: int| 0 <= i < v.len() ==> v[i] <= seq_max(v),
    decreases v.len(),
{
    if v.len() == 1 {
        assert(v[0] == seq_max(v));
    } else {
        let d = v.drop_last();
        lemma_seq_max_is_max(d);
        let i0 = choose|i: int| 0 <= i < d.len() && d[i] == seq_max(d);
        if v.last() > seq_max(d) {
            assert(v[v.len() - 1] == seq_max(v));
        } else {
            assert(v[i0] == seq_max(v));
        }
        assert forall|i: int| 0 <= i < v.len() implies v[i] <= seq_max(v) by {
            if i < v.len() - 1 {
                assert(v[i] == d[i]);
            }
        }
    }
}

/// Checks the version numbers of an imported prompt: duplicates are
/// rejected, naming the first repeated number; otherwise the result is the
/// highest number when it exceeds 1 (the prompt's current version is then
/// raised to it), and `None` when there is nothing to raise.
#[verifier::rlimit(40)]
pub fn check_import_versions(version_numbers: &[i64]) -> (r: Result<Option<i64>, CoreError>)
    ensures
        r is Err <==> (exists|i: int|
            0 <= i < version_numbers@.len() && version_numbers@.take(i).contains(
                #[trigger] version_numbers@[i],
            )),
        r matches Err(e) ==> exists|i: int|
            0 <= i < version_numbers@.len() && version_numbers@.take(i).contains(
                #[trigger] version_numbers@[i],
            ) && (forall|j: int|
                0 <= j < i ==> !version_numbers@.take(j).contains(#[trigger] version_numbers@[j]))
                && (e matches CoreError::Validation { field, message } && field@
                == "version_number"@ && message@ == "Duplicate version number "@ + int_decimal(
                version_numbers@[i] as int,
            ) + " in import data"@),
        r matches Ok(m) ==> m == (if version_numbers@.len() > 0 && seq_max(version_numbers@) > 1 {
            Some(seq_max(version_numbers@) as i64)
        } else {
            None
        }),
        r matches Ok(Some(m)) ==> m > 1 && version_numbers@.contains(m) && forall|i: int|
            0 <= i < version_numbers@.len() ==> version_numbers@[i] <= m,
        r matches Ok(None) ==> forall|i: int|
            0 <= i < version_numbers@.len() ==> version_numbers@[i] <= 1,
{
    let mut i: usize = 0;
    let mut max: i64 = 0;
    while i < version_numbers.len()
        invariant
            i <= version_numbers@.len(),
            forall|j: int|
                0 <= j < i ==> !version_numbers@.take(j).contains(#[trigger] version_numbers@[j]),
            i > 0 ==> max == seq_max(version_numbers@.take(i as int)),
        decreases version_numbers@.len() - i,
    {
        let x = version_numbers[i];
        if prefix_contains(version_numbers, i, x) {
            let mut m = String::from_str("Duplicate version number ");
            append_int(&mut m, x);
            m.append(" in import data");
            let e = CoreError::Validation { field: String::from_str("version_number"), message: m };
            assert(version_numbers@.take(i as int).contains(version_numbers@[i as int]));
            return Err(e);
        }
        proof {
            assert(version_numbers@.take(i + 1).drop_last() =~= version_numbers@.take(i as int));
        }
        if i == 0 || x > max {
            max = x;
        }
        i = i + 1;
    }
    assert(version_numbers@.take(version_numbers@.len() as int) =~= version_numbers@);
    assert(forall|j: int|
        0 <= j < version_numbers@.len() ==> !version_numbers@.take(j).contains(
            #[trigger] version_numbers@[j],
        ));
    if version_numbers.len() > 0 {
        proof {
            lemma_seq_max_is_max(version_numbers@);
        }
    }
    if version_numbers.len() > 0 && max > 1 {
        Ok(Some(max))
    } else {
        Ok(None)
    }
}

fn prefix_contains(v: &[i64], i: usize, x: i64) -> (b: bool)
    requires
        i <= v@.len(),
    ensures
        b == v@.take(i as int).contains(x),
{
    let mut k: usize = 0;
    while k < i
        invariant
            k <= i <= v@.len(),
            forall|j: int| 0 <= j < k ==> v@[j] != x,
        decreases i - k,
    {
        if v[k] == x {
            assert(v@.take(i as int)[k as int] == x);
            return true;
        }
        k = k + 1;
    }
    assert(!v@.take(i as int).contains(x)) by {
        if v@.take(i as int).contains(x) {
            let j = choose|j: int| 0 <= j < i && v@.take(i as int)[j] == x;
            assert(v@[j] == x);
        }
    }
    false
}
} // verus!
