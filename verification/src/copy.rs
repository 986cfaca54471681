//! Cross-user copy: the decisions of copying prompts, scripts and chains
//! from one user to another. The storage work (lookups, inserts) is done by
//! the caller; this module decides which titles to try, which referenced
//! entities still have to be copied, how chain steps are remapped to the
//! copies, and what the copy summary records.
use vstd::prelude::*;
use vstd::string::StringExecFns;
use std::collections::HashMap;
use crate::errors::CoreError;
use crate::export::TaxonomyKind;
use crate::text::{append_usize, nat_digits};

verus! {

broadcast use vstd::std_specs::hash::group_hash_axioms;

/// Summary of a cross-user copy operation.
pub struct CopySummary {
    pub prompts_copied: usize,
    pub scripts_copied: usize,
    pub chains_copied: usize,
    pub tags_created: usize,
    pub categories_created: usize,
    pub collections_created: usize,
    pub skipped: Vec<SkippedItem>,
}

/// An item that was skipped during a copy operation.
pub struct SkippedItem {
    pub entity_type: String,
    pub title: String,
    pub reason: String,
}

/// Maximum number of numbered suffix attempts when looking for a free title.
pub const MAX_TITLE_ATTEMPTS: usize = 10;

/// Reason recorded when the target already has an identical item.
pub open spec fn reason_identical() -> Seq<char> {
    "Already exists with identical title and content"@
}

/// Reason recorded when a single chain copy meets a dangling step.
pub open spec fn reason_unresolvable() -> Seq<char> {
    "Contains unresolvable steps"@
}

/// Reason recorded when a chain in a bulk copy has a dangling step.
pub open spec fn reason_invalid_steps() -> Seq<char> {
    "Contains invalid or unresolvable steps"@
}

/// A summary with all counters at zero and nothing skipped.
pub open spec fn is_empty_summary(s: CopySummary) -> bool {
    &&& s.prompts_copied == 0
    &&& s.scripts_copied == 0
    &&& s.chains_copied == 0
    &&& s.tags_created == 0
    &&& s.categories_created == 0
    &&& s.collections_created == 0
    &&& s.skipped@.len() == 0
}

impl CopySummary {
    /// An empty summary.
    pub fn new() -> (s: CopySummary)
        ensures
            is_empty_summary(s),
    {
        CopySummary {
            prompts_copied: 0,
            scripts_copied: 0,
            chains_copied: 0,
            tags_created: 0,
            categories_created: 0,
            collections_created: 0,
            skipped: Vec::new(),
        }
    }

    /// Records a skipped item; the counters stay as they were.
    pub fn skip(&mut self, entity_type: &str, title: &str, reason: &str)
        ensures
            final(self).prompts_copied == old(self).prompts_copied,
            final(self).scripts_copied == old(self).scripts_copied,
            final(self).chains_copied == old(self).chains_copied,
            final(self).tags_created == old(self).tags_created,
            final(self).categories_created == old(self).categories_created,
            final(self).collections_created == old(self).collections_created,
            final(self).skipped@.len() == old(self).skipped@.len() + 1,
            forall|i: int|
                0 <= i < old(self).skipped@.len() ==> final(self).skipped@[i]
                    == old(self).skipped@[i],
            final(self).skipped@.last().entity_type@ == entity_type@,
            final(self).skipped@.last().title@ == title@,
            final(self).skipped@.last().reason@ == reason@,
    {
        self.skipped.push(
            SkippedItem {
                entity_type: String::from_str(entity_type),
                title: String::from_str(title),
                reason: String::from_str(reason),
            },
        );
    }
}

/// The kinds of items a copy creates at the target user.
pub enum CopiedKind {
    Prompt,
    Script,
    Chain,
}

impl CopySummary {
    /// The number of items of a kind copied so far.
    pub open spec fn copied(&self, kind: CopiedKind) -> usize {
        match kind {
            CopiedKind::Prompt => self.prompts_copied,
            CopiedKind::Script => self.scripts_copied,
            CopiedKind::Chain => self.chains_copied,
        }
    }

    /// The number of taxonomy entries of a kind created so far.
    pub open spec fn created(&self, kind: TaxonomyKind) -> usize {
        match kind {
            TaxonomyKind::Tag => self.tags_created,
            TaxonomyKind::Category => self.categories_created,
            TaxonomyKind::Collection => self.collections_created,
        }
    }

    /// Counts one copied item of the given kind; everything else stays.
    pub fn record_copy(&mut self, kind: CopiedKind)
        requires
            old(self).copied(kind) < usize::MAX,
        ensures
            final(self).copied(kind) == old(self).copied(kind) + 1,
            forall|k: CopiedKind| k != kind ==> final(self).copied(k) == old(self).copied(k),
            forall|k: TaxonomyKind| final(self).created(k) == old(self).created(k),
            final(self).skipped@ == old(self).skipped@,
    {
        match kind {
            CopiedKind::Prompt => {
                self.prompts_copied = self.prompts_copied + 1;
            },
            CopiedKind::Script => {
                self.scripts_copied = self.scripts_copied + 1;
            },
            CopiedKind::Chain => {
                self.chains_copied = self.chains_copied + 1;
            },
        }
    }

    /// Counts one taxonomy entry created at the target; everything else
    /// stays.
    pub fn record_created(&mut self, kind: TaxonomyKind)
        requires
            old(self).created(kind) < usize::MAX,
        ensures
            final(self).created(kind) == old(self).created(kind) + 1,
            forall|k: TaxonomyKind| k != kind ==> final(self).created(k) == old(self).created(k),
            forall|k: CopiedKind| final(self).copied(k) == old(self).copied(k),
            final(self).skipped@ == old(self).skipped@,
    {
        match kind {
            TaxonomyKind::Tag => {
                self.tags_created = self.tags_created + 1;
            },
            TaxonomyKind::Category => {
                self.categories_created = self.categories_created + 1;
            },
            TaxonomyKind::Collection => {
                self.collections_created = self.collections_created + 1;
            },
        }
    }
}

/// The error for copying to the owner itself.
pub open spec fn same_user_error(e: CoreError) -> bool {
    e matches CoreError::Validation { field, message } && field@ == "target_user_id"@
        && message@ == "Cannot copy to the same user"@
}

/// A copy must go to another user: succeeds with an empty summary exactly
/// when the source and target users differ.
pub fn start_copy(source_user_id: i64, target_user_id: i64) -> (r: Result<CopySummary, CoreError>)
    ensures
        r is Ok <==> source_user_id != target_user_id,
        r matches Ok(s) ==> is_empty_summary(s),
        r matches Err(e) ==> same_user_error(e),
{
    if source_user_id == target_user_id {
        Err(
            CoreError::Validation {
                field: String::from_str("target_user_id"),
                message: String::from_str("Cannot copy to the same user"),
            },
        )
    } else {
        Ok(CopySummary::new())
    }
}

// ---------------------------------------------------------------------------
// Title generation
// ---------------------------------------------------------------------------

/// The title tried at the given attempt: the original title, then
/// "<title> (from <user>)", then "<title> (from <user> <n>)" for n = 2..=10.
pub open spec fn title_candidate_spec(original: Seq<char>, user: Seq<char>, attempt: nat) -> Seq<
    char,
> {
    if attempt == 0 {
        original
    } else if attempt == 1 {
        original + " (from "@ + user + ")"@
    } else {
        original + " (from "@ + user + " "@ + nat_digits(attempt) + ")"@
    }
}

/// The message when every candidate title is taken.
pub open spec fn title_exhausted_message(original: Seq<char>) -> Seq<char> {
    "Could not generate unique title for \""@ + original + "\" after "@ + nat_digits(
        MAX_TITLE_ATTEMPTS as nat,
    ) + " attempts"@
}

/// The candidate title for an attempt.
pub fn title_candidate(original: &str, source_username: &str, attempt: usize) -> (t: String)
    ensures
        t@ == title_candidate_spec(original@, source_username@, attempt as nat),
{
    let mut t = String::from_str(original);
    if attempt == 0 {
        return t;
    }
    t.append(" (from ");
    t.append(source_username);
    if attempt >= 2 {
        t.append(" ");
        append_usize(&mut t, attempt);
    }
    t.append(")");
    t
}

/// What to do after learning whether the current candidate title is taken.
pub enum TitleDecision {
    /// The candidate is free: use it.
    Use(String),
    /// The candidate is taken: check this next attempt's candidate.
    Check(usize, String),
    /// Every candidate is taken.
    Exhausted(CoreError),
}

/// One step of the free-title search: `attempt` is the attempt whose
/// candidate was just looked up, `taken` whether the target user already
/// has an item with that title.
pub fn decide_title(original: &str, source_username: &str, attempt: usize, taken: bool) -> (d:
    TitleDecision)
    requires
        attempt <= MAX_TITLE_ATTEMPTS,
    ensures
        !taken ==> (d matches TitleDecision::Use(t) && t@ == title_candidate_spec(
            original@,
            source_username@,
            attempt as nat,
        )),
        taken && attempt < MAX_TITLE_ATTEMPTS ==> (d matches TitleDecision::Check(next, t) && next
            == attempt + 1 && t@ == title_candidate_spec(
            original@,
            source_username@,
            next as nat,
        )),
        taken && attempt == MAX_TITLE_ATTEMPTS ==> (d matches TitleDecision::Exhausted(
            CoreError::Validation { field, message },
        ) && field@ == "title"@ && message@ == title_exhausted_message(original@)),
{
    if !taken {
        TitleDecision::Use(title_candidate(original, source_username, attempt))
    } else if attempt < MAX_TITLE_ATTEMPTS {
        TitleDecision::Check(attempt + 1, title_candidate(original, source_username, attempt + 1))
    } else {
        let mut m = String::from_str("Could not generate unique title for \"");
        m.append(original);
        m.append("\" after ");
        append_usize(&mut m, MAX_TITLE_ATTEMPTS);
        m.append(" attempts");
        TitleDecision::Exhausted(CoreError::Validation { field: String::from_str("title"), message: m })
    }
}

/// The title the search settles on, given the answers for attempts
/// `0..answers.len()`: the first candidate reported free, if any.
pub open spec fn first_free_attempt(answers: Seq<bool>) -> Option<nat>
    decreases answers.len(),
{
    if answers.len() == 0 {
        None
    } else if !answers[0] {
        Some(0)
    } else {
        match first_free_attempt(answers.drop_first()) {
            Some(k) => Some(k + 1),
            None => None,
        }
    }
}

proof fn lemma_digits_nonempty(n: nat)
    ensures
        nat_digits(n).len() >= 1,
    decreases n,
{
    if n >= 10 {
        lemma_digits_nonempty(n / 10);
    }
}

proof fn lemma_digits_injective_small(a: nat, b: nat)
    requires
        2 <= a <= 10,
        2 <= b <= 10,
        a != b,
    ensures
        nat_digits(a) != nat_digits(b),
{
    reveal_with_fuel(nat_digits, 2);
    if a < 10 && b < 10 {
        assert(nat_digits(a)[0] != nat_digits(b)[0]);
    } else {
        assert(nat_digits(a).len() != nat_digits(b).len());
    }
}

/// Law: the candidate titles of one search are pairwise distinct, so each
/// attempt asks about a new title.
pub proof fn lemma_title_candidates_distinct(
    original: Seq<char>,
    user: Seq<char>,
    i: nat,
    j: nat,
)
    requires
        i <= MAX_TITLE_ATTEMPTS,
        j <= MAX_TITLE_ATTEMPTS,
        i != j,
    ensures
        title_candidate_spec(original, user, i) != title_candidate_spec(original, user, j),
{
    reveal_strlit(" (from ");
    reveal_strlit(")");
    reveal_strlit(" ");
    let a = title_candidate_spec(original, user, i);
    let b = title_candidate_spec(original, user, j);
    let p = original + " (from "@ + user;
    if i == 0 || j == 0 {
        assert(a.len() != b.len()) by {
            if i >= 2 {
                lemma_digits_nonempty(i);
            }
            if j >= 2 {
                lemma_digits_nonempty(j);
            }
        }
    } else if i == 1 || j == 1 {
        let k = if i == 1 { j } else { i };
        lemma_digits_nonempty(k);
        let longer = p + " "@ + nat_digits(k) + ")"@;
        let shorter = p + ")"@;
        assert(longer[p.len() as int] == ' ');
        assert(shorter[p.len() as int] == ')');
        assert(longer != shorter);
    } else {
        lemma_digits_injective_small(i, j);
        let q = p + " "@;
        if a == b {
            let da = nat_digits(i);
            let db = nat_digits(j);
            assert(a == q + da + ")"@);
            assert(b == q + db + ")"@);
            assert(a.len() == q.len() + da.len() + 1);
            assert(b.len() == q.len() + db.len() + 1);
            assert(da.len() == db.len());
            assert forall|k: int| 0 <= k < da.len() implies da[k] == db[k] by {
                assert(a[q.len() + k] == da[k]);
                assert(b[q.len() + k] == db[k]);
            }
            assert(da =~= db);
        }
    }
}

// ---------------------------------------------------------------------------
// Chain steps
// ---------------------------------------------------------------------------

/// Kind of entity a chain step references.
pub enum StepType {
    Prompt,
    Script,
}

/// A chain step as seen by the copy: its kind and the ids of the prompt or
/// script it resolved to (`None` when the referenced entity is missing).
pub struct ChainStepRef {
    pub step_type: StepType,
    pub prompt_id: Option<i64>,
    pub script_id: Option<i64>,
}

/// The id of the entity a step references, if it resolved.
pub open spec fn step_source(s: ChainStepRef) -> Option<i64> {
    match s.step_type {
        StepType::Prompt => s.prompt_id,
        StepType::Script => s.script_id,
    }
}

/// Whether every step resolved to an existing entity.
pub open spec fn all_resolvable(steps: Seq<ChainStepRef>) -> bool {
    forall|i: int| 0 <= i < steps.len() ==> (#[trigger] step_source(steps[i])) is Some
}

/// The step kind's name as stored in a step mapping.
pub open spec fn step_kind_name(t: StepType) -> Seq<char> {
    match t {
        StepType::Prompt => "prompt"@,
        StepType::Script => "script"@,
    }
}

/// The id in the target user's namespace that a step's entity maps to.
pub open spec fn mapped_target(s: ChainStepRef, pm: Map<i64, i64>, sm: Map<i64, i64>) -> Option<
    i64,
> {
    match step_source(s) {
        Some(id) => match s.step_type {
            StepType::Prompt => if pm.contains_key(id) {
                Some(pm[id])
            } else {
                None
            },
            StepType::Script => if sm.contains_key(id) {
                Some(sm[id])
            } else {
                None
            },
        },
        None => None,
    }
}

/// Whether every step's source has a mapped copy.
pub open spec fn all_mapped(steps: Seq<ChainStepRef>, pm: Map<i64, i64>, sm: Map<i64, i64>) -> bool {
    forall|i: int| 0 <= i < steps.len() ==> (#[trigger] mapped_target(steps[i], pm, sm)) is Some
}

/// Whether every step resolved to an existing entity.
pub fn steps_resolvable(steps: &[ChainStepRef]) -> (b: bool)
    ensures
        b == all_resolvable(steps@),
{
    let mut i: usize = 0;
    while i < steps.len()
        invariant
            i <= steps@.len(),
            forall|j: int| 0 <= j < i ==> (#[trigger] step_source(steps@[j])) is Some,
        decreases steps@.len() - i,
    {
        let ok = match steps[i].step_type {
            StepType::Prompt => steps[i].prompt_id.is_some(),
            StepType::Script => steps[i].script_id.is_some(),
        };
        if !ok {
            assert(step_source(steps@[i as int]) is None);
            return false;
        }
        i = i + 1;
    }
    true
}

/// The entities that still have to be copied before the steps can be
/// remapped: the resolved sources without a mapped copy, each once, in the
/// order of their first step.
pub open spec fn pending_copies(steps: Seq<ChainStepRef>, pm: Map<i64, i64>, sm: Map<i64, i64>) -> Seq<
    (bool, i64),
>
    decreases steps.len(),
{
    if steps.len() == 0 {
        Seq::empty()
    } else {
        let p = pending_copies(steps.drop_last(), pm, sm);
        let s = steps.last();
        let is_prompt = s.step_type is Prompt;
        match step_source(s) {
            Some(id) => if mapped_target(s, pm, sm) is None && !p.contains((is_prompt, id)) {
                p.push((is_prompt, id))
            } else {
                p
            },
            None => p,
        }
    }
}

/// An entity that has to be copied: a prompt or a script, by id.
pub struct PendingCopy {
    pub is_prompt: bool,
    pub source_id: i64,
}

fn contains_pending(v: &Vec<PendingCopy>, is_prompt: bool, id: i64) -> (b: bool)
    ensures
        b == (Seq::new(v@.len(), |k: int| (v@[k].is_prompt, v@[k].source_id))).contains(
            (is_prompt, id),
        ),
{
    let ghost view = Seq::new(v@.len(), |k: int| (v@[k].is_prompt, v@[k].source_id));
    let mut i: usize = 0;
    while i < v.len()
        invariant
            i <= v@.len(),
            view == Seq::new(v@.len(), |k: int| (v@[k].is_prompt, v@[k].source_id)),
            forall|k: int| 0 <= k < i ==> view[k] != (is_prompt, id),
        decreases v@.len() - i,
    {
        if v[i].is_prompt == is_prompt && v[i].source_id == id {
            assert(view[i as int] == (is_prompt, id));
            return true;
        }
        i = i + 1;
    }
    false
}

/// The pairs (is_prompt, source id) of a list of pending copies.
pub open spec fn pending_view(v: Seq<PendingCopy>) -> Seq<(bool, i64)> {
    Seq::new(v.len(), |k: int| (v[k].is_prompt, v[k].source_id))
}

/// Lists the prompts and scripts referenced by the steps that have no copy
/// yet in the given id maps (source id to copied id), each once, in order
/// of first use. Dangling steps are passed over.
pub fn plan_step_copies(
    steps: &[ChainStepRef],
    prompt_map: &HashMap<i64, i64>,
    script_map: &HashMap<i64, i64>,
) -> (r: Vec<PendingCopy>)
    ensures
        pending_view(r@) == pending_copies(steps@, prompt_map@, script_map@),
{
    let mut out: Vec<PendingCopy> = Vec::new();
    let mut i: usize = 0;
    while i < steps.len()
        invariant
            i <= steps@.len(),
            pending_view(out@) == pending_copies(steps@.take(i as int), prompt_map@, script_map@),
        decreases steps@.len() - i,
    {
        let s = &steps[i];
        proof {
            assert(steps@.take(i + 1).drop_last() =~= steps@.take(i as int));
            assert(steps@.take(i + 1).last() == steps@[i as int]);
        }
        let is_prompt = match s.step_type {
            StepType::Prompt => true,
            StepType::Script => false,
        };
        let src = if is_prompt {
            s.prompt_id
        } else {
            s.script_id
        };
        match src {
            Some(id) => {
                let mapped = if is_prompt {
                    prompt_map.contains_key(&id)
                } else {
                    script_map.contains_key(&id)
                };
                if !mapped && !contains_pending(&out, is_prompt, id) {
                    out.push(PendingCopy { is_prompt, source_id: id });
                    assert(pending_view(out@) =~= pending_copies(
                        steps@.take(i + 1),
                        prompt_map@,
                        script_map@,
                    ));
                }
            },
            None => {},
        }
        i = i + 1;
    }
    assert(steps@.take(steps@.len() as int) =~= steps@);
    out
}

/// Law: every resolved step whose entity has no copy yet appears in the
/// plan, so after copying the planned entities every resolved step maps.
pub proof fn lemma_pending_covers_unmapped(
    steps: Seq<ChainStepRef>,
    pm: Map<i64, i64>,
    sm: Map<i64, i64>,
    i: int,
)
    requires
        0 <= i < steps.len(),
        step_source(steps[i]) is Some,
        mapped_target(steps[i], pm, sm) is None,
    ensures
        pending_copies(steps, pm, sm).contains(
            (steps[i].step_type is Prompt, step_source(steps[i])->0),
        ),
    decreases steps.len(),
{
    let p = pending_copies(steps.drop_last(), pm, sm);
    let key = (steps[i].step_type is Prompt, step_source(steps[i])->0);
    if i < steps.len() - 1 {
        assert(steps.drop_last()[i] == steps[i]);
        lemma_pending_covers_unmapped(steps.drop_last(), pm, sm, i);
        let k = choose|k: int| 0 <= k < p.len() && p[k] == key;
        let q = pending_copies(steps, pm, sm);
        assert(q[k] == key);
    } else {
        let q = pending_copies(steps, pm, sm);
        if p.contains(key) {
            let k = choose|k: int| 0 <= k < p.len() && p[k] == key;
            assert(q[k] == key);
        } else {
            assert(q[q.len() - 1] == key);
        }
    }
}

/// Law: once every planned entity has a copy in the extended maps, every
/// step of a chain whose steps all resolved has a mapped target.
pub proof fn lemma_plan_completes_mapping(
    steps: Seq<ChainStepRef>,
    pm: Map<i64, i64>,
    sm: Map<i64, i64>,
    pm2: Map<i64, i64>,
    sm2: Map<i64, i64>,
)
    requires
        all_resolvable(steps),
        pm.dom().subset_of(pm2.dom()),
        sm.dom().subset_of(sm2.dom()),
        forall|k: int|
            0 <= k < pending_copies(steps, pm, sm).len() ==> {
                let e = #[trigger] pending_copies(steps, pm, sm)[k];
                if e.0 {
                    pm2.contains_key(e.1)
                } else {
                    sm2.contains_key(e.1)
                }
            },
    ensures
        all_mapped(steps, pm2, sm2),
{
    assert forall|i: int| 0 <= i < steps.len() implies (#[trigger] mapped_target(
        steps[i],
        pm2,
        sm2,
    )) is Some by {
        assert(step_source(steps[i]) is Some);
        if mapped_target(steps[i], pm, sm) is None {
            lemma_pending_covers_unmapped(steps, pm, sm, i);
            let key = (steps[i].step_type is Prompt, step_source(steps[i])->0);
            let k = choose|k: int|
                0 <= k < pending_copies(steps, pm, sm).len() && pending_copies(steps, pm, sm)[k]
                    == key;
            assert(pending_copies(steps, pm, sm)[k] == key);
        }
    }
}

/// The step mapping (kind name, target id) of a chain whose steps all map.
pub open spec fn step_mapping_spec(steps: Seq<ChainStepRef>, pm: Map<i64, i64>, sm: Map<i64, i64>) -> Seq<
    (Seq<char>, i64),
> {
    Seq::new(
        steps.len(),
        |i: int| (step_kind_name(steps[i].step_type), mapped_target(steps[i], pm, sm)->0),
    )
}

/// The views of a built step mapping.
pub open spec fn mapping_view(v: Seq<(String, i64)>) -> Seq<(Seq<char>, i64)> {
    Seq::new(v.len(), |i: int| (v[i].0@, v[i].1))
}

/// Remaps the steps of a chain to the copied entities: one entry per step,
/// in step order, holding the step kind's name and the copy's id. `None`
/// when some step is dangling or its entity has no copy.
pub fn build_step_mapping(
    steps: &[ChainStepRef],
    prompt_map: &HashMap<i64, i64>,
    script_map: &HashMap<i64, i64>,
) -> (r: Option<Vec<(String, i64)>>)
    ensures
        r is Some <==> all_mapped(steps@, prompt_map@, script_map@),
        r matches Some(v) ==> mapping_view(v@) == step_mapping_spec(
            steps@,
            prompt_map@,
            script_map@,
        ),
{
    let mut out: Vec<(String, i64)> = Vec::new();
    let mut i: usize = 0;
    while i < steps.len()
        invariant
            i <= steps@.len(),
            forall|j: int|
                0 <= j < i ==> (#[trigger] mapped_target(steps@[j], prompt_map@, script_map@)) is Some,
            mapping_view(out@) == step_mapping_spec(steps@.take(i as int), prompt_map@, script_map@),
        decreases steps@.len() - i,
    {
        let s = &steps[i];
        let target = match s.step_type {
            StepType::Prompt => match s.prompt_id {
                Some(id) => match prompt_map.get(&id) {
                    Some(t) => Some((String::from_str("prompt"), *t)),
                    None => None,
                },
                None => None,
            },
            StepType::Script => match s.script_id {
                Some(id) => match script_map.get(&id) {
                    Some(t) => Some((String::from_str("script"), *t)),
                    None => None,
                },
                None => None,
            },
        };
        let ghost old_out = out@;
        if target.is_none() {
            assert(mapped_target(steps@[i as int], prompt_map@, script_map@) is None);
            return None;
        }
        let entry = target.unwrap();
        let ghost ev = (entry.0@, entry.1);
        assert(mapped_target(steps@[i as int], prompt_map@, script_map@) == Some(entry.1));
        assert(entry.0@ == step_kind_name(steps@[i as int].step_type));
        out.push(entry);
        assert(mapping_view(out@) =~= mapping_view(old_out).push(ev));
        assert forall|k: int| 0 <= k < i + 1 implies #[trigger] mapping_view(out@)[k]
            == step_mapping_spec(steps@.take(i + 1), prompt_map@, script_map@)[k] by {
            assert(steps@.take(i + 1)[k] == steps@[k]);
            if k < i {
                assert(mapping_view(old_out)[k] == step_mapping_spec(
                    steps@.take(i as int),
                    prompt_map@,
                    script_map@,
                )[k]);
                assert(steps@.take(i as int)[k] == steps@[k]);
            }
        }
        i = i + 1;
        assert(mapping_view(out@) =~= step_mapping_spec(
            steps@.take(i as int),
            prompt_map@,
            script_map@,
        ));
    }
    assert(steps@.take(steps@.len() as int) =~= steps@);
    Some(out)
}

/// Law: two steps that reference the same entity are remapped to the same
/// copy, and each entry keeps its step's kind.
pub proof fn lemma_mapping_consistent(
    steps: Seq<ChainStepRef>,
    pm: Map<i64, i64>,
    sm: Map<i64, i64>,
    i: int,
    j: int,
)
    requires
        all_mapped(steps, pm, sm),
        0 <= i < steps.len(),
        0 <= j < steps.len(),
        steps[i].step_type == steps[j].step_type,
        step_source(steps[i]) == step_source(steps[j]),
    ensures
        step_mapping_spec(steps, pm, sm)[i] == step_mapping_spec(steps, pm, sm)[j],
{
}

/// Law: every entity a plan lists has no copy yet, and none is listed
/// twice, so planning and then copying never copies an entity that already
/// has a copy, nor one entity twice.
pub proof fn lemma_pending_unmapped_and_distinct(
    steps: Seq<ChainStepRef>,
    pm: Map<i64, i64>,
    sm: Map<i64, i64>,
)
    ensures
        forall|k: int|
            0 <= k < pending_copies(steps, pm, sm).len() ==> {
                let e = #[trigger] pending_copies(steps, pm, sm)[k];
                if e.0 {
                    !pm.contains_key(e.1)
                } else {
                    !sm.contains_key(e.1)
                }
            },
        forall|k: int, l: int|
            0 <= k < l < pending_copies(steps, pm, sm).len() ==> #[trigger] pending_copies(
                steps,
                pm,
                sm,
            )[k] != #[trigger] pending_copies(steps, pm, sm)[l],
    decreases steps.len(),
{
    if steps.len() > 0 {
        lemma_pending_unmapped_and_distinct(steps.drop_last(), pm, sm);
        let p = pending_copies(steps.drop_last(), pm, sm);
        let q = pending_copies(steps, pm, sm);
        let s = steps.last();
        if q.len() > p.len() {
            assert(q =~= p.push((s.step_type is Prompt, step_source(s)->0)));
            assert forall|k: int, l: int| 0 <= k < l < q.len() implies #[trigger] q[k]
                != #[trigger] q[l] by {
                if l == q.len() - 1 {
                    assert(q[k] == p[k]);
                    assert(!p.contains(q[l]));
                } else {
                    assert(q[k] == p[k] && q[l] == p[l]);
                }
            }
            assert forall|k: int| 0 <= k < q.len() implies {
                let e = #[trigger] q[k];
                if e.0 {
                    !pm.contains_key(e.1)
                } else {
                    !sm.contains_key(e.1)
                }
            } by {
                if k < p.len() {
                    assert(q[k] == p[k]);
                }
            }
        } else {
            assert(q =~= p);
        }
    }
}

/// Law: a chain whose steps all map to copies has no dangling step; with
/// `lemma_plan_completes_mapping`, once its plan is copied a chain maps
/// exactly when none of its steps dangles.
pub proof fn lemma_mapped_steps_resolved(steps: Seq<ChainStepRef>, pm: Map<i64, i64>, sm: Map<i64, i64>)
    requires
        all_mapped(steps, pm, sm),
    ensures
        all_resolvable(steps),
{
    assert forall|i: int| 0 <= i < steps.len() implies (#[trigger] step_source(steps[i])) is Some by {
        assert(mapped_target(steps[i], pm, sm) is Some);
    }
}

// ---------------------------------------------------------------------------
// Copy runs
// ---------------------------------------------------------------------------

/// A copy in progress: the summary so far and, for prompts and scripts, the
/// id of each source entity's counterpart at the target user.
pub struct CopyRun {
    pub summary: CopySummary,
    pub prompt_map: HashMap<i64, i64>,
    pub script_map: HashMap<i64, i64>,
}

/// The entity type name recorded for a prompt or a script.
pub open spec fn item_type_name(is_prompt: bool) -> Seq<char> {
    if is_prompt {
        "prompt"@
    } else {
        "script"@
    }
}

/// The summary's counters are those of `b` (the skipped list may differ).
pub open spec fn same_counters(a: CopySummary, b: CopySummary) -> bool {
    &&& a.prompts_copied == b.prompts_copied
    &&& a.scripts_copied == b.scripts_copied
    &&& a.chains_copied == b.chains_copied
    &&& a.tags_created == b.tags_created
    &&& a.categories_created == b.categories_created
    &&& a.collections_created == b.collections_created
}

/// `b`'s skipped list is `a`'s with one more entry at the end.
pub open spec fn skipped_one_more(
    a: CopySummary,
    b: CopySummary,
    entity_type: Seq<char>,
    title: Seq<char>,
    reason: Seq<char>,
) -> bool {
    &&& b.skipped@.len() == a.skipped@.len() + 1
    &&& forall|i: int| 0 <= i < a.skipped@.len() ==> b.skipped@[i] == a.skipped@[i]
    &&& b.skipped@.last().entity_type@ == entity_type
    &&& b.skipped@.last().title@ == title
    &&& b.skipped@.last().reason@ == reason
}

impl CopyRun {
    /// The counterpart map of prompts or of scripts.
    pub open spec fn map_of(&self, is_prompt: bool) -> Map<i64, i64> {
        if is_prompt {
            self.prompt_map@
        } else {
            self.script_map@
        }
    }

    /// Starts a copy from one user to another: an empty summary and no
    /// counterparts yet; an error when both users are the same.
    pub fn begin(source_user_id: i64, target_user_id: i64) -> (r: Result<CopyRun, CoreError>)
        ensures
            r is Ok <==> source_user_id != target_user_id,
            r matches Ok(run) ==> is_empty_summary(run.summary) && run.prompt_map@
                == Map::<i64, i64>::empty() && run.script_map@ == Map::<i64, i64>::empty(),
            r matches Err(e) ==> same_user_error(e),
    {
        match start_copy(source_user_id, target_user_id) {
            Ok(summary) => Ok(CopyRun { summary, prompt_map: HashMap::new(), script_map: HashMap::new() }),
            Err(e) => Err(e),
        }
    }

    /// A source prompt or script of a bulk copy, after the target user's
    /// item with the same title and content has been looked up. When there
    /// is one, the source maps to it and is listed once as skipped, and
    /// `false` is returned; otherwise nothing changes and `true` (copy it)
    /// is returned.
    pub fn item_found(&mut self, is_prompt: bool, source_id: i64, title: &str, identical: Option<i64>) -> (copy: bool)
        ensures
            copy == (identical is None),
            identical is None ==> *final(self) == *old(self),
            identical matches Some(t) ==> {
                &&& final(self).map_of(is_prompt) == old(self).map_of(is_prompt).insert(source_id, t)
                &&& final(self).map_of(!is_prompt) == old(self).map_of(!is_prompt)
                &&& same_counters(final(self).summary, old(self).summary)
                &&& skipped_one_more(
                    old(self).summary,
                    final(self).summary,
                    item_type_name(is_prompt),
                    title@,
                    reason_identical(),
                )
            },
    {
        match identical {
            None => true,
            Some(t) => {
                if is_prompt {
                    self.prompt_map.insert(source_id, t);
                    self.summary.skip("prompt", title, "Already exists with identical title and content");
                } else {
                    self.script_map.insert(source_id, t);
                    self.summary.skip("script", title, "Already exists with identical title and content");
                }
                proof {
                    reveal_strlit("prompt");
                    reveal_strlit("script");
                    reveal_strlit("Already exists with identical title and content");
                }
                false
            },
        }
    }

    /// A prompt or script has its counterpart at the target: the source
    /// maps to it, and it counts as copied when it was newly created (an
    /// identical item that was reused does not).
    pub fn entity_done(&mut self, is_prompt: bool, source_id: i64, target_id: i64, created: bool)
        requires
            created ==> old(self).summary.copied(
                if is_prompt {
                    CopiedKind::Prompt
                } else {
                    CopiedKind::Script
                },
            ) < usize::MAX,
        ensures
            final(self).map_of(is_prompt) == old(self).map_of(is_prompt).insert(source_id, target_id),
            final(self).map_of(!is_prompt) == old(self).map_of(!is_prompt),
            final(self).summary.skipped@ == old(self).summary.skipped@,
            final(self).summary.prompts_copied == old(self).summary.prompts_copied + (if created
                && is_prompt {
                1int
            } else {
                0int
            }),
            final(self).summary.scripts_copied == old(self).summary.scripts_copied + (if created
                && !is_prompt {
                1int
            } else {
                0int
            }),
            final(self).summary.chains_copied == old(self).summary.chains_copied,
            forall|k: TaxonomyKind| final(self).summary.created(k) == old(self).summary.created(k),
    {
        if is_prompt {
            self.prompt_map.insert(source_id, target_id);
            if created {
                self.summary.record_copy(CopiedKind::Prompt);
                assert(self.summary.copied(CopiedKind::Script) == old(self).summary.copied(CopiedKind::Script));
                assert(self.summary.copied(CopiedKind::Chain) == old(self).summary.copied(CopiedKind::Chain));
            }
        } else {
            self.script_map.insert(source_id, target_id);
            if created {
                self.summary.record_copy(CopiedKind::Script);
                assert(self.summary.copied(CopiedKind::Prompt) == old(self).summary.copied(CopiedKind::Prompt));
                assert(self.summary.copied(CopiedKind::Chain) == old(self).summary.copied(CopiedKind::Chain));
            }
        }
    }

    /// The prompts and scripts a chain's steps reference that have no
    /// counterpart yet, each once, in order of first use.
    pub fn chain_plan(&self, steps: &[ChainStepRef]) -> (r: Vec<PendingCopy>)
        ensures
            pending_view(r@) == pending_copies(steps@, self.prompt_map@, self.script_map@),
    {
        plan_step_copies(steps, &self.prompt_map, &self.script_map)
    }

    /// A chain of a bulk copy once its plan has been copied: its steps
    /// remapped to the counterparts when every step maps (the chain is then
    /// written by the caller); otherwise the chain is listed once as skipped
    /// for its dangling steps and nothing is returned.
    pub fn chain_steps(&mut self, title: &str, steps: &[ChainStepRef]) -> (r: Option<Vec<(String, i64)>>)
        ensures
            r is Some <==> all_mapped(steps@, old(self).prompt_map@, old(self).script_map@),
            r matches Some(v) ==> mapping_view(v@) == step_mapping_spec(
                steps@,
                old(self).prompt_map@,
                old(self).script_map@,
            ) && *final(self) == *old(self),
            r is None ==> {
                &&& final(self).prompt_map@ == old(self).prompt_map@
                &&& final(self).script_map@ == old(self).script_map@
                &&& same_counters(final(self).summary, old(self).summary)
                &&& skipped_one_more(
                    old(self).summary,
                    final(self).summary,
                    "chain"@,
                    title@,
                    reason_invalid_steps(),
                )
            },
    {
        let r = build_step_mapping(steps, &self.prompt_map, &self.script_map);
        if r.is_none() {
            self.summary.skip("chain", title, "Contains invalid or unresolvable steps");
            proof {
                reveal_strlit("chain");
                reveal_strlit("Contains invalid or unresolvable steps");
            }
        }
        r
    }

    /// A chain has been written at the target: it counts as copied.
    pub fn chain_done(&mut self)
        requires
            old(self).summary.chains_copied < usize::MAX,
        ensures
            final(self).summary.chains_copied == old(self).summary.chains_copied + 1,
            final(self).summary.prompts_copied == old(self).summary.prompts_copied,
            final(self).summary.scripts_copied == old(self).summary.scripts_copied,
            forall|k: TaxonomyKind| final(self).summary.created(k) == old(self).summary.created(k),
            final(self).summary.skipped@ == old(self).summary.skipped@,
            final(self).prompt_map@ == old(self).prompt_map@,
            final(self).script_map@ == old(self).script_map@,
    {
        self.summary.record_copy(CopiedKind::Chain);
        assert(self.summary.copied(CopiedKind::Prompt) == old(self).summary.copied(CopiedKind::Prompt));
        assert(self.summary.copied(CopiedKind::Script) == old(self).summary.copied(CopiedKind::Script));
    }
}

/// How a single chain copy starts.
pub enum ChainCopyStart {
    /// Some step dangles: the chain is listed as skipped and nothing is
    /// written.
    Skipped(CopySummary),
    /// Every step resolved: the run, and the entities to copy first.
    Proceed(CopyRun, Vec<PendingCopy>),
}

/// Starts copying one chain of `owner_id` to another user: an error when
/// the target is the owner; when some step dangles, a summary that lists
/// the chain once as skipped and counts nothing, with nothing to write;
/// otherwise a fresh run and the referenced prompts and scripts to copy,
/// each once, in order of first use.
pub fn begin_chain_copy(owner_id: i64, target_user_id: i64, title: &str, steps: &[ChainStepRef]) -> (r:
    Result<ChainCopyStart, CoreError>)
    ensures
        r is Err <==> owner_id == target_user_id,
        r matches Err(e) ==> same_user_error(e),
        r matches Ok(ChainCopyStart::Skipped(_)) <==> owner_id != target_user_id && !all_resolvable(
            steps@,
        ),
        r matches Ok(ChainCopyStart::Skipped(s)) ==> {
            &&& s.prompts_copied == 0 && s.scripts_copied == 0 && s.chains_copied == 0
            &&& s.tags_created == 0 && s.categories_created == 0 && s.collections_created == 0
            &&& s.skipped@.len() == 1
            &&& s.skipped@[0].entity_type@ == "chain"@
            &&& s.skipped@[0].title@ == title@
            &&& s.skipped@[0].reason@ == reason_unresolvable()
        },
        r matches Ok(ChainCopyStart::Proceed(run, plan)) ==> {
            &&& is_empty_summary(run.summary)
            &&& run.prompt_map@ == Map::<i64, i64>::empty()
            &&& run.script_map@ == Map::<i64, i64>::empty()
            &&& pending_view(plan@) == pending_copies(
                steps@,
                Map::<i64, i64>::empty(),
                Map::<i64, i64>::empty(),
            )
        },
{
    let mut run = match CopyRun::begin(owner_id, target_user_id) {
        Ok(run) => run,
        Err(e) => {
            return Err(e);
        },
    };
    if !steps_resolvable(steps) {
        run.summary.skip("chain", title, "Contains unresolvable steps");
        proof {
            reveal_strlit("chain");
            reveal_strlit("Contains unresolvable steps");
        }
        return Ok(ChainCopyStart::Skipped(run.summary));
    }
    let plan = run.chain_plan(steps);
    Ok(ChainCopyStart::Proceed(run, plan))
}

} // verus!
