//! Many-to-many associations between prompts, scripts or chains and the
//! user's tags, categories and collections: which links to remove and add
//! to reach a desired set, whether referenced taxonomy entries belong to the
//! acting user, and the shape of a bulk update request.
use vstd::prelude::*;
use vstd::string::StringExecFns;
use crate::errors::CoreError;
use crate::text::{append_int, int_decimal};

verus! {

/// Whether `x` occurs in the slice.
pub fn contains_id(v: &[i64], x: i64) -> (b: bool)
    ensures
        b == v@.contains(x),
{
    let mut i: usize = 0;
    while i < v.len()
        invariant
            i <= v@.len(),
            forall|k: int| 0 <= k < i ==> v@[k] != x,
        decreases v@.len() - i,
    {
        if v[i] == x {
            assert(v@[i as int] == x);
            return true;
        }
        i = i + 1;
    }
    false
}

/// The elements of `a` that are not in `b`, each once, in order of first
/// occurrence in `a`.
pub fn id_difference(a: &[i64], b: &[i64]) -> (r: Vec<i64>)
    ensures
        r@.no_duplicates(),
        r@.to_set() == a@.to_set().difference(b@.to_set()),
{
    let mut r: Vec<i64> = Vec::new();
    let mut i: usize = 0;
    while i < a.len()
        invariant
            i <= a@.len(),
            r@.no_duplicates(),
            r@.to_set() == a@.take(i as int).to_set().difference(b@.to_set()),
        decreases a@.len() - i,
    {
        let x = a[i];
        let in_b = contains_id(b, x);
        let in_r = contains_id(r.as_slice(), x);
        proof {
            assert(a@.take(i + 1) =~= a@.take(i as int).push(x));
            broadcast use vstd::seq_lib::group_seq_properties;
        }
        if !in_b && !in_r {
            let ghost r_old = r@;
            r.push(x);
            proof {
                lemma_push_contains(r_old, x);
                lemma_push_contains(a@.take(i as int), x);
                assert(r@ =~= r_old.push(x));
                assert forall|y: i64| #[trigger] r@.to_set().contains(y) == a@.take(i + 1).to_set().difference(b@.to_set()).contains(y) by {
                    assert(r@.to_set().contains(y) == r@.contains(y));
                    assert(r_old.to_set().contains(y) == r_old.contains(y));
                    assert(a@.take(i + 1).to_set().contains(y) == a@.take(i + 1).contains(y));
                    assert(a@.take(i as int).to_set().contains(y) == a@.take(i as int).contains(y));
                    assert(b@.to_set().contains(y) == b@.contains(y));
                }
                assert(r@.to_set() =~= a@.take(i + 1).to_set().difference(b@.to_set()));
            }
        } else {
            proof {
                assert(r@.to_set() =~= a@.take(i + 1).to_set().difference(b@.to_set())) by {
                    assert forall|y: i64| a@.take(i + 1).to_set().difference(b@.to_set()).contains(y) implies r@.to_set().contains(y) by {
                        if y != x {
                            let k = choose|k: int| 0 <= k < a@.take(i + 1).len() && #[trigger] a@.take(i + 1)[k] == y;
                            assert(a@.take(i as int)[k] == y);
                            assert(a@.take(i as int).contains(y));
                        }
                    }
                }
            }
        }
        i = i + 1;
    }
    assert(a@.take(a@.len() as int) =~= a@);
    r
}

proof fn lemma_push_contains(s: Seq<i64>, x: i64)
    ensures
        forall|y: i64| #[trigger] s.push(x).contains(y) <==> s.contains(y) || y == x,
{
    assert forall|y: i64| #[trigger] s.push(x).contains(y) <==> s.contains(y) || y == x by {
        if s.contains(y) {
            let k = choose|k: int| 0 <= k < s.len() && s[k] == y;
            assert(s.push(x)[k] == y);
        }
        if y == x {
            assert(s.push(x)[s.len() as int] == x);
        }
        if s.push(x).contains(y) && y != x {
            let k = choose|k: int| 0 <= k < s.push(x).len() && s.push(x)[k] == y;
            assert(s[k] == y);
        }
    }
}

/// The link changes that take an entity from its current associations to
/// the desired ones.
pub struct AssociationPlan {
    /// Ids whose links must be removed.
    pub unlink: Vec<i64>,
    /// Ids whose links must be added.
    pub link: Vec<i64>,
}

/// Computes the set difference between the currently linked ids and the
/// desired ids: links in (current - desired) are removed, links in
/// (desired - current) are added; each id appears at most once.
pub fn sync_associations(current_ids: &[i64], desired_ids: &[i64]) -> (p: AssociationPlan)
    ensures
        p.unlink@.no_duplicates(),
        p.link@.no_duplicates(),
        p.unlink@.to_set() == current_ids@.to_set().difference(desired_ids@.to_set()),
        p.link@.to_set() == desired_ids@.to_set().difference(current_ids@.to_set()),
{
    let unlink = id_difference(current_ids, desired_ids);
    let link = id_difference(desired_ids, current_ids);
    AssociationPlan { unlink, link }
}

/// Law: applying the plan to the current links gives exactly the desired
/// links, and no id is both removed and added.
pub proof fn lemma_sync_reaches_desired(current: Set<i64>, desired: Set<i64>)
    ensures
        current.difference(current.difference(desired)).union(desired.difference(current))
            == desired,
        current.difference(desired).disjoint(desired.difference(current)),
{
    assert(current.difference(current.difference(desired)).union(desired.difference(current))
        =~= desired);
}

// ---------------------------------------------------------------------------
// Taxonomy ownership
// ---------------------------------------------------------------------------

/// A referenced taxonomy entry: its id and its owner's id (`None` when no
/// entry with that id exists).
pub struct TaxonomyRef {
    pub id: i64,
    pub owner: Option<i64>,
}

/// Whether the entry exists and belongs to the user.
pub open spec fn owned_by(r: TaxonomyRef, user_id: i64) -> bool {
    r.owner == Some(user_id)
}

/// Whether every entry exists and belongs to the user.
pub open spec fn all_owned(refs: Seq<TaxonomyRef>, user_id: i64) -> bool {
    forall|i: int| 0 <= i < refs.len() ==> owned_by(#[trigger] refs[i], user_id)
}

/// The error for the first entry of a list that fails: not found, or
/// belonging to another user.
pub open spec fn taxonomy_error_for(
    e: CoreError,
    r: TaxonomyRef,
    entity: Seq<char>,
    field: Seq<char>,
) -> bool {
    match r.owner {
        None => e matches CoreError::NotFound { entity: en, id } && en@ == entity && id == r.id,
        Some(_) => e matches CoreError::Validation { field: f, message: m } && f@ == field && m@
            == entity + " "@ + int_decimal(r.id as int) + " belongs to another user"@,
    }
}

/// Whether `e` is the error for the first failing entry of the list.
pub open spec fn first_failure(
    e: CoreError,
    refs: Seq<TaxonomyRef>,
    user_id: i64,
    entity: Seq<char>,
    field: Seq<char>,
) -> bool {
    exists|i: int|
        0 <= i < refs.len() && !owned_by(#[trigger] refs[i], user_id) && all_owned(
            refs.take(i),
            user_id,
        ) && taxonomy_error_for(e, refs[i], entity, field)
}

fn check_list(refs: &[TaxonomyRef], user_id: i64, entity: &str, field: &str) -> (r: Result<
    (),
    CoreError,
>)
    ensures
        r is Ok <==> all_owned(refs@, user_id),
        r matches Err(e) ==> first_failure(e, refs@, user_id, entity@, field@),
{
    let mut i: usize = 0;
    while i < refs.len()
        invariant
            i <= refs@.len(),
            all_owned(refs@.take(i as int), user_id),
        decreases refs@.len() - i,
    {
        let r = &refs[i];
        match r.owner {
            None => {
                let e = CoreError::NotFound { entity: String::from_str(entity), id: r.id };
                assert(taxonomy_error_for(e, refs@[i as int], entity@, field@));
                assert(!owned_by(refs@[i as int], user_id));
                return Err(e);
            },
            Some(o) => {
                if o != user_id {
                    let mut m = String::from_str(entity);
                    m.append(" ");
                    append_int(&mut m, r.id);
                    m.append(" belongs to another user");
                    let e = CoreError::Validation { field: String::from_str(field), message: m };
                    assert(taxonomy_error_for(e, refs@[i as int], entity@, field@));
                    assert(!owned_by(refs@[i as int], user_id));
                    return Err(e);
                }
            },
        }
        assert forall|k: int| 0 <= k < i + 1 implies owned_by(
            #[trigger] refs@.take(i + 1)[k],
            user_id,
        ) by {
            if k < i {
                assert(refs@.take(i + 1)[k] == refs@.take(i as int)[k]);
            }
        }
        i = i + 1;
    }
    assert(refs@.take(refs@.len() as int) =~= refs@);
    Ok(())
}

/// Verifies that all referenced tags, categories and collections exist and
/// belong to the user, checking tags first, then categories, then
/// collections, each list in order; the first failing entry decides the
/// error: `NotFound` when it does not exist, `Validation` when it belongs to
/// another user.
pub fn verify_taxonomy_ownership(
    user_id: i64,
    tags: &[TaxonomyRef],
    categories: &[TaxonomyRef],
    collections: &[TaxonomyRef],
) -> (r: Result<(), CoreError>)
    ensures
        r is Ok <==> all_owned(tags@, user_id) && all_owned(categories@, user_id) && all_owned(
            collections@,
            user_id,
        ),
        r matches Err(e) ==> {
            ||| first_failure(e, tags@, user_id, "Tag"@, "tag_ids"@)
            ||| all_owned(tags@, user_id) && first_failure(
                e,
                categories@,
                user_id,
                "Category"@,
                "category_ids"@,
            )
            ||| all_owned(tags@, user_id) && all_owned(categories@, user_id) && first_failure(
                e,
                collections@,
                user_id,
                "Collection"@,
                "collection_ids"@,
            )
        },
{
    check_list(tags, user_id, "Tag", "tag_ids")?;
    check_list(categories, user_id, "Category", "category_ids")?;
    check_list(collections, user_id, "Collection", "collection_ids")
}

// ---------------------------------------------------------------------------
// Bulk updates
// ---------------------------------------------------------------------------

/// Maximum number of IDs allowed in a single bulk-update request.
pub const MAX_BULK_IDS: usize = 1000;

/// Input for bulk update operations, shared across prompts, scripts and
/// chains.
pub struct BulkUpdateInput {
    pub ids: Vec<i64>,
    pub set_favorite: Option<bool>,
    pub set_archived: Option<bool>,
    pub add_tag_ids: Vec<i64>,
    pub remove_tag_ids: Vec<i64>,
    pub add_category_ids: Vec<i64>,
    pub remove_category_ids: Vec<i64>,
    pub add_collection_ids: Vec<i64>,
    pub remove_collection_ids: Vec<i64>,
}

/// Whether the request asks for at least one change.
pub open spec fn has_operations_spec(b: BulkUpdateInput) -> bool {
    ||| b.set_favorite is Some
    ||| b.set_archived is Some
    ||| b.add_tag_ids@.len() > 0
    ||| b.remove_tag_ids@.len() > 0
    ||| b.add_category_ids@.len() > 0
    ||| b.remove_category_ids@.len() > 0
    ||| b.add_collection_ids@.len() > 0
    ||| b.remove_collection_ids@.len() > 0
}

impl BulkUpdateInput {
    /// Returns true if at least one operation field is set.
    pub fn has_operations(&self) -> (b: bool)
        ensures
            b == has_operations_spec(*self),
    {
        self.set_favorite.is_some() || self.set_archived.is_some() || !self.add_tag_ids.is_empty()
            || !self.remove_tag_ids.is_empty() || !self.add_category_ids.is_empty()
            || !self.remove_category_ids.is_empty() || !self.add_collection_ids.is_empty()
            || !self.remove_collection_ids.is_empty()
    }
}

/// Law: a bulk request asks for a change exactly when it sets a flag or
/// names at least one id to add or remove, whichever list that is; so
/// `validate_bulk_update` accepts such a request and refuses only one that
/// sets nothing and whose lists are all empty.
pub proof fn lemma_any_operation_counts(b: BulkUpdateInput)
    ensures
        b.set_favorite is Some ==> has_operations_spec(b),
        b.set_archived is Some ==> has_operations_spec(b),
        b.add_tag_ids@.len() > 0 ==> has_operations_spec(b),
        b.remove_tag_ids@.len() > 0 ==> has_operations_spec(b),
        b.add_category_ids@.len() > 0 ==> has_operations_spec(b),
        b.remove_category_ids@.len() > 0 ==> has_operations_spec(b),
        b.add_collection_ids@.len() > 0 ==> has_operations_spec(b),
        b.remove_collection_ids@.len() > 0 ==> has_operations_spec(b),
        (b.set_favorite is None && b.set_archived is None && b.add_tag_ids@.len() == 0
            && b.remove_tag_ids@.len() == 0 && b.add_category_ids@.len() == 0
            && b.remove_category_ids@.len() == 0 && b.add_collection_ids@.len() == 0
            && b.remove_collection_ids@.len() == 0) ==> !has_operations_spec(b),
{
}

/// The service-level check of a bulk request: at least one operation must
/// be requested (the id list is checked where the request arrives).
pub fn validate_bulk_update(input: &BulkUpdateInput) -> (r: Result<(), CoreError>)
    ensures
        r is Ok <==> has_operations_spec(*input),
        r matches Err(e) ==> (e matches CoreError::Validation { field, message } && field@
            == "operations"@ && message@ == "At least one operation must be specified"@),
{
    if !input.has_operations() {
        return Err(
            CoreError::Validation {
                field: String::from_str("operations"),
                message: String::from_str("At least one operation must be specified"),
            },
        );
    }
    Ok(())
}

/// The bulk operation may touch only the user's own items: `NotFound` for
/// the first id whose owner differs (or that does not exist), in request
/// order.
pub fn check_bulk_owners(entity: &str, user_id: i64, owners: &[TaxonomyRef]) -> (r: Result<
    usize,
    CoreError,
>)
    ensures
        r is Ok <==> all_owned(owners@, user_id),
        r matches Ok(n) ==> n == owners@.len(),
        r matches Err(e) ==> exists|i: int|
            0 <= i < owners@.len() && !owned_by(#[trigger] owners@[i], user_id) && all_owned(
                owners@.take(i),
                user_id,
            ) && (e matches CoreError::NotFound { entity: en, id } && en@ == entity@ && id
                == owners@[i].id),
{
    let mut i: usize = 0;
    while i < owners.len()
        invariant
            i <= owners@.len(),
            all_owned(owners@.take(i as int), user_id),
        decreases owners@.len() - i,
    {
        let ok = match owners[i].owner {
            Some(o) => o == user_id,
            None => false,
        };
        if !ok {
            let e = CoreError::NotFound { entity: String::from_str(entity), id: owners[i].id };
            assert(!owned_by(owners@[i as int], user_id));
            return Err(e);
        }
        assert forall|k: int| 0 <= k < i + 1 implies owned_by(
            #[trigger] owners@.take(i + 1)[k],
            user_id,
        ) by {
            if k < i {
                assert(owners@.take(i + 1)[k] == owners@.take(i as int)[k]);
            }
        }
        i = i + 1;
    }
    assert(owners@.take(owners@.len() as int) =~= owners@);
    Ok(owners.len())
}

} // verus!
