//! The check that every required environment variable was found before any
//! operation runs.
use vstd::prelude::*;

verus! {

/// The names whose lookup failed, in the order they were asked for.
pub open spec fn missing_names(names: Seq<Seq<char>>, present: Seq<bool>) -> Seq<Seq<char>>
    decreases names.len(),
{
    if names.len() == 0 {
        seq![]
    } else {
        let rest = missing_names(names.drop_last(), present);
        if present[names.len() - 1] {
            rest
        } else {
            rest.push(names.last())
        }
    }
}

/// Whether every lookup succeeded.
pub open spec fn all_present(present: Seq<bool>) -> bool {
    forall|i: int| 0 <= i < present.len() ==> #[trigger] present[i]
}

pub open spec fn names_view(names: Seq<String>) -> Seq<Seq<char>> {
    names.map_values(|s: String| s@)
}

/// The names of `env_var_names` whose lookup, given at the same position of
/// `present`, failed.
pub fn missing_env_vars(env_var_names: &[String], present: &[bool]) -> (r: Vec<String>)
    requires
        env_var_names@.len() == present@.len(),
    ensures
        names_view(r@) == missing_names(names_view(env_var_names@), present@),
{
    let mut r: Vec<String> = Vec::new();
    let mut i: usize = 0;
    while i < env_var_names.len()
        invariant
            i <= env_var_names@.len() == present@.len(),
            names_view(r@) == missing_names(names_view(env_var_names@).take(i as int), present@),
        decreases env_var_names@.len() - i,
    {
        let ghost names = names_view(env_var_names@);
        assert(names.take(i + 1).drop_last() =~= names.take(i as int));
        if !present[i] {
            r.push(env_var_names[i].clone());
            assert(names_view(r@) =~= missing_names(names.take(i as int), present@).push(
                names[i as int],
            ));
        }
        i = i + 1;
    }
    assert(names_view(env_var_names@).take(i as int) =~= names_view(env_var_names@));
    r
}

/// Whether every required environment variable was found, given the outcome
/// of each lookup.
pub fn are_env_vars_set(present: &[bool]) -> (r: bool)
    ensures
        r == all_present(present@),
{
    let mut all_set = true;
    let mut i: usize = 0;
    while i < present.len()
        invariant
            i <= present@.len(),
            all_set == (forall|j: int| 0 <= j < i ==> #[trigger] present@[j]),
        decreases present@.len() - i,
    {
        if !present[i] {
            all_set = false;
        }
        i = i + 1;
    }
    all_set
}

/// Every variable was found exactly when no name is reported missing.
pub proof fn lemma_all_set_iff_none_missing(names: Seq<Seq<char>>, present: Seq<bool>)
    requires
        names.len() == present.len(),
    ensures
        all_present(present) <==> missing_names(names, present).len() == 0,
    decreases names.len(),
{
    if names.len() > 0 {
        let n = (names.len() - 1) as int;
        lemma_all_set_iff_none_missing(names.drop_last(), present.drop_last());
        lemma_missing_ignores_tail(names.drop_last(), present, present.drop_last());
        if all_present(present) {
            assert(all_present(present.drop_last())) by {
                assert forall|i: int| 0 <= i < present.drop_last().len() implies #[trigger]
                    present.drop_last()[i] by {
                    assert(present[i]);
                }
            }
        }
        if missing_names(names, present).len() == 0 {
            assert(present[n]);
            assert forall|i: int| 0 <= i < present.len() implies #[trigger] present[i] by {
                if i < n {
                    assert(present.drop_last()[i]);
                }
            }
        }
    }
}

/// Only the lookups at the positions of `names` matter.
proof fn lemma_missing_ignores_tail(names: Seq<Seq<char>>, a: Seq<bool>, b: Seq<bool>)
    requires
        names.len() <= a.len(),
        names.len() <= b.len(),
        forall|i: int| 0 <= i < names.len() ==> a[i] == b[i],
    ensures
        missing_names(names, a) == missing_names(names, b),
    decreases names.len(),
{
    if names.len() > 0 {
        lemma_missing_ignores_tail(names.drop_last(), a, b);
    }
}

} // verus!
