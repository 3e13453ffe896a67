//! The choice of the variables that hold in one environment.

use crate::api_client::DEFAULT_ENVIRONMENT;
use crate::gitlab_api::{GitLabVariable, VariableView};
use vstd::prelude::*;
use vstd::string::*;

verus! {

/// Whether a variable holds in `environment`: its scope is that
/// environment, or every environment.
pub open spec fn in_scope(variable: VariableView, environment: Seq<char>) -> bool {
    variable.environment_scope == DEFAULT_ENVIRONMENT@ || variable.environment_scope
        == environment
}

/// The test by which variables are kept for `environment`.
pub open spec fn scope_of(environment: Seq<char>) -> spec_fn(VariableView) -> bool {
    |variable: VariableView| in_scope(variable, environment)
}

/// The variables that hold in `environment`, in their order.
pub open spec fn variables_in_scope(variables: Seq<VariableView>, environment: Seq<char>) -> Seq<
    VariableView,
> {
    variables.filter(scope_of(environment))
}

/// Keeps the variables that hold in `environment`: those scoped to it and
/// those scoped to every environment. Their order stays.
pub fn filter_by_environment(
    variables: &[GitLabVariable],
    environment: &str,
) -> (kept: Vec<GitLabVariable>)
    ensures
        kept.deep_view() == variables_in_scope(variables.deep_view(), environment@),
{
    let every = String::from_str(DEFAULT_ENVIRONMENT);
    let wanted = String::from_str(environment);
    let mut kept: Vec<GitLabVariable> = Vec::new();
    let mut i: usize = 0;
    proof {
        assert(variables.deep_view().take(0) =~= Seq::empty());
        assert(kept.deep_view() =~= Seq::empty());
    }
    while i < variables.len()
        invariant
            i <= variables.len(),
            every@ == DEFAULT_ENVIRONMENT@,
            wanted@ == environment@,
            kept.deep_view() == variables_in_scope(
                variables.deep_view().take(i as int),
                environment@,
            ),
        decreases variables.len() - i,
    {
        let variable = &variables[i];
        let ghost before = kept.deep_view();
        proof {
            let seen = variables.deep_view().take(i as int);
            assert(variables.deep_view().take(i + 1) =~= seen.push(variable@));
            seen.lemma_filter_push(variable@, scope_of(environment@));
        }
        if variable.environment_scope == every || variable.environment_scope == wanted {
            kept.push(variable.clone());
            proof {
                assert(kept.deep_view() =~= before.push(variable@));
            }
        }
        i = i + 1;
    }
    proof {
        assert(variables.deep_view().take(i as int) =~= variables.deep_view());
    }
    kept
}

/// Keeping the variables of an environment twice keeps what keeping them
/// once keeps.
pub proof fn lemma_filter_is_idempotent(variables: Seq<VariableView>, environment: Seq<char>)
    ensures
        variables_in_scope(variables_in_scope(variables, environment), environment)
            == variables_in_scope(variables, environment),
    decreases variables.len(),
{
    reveal(Seq::filter);
    if variables.len() > 0 {
        let rest = variables.drop_last();
        lemma_filter_is_idempotent(rest, environment);
        if in_scope(variables.last(), environment) {
            rest.filter(scope_of(environment)).lemma_filter_push(
                variables.last(),
                scope_of(environment),
            );
        }
    }
}

/// Every variable that is kept for an environment holds in it and is one of
/// the variables that came, and every variable that came and holds in the
/// environment is kept.
pub proof fn lemma_filter_keeps_scope(variables: Seq<VariableView>, environment: Seq<char>)
    ensures
        forall|i: int|
            0 <= i < variables_in_scope(variables, environment).len() ==> {
                &&& in_scope(#[trigger] variables_in_scope(variables, environment)[i], environment)
                &&& variables.contains(variables_in_scope(variables, environment)[i])
            },
        forall|i: int|
            0 <= i < variables.len() && in_scope(#[trigger] variables[i], environment)
                ==> variables_in_scope(variables, environment).contains(variables[i]),
        variables_in_scope(variables, environment).len() <= variables.len(),
{
    broadcast use vstd::seq_lib::group_filter_ensures;

    let kept = variables_in_scope(variables, environment);
    assert forall|i: int| 0 <= i < kept.len() implies in_scope(#[trigger] kept[i], environment)
        && variables.contains(kept[i]) by {
        assert(scope_of(environment)(kept[i]));
        assert(kept.contains(kept[i]));
        variables.lemma_filter_contains_rev(scope_of(environment), kept[i]);
    }
    assert forall|i: int|
        0 <= i < variables.len() && in_scope(
            #[trigger] variables[i],
            environment,
        ) implies kept.contains(variables[i]) by {
        assert(scope_of(environment)(variables[i]));
    }
}

/// A variable that holds in the environment is kept as often as it came,
/// and one that does not is not kept at all.
pub proof fn lemma_filter_counts(
    variables: Seq<VariableView>,
    environment: Seq<char>,
    variable: VariableView,
)
    ensures
        variables_in_scope(variables, environment).to_multiset().count(variable) == if in_scope(
            variable,
            environment,
        ) {
            variables.to_multiset().count(variable)
        } else {
            0
        },
    decreases variables.len(),
{
    broadcast use vstd::multiset::group_multiset_axioms;

    let kept = variables_in_scope(variables, environment);
    if variables.len() == 0 {
        variables.to_multiset_ensures();
        kept.to_multiset_ensures();
        assert(kept.len() == 0) by {
            reveal(Seq::filter);
        }
        vstd::seq_lib::to_multiset_len(kept);
        vstd::seq_lib::to_multiset_len(variables);
    } else {
        let rest = variables.drop_last();
        let last = variables.last();
        assert(variables =~= rest.push(last));
        lemma_filter_counts(rest, environment, variable);
        rest.lemma_filter_push(last, scope_of(environment));
        vstd::seq_lib::to_multiset_build(rest, last);
        if in_scope(last, environment) {
            vstd::seq_lib::to_multiset_build(variables_in_scope(rest, environment), last);
        }
    }
}

/// The same variables in another order keep the same variables for an
/// environment, each as often.
pub proof fn lemma_filter_of_a_permutation(
    a: Seq<VariableView>,
    b: Seq<VariableView>,
    environment: Seq<char>,
)
    requires
        a.to_multiset() == b.to_multiset(),
    ensures
        variables_in_scope(a, environment).to_multiset() == variables_in_scope(
            b,
            environment,
        ).to_multiset(),
{
    assert forall|variable: VariableView|
        variables_in_scope(a, environment).to_multiset().count(variable) == variables_in_scope(
            b,
            environment,
        ).to_multiset().count(variable) by {
        lemma_filter_counts(a, environment, variable);
        lemma_filter_counts(b, environment, variable);
    }
    assert(variables_in_scope(a, environment).to_multiset() =~= variables_in_scope(
        b,
        environment,
    ).to_multiset());
}

} // verus!
