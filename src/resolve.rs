//! Deciding which editor command to use.
//!
//! The order is strict: an environment value wins, then a configured value,
//! then the first of a fixed list of well-known editors that can be started.
//! Starting a candidate is left to the caller, so resolution proceeds in
//! steps: each step either settles on a command or names the next candidate
//! to try, given the outcomes of the candidates tried so far.
use vstd::prelude::*;
use crate::error::ConfigError;

verus! {

/// The well-known editors tried when no preference is given, in the order in
/// which they are tried.
pub open spec fn candidate_editors() -> Seq<Seq<char>> {
    seq!["nvim"@, "vim"@, "vi"@, "nano"@]
}

/// The number of well-known editors.
pub const CANDIDATE_COUNT: usize = 4;

/// The name of the well-known editor at position `i` of the fallback order.
pub fn candidate_editor(i: usize) -> (r: String)
    requires
        i < CANDIDATE_COUNT,
    ensures
        r@ == candidate_editors()[i as int],
{
    if i == 0 {
        "nvim".to_owned()
    } else if i == 1 {
        "vim".to_owned()
    } else if i == 2 {
        "vi".to_owned()
    } else {
        "nano".to_owned()
    }
}

/// What to do next while resolving the editor.
#[derive(Clone, Debug, PartialEq, Eq)]
pub enum ResolveStep {
    /// Use this editor command.
    Use(String),
    /// Try to start the well-known editor of this name, and report whether
    /// it started.
    Probe(String),
}

/// Holds when no candidate among the first `n` outcomes started.
pub open spec fn none_started(started: Seq<bool>, n: int) -> bool {
    forall|j: int| 0 <= j < n ==> !#[trigger] started[j]
}

/// The number of outcomes that count: one for each well-known editor at most.
pub open spec fn outcomes_considered(started: Seq<bool>) -> int {
    if started.len() < CANDIDATE_COUNT {
        started.len() as int
    } else {
        CANDIDATE_COUNT as int
    }
}

/// The position of the first outcome among the first `n` that says the
/// candidate started, or `n` where none does.
pub open spec fn first_started(started: Seq<bool>, n: int) -> int
    decreases n,
{
    if n <= 0 {
        0
    } else {
        let f = first_started(started, n - 1);
        if f < n - 1 {
            f
        } else if started[n - 1] {
            n - 1
        } else {
            n
        }
    }
}

/// A step of resolution over plain values.
pub enum Decision {
    Use(Seq<char>),
    Probe(Seq<char>),
    NotFound,
}

/// The view of an optional string.
pub open spec fn opt_view(o: Option<String>) -> Option<Seq<char>> {
    match o {
        Some(s) => Some(s@),
        None => None,
    }
}

/// The step that a result of [`next_resolve_step`] stands for.
pub open spec fn decision_of(r: Result<ResolveStep, ConfigError>) -> Decision {
    match r {
        Ok(ResolveStep::Use(e)) => Decision::Use(e@),
        Ok(ResolveStep::Probe(e)) => Decision::Probe(e@),
        Err(_) => Decision::NotFound,
    }
}

/// The next step of resolution: the environment value if set, else the
/// configured value if any, else the first well-known editor reported as
/// started, else the next one to try, else nothing is found.
pub open spec fn resolve_decision(
    env_editor: Option<Seq<char>>,
    configured: Option<Seq<char>>,
    started: Seq<bool>,
) -> Decision {
    if env_editor is Some {
        Decision::Use(env_editor->0)
    } else if configured is Some {
        Decision::Use(configured->0)
    } else {
        let n = outcomes_considered(started);
        let f = first_started(started, n);
        if f < n {
            Decision::Use(candidate_editors()[f])
        } else if started.len() < CANDIDATE_COUNT {
            Decision::Probe(candidate_editors()[started.len() as int])
        } else {
            Decision::NotFound
        }
    }
}

/// `first_started` lies between 0 and `n`; every outcome before it is false,
/// and the one at it, if any, is true.
pub proof fn lemma_first_started_bounds(started: Seq<bool>, n: int)
    requires
        0 <= n <= started.len(),
    ensures
        0 <= first_started(started, n) <= n,
        none_started(started, first_started(started, n)),
        first_started(started, n) < n ==> started[first_started(started, n)],
    decreases n,
{
    if n > 0 {
        lemma_first_started_bounds(started, n - 1);
    }
}

/// Once a started candidate has been found, looking at more outcomes does
/// not change which one it is.
pub proof fn lemma_first_started_stable(started: Seq<bool>, a: int, m: int)
    requires
        0 <= a <= m <= started.len(),
        first_started(started, a) < a,
    ensures
        first_started(started, m) == first_started(started, a),
    decreases m - a,
{
    if m > a {
        lemma_first_started_stable(started, a, m - 1);
    }
}

/// `first_started` reads only the first `n` outcomes.
pub proof fn lemma_first_started_prefix(s1: Seq<bool>, s2: Seq<bool>, n: int)
    requires
        0 <= n <= s1.len(),
        n <= s2.len(),
        forall|j: int| 0 <= j < n ==> s1[j] == s2[j],
    ensures
        first_started(s1, n) == first_started(s2, n),
    decreases n,
{
    if n > 0 {
        lemma_first_started_prefix(s1, s2, n - 1);
    }
}

/// With no environment value and no configured value, a run of resolution
/// that tries the well-known editors one after the other, reporting for each
/// whether it started, asks for them in their declared order, settles on the
/// first that starts and tries none after it, and fails only when none starts.
pub proof fn lemma_probe_run(launchable: Seq<bool>)
    requires
        launchable.len() == CANDIDATE_COUNT,
    ensures
        forall|k: int|
            0 <= k < CANDIDATE_COUNT && k <= first_started(launchable, CANDIDATE_COUNT as int)
                ==> #[trigger] resolve_decision(None, None, launchable.take(k)) == Decision::Probe(
                candidate_editors()[k],
            ),
        first_started(launchable, CANDIDATE_COUNT as int) < CANDIDATE_COUNT ==> resolve_decision(
            None,
            None,
            launchable.take(first_started(launchable, CANDIDATE_COUNT as int) + 1),
        ) == Decision::Use(candidate_editors()[first_started(launchable, CANDIDATE_COUNT as int)]),
        first_started(launchable, CANDIDATE_COUNT as int) == CANDIDATE_COUNT ==> resolve_decision(
            None,
            None,
            launchable,
        ) == Decision::NotFound,
{
    let c = CANDIDATE_COUNT as int;
    let f = first_started(launchable, c);
    lemma_first_started_bounds(launchable, c);
    assert forall|k: int| 0 <= k < c && k <= f implies #[trigger] resolve_decision(
        None,
        None,
        launchable.take(k),
    ) == Decision::Probe(candidate_editors()[k]) by {
        let t = launchable.take(k);
        lemma_first_started_bounds(t, k);
        if first_started(t, k) < k {
            assert(t[first_started(t, k)] == launchable[first_started(t, k)]);
        }
    }
    if f < c {
        let t = launchable.take(f + 1);
        lemma_first_started_prefix(t, launchable, f + 1);
        lemma_first_started_bounds(launchable, f);
        lemma_first_started_stable(launchable, f + 1, c);
        if first_started(launchable, f) < f {
            lemma_first_started_stable(launchable, f, c);
        }
    } else {
        assert(launchable.take(c) =~= launchable);
    }
}

/// Decides the next step of resolving the editor.
///
/// `env_editor` is the value of the environment variable that names the
/// preferred editor, if it is set; `configured` is the editor stored in the
/// configuration, if any; `started[i]` says whether the `i`-th well-known
/// editor could be started, for those tried so far. Values beyond the number
/// of well-known editors are ignored.
pub fn next_resolve_step(
    env_editor: &Option<String>,
    configured: &Option<String>,
    started: &Vec<bool>,
) -> (r: Result<ResolveStep, ConfigError>)
    ensures
        env_editor is Some ==> r == Ok::<ResolveStep, ConfigError>(
            ResolveStep::Use(env_editor->0),
        ),
        env_editor is None && configured is Some ==> r == Ok::<ResolveStep, ConfigError>(
            ResolveStep::Use(configured->0),
        ),
        decision_of(r) == resolve_decision(opt_view(*env_editor), opt_view(*configured), started@),
        r is Err ==> r == Err::<ResolveStep, ConfigError>(ConfigError::NoEditorFound),
{
    if let Some(e) = env_editor {
        return Ok(ResolveStep::Use(e.clone()));
    }
    if let Some(c) = configured {
        return Ok(ResolveStep::Use(c.clone()));
    }
    let n: usize = if started.len() < CANDIDATE_COUNT {
        started.len()
    } else {
        CANDIDATE_COUNT
    };
    let mut i: usize = 0;
    while i < n
        invariant
            env_editor is None && configured is None,
            n == outcomes_considered(started@),
            i <= n,
            none_started(started@, i as int),
        decreases n - i,
    {
        if started[i] {
            proof {
                lemma_first_started_bounds(started@, i as int);
                lemma_first_started_stable(started@, i + 1, n as int);
            }
            return Ok(ResolveStep::Use(candidate_editor(i)));
        }
        i = i + 1;
    }
    proof {
        lemma_first_started_bounds(started@, n as int);
    }
    if started.len() < CANDIDATE_COUNT {
        Ok(ResolveStep::Probe(candidate_editor(started.len())))
    } else {
        Err(ConfigError::NoEditorFound)
    }
}

} // verus!
