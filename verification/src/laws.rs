//! The general laws of evaluation, proved for every tree and every store:
//! how a composite's outcome is determined by its children's outcomes, and
//! that evaluation stops at the child that settles it.

use vstd::prelude::*;

verus! {

use crate::context::ValueView;
use crate::expression::Expr;
use crate::expression::Outcome;
use crate::expression::Reason;
use crate::expression::eval;
use crate::expression::eval_children_and;
use crate::expression::eval_children_or;

/// The store reached after the children `i .. k` have each run in order,
/// every one handed the store the one before left behind, whatever its
/// result. `store_after_children(es, i, i, store)` is `store` itself: what
/// child `i` is handed.
pub open spec fn store_after_children(
    es: Seq<Expr>,
    i: int,
    k: int,
    store: Map<Seq<char>, ValueView>,
) -> Map<Seq<char>, ValueView>
    decreases k - i,
{
    if k <= i {
        store
    } else {
        eval(es[k - 1], store_after_children(es, i, k - 1, store)).store()
    }
}

/// Running children from `i` and reading off the store before child `k` is
/// the same as handing child `i`'s finishing store to the run from `i + 1`.
proof fn lemma_store_after_children_shift(
    es: Seq<Expr>,
    i: int,
    k: int,
    store: Map<Seq<char>, ValueView>,
)
    requires
        i < k,
    ensures
        store_after_children(es, i, k, store) == store_after_children(
            es,
            i + 1,
            k,
            eval(es[i], store).store(),
        ),
    decreases k - i,
{
    if k == i + 1 {
        assert(store_after_children(es, i, i, store) == store);
    } else {
        lemma_store_after_children_shift(es, i, k - 1, store);
    }
}

/// The run of an `And`'s children from `i` succeeds exactly when every child
/// from `i` on, handed the store its predecessors left behind, succeeds.
proof fn lemma_and_from(es: Seq<Expr>, i: int, store: Map<Seq<char>, ValueView>)
    requires
        0 <= i <= es.len(),
    ensures
        eval_children_and(es, i, store) is Success <==> (forall|k: int|
            i <= k < es.len() ==> eval(
                es[k],
                #[trigger] store_after_children(es, i, k, store),
            ) is Success),
    decreases es.len() - i,
{
    if i < es.len() {
        assert(store_after_children(es, i, i, store) == store);
        match eval(es[i], store) {
            Outcome::Success { store: next } => {
                lemma_and_from(es, i + 1, next);
                assert forall|k: int| i + 1 <= k < es.len() implies store_after_children(
                    es,
                    i,
                    k,
                    store,
                ) == store_after_children(es, i + 1, k, next) by {
                    lemma_store_after_children_shift(es, i, k, store);
                };
                if eval_children_and(es, i + 1, next) is Success {
                    assert forall|k: int| i <= k < es.len() implies eval(
                        es[k],
                        #[trigger] store_after_children(es, i, k, store),
                    ) is Success by {
                        if k > i {
                            assert(eval(
                                es[k],
                                store_after_children(es, i + 1, k, next),
                            ) is Success);
                        }
                    };
                } else {
                    if forall|k: int|
                        i <= k < es.len() ==> eval(
                            es[k],
                            #[trigger] store_after_children(es, i, k, store),
                        ) is Success {
                        assert forall|k: int| i + 1 <= k < es.len() implies eval(
                            es[k],
                            #[trigger] store_after_children(es, i + 1, k, next),
                        ) is Success by {
                            assert(eval(
                                es[k],
                                store_after_children(es, i, k, store),
                            ) is Success);
                        };
                        assert(false);
                    }
                }
            },
            Outcome::Failure { store: _, reason: _ } => {
                assert(!(eval(es[i], store_after_children(es, i, i, store)) is Success));
            },
        }
    }
}

/// An `And` over children `es` succeeds exactly when every child, handed the
/// store its predecessors left behind, succeeds — equivalently, it fails
/// exactly when at least one child so handed fails.
pub proof fn lemma_and_succeeds_iff_each_child_does(
    es: Seq<Expr>,
    store: Map<Seq<char>, ValueView>,
)
    ensures
        eval_children_and(es, 0, store) is Success <==> (forall|k: int|
            0 <= k < es.len() ==> eval(
                es[k],
                #[trigger] store_after_children(es, 0, k, store),
            ) is Success),
{
    lemma_and_from(es, 0, store);
}

/// Generalization of `lemma_and_stops_at_first_failing_child` to a run that
/// starts at child `i`.
proof fn lemma_and_stops_from(es: Seq<Expr>, i: int, j: int, store: Map<Seq<char>, ValueView>)
    requires
        0 <= i <= j < es.len(),
        forall|k: int|
            i <= k < j ==> eval(es[k], #[trigger] store_after_children(es, i, k, store)) is Success,
        !(eval(es[j], store_after_children(es, i, j, store)) is Success),
    ensures
        eval_children_and(es, i, store) == (Outcome::Failure {
            store: eval(es[j], store_after_children(es, i, j, store)).store(),
            reason: Reason::ChildFailed,
        }),
    decreases j - i,
{
    assert(store_after_children(es, i, i, store) == store);
    if i == j {
    } else {
        assert(eval(es[i], store_after_children(es, i, i, store)) is Success);
        let next = eval(es[i], store).store();
        assert forall|k: int| i + 1 <= k < j implies eval(
            es[k],
            #[trigger] store_after_children(es, i + 1, k, next),
        ) is Success by {
            lemma_store_after_children_shift(es, i, k, store);
            assert(eval(es[k], store_after_children(es, i, k, store)) is Success);
        };
        lemma_store_after_children_shift(es, i, j, store);
        lemma_and_stops_from(es, i + 1, j, next);
    }
}

/// When the children before `j` all succeed and child `j`, handed the store
/// they left behind, fails, the whole `And` fails, and the store it leaves is
/// exactly the one child `j` left: the children after `j` have no effect.
pub proof fn lemma_and_stops_at_first_failing_child(
    es: Seq<Expr>,
    j: int,
    store: Map<Seq<char>, ValueView>,
)
    requires
        0 <= j < es.len(),
        forall|k: int|
            0 <= k < j ==> eval(es[k], #[trigger] store_after_children(es, 0, k, store)) is Success,
        !(eval(es[j], store_after_children(es, 0, j, store)) is Success),
    ensures
        eval_children_and(es, 0, store) == (Outcome::Failure {
            store: eval(es[j], store_after_children(es, 0, j, store)).store(),
            reason: Reason::ChildFailed,
        }),
{
    lemma_and_stops_from(es, 0, j, store);
}

/// The run of an `Or`'s children from `i` succeeds exactly when some child
/// from `i` on, handed the store its predecessors left behind, succeeds.
proof fn lemma_or_from(es: Seq<Expr>, i: int, store: Map<Seq<char>, ValueView>)
    requires
        0 <= i <= es.len(),
    ensures
        eval_children_or(es, i, store) is Success <==> (exists|k: int|
            i <= k < es.len() && eval(
                es[k],
                #[trigger] store_after_children(es, i, k, store),
            ) is Success),
    decreases es.len() - i,
{
    if i < es.len() {
        assert(store_after_children(es, i, i, store) == store);
        match eval(es[i], store) {
            Outcome::Success { store: _ } => {
                assert(eval(es[i], store_after_children(es, i, i, store)) is Success);
            },
            Outcome::Failure { store: next, reason: _ } => {
                lemma_or_from(es, i + 1, next);
                assert forall|k: int| i + 1 <= k < es.len() implies store_after_children(
                    es,
                    i,
                    k,
                    store,
                ) == store_after_children(es, i + 1, k, next) by {
                    lemma_store_after_children_shift(es, i, k, store);
                };
                if eval_children_or(es, i + 1, next) is Success {
                    let k0 = choose|k: int|
                        i + 1 <= k < es.len() && eval(
                            es[k],
                            #[trigger] store_after_children(es, i + 1, k, next),
                        ) is Success;
                    assert(eval(es[k0], store_after_children(es, i, k0, store)) is Success);
                } else {
                    if exists|k: int|
                        i <= k < es.len() && eval(
                            es[k],
                            #[trigger] store_after_children(es, i, k, store),
                        ) is Success {
                        let k0 = choose|k: int|
                            i <= k < es.len() && eval(
                                es[k],
                                #[trigger] store_after_children(es, i, k, store),
                            ) is Success;
                        assert(k0 > i);
                        assert(eval(es[k0], store_after_children(es, i + 1, k0, next)) is Success);
                        assert(false);
                    }
                }
            },
        }
    }
}

/// An `Or` over children `es` succeeds exactly when at least one child,
/// handed the store its predecessors left behind, succeeds — equivalently,
/// it fails exactly when every child so handed fails.
pub proof fn lemma_or_succeeds_iff_some_child_does(es: Seq<Expr>, store: Map<Seq<char>, ValueView>)
    ensures
        eval_children_or(es, 0, store) is Success <==> (exists|k: int|
            0 <= k < es.len() && eval(
                es[k],
                #[trigger] store_after_children(es, 0, k, store),
            ) is Success),
{
    lemma_or_from(es, 0, store);
}

/// Generalization of `lemma_or_stops_at_first_succeeding_child` to a run that
/// starts at child `i`.
proof fn lemma_or_stops_from(es: Seq<Expr>, i: int, j: int, store: Map<Seq<char>, ValueView>)
    requires
        0 <= i <= j < es.len(),
        forall|k: int|
            i <= k < j ==> !(eval(
                es[k],
                #[trigger] store_after_children(es, i, k, store),
            ) is Success),
        eval(es[j], store_after_children(es, i, j, store)) is Success,
    ensures
        eval_children_or(es, i, store) == (Outcome::Success {
            store: eval(es[j], store_after_children(es, i, j, store)).store(),
        }),
    decreases j - i,
{
    assert(store_after_children(es, i, i, store) == store);
    if i == j {
    } else {
        assert(!(eval(es[i], store_after_children(es, i, i, store)) is Success));
        let next = eval(es[i], store).store();
        assert forall|k: int| i + 1 <= k < j implies !(eval(
            es[k],
            #[trigger] store_after_children(es, i + 1, k, next),
        ) is Success) by {
            lemma_store_after_children_shift(es, i, k, store);
            assert(!(eval(es[k], store_after_children(es, i, k, store)) is Success));
        };
        lemma_store_after_children_shift(es, i, j, store);
        lemma_or_stops_from(es, i + 1, j, next);
    }
}

/// When the children before `j` all fail and child `j`, handed the store they
/// left behind, succeeds, the whole `Or` succeeds, and the store it leaves is
/// exactly the one child `j` left: the children after `j` have no effect.
pub proof fn lemma_or_stops_at_first_succeeding_child(
    es: Seq<Expr>,
    j: int,
    store: Map<Seq<char>, ValueView>,
)
    requires
        0 <= j < es.len(),
        forall|k: int|
            0 <= k < j ==> !(eval(
                es[k],
                #[trigger] store_after_children(es, 0, k, store),
            ) is Success),
        eval(es[j], store_after_children(es, 0, j, store)) is Success,
    ensures
        eval_children_or(es, 0, store) == (Outcome::Success {
            store: eval(es[j], store_after_children(es, 0, j, store)).store(),
        }),
{
    lemma_or_stops_from(es, 0, j, store);
}

/// An `And` with no children succeeds and leaves the store unchanged.
pub proof fn lemma_empty_and_succeeds(es: Seq<Expr>, store: Map<Seq<char>, ValueView>)
    requires
        es.len() == 0,
    ensures
        eval_children_and(es, 0, store) == (Outcome::Success { store }),
{
}

/// An `Or` with no children fails and leaves the store unchanged.
pub proof fn lemma_empty_or_fails(es: Seq<Expr>, store: Map<Seq<char>, ValueView>)
    requires
        es.len() == 0,
    ensures
        eval_children_or(es, 0, store) == (Outcome::Failure {
            store,
            reason: Reason::ChildFailed,
        }),
{
}

} // verus!
