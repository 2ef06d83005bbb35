use crate::keyed::{first_key, has_key, is_first_key, lemma_first_key_unique, Keyed};
use crate::model::{ScrapingOperation, Todo};
use crate::store::{account_differs, ops_after_add, toggled, todos_after_toggle, unique_accounts};
use vstd::prelude::*;

verus! {

/// Keeping some of the operations never makes two of them share an account.
pub proof fn lemma_filter_keeps_accounts_unique(
    ops: Seq<ScrapingOperation>,
    p: spec_fn(ScrapingOperation) -> bool,
)
    requires
        unique_accounts(ops),
    ensures
        unique_accounts(ops.filter(p)),
    decreases ops.len(),
{
    reveal(Seq::filter);
    if ops.len() > 0 {
        let init = ops.drop_last();
        let x = ops.last();
        assert(unique_accounts(init));
        lemma_filter_keeps_accounts_unique(init, p);
        let f = init.filter(p);
        if p(x) {
            assert forall|i: int| 0 <= i < f.len() implies (#[trigger] f[i]).target_account@
                != x.target_account@ by {
                assert(f.contains(f[i]));
                init.lemma_filter_contains_rev(p, f[i]);
                let j = choose|j: int| 0 <= j < init.len() && init[j] == f[i];
                assert(ops[j] == init[j]);
                assert(ops[ops.len() - 1] == x);
            }
            let g = f.push(x);
            assert forall|i: int, j: int| 0 <= i < j < g.len() implies (#[trigger] g[i]).target_account@
                != (#[trigger] g[j]).target_account@ by {
                if j == g.len() - 1 {
                    assert(g[i] == f[i]);
                } else {
                    assert(g[i] == f[i] && g[j] == f[j]);
                }
            }
        }
    }
}

/// After an operation is added, no other operation targets its account, and when no two
/// operations shared an account before, none do after.
pub proof fn lemma_add_operation_one_per_account(
    ops: Seq<ScrapingOperation>,
    op: ScrapingOperation,
)
    ensures
        ops_after_add(ops, op).last() == op,
        forall|i: int|
            0 <= i < ops_after_add(ops, op).len() - 1 ==> (#[trigger] ops_after_add(
                ops,
                op,
            )[i]).target_account@ != op.target_account@,
        unique_accounts(ops) ==> unique_accounts(ops_after_add(ops, op)),
{
    let p = account_differs(op.target_account@);
    let f = ops.filter(p);
    let g = ops_after_add(ops, op);
    assert forall|i: int| 0 <= i < g.len() - 1 implies (#[trigger] g[i]).target_account@
        != op.target_account@ by {
        ops.lemma_filter_pred(p, i);
        assert(g[i] == f[i]);
    }
    if unique_accounts(ops) {
        lemma_filter_keeps_accounts_unique(ops, p);
        assert forall|i: int, j: int| 0 <= i < j < g.len() implies (#[trigger] g[i]).target_account@
            != (#[trigger] g[j]).target_account@ by {
            if j == g.len() - 1 {
                assert(g[i] == f[i]);
                ops.lemma_filter_pred(p, i);
            } else {
                assert(g[i] == f[i] && g[j] == f[j]);
            }
        }
    }
}

/// A todo whose status and completion time are what its manual-completion flag sets.
pub open spec fn toggle_settled(t: Todo) -> bool {
    if t.manually_completed {
        t.status == crate::model::TodoStatus::Completed && t.completed_at.is_some()
    } else {
        t.status == crate::model::TodoStatus::Pending && t.completed_at.is_none()
    }
}

/// Flipping the manual-completion flag of a settled todo twice gives back its flag, its status
/// and whether it has a completion time; every other todo is untouched.
pub proof fn lemma_toggle_twice_restores(
    todos: Seq<Todo>,
    id: Seq<char>,
    now1: String,
    now2: String,
)
    requires
        has_key(todos, id) ==> toggle_settled(todos[first_key(todos, id)]),
    ensures
        ({
            let r = todos_after_toggle(todos_after_toggle(todos, id, now1), id, now2);
            &&& r.len() == todos.len()
            &&& forall|i: int|
                0 <= i < todos.len() ==> {
                    &&& (#[trigger] r[i]).id == todos[i].id
                    &&& r[i].status == todos[i].status
                    &&& r[i].manually_completed == todos[i].manually_completed
                    &&& r[i].completed_at.is_some() == todos[i].completed_at.is_some()
                }
            &&& forall|i: int|
                0 <= i < todos.len() && !(has_key(todos, id) && i == first_key(todos, id))
                    ==> #[trigger] r[i] == todos[i]
        }),
{
    let once = todos_after_toggle(todos, id, now1);
    if has_key(todos, id) {
        let k = first_key(todos, id);
        let c = choose|c: int| is_first_key(todos, id, c);
        assert(is_first_key(todos, id, c)) by {
            let w = choose|w: int| 0 <= w < todos.len() && (#[trigger] todos[w]).key() == id;
            lemma_least_key_index(todos, id, w);
        }
        lemma_first_key_unique(todos, id, k);
        assert(once[k] == toggled(todos[k], now1));
        assert(is_first_key(once, id, k)) by {
            assert forall|j: int| 0 <= j < k implies (#[trigger] once[j]).key() != id by {
                assert(once[j] == todos[j]);
            }
        }
        lemma_first_key_unique(once, id, k);
    }
}

/// When some record of `s` is keyed `id`, there is a first one, at or before `w`.
pub proof fn lemma_least_key_index<T: Keyed>(s: Seq<T>, id: Seq<char>, w: int)
    requires
        0 <= w < s.len(),
        s[w].key() == id,
    ensures
        exists|k: int| k <= w && is_first_key(s, id, k),
    decreases w,
{
    if exists|j: int| 0 <= j < w && (#[trigger] s[j]).key() == id {
        let j = choose|j: int| 0 <= j < w && (#[trigger] s[j]).key() == id;
        lemma_least_key_index(s, id, j);
    } else {
        assert(is_first_key(s, id, w));
    }
}

/// The operations after each of `adds` was added in turn to `start`.
pub open spec fn ops_after_adds(start: Seq<ScrapingOperation>, adds: Seq<ScrapingOperation>) -> Seq<
    ScrapingOperation,
>
    decreases adds.len(),
{
    if adds.len() == 0 {
        start
    } else {
        ops_after_add(ops_after_adds(start, adds.drop_last()), adds.last())
    }
}

/// Whatever operations are added, in whatever order, to a store whose operations target
/// distinct accounts (an empty one among them), no two operations share an account after.
pub proof fn lemma_adds_keep_one_per_account(
    start: Seq<ScrapingOperation>,
    adds: Seq<ScrapingOperation>,
)
    requires
        unique_accounts(start),
    ensures
        unique_accounts(ops_after_adds(start, adds)),
    decreases adds.len(),
{
    if adds.len() > 0 {
        lemma_adds_keep_one_per_account(start, adds.drop_last());
        lemma_add_operation_one_per_account(ops_after_adds(start, adds.drop_last()), adds.last());
    }
}

} // verus!
