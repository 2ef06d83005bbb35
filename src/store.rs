use crate::keyed::{
    first_key, has_key, position_of, remove_key, retain_where, same_text, without_key, Keyed,
    Selector,
};
use crate::model::{
    OperationStatus, SavedCriteriaPreset, ScrapingOperation, Todo, TodoStatus,
};
use vstd::prelude::*;

verus! {

/// The whole locally persisted document.
#[derive(Clone, Debug)]
pub struct AppState {
    pub scraping_operations: Vec<ScrapingOperation>,
    pub last_login_gcs_uri: Option<String>,
    pub todos: Vec<Todo>,
    pub saved_criteria: Vec<SavedCriteriaPreset>,
    pub active_criteria_id: Option<String>,
}

/// Why a change to the store was refused.
#[derive(Clone, Copy, Debug, PartialEq, Eq, Structural)]
pub enum StoreError {
    PresetNotFound,
    /// Every identifier drawn was already in use.
    IdClash,
}

impl StoreError {
    /// The text shown for this error.
    pub fn message(&self) -> (r: String)
        ensures
            *self == StoreError::PresetNotFound ==> r@ == "Criteria preset not found"@,
            *self == StoreError::IdClash ==> r@ == "Could not generate a unique id"@,
    {
        match self {
            StoreError::PresetNotFound => "Criteria preset not found".to_owned(),
            StoreError::IdClash => "Could not generate a unique id".to_owned(),
        }
    }
}

/// Accepts the operations of other accounts than the one held.
pub struct AccountIsNot<'a> {
    pub account: &'a String,
}

impl<'a> Selector<ScrapingOperation> for AccountIsNot<'a> {
    open spec fn accepts(&self, o: ScrapingOperation) -> bool {
        o.target_account@ != self.account@
    }

    fn test(&self, o: &ScrapingOperation) -> (r: bool) {
        !same_text(&o.target_account, self.account)
    }
}

/// Accepts the operations that are still running.
pub struct StillRunning;

impl Selector<ScrapingOperation> for StillRunning {
    open spec fn accepts(&self, o: ScrapingOperation) -> bool {
        o.status == OperationStatus::Running
    }

    fn test(&self, o: &ScrapingOperation) -> (r: bool) {
        o.status == OperationStatus::Running
    }
}

/// How many random identifiers are drawn before giving up on a fresh one.
pub const ID_DRAWS: u32 = 8;

/// A random identifier that no record of `items` is keyed by; `None` when every draw clashed.
pub fn fresh_id<T: Keyed>(items: &Vec<T>) -> (r: Option<String>)
    ensures
        r is Some ==> r->0@.len() == 36 && !has_key(items@, r->0@),
{
    let mut tries: u32 = 0;
    while tries < ID_DRAWS
        decreases ID_DRAWS - tries,
    {
        let id = crate::clock::new_id();
        if position_of(items, &id).is_none() {
            return Some(id);
        }
        tries += 1;
    }
    None
}

/// The test that an operation targets another account than `account`.
pub open spec fn account_differs(account: Seq<char>) -> spec_fn(ScrapingOperation) -> bool {
    |o: ScrapingOperation| o.target_account@ != account
}

/// The test that an operation is still running.
pub open spec fn is_running() -> spec_fn(ScrapingOperation) -> bool {
    |o: ScrapingOperation| o.status == OperationStatus::Running
}

/// No two operations of `ops` target the same account.
pub open spec fn unique_accounts(ops: Seq<ScrapingOperation>) -> bool {
    forall|i: int, j: int|
        0 <= i < j < ops.len() ==> (#[trigger] ops[i]).target_account@ != (#[trigger] ops[j]).target_account@
}

/// The operations after `op` was added: those of other accounts, in order, then `op`.
pub open spec fn ops_after_add(ops: Seq<ScrapingOperation>, op: ScrapingOperation) -> Seq<
    ScrapingOperation,
> {
    ops.filter(account_differs(op.target_account@)).push(op)
}

/// An operation after the remote service reported its outcome.
pub open spec fn with_outcome(
    op: ScrapingOperation,
    status: OperationStatus,
    results: Option<Vec<serde_json::Value>>,
    error_message: Option<String>,
) -> ScrapingOperation {
    ScrapingOperation { status, results, error_message, ..op }
}

/// `s` with the first record keyed `id` replaced by `f` of it; `s` itself when there is none.
pub open spec fn update_first<T: Keyed>(s: Seq<T>, id: Seq<char>, f: spec_fn(T) -> T) -> Seq<T> {
    if has_key(s, id) {
        s.update(first_key(s, id), f(s[first_key(s, id)]))
    } else {
        s
    }
}

/// A todo after its status was set: `started_at` is stamped on the first move to running,
/// `completed_at` on the first move to a terminal status.
pub open spec fn todo_with_status(
    t: Todo,
    status: TodoStatus,
    operation_id: Option<String>,
    results: Option<Vec<serde_json::Value>>,
    error_message: Option<String>,
    now: String,
) -> Todo {
    Todo {
        status,
        operation_id,
        results,
        error_message,
        started_at: if status == TodoStatus::Running && t.started_at.is_none() {
            Some(now)
        } else {
            t.started_at
        },
        completed_at: if (status == TodoStatus::Completed || status == TodoStatus::Failed)
            && t.completed_at.is_none() {
            Some(now)
        } else {
            t.completed_at
        },
        ..t
    }
}

/// A todo after its manual-completion flag was flipped.
pub open spec fn toggled(t: Todo, now: String) -> Todo {
    if t.manually_completed {
        Todo { manually_completed: false, status: TodoStatus::Pending, completed_at: None, ..t }
    } else {
        Todo {
            manually_completed: true,
            status: TodoStatus::Completed,
            completed_at: Some(now),
            ..t
        }
    }
}

/// The todos after the one keyed `id` had its manual-completion flag flipped at `now`.
pub open spec fn todos_after_toggle(todos: Seq<Todo>, id: Seq<char>, now: String) -> Seq<Todo> {
    update_first(todos, id, |t: Todo| toggled(t, now))
}

/// The todos after the status of the one keyed `id` was set at `now`.
pub open spec fn todos_after_status(
    todos: Seq<Todo>,
    id: Seq<char>,
    status: TodoStatus,
    operation_id: Option<String>,
    results: Option<Vec<serde_json::Value>>,
    error_message: Option<String>,
    now: String,
) -> Seq<Todo> {
    update_first(
        todos,
        id,
        |t: Todo| todo_with_status(t, status, operation_id, results, error_message, now),
    )
}

/// The presets after the one keyed `id` was renamed to `name` at `now`.
pub open spec fn presets_after_rename(
    presets: Seq<SavedCriteriaPreset>,
    id: Seq<char>,
    name: String,
    now: String,
) -> Seq<SavedCriteriaPreset> {
    update_first(
        presets,
        id,
        |p: SavedCriteriaPreset| SavedCriteriaPreset { name, updated_at: now, ..p },
    )
}

/// The presets after the criteria of the one keyed `id` became `criteria` at `now`.
pub open spec fn presets_after_edit(
    presets: Seq<SavedCriteriaPreset>,
    id: Seq<char>,
    criteria: String,
    now: String,
) -> Seq<SavedCriteriaPreset> {
    update_first(
        presets,
        id,
        |p: SavedCriteriaPreset| SavedCriteriaPreset { criteria, updated_at: now, ..p },
    )
}

/// The name of the preset keyed by `preset_id`, when one is given and stored.
pub open spec fn preset_name_of(presets: Seq<SavedCriteriaPreset>, preset_id: Option<String>) -> Option<
    String,
> {
    match preset_id {
        Some(pid) => if has_key(presets, pid@) {
            Some(presets[first_key(presets, pid@)].name)
        } else {
            None
        },
        None => None,
    }
}

/// A fresh todo, pending, with the preset's name cached when the preset is stored.
pub open spec fn new_todo(
    presets: Seq<SavedCriteriaPreset>,
    id: String,
    target_account: String,
    target_count: u32,
    bio_agents: u32,
    batch_size: u32,
    criteria_preset_id: Option<String>,
    now: String,
) -> Todo {
    Todo {
        id,
        target_account,
        target_count,
        bio_agents,
        batch_size,
        status: TodoStatus::Pending,
        created_at: now,
        started_at: None,
        completed_at: None,
        operation_id: None,
        exec_id: None,
        results: None,
        error_message: None,
        manually_completed: false,
        criteria_preset_name: preset_name_of(presets, criteria_preset_id),
        criteria_preset_id,
    }
}

impl AppState {
    /// Everything but the operations is as in `o`.
    pub open spec fn keeps_all_but_operations(&self, o: &AppState) -> bool {
        &&& self.last_login_gcs_uri == o.last_login_gcs_uri
        &&& self.todos == o.todos
        &&& self.saved_criteria == o.saved_criteria
        &&& self.active_criteria_id == o.active_criteria_id
    }

    /// Everything but the todos is as in `o`.
    pub open spec fn keeps_all_but_todos(&self, o: &AppState) -> bool {
        &&& self.scraping_operations == o.scraping_operations
        &&& self.last_login_gcs_uri == o.last_login_gcs_uri
        &&& self.saved_criteria == o.saved_criteria
        &&& self.active_criteria_id == o.active_criteria_id
    }

    /// Operations, todos and the last login are as in `o`.
    pub open spec fn keeps_operations_and_todos(&self, o: &AppState) -> bool {
        &&& self.scraping_operations == o.scraping_operations
        &&& self.last_login_gcs_uri == o.last_login_gcs_uri
        &&& self.todos == o.todos
    }

    /// The document holds nothing.
    pub open spec fn is_blank(&self) -> bool {
        &&& self.scraping_operations@.len() == 0
        &&& self.last_login_gcs_uri.is_none()
        &&& self.todos@.len() == 0
        &&& self.saved_criteria@.len() == 0
        &&& self.active_criteria_id.is_none()
    }

    /// An empty document.
    pub fn new() -> (r: AppState)
        ensures
            r.is_blank(),
    {
        AppState {
            scraping_operations: Vec::new(),
            last_login_gcs_uri: None,
            todos: Vec::new(),
            saved_criteria: Vec::new(),
            active_criteria_id: None,
        }
    }

    /// Records `operation`, first evicting every operation for the same account.
    pub fn add_operation(&mut self, operation: ScrapingOperation)
        ensures
            final(self).scraping_operations@ == ops_after_add(
                old(self).scraping_operations@,
                operation,
            ),
            final(self).keeps_all_but_operations(old(self)),
    {
        let account = operation.target_account.clone();
        let sel = AccountIsNot { account: &account };
        retain_where(&mut self.scraping_operations, &sel);
        proof {
            assert((|o: ScrapingOperation| sel.accepts(o)) =~= account_differs(account@));
        }
        self.scraping_operations.push(operation);
    }

    /// Sets the outcome of the first operation keyed `operation_id`; tells whether there was one.
    pub fn update_operation(
        &mut self,
        operation_id: &String,
        status: OperationStatus,
        results: Option<Vec<serde_json::Value>>,
        error_message: Option<String>,
    ) -> (found: bool)
        ensures
            found == has_key(old(self).scraping_operations@, operation_id@),
            final(self).scraping_operations@ == update_first(
                old(self).scraping_operations@,
                operation_id@,
                |o: ScrapingOperation| with_outcome(o, status, results, error_message),
            ),
            final(self).keeps_all_but_operations(old(self)),
    {
        match position_of(&self.scraping_operations, operation_id) {
            Some(k) => {
                let ghost before = self.scraping_operations@;
                let mut op = self.scraping_operations.remove(k);
                op.status = status;
                op.results = results;
                op.error_message = error_message;
                self.scraping_operations.insert(k, op);
                proof {
                    assert(self.scraping_operations@ =~= before.update(k as int, op));
                }
                true
            },
            None => false,
        }
    }

    /// The first operation keyed `operation_id`, if any.
    pub fn get_operation(&self, operation_id: &String) -> (r: Option<&ScrapingOperation>)
        ensures
            match r {
                Some(op) => has_key(self.scraping_operations@, operation_id@) && *op
                    == self.scraping_operations@[first_key(
                    self.scraping_operations@,
                    operation_id@,
                )],
                None => !has_key(self.scraping_operations@, operation_id@),
            },
    {
        match position_of(&self.scraping_operations, operation_id) {
            Some(k) => Some(&self.scraping_operations[k]),
            None => None,
        }
    }

    /// Drops every operation that is no longer running.
    pub fn clear_completed_operations(&mut self)
        ensures
            final(self).scraping_operations@ == old(self).scraping_operations@.filter(is_running()),
            final(self).keeps_all_but_operations(old(self)),
    {
        let sel = StillRunning;
        retain_where(&mut self.scraping_operations, &sel);
        proof {
            assert((|o: ScrapingOperation| sel.accepts(o)) =~= is_running());
        }
    }

    /// Drops every operation keyed `operation_id`.
    pub fn remove_operation(&mut self, operation_id: &String)
        ensures
            final(self).scraping_operations@ == without_key(
                old(self).scraping_operations@,
                operation_id@,
            ),
            final(self).keeps_all_but_operations(old(self)),
    {
        remove_key(&mut self.scraping_operations, operation_id);
    }

    /// Queues `todo` at the end.
    pub fn add_todo(&mut self, todo: Todo)
        ensures
            final(self).todos@ == old(self).todos@.push(todo),
            final(self).keeps_all_but_todos(old(self)),
    {
        self.todos.push(todo);
    }

    /// Queues a fresh pending todo keyed `id`, created at `now`.
    pub fn create_todo_with(
        &mut self,
        id: String,
        target_account: String,
        target_count: u32,
        bio_agents: u32,
        batch_size: u32,
        criteria_preset_id: Option<String>,
        now: String,
    )
        ensures
            final(self).todos@ == old(self).todos@.push(
                new_todo(
                    old(self).saved_criteria@,
                    id,
                    target_account,
                    target_count,
                    bio_agents,
                    batch_size,
                    criteria_preset_id,
                    now,
                ),
            ),
            final(self).keeps_all_but_todos(old(self)),
    {
        let criteria_preset_name = self.preset_name(&criteria_preset_id);
        let todo = Todo {
            id,
            target_account,
            target_count,
            bio_agents,
            batch_size,
            status: TodoStatus::Pending,
            created_at: now,
            started_at: None,
            completed_at: None,
            operation_id: None,
            exec_id: None,
            results: None,
            error_message: None,
            manually_completed: false,
            criteria_preset_id,
            criteria_preset_name,
        };
        self.todos.push(todo);
    }

    /// Sets the status of the first todo keyed `todo_id`, stamping `now` on the first move
    /// to running or to a terminal status; tells whether there was one.
    pub fn update_todo_at(
        &mut self,
        todo_id: &String,
        status: TodoStatus,
        operation_id: Option<String>,
        results: Option<Vec<serde_json::Value>>,
        error_message: Option<String>,
        now: String,
    ) -> (found: bool)
        ensures
            found == has_key(old(self).todos@, todo_id@),
            final(self).todos@ == todos_after_status(
                old(self).todos@,
                todo_id@,
                status,
                operation_id,
                results,
                error_message,
                now,
            ),
            final(self).keeps_all_but_todos(old(self)),
    {
        match position_of(&self.todos, todo_id) {
            Some(k) => {
                let ghost before = self.todos@;
                let mut t = self.todos.remove(k);
                t.status = status;
                t.operation_id = operation_id;
                t.results = results;
                t.error_message = error_message;
                if status == TodoStatus::Running && t.started_at.is_none() {
                    t.started_at = Some(now);
                } else if (status == TodoStatus::Completed || status == TodoStatus::Failed)
                    && t.completed_at.is_none() {
                    t.completed_at = Some(now);
                }
                self.todos.insert(k, t);
                proof {
                    assert(self.todos@ =~= before.update(k as int, t));
                }
                true
            },
            None => false,
        }
    }

    /// Records the remote execution id of the first todo keyed `todo_id`; tells whether
    /// there was one.
    pub fn set_todo_exec_id(&mut self, todo_id: &String, exec_id: String) -> (found: bool)
        ensures
            found == has_key(old(self).todos@, todo_id@),
            final(self).todos@ == update_first(
                old(self).todos@,
                todo_id@,
                |t: Todo| Todo { exec_id: Some(exec_id), ..t },
            ),
            final(self).keeps_all_but_todos(old(self)),
    {
        match position_of(&self.todos, todo_id) {
            Some(k) => {
                let ghost before = self.todos@;
                let mut t = self.todos.remove(k);
                t.exec_id = Some(exec_id);
                self.todos.insert(k, t);
                proof {
                    assert(self.todos@ =~= before.update(k as int, t));
                }
                true
            },
            None => false,
        }
    }

    /// Links the first todo keyed `todo_id` to a preset, caching the preset's name when it is
    /// stored; tells whether there was such a todo.
    pub fn set_todo_preset(&mut self, todo_id: &String, preset_id: Option<String>) -> (found: bool)
        ensures
            found == has_key(old(self).todos@, todo_id@),
            final(self).todos@ == update_first(
                old(self).todos@,
                todo_id@,
                |t: Todo|
                    Todo {
                        criteria_preset_id: preset_id,
                        criteria_preset_name: preset_name_of(old(self).saved_criteria@, preset_id),
                        ..t
                    },
            ),
            final(self).keeps_all_but_todos(old(self)),
    {
        let name = self.preset_name(&preset_id);
        match position_of(&self.todos, todo_id) {
            Some(k) => {
                let ghost before = self.todos@;
                let mut t = self.todos.remove(k);
                t.criteria_preset_id = preset_id;
                t.criteria_preset_name = name;
                self.todos.insert(k, t);
                proof {
                    assert(self.todos@ =~= before.update(k as int, t));
                }
                true
            },
            None => false,
        }
    }

    /// Flips the manual-completion flag of the first todo keyed `todo_id`: set, it makes the
    /// todo completed at `now`; cleared, it makes it pending again with no completion time.
    /// Tells whether there was such a todo.
    pub fn toggle_todo_manual_complete_at(&mut self, todo_id: &String, now: String) -> (found: bool)
        ensures
            found == has_key(old(self).todos@, todo_id@),
            final(self).todos@ == todos_after_toggle(old(self).todos@, todo_id@, now),
            final(self).keeps_all_but_todos(old(self)),
    {
        match position_of(&self.todos, todo_id) {
            Some(k) => {
                let ghost before = self.todos@;
                let mut t = self.todos.remove(k);
                t.manually_completed = !t.manually_completed;
                if t.manually_completed {
                    t.status = TodoStatus::Completed;
                    t.completed_at = Some(now);
                } else {
                    t.status = TodoStatus::Pending;
                    t.completed_at = None;
                }
                self.todos.insert(k, t);
                proof {
                    assert(self.todos@ =~= before.update(k as int, t));
                }
                true
            },
            None => false,
        }
    }

    /// Drops every todo keyed `todo_id`.
    pub fn delete_todo(&mut self, todo_id: &String)
        ensures
            final(self).todos@ == without_key(old(self).todos@, todo_id@),
            final(self).keeps_all_but_todos(old(self)),
    {
        remove_key(&mut self.todos, todo_id);
    }

    /// A copy of every todo, in order.
    pub fn get_todos(&self) -> (r: Vec<Todo>)
        ensures
            r@.len() == self.todos@.len(),
            forall|i: int| 0 <= i < r@.len() ==> (#[trigger] r@[i]).same_as(self.todos@[i]),
    {
        let mut out: Vec<Todo> = Vec::new();
        let mut i: usize = 0;
        while i < self.todos.len()
            invariant
                0 <= i <= self.todos@.len(),
                out@.len() == i,
                forall|j: int| 0 <= j < i ==> (#[trigger] out@[j]).same_as(self.todos@[j]),
            decreases self.todos@.len() - i,
        {
            out.push(self.todos[i].duplicate());
            i += 1;
        }
        out
    }

    /// The first preset keyed `id`, if any.
    pub fn find_preset(&self, id: &String) -> (r: Option<&SavedCriteriaPreset>)
        ensures
            match r {
                Some(p) => has_key(self.saved_criteria@, id@) && *p
                    == self.saved_criteria@[first_key(self.saved_criteria@, id@)],
                None => !has_key(self.saved_criteria@, id@),
            },
    {
        match position_of(&self.saved_criteria, id) {
            Some(k) => Some(&self.saved_criteria[k]),
            None => None,
        }
    }

    /// The name of the preset keyed `preset_id`, when one is given and stored.
    pub fn preset_name(&self, preset_id: &Option<String>) -> (r: Option<String>)
        ensures
            r == preset_name_of(self.saved_criteria@, *preset_id),
    {
        match preset_id {
            Some(pid) => match self.find_preset(pid) {
                Some(p) => Some(p.name.clone()),
                None => None,
            },
            None => None,
        }
    }

    /// Stores a new preset keyed `id`, created and updated at `now`, and returns its key.
    pub fn add_criteria_preset_with(&mut self, id: String, name: String, criteria: String, now: String) -> (r:
        String)
        ensures
            r == id,
            final(self).saved_criteria@ == old(self).saved_criteria@.push(
                SavedCriteriaPreset {
                    id,
                    name,
                    criteria,
                    created_at: now,
                    updated_at: now,
                },
            ),
            final(self).active_criteria_id == old(self).active_criteria_id,
            final(self).keeps_operations_and_todos(old(self)),
    {
        let preset = SavedCriteriaPreset {
            id: id.clone(),
            name,
            criteria,
            created_at: now.clone(),
            updated_at: now,
        };
        self.saved_criteria.push(preset);
        id
    }

    /// Renames the first preset keyed `id`, updated at `now`; tells whether there was one.
    pub fn rename_criteria_preset_at(&mut self, id: &String, new_name: String, now: String) -> (found:
        bool)
        ensures
            found == has_key(old(self).saved_criteria@, id@),
            final(self).saved_criteria@ == presets_after_rename(
                old(self).saved_criteria@,
                id@,
                new_name,
                now,
            ),
            final(self).active_criteria_id == old(self).active_criteria_id,
            final(self).keeps_operations_and_todos(old(self)),
    {
        match position_of(&self.saved_criteria, id) {
            Some(k) => {
                let old_p = &self.saved_criteria[k];
                let p = SavedCriteriaPreset {
                    id: old_p.id.clone(),
                    name: new_name,
                    criteria: old_p.criteria.clone(),
                    created_at: old_p.created_at.clone(),
                    updated_at: now,
                };
                self.saved_criteria.set(k, p);
                true
            },
            None => false,
        }
    }

    /// Replaces the criteria of the first preset keyed `id`, updated at `now`; tells whether
    /// there was one.
    pub fn update_criteria_preset_at(&mut self, id: &String, new_criteria: String, now: String) -> (found:
        bool)
        ensures
            found == has_key(old(self).saved_criteria@, id@),
            final(self).saved_criteria@ == presets_after_edit(
                old(self).saved_criteria@,
                id@,
                new_criteria,
                now,
            ),
            final(self).active_criteria_id == old(self).active_criteria_id,
            final(self).keeps_operations_and_todos(old(self)),
    {
        match position_of(&self.saved_criteria, id) {
            Some(k) => {
                let old_p = &self.saved_criteria[k];
                let p = SavedCriteriaPreset {
                    id: old_p.id.clone(),
                    name: old_p.name.clone(),
                    criteria: new_criteria,
                    created_at: old_p.created_at.clone(),
                    updated_at: now,
                };
                self.saved_criteria.set(k, p);
                true
            },
            None => false,
        }
    }

    /// Drops every preset keyed `id`; the active selection is cleared when it pointed at `id`
    /// and kept otherwise.
    pub fn delete_criteria_preset(&mut self, id: &String)
        ensures
            final(self).saved_criteria@ == without_key(old(self).saved_criteria@, id@),
            match old(self).active_criteria_id {
                Some(a) => if a@ == id@ {
                    final(self).active_criteria_id.is_none()
                } else {
                    final(self).active_criteria_id == old(self).active_criteria_id
                },
                None => final(self).active_criteria_id.is_none(),
            },
            final(self).keeps_operations_and_todos(old(self)),
    {
        remove_key(&mut self.saved_criteria, id);
        let clear = match &self.active_criteria_id {
            Some(active) => same_text(active, id),
            None => false,
        };
        if clear {
            self.active_criteria_id = None;
        }
    }

    /// Selects the preset keyed `id` as the default criteria, or the remote default when
    /// `id` is `None`; refused, with nothing changed, when `id` names no stored preset.
    pub fn set_active_criteria(&mut self, id: Option<String>) -> (r: Result<(), StoreError>)
        ensures
            r is Err <==> (id is Some && !has_key(old(self).saved_criteria@, id->0@)),
            r is Err ==> r == Err::<(), StoreError>(StoreError::PresetNotFound) && *final(self)
                == *old(self),
            r is Ok ==> final(self).active_criteria_id == id && final(self).saved_criteria
                == old(self).saved_criteria && final(self).keeps_operations_and_todos(old(self)),
    {
        if let Some(some_id) = &id {
            if position_of(&self.saved_criteria, some_id).is_none() {
                return Err(StoreError::PresetNotFound);
            }
        }
        self.active_criteria_id = id;
        Ok(())
    }

    /// Queues a fresh pending todo under a new random key that no stored todo has, created
    /// now; refused, with nothing changed, when no such key could be drawn.
    pub fn create_todo(
        &mut self,
        target_account: String,
        target_count: u32,
        bio_agents: u32,
        batch_size: u32,
        criteria_preset_id: Option<String>,
    ) -> (r: Result<(), StoreError>)
        ensures
            r is Err ==> r == Err::<(), StoreError>(StoreError::IdClash) && *final(self) == *old(self),
            r is Ok ==> {
                &&& final(self).todos@.len() == old(self).todos@.len() + 1
                &&& final(self).todos@ == old(self).todos@.push(
                    new_todo(
                        old(self).saved_criteria@,
                        final(self).todos@.last().id,
                        target_account,
                        target_count,
                        bio_agents,
                        batch_size,
                        criteria_preset_id,
                        final(self).todos@.last().created_at,
                    ),
                )
                &&& final(self).todos@.last().id@.len() == 36
                &&& forall|i: int|
                    0 <= i < old(self).todos@.len() ==> (#[trigger] old(self).todos@[i]).id@
                        != final(self).todos@.last().id@
                &&& final(self).keeps_all_but_todos(old(self))
            },
    {
        let id = match fresh_id(&self.todos) {
            Some(id) => id,
            None => return Err(StoreError::IdClash),
        };
        let now = crate::clock::now_rfc3339();
        self.create_todo_with(
            id,
            target_account,
            target_count,
            bio_agents,
            batch_size,
            criteria_preset_id,
            now,
        );
        proof {
            assert forall|i: int| 0 <= i < old(self).todos@.len() implies (#[trigger] old(
                self,
            ).todos@[i]).id@ != self.todos@.last().id@ by {
                if old(self).todos@[i].id@ == self.todos@.last().id@ {
                    assert(old(self).todos@[i].key() == self.todos@.last().id@);
                }
            }
        }
        Ok(())
    }

    /// Sets the status of the first todo keyed `todo_id`, stamped with the current time as
    /// `update_todo_at` describes; tells whether there was one.
    pub fn update_todo(
        &mut self,
        todo_id: &String,
        status: TodoStatus,
        operation_id: Option<String>,
        results: Option<Vec<serde_json::Value>>,
        error_message: Option<String>,
    ) -> (found: bool)
        ensures
            found == has_key(old(self).todos@, todo_id@),
            exists|now: String|
                #[trigger] todos_after_status(
                    old(self).todos@,
                    todo_id@,
                    status,
                    operation_id,
                    results,
                    error_message,
                    now,
                ) == final(self).todos@,
            final(self).keeps_all_but_todos(old(self)),
    {
        let now = crate::clock::now_rfc3339();
        self.update_todo_at(todo_id, status, operation_id, results, error_message, now)
    }

    /// Flips the manual-completion flag of the first todo keyed `todo_id` at the current
    /// time; tells whether there was one.
    pub fn toggle_todo_manual_complete(&mut self, todo_id: &String) -> (found: bool)
        ensures
            found == has_key(old(self).todos@, todo_id@),
            exists|now: String|
                #[trigger] todos_after_toggle(old(self).todos@, todo_id@, now) == final(self).todos@,
            final(self).keeps_all_but_todos(old(self)),
    {
        let now = crate::clock::now_rfc3339();
        self.toggle_todo_manual_complete_at(todo_id, now)
    }

    /// Stores a new preset under a fresh random key that no stored preset has, created now,
    /// and returns that key; refused, with nothing changed, when no such key could be drawn.
    pub fn add_criteria_preset(&mut self, name: String, criteria: String) -> (r: Result<
        String,
        StoreError,
    >)
        ensures
            r is Err ==> r == Err::<String, StoreError>(StoreError::IdClash) && *final(self)
                == *old(self),
            r is Ok ==> {
                let id = r->Ok_0;
                &&& id@.len() == 36
                &&& forall|i: int|
                    0 <= i < old(self).saved_criteria@.len() ==> (#[trigger] old(
                        self,
                    ).saved_criteria@[i]).id@ != id@
                &&& final(self).saved_criteria@.len() == old(self).saved_criteria@.len() + 1
                &&& final(self).saved_criteria@ == old(self).saved_criteria@.push(
                    SavedCriteriaPreset {
                        id,
                        name,
                        criteria,
                        created_at: final(self).saved_criteria@.last().created_at,
                        updated_at: final(self).saved_criteria@.last().created_at,
                    },
                )
                &&& final(self).active_criteria_id == old(self).active_criteria_id
                &&& final(self).keeps_operations_and_todos(old(self))
            },
    {
        let id = match fresh_id(&self.saved_criteria) {
            Some(id) => id,
            None => return Err(StoreError::IdClash),
        };
        let now = crate::clock::now_rfc3339();
        let r = self.add_criteria_preset_with(id, name, criteria, now);
        proof {
            assert forall|i: int| 0 <= i < old(self).saved_criteria@.len() implies (#[trigger] old(
                self,
            ).saved_criteria@[i]).id@ != r@ by {
                if old(self).saved_criteria@[i].id@ == r@ {
                    assert(old(self).saved_criteria@[i].key() == r@);
                }
            }
        }
        Ok(r)
    }

    /// Renames the first preset keyed `id`, updated now; tells whether there was one.
    pub fn rename_criteria_preset(&mut self, id: &String, new_name: String) -> (found: bool)
        ensures
            found == has_key(old(self).saved_criteria@, id@),
            exists|now: String|
                #[trigger] presets_after_rename(old(self).saved_criteria@, id@, new_name, now)
                    == final(self).saved_criteria@,
            final(self).active_criteria_id == old(self).active_criteria_id,
            final(self).keeps_operations_and_todos(old(self)),
    {
        let now = crate::clock::now_rfc3339();
        self.rename_criteria_preset_at(id, new_name, now)
    }

    /// Replaces the criteria of the first preset keyed `id`, updated now; tells whether there
    /// was one.
    pub fn update_criteria_preset(&mut self, id: &String, new_criteria: String) -> (found: bool)
        ensures
            found == has_key(old(self).saved_criteria@, id@),
            exists|now: String|
                #[trigger] presets_after_edit(old(self).saved_criteria@, id@, new_criteria, now)
                    == final(self).saved_criteria@,
            final(self).active_criteria_id == old(self).active_criteria_id,
            final(self).keeps_operations_and_todos(old(self)),
    {
        let now = crate::clock::now_rfc3339();
        self.update_criteria_preset_at(id, new_criteria, now)
    }
}

} // verus!
