use crate::keyed::Keyed;
use crate::text::text_is;
use vstd::prelude::*;

verus! {

/// Where a remote scrape job stands.
#[derive(Clone, Copy, Debug, PartialEq, Eq, Structural)]
pub enum OperationStatus {
    Running,
    Completed,
    Failed,
}

/// Where a queued unit of scraping work stands.
#[derive(Clone, Copy, Debug, PartialEq, Eq, Structural)]
pub enum TodoStatus {
    Pending,
    Running,
    Completed,
    Failed,
}

impl OperationStatus {
    /// Distinct statuses have distinct words, so reading a status's word back gives the status.
    pub proof fn lemma_words_distinct(a: OperationStatus, b: OperationStatus)
        ensures
            a.spec_name() == b.spec_name() ==> a == b,
    {
        if a.spec_name() == b.spec_name() && a != b {
            reveal_strlit("running");
            reveal_strlit("completed");
            reveal_strlit("failed");
            assert(a.spec_name()[0] == b.spec_name()[0]);
            assert(a.spec_name().len() == b.spec_name().len());
        }
    }

    /// The word for this status.
    pub open spec fn spec_name(self) -> Seq<char> {
        match self {
            OperationStatus::Running => "running"@,
            OperationStatus::Completed => "completed"@,
            OperationStatus::Failed => "failed"@,
        }
    }

    /// The word for this status.
    pub fn name(&self) -> (r: String)
        ensures
            r@ == self.spec_name(),
    {
        match self {
            OperationStatus::Running => "running".to_owned(),
            OperationStatus::Completed => "completed".to_owned(),
            OperationStatus::Failed => "failed".to_owned(),
        }
    }
}

impl OperationStatus {
    /// The status that `word` names, if any; the word of a status reads back as that status.
    pub fn parse(word: &str) -> (r: Option<OperationStatus>)
        ensures
            match r {
                Some(st) => st.spec_name() == word@,
                None => forall|st: OperationStatus| #[trigger] st.spec_name() != word@,
            },
            forall|st: OperationStatus| #[trigger] st.spec_name() == word@ ==> r == Some(st),
    {
        let r = if text_is(word, "running") {
            Some(OperationStatus::Running)
        } else if text_is(word, "completed") {
            Some(OperationStatus::Completed)
        } else if text_is(word, "failed") {
            Some(OperationStatus::Failed)
        } else {
            proof {
                assert forall|st: OperationStatus| #[trigger] st.spec_name() != word@ by {
                    match st {
                        OperationStatus::Running => {},
                        OperationStatus::Completed => {},
                        OperationStatus::Failed => {},
                    }
                }
            }
            None
        };
        proof {
            assert forall|st: OperationStatus| #[trigger] st.spec_name() == word@ implies r == Some(st) by {
                if let Some(x) = r {
                    OperationStatus::lemma_words_distinct(x, st);
                }
            }
        }
        r
    }
}

impl TodoStatus {
    /// Distinct statuses have distinct words, so reading a status's word back gives the status.
    pub proof fn lemma_words_distinct(a: TodoStatus, b: TodoStatus)
        ensures
            a.spec_name() == b.spec_name() ==> a == b,
    {
        if a.spec_name() == b.spec_name() && a != b {
            reveal_strlit("pending");
            reveal_strlit("running");
            reveal_strlit("completed");
            reveal_strlit("failed");
            assert(a.spec_name()[0] == b.spec_name()[0]);
            assert(a.spec_name().len() == b.spec_name().len());
        }
    }

    /// The word for this status.
    pub open spec fn spec_name(self) -> Seq<char> {
        match self {
            TodoStatus::Pending => "pending"@,
            TodoStatus::Running => "running"@,
            TodoStatus::Completed => "completed"@,
            TodoStatus::Failed => "failed"@,
        }
    }

    /// The word for this status.
    pub fn name(&self) -> (r: String)
        ensures
            r@ == self.spec_name(),
    {
        match self {
            TodoStatus::Pending => "pending".to_owned(),
            TodoStatus::Running => "running".to_owned(),
            TodoStatus::Completed => "completed".to_owned(),
            TodoStatus::Failed => "failed".to_owned(),
        }
    }

    /// The status that `word` names, if any; the word of a status reads back as that status.
    pub fn parse(word: &str) -> (r: Option<TodoStatus>)
        ensures
            match r {
                Some(st) => st.spec_name() == word@,
                None => forall|st: TodoStatus| #[trigger] st.spec_name() != word@,
            },
            forall|st: TodoStatus| #[trigger] st.spec_name() == word@ ==> r == Some(st),
    {
        let r = if text_is(word, "pending") {
            Some(TodoStatus::Pending)
        } else if text_is(word, "running") {
            Some(TodoStatus::Running)
        } else if text_is(word, "completed") {
            Some(TodoStatus::Completed)
        } else if text_is(word, "failed") {
            Some(TodoStatus::Failed)
        } else {
            proof {
                assert forall|st: TodoStatus| #[trigger] st.spec_name() != word@ by {
                    match st {
                        TodoStatus::Pending => {},
                        TodoStatus::Running => {},
                        TodoStatus::Completed => {},
                        TodoStatus::Failed => {},
                    }
                }
            }
            None
        };
        proof {
            assert forall|st: TodoStatus| #[trigger] st.spec_name() == word@ implies r == Some(st) by {
                if let Some(x) = r {
                    TodoStatus::lemma_words_distinct(x, st);
                }
            }
        }
        r
    }
}

/// A remote scrape job tracked locally.
#[derive(Clone, Debug)]
pub struct ScrapingOperation {
    pub operation_id: String,
    pub target_account: String,
    pub target_count: u32,
    pub started_at: String,
    pub status: OperationStatus,
    pub results: Option<Vec<serde_json::Value>>,
    pub error_message: Option<String>,
    pub exec_id: Option<String>,
}

/// A locally queued unit of scraping work.
#[derive(Clone, Debug)]
pub struct Todo {
    pub id: String,
    pub target_account: String,
    pub target_count: u32,
    pub bio_agents: u32,
    pub batch_size: u32,
    pub status: TodoStatus,
    pub created_at: String,
    pub started_at: Option<String>,
    pub completed_at: Option<String>,
    pub operation_id: Option<String>,
    pub exec_id: Option<String>,
    pub results: Option<Vec<serde_json::Value>>,
    pub error_message: Option<String>,
    pub manually_completed: bool,
    pub criteria_preset_id: Option<String>,
    pub criteria_preset_name: Option<String>,
}

/// A named, reusable block of classification criteria.
#[derive(Clone, Debug)]
pub struct SavedCriteriaPreset {
    pub id: String,
    pub name: String,
    pub criteria: String,
    pub created_at: String,
    pub updated_at: String,
}

/// A copy of an optional text, equal to it.
pub fn copy_opt_text(v: &Option<String>) -> (r: Option<String>)
    ensures
        r == *v,
{
    match v {
        Some(t) => Some(t.clone()),
        None => None,
    }
}

/// Two optional lists of results hold the same values.
pub open spec fn same_results(a: Option<Vec<serde_json::Value>>, b: Option<Vec<serde_json::Value>>) -> bool {
    match (a, b) {
        (Some(x), Some(y)) => x@ == y@,
        (None, None) => true,
        _ => false,
    }
}

/// A copy of an optional list of results, holding the same values.
pub fn copy_results(v: &Option<Vec<serde_json::Value>>) -> (r: Option<Vec<serde_json::Value>>)
    ensures
        same_results(r, *v),
{
    match v {
        Some(list) => {
            let c = list.clone();
            proof {
                assert(c@ =~= list@);
            }
            Some(c)
        },
        None => None,
    }
}

impl Todo {
    /// `self` and `o` agree on every field, the results by the values they hold.
    pub open spec fn same_as(&self, o: Todo) -> bool {
        &&& same_results(self.results, o.results)
        &&& Todo { results: None, ..*self } == Todo { results: None, ..o }
    }

    /// A copy of this todo.
    pub fn duplicate(&self) -> (r: Todo)
        ensures
            r.same_as(*self),
    {
        Todo {
            id: self.id.clone(),
            target_account: self.target_account.clone(),
            target_count: self.target_count,
            bio_agents: self.bio_agents,
            batch_size: self.batch_size,
            status: self.status,
            created_at: self.created_at.clone(),
            started_at: copy_opt_text(&self.started_at),
            completed_at: copy_opt_text(&self.completed_at),
            operation_id: copy_opt_text(&self.operation_id),
            exec_id: copy_opt_text(&self.exec_id),
            results: copy_results(&self.results),
            error_message: copy_opt_text(&self.error_message),
            manually_completed: self.manually_completed,
            criteria_preset_id: copy_opt_text(&self.criteria_preset_id),
            criteria_preset_name: copy_opt_text(&self.criteria_preset_name),
        }
    }
}

impl Keyed for ScrapingOperation {
    open spec fn key(&self) -> Seq<char> {
        self.operation_id@
    }

    fn key_ref(&self) -> (r: &String) {
        &self.operation_id
    }
}

impl Keyed for Todo {
    open spec fn key(&self) -> Seq<char> {
        self.id@
    }

    fn key_ref(&self) -> (r: &String) {
        &self.id
    }
}

impl Keyed for SavedCriteriaPreset {
    open spec fn key(&self) -> Seq<char> {
        self.id@
    }

    fn key_ref(&self) -> (r: &String) {
        &self.id
    }
}

} // verus!
