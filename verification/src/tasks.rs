//! Tasks: the tasks of a project, their kanban columns, filtering, and the projects list.

use vstd::prelude::*;

use crate::notes::{archive_name, kept_indices};
use crate::paths::file_extension;
use crate::text::{contains_ignoring_case, contains_seq, lowercase, str_eq};

verus! {

/// How the tasks of a project are shown.
#[derive(Debug, PartialEq, Eq, Structural, Clone, Copy)]
pub enum TaskViewType {
    Kanban,
    List,
}

impl TaskViewType {
    /// The other way of showing tasks.
    pub fn toggled(self) -> (r: TaskViewType)
        ensures
            r != self,
    {
        match self {
            TaskViewType::Kanban => TaskViewType::List,
            TaskViewType::List => TaskViewType::Kanban,
        }
    }
}

/// The column a task is in.
#[derive(Debug, PartialEq, Eq, Structural, Clone, Copy)]
pub enum TaskCompletionState {
    Backlog,
    ToDo,
    Doing,
    Done,
}

/// A task of a project. The id is the task's UUID as a number.
pub struct TaskData {
    pub id: u128,
    pub title: String,
    pub description: String,
    pub completion_state: TaskCompletionState,
}

/// A new random (version 4) UUID, from `uuid::Uuid::new_v4`, as a number (big-endian): its
/// version bits say 4 and its variant bits are `10`; the other bits are random.
#[verifier::external_body]
fn new_task_id() -> (id: u128)
    ensures
        (id >> 76u128) & 0xfu128 == 4,
        (id >> 62u128) & 0x3u128 == 2,
{
    uuid::Uuid::new_v4().as_u128()
}

impl TaskData {
    /// A new task in the backlog with the given title and description and a fresh random id.
    pub fn new(title: String, description: String) -> (r: TaskData)
        ensures
            r.title@ == title@,
            r.description@ == description@,
            r.completion_state == TaskCompletionState::Backlog,
            (r.id >> 76u128) & 0xfu128 == 4 && (r.id >> 62u128) & 0x3u128 == 2,
    {
        TaskData {
            id: new_task_id(),
            title,
            description,
            completion_state: TaskCompletionState::Backlog,
        }
    }
}

/// The position of the first task with id `id`, if any.
pub open spec fn task_position(tasks: Seq<TaskData>, id: u128) -> Option<int>
    decreases tasks.len(),
{
    if tasks.len() == 0 {
        None
    } else {
        match task_position(tasks.drop_last(), id) {
            Some(i) => Some(i),
            None => if tasks.last().id == id {
                Some(tasks.len() - 1)
            } else {
                None
            },
        }
    }
}

proof fn lemma_task_position(tasks: Seq<TaskData>, id: u128)
    ensures
        task_position(tasks, id) matches Some(i) ==> 0 <= i < tasks.len() && tasks[i].id == id
            && forall|j: int| 0 <= j < i ==> tasks[j].id != id,
        task_position(tasks, id) is None ==> forall|j: int| 0 <= j < tasks.len() ==> tasks[j].id != id,
    decreases tasks.len(),
{
    if tasks.len() > 0 {
        let init = tasks.drop_last();
        lemma_task_position(init, id);
        assert forall|j: int| 0 <= j < init.len() implies init[j] == tasks[j] by {}
    }
}

/// Finds the first task with id `id`.
pub fn find_task(tasks: &Vec<TaskData>, id: u128) -> (r: Option<usize>)
    ensures
        task_position(tasks@, id) == (match r {
            Some(i) => Some(i as int),
            None => None,
        }),
        r matches Some(i) ==> i < tasks.len() && tasks@[i as int].id == id,
{
    proof {
        lemma_task_position(tasks@, id);
    }
    let mut i: usize = 0;
    while i < tasks.len()
        invariant
            i <= tasks.len(),
            forall|j: int| 0 <= j < i ==> tasks@[j].id != id,
            task_position(tasks@, id) matches Some(k) ==> 0 <= k < tasks.len() && tasks@[k].id
                == id && forall|j: int| 0 <= j < k ==> tasks@[j].id != id,
            task_position(tasks@, id) is None ==> forall|j: int|
                0 <= j < tasks.len() ==> tasks@[j].id != id,
        decreases tasks.len() - i,
    {
        if tasks[i].id == id {
            return Some(i);
        }
        i += 1;
    }
    None
}

/// Deletes the first task with id `id`. Returns whether there was one (the project then needs
/// saving); otherwise nothing changes.
pub fn delete_task(tasks: &mut Vec<TaskData>, id: u128) -> (deleted: bool)
    ensures
        deleted == task_position(old(tasks)@, id) is Some,
        match task_position(old(tasks)@, id) {
            Some(i) => final(tasks)@ == old(tasks)@.remove(i),
            None => final(tasks)@ == old(tasks)@,
        },
{
    match find_task(tasks, id) {
        Some(i) => {
            let _removed = tasks.remove(i);
            true
        },
        None => false,
    }
}

/// `after` is `before` with the first task with id `id` (if any) moved to column `state`.
pub open spec fn completion_set(
    before: Seq<TaskData>,
    after: Seq<TaskData>,
    id: u128,
    state: TaskCompletionState,
) -> bool {
    &&& after.len() == before.len()
    &&& forall|j: int|
        0 <= j < before.len() && Some(j) != task_position(before, id) ==> #[trigger] after[j]
            == before[j]
    &&& match task_position(before, id) {
        Some(i) => {
            &&& after[i].completion_state == state
            &&& after[i].id == before[i].id
            &&& after[i].title == before[i].title
            &&& after[i].description == before[i].description
        },
        None => true,
    }
}

/// `after` is `before` with the task being edited saved: with an id, the first task with
/// that id (if any) gets the title and description; without, a new backlog task holding them
/// is added at the end.
pub open spec fn current_task_saved(
    before: Seq<TaskData>,
    after: Seq<TaskData>,
    current_task_id: Option<u128>,
    title: Seq<char>,
    description: Seq<char>,
) -> bool {
    match current_task_id {
        Some(id) => {
            &&& after.len() == before.len()
            &&& forall|j: int|
                0 <= j < before.len() && Some(j) != task_position(before, id) ==> #[trigger] after[j]
                    == before[j]
            &&& match task_position(before, id) {
                Some(i) => {
                    &&& after[i].title@ == title
                    &&& after[i].description@ == description
                    &&& after[i].id == id
                    &&& after[i].completion_state == before[i].completion_state
                },
                None => true,
            }
        },
        None => {
            &&& after.len() == before.len() + 1
            &&& after.take(before.len() as int) == before
            &&& after.last().title@ == title
            &&& after.last().description@ == description
            &&& after.last().completion_state == TaskCompletionState::Backlog
        },
    }
}

/// Moves the first task with id `id` to the column `state`. Returns whether there was one;
/// otherwise nothing changes. Only that task's column changes.
pub fn set_task_completion_state(
    tasks: &mut Vec<TaskData>,
    id: u128,
    state: TaskCompletionState,
) -> (changed: bool)
    ensures
        changed == task_position(old(tasks)@, id) is Some,
        completion_set(old(tasks)@, final(tasks)@, id, state),
{
    match find_task(tasks, id) {
        Some(i) => {
            let mut t = tasks.remove(i);
            t.completion_state = state;
            tasks.insert(i, t);
            proof {
                assert forall|j: int|
                    0 <= j < old(tasks)@.len() && Some(j) != task_position(
                        old(tasks)@,
                        id,
                    ) implies #[trigger] tasks@[j] == old(tasks)@[j] by {
                    assert(j != i);
                }
            }
            true
        },
        None => false,
    }
}

/// Saves the task being edited. With an id, the first task with that id gets the new title
/// and description (when there is one); without, a new backlog task is added at the end.
/// Returns whether the tasks changed.
pub fn update_current_task(
    tasks: &mut Vec<TaskData>,
    current_task_id: Option<u128>,
    title: String,
    description: String,
) -> (changed: bool)
    ensures
        changed == (match current_task_id {
            Some(id) => task_position(old(tasks)@, id) is Some,
            None => true,
        }),
        current_task_saved(old(tasks)@, final(tasks)@, current_task_id, title@, description@),
{
    match current_task_id {
        Some(id) => match find_task(tasks, id) {
            Some(i) => {
                let mut t = tasks.remove(i);
                t.title = title;
                t.description = description;
                tasks.insert(i, t);
                proof {
                    assert forall|j: int|
                        0 <= j < old(tasks)@.len() && Some(j) != task_position(
                            old(tasks)@,
                            id,
                        ) implies #[trigger] tasks@[j] == old(tasks)@[j] by {
                        assert(j != i);
                    }
                }
                true
            },
            None => false,
        },
        None => {
            tasks.push(TaskData::new(title, description));
            assert(tasks@.take(old(tasks)@.len() as int) =~= old(tasks)@);
            true
        },
    }
}

/// The drop zone names of the kanban columns.
pub open spec fn drop_zone_state(zone: Seq<char>) -> Option<TaskCompletionState> {
    if zone == "BACKLOG_ID"@ {
        Some(TaskCompletionState::Backlog)
    } else if zone == "TODO_ID"@ {
        Some(TaskCompletionState::ToDo)
    } else if zone == "DOING_ID"@ {
        Some(TaskCompletionState::Doing)
    } else if zone == "DONE_ID"@ {
        Some(TaskCompletionState::Done)
    } else {
        None
    }
}

/// The column that a task dropped on the zone `zone` moves to, if it is a column.
pub fn completion_state_for_drop_zone(zone: &str) -> (r: Option<TaskCompletionState>)
    ensures
        r == drop_zone_state(zone@),
{
    if str_eq(zone, "BACKLOG_ID") {
        Some(TaskCompletionState::Backlog)
    } else if str_eq(zone, "TODO_ID") {
        Some(TaskCompletionState::ToDo)
    } else if str_eq(zone, "DOING_ID") {
        Some(TaskCompletionState::Doing)
    } else if str_eq(zone, "DONE_ID") {
        Some(TaskCompletionState::Done)
    } else {
        None
    }
}

/// A task is shown under the filter `filter` when its title or its description contains it,
/// ignoring case.
pub open spec fn task_matches(t: TaskData, filter: Seq<char>) -> bool {
    contains_seq(lowercase(t.title@), lowercase(filter)) || contains_seq(
        lowercase(t.description@),
        lowercase(filter),
    )
}

/// The positions, in order, of the tasks of `tasks` in column `state` that the filter
/// `filter` shows.
pub open spec fn tasks_shown(tasks: Seq<TaskData>, state: TaskCompletionState, filter: Seq<char>) -> Seq<
    int,
> {
    kept_indices(
        |i: int| tasks[i].completion_state == state && task_matches(tasks[i], filter),
        tasks.len() as int,
    )
}

/// The kept indices below `n` are those below `n` that `keep` keeps.
proof fn lemma_kept_indices_contains(keep: spec_fn(int) -> bool, n: int, j: int)
    ensures
        kept_indices(keep, n).contains(j) <==> (0 <= j < n && keep(j)),
    decreases n,
{
    if n > 0 {
        lemma_kept_indices_contains(keep, n - 1, j);
        let prev = kept_indices(keep, n - 1);
        if keep(n - 1) {
            assert(kept_indices(keep, n) == prev.push(n - 1));
            if j == n - 1 {
                assert(prev.push(n - 1)[prev.len() as int] == j);
            } else {
                let longer = prev.push(n - 1);
                assert(longer.contains(j) ==> prev.contains(j)) by {
                    if longer.contains(j) {
                        let w = choose|w: int| 0 <= w < longer.len() && #[trigger] longer[w] == j;
                        assert(w < prev.len());
                        assert(prev[w] == j);
                    }
                }
                assert(prev.contains(j) ==> longer.contains(j)) by {
                    if prev.contains(j) {
                        let w = choose|w: int| 0 <= w < prev.len() && #[trigger] prev[w] == j;
                        assert(longer[w] == j);
                    }
                }
            }
        }
    }
}

/// A task is shown in a column exactly when it lies in that column and its title or its
/// description contains the filter once both are lower-cased: a description match counts as
/// much as a title match, and neither depends on the filter's case.
pub proof fn lemma_task_shown_iff(
    tasks: Seq<TaskData>,
    state: TaskCompletionState,
    filter: Seq<char>,
    j: int,
)
    ensures
        tasks_shown(tasks, state, filter).contains(j) <==> (0 <= j < tasks.len()
            && tasks[j].completion_state == state && (contains_seq(
            lowercase(tasks[j].title@),
            lowercase(filter),
        ) || contains_seq(lowercase(tasks[j].description@), lowercase(filter)))),
{
    lemma_kept_indices_contains(
        |i: int| tasks[i].completion_state == state && task_matches(tasks[i], filter),
        tasks.len() as int,
        j,
    );
}

/// Two filters that are the same once lower-cased (such as `milk` and `MILK`) show the same
/// tasks in every column.
pub proof fn lemma_filter_case_does_not_matter(
    tasks: Seq<TaskData>,
    state: TaskCompletionState,
    f: Seq<char>,
    g: Seq<char>,
)
    requires
        lowercase(f) == lowercase(g),
    ensures
        tasks_shown(tasks, state, f) == tasks_shown(tasks, state, g),
{
    assert forall|i: int| 0 <= i < tasks.len() implies task_matches(tasks[i], f) == task_matches(
        tasks[i],
        g,
    ) by {}
    lemma_same_keep_same_indices(
        |i: int| tasks[i].completion_state == state && task_matches(tasks[i], f),
        |i: int| tasks[i].completion_state == state && task_matches(tasks[i], g),
        tasks.len() as int,
    );
}

/// Two choices that agree below `n` keep the same indices below `n`.
proof fn lemma_same_keep_same_indices(a: spec_fn(int) -> bool, b: spec_fn(int) -> bool, n: int)
    requires
        forall|i: int| 0 <= i < n ==> #[trigger] a(i) == b(i),
    ensures
        kept_indices(a, n) == kept_indices(b, n),
    decreases n,
{
    if n > 0 {
        lemma_same_keep_same_indices(a, b, n - 1);
    }
}

/// The positions, in order, of the tasks in column `state` that the filter `filter` shows.
pub fn tasks_in_column(tasks: &Vec<TaskData>, state: TaskCompletionState, filter: &str) -> (r:
    Vec<usize>)
    ensures
        r@.map_values(|i: usize| i as int) == kept_indices(
            |i: int| tasks@[i].completion_state == state && task_matches(tasks@[i], filter@),
            tasks@.len() as int,
        ),
        r@.map_values(|i: usize| i as int) == tasks_shown(tasks@, state, filter@),
{
    let ghost keep = |i: int| tasks@[i].completion_state == state && task_matches(
        tasks@[i],
        filter@,
    );
    let mut r: Vec<usize> = Vec::new();
    let mut i: usize = 0;
    while i < tasks.len()
        invariant
            i <= tasks.len(),
            keep == (|i: int| tasks@[i].completion_state == state && task_matches(
                tasks@[i],
                filter@,
            )),
            r@.map_values(|i: usize| i as int) == kept_indices(keep, i as int),
        decreases tasks.len() - i,
    {
        let in_column = tasks[i].completion_state == state;
        let m = in_column && (contains_ignoring_case(tasks[i].title.as_str(), filter)
            || contains_ignoring_case(tasks[i].description.as_str(), filter));
        if m {
            r.push(i);
            assert(r@.map_values(|i: usize| i as int) =~= kept_indices(keep, i as int).push(
                i as int,
            ));
        }
        i += 1;
    }
    r
}

/// How many tasks are in column `state`.
pub open spec fn column_count(tasks: Seq<TaskData>, state: TaskCompletionState) -> nat
    decreases tasks.len(),
{
    if tasks.len() == 0 {
        0
    } else {
        column_count(tasks.drop_last(), state) + if tasks.last().completion_state == state {
            1nat
        } else {
            0nat
        }
    }
}

/// The number of tasks in column `state`, whatever the filter.
pub fn count_in_column(tasks: &Vec<TaskData>, state: TaskCompletionState) -> (n: usize)
    ensures
        n == column_count(tasks@, state),
{
    let mut n: usize = 0;
    let mut i: usize = 0;
    while i < tasks.len()
        invariant
            i <= tasks.len(),
            n == column_count(tasks@.take(i as int), state),
            n <= i,
        decreases tasks.len() - i,
    {
        assert(tasks@.take(i + 1).drop_last() =~= tasks@.take(i as int));
        if tasks[i].completion_state == state {
            n += 1;
        }
        i += 1;
    }
    assert(tasks@.take(tasks.len() as int) =~= tasks@);
    n
}

/// Moving a task to a column and back to its old column leaves the project as it was.
pub proof fn lemma_move_task_and_back(
    before: Seq<TaskData>,
    moved: Seq<TaskData>,
    restored: Seq<TaskData>,
    id: u128,
    state: TaskCompletionState,
)
    requires
        task_position(before, id) matches Some(i) && {
            &&& moved.len() == before.len()
            &&& forall|j: int| 0 <= j < before.len() && j != i ==> moved[j] == before[j]
            &&& moved[i].completion_state == state
            &&& moved[i].id == before[i].id
            &&& moved[i].title == before[i].title
            &&& moved[i].description == before[i].description
            &&& restored.len() == moved.len()
            &&& forall|j: int| 0 <= j < moved.len() && j != i ==> restored[j] == moved[j]
            &&& restored[i].completion_state == before[i].completion_state
            &&& restored[i].id == moved[i].id
            &&& restored[i].title == moved[i].title
            &&& restored[i].description == moved[i].description
        },
    ensures
        restored == before,
{
    let i = task_position(before, id)->0;
    assert(restored[i] == before[i]);
    assert(restored =~= before);
}

/// A project file is a `.json` file.
pub open spec fn is_project_file(path: Seq<char>) -> bool {
    file_extension(path) == Some("json"@)
}

/// Whether the file at `path` is a project file.
pub fn is_project_file_exec(path: &str) -> (b: bool)
    ensures
        b == is_project_file(path@),
{
    match crate::paths::extension_of(path) {
        Some(e) => str_eq(e.as_str(), "json"),
        None => false,
    }
}

/// The projects list shows a project when it is archived exactly if archived projects are
/// being shown, and its name contains the filter, ignoring case.
pub open spec fn project_shown(
    path: Seq<char>,
    archived: Seq<String>,
    show_archived: bool,
    filter: Seq<char>,
) -> bool {
    let is_archived = exists|k: int| 0 <= k < archived.len() && archived[k]@ == archive_name(path);
    &&& is_archived == show_archived
    &&& contains_seq(archive_name(path), lowercase(filter))
}

/// Whether the projects list shows the project at `path`.
pub fn is_project_shown(path: &str, archived: &Vec<String>, show_archived: bool, filter: &str) -> (b:
    bool)
    ensures
        b == project_shown(path@, archived@, show_archived, filter@),
{
    let name = crate::notes::archive_name_of(path);
    let mut is_archived = false;
    let mut k: usize = 0;
    while k < archived.len()
        invariant
            k <= archived.len(),
            name@ == archive_name(path@),
            is_archived == exists|j: int| 0 <= j < k && archived@[j]@ == name@,
        decreases archived.len() - k,
    {
        if str_eq(archived[k].as_str(), name.as_str()) {
            is_archived = true;
        }
        k += 1;
    }
    if is_archived != show_archived {
        return false;
    }
    let f = crate::text::to_lowercase(filter);
    let n = crate::text::chars_of(name.as_str());
    let fc = crate::text::chars_of(f.as_str());
    crate::text::contains_chars(&n, &fc)
}

} // verus!
