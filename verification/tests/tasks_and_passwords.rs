use idirfein::passwords::{
    create_database, delete_password_entry, entries_matching_filter, find_entry, generate_password,
    master_password_option, save_password_entry, CreateDatabaseOutcome, Password,
    GENERATED_PASSWORD_LENGTH,
};
use idirfein::tasks::{
    completion_state_for_drop_zone, count_in_column, delete_task, find_task, is_project_file_exec,
    is_project_shown, set_task_completion_state, tasks_in_column, update_current_task,
    TaskCompletionState, TaskData, TaskViewType,
};

fn task(id: u128, title: &str, description: &str, state: TaskCompletionState) -> TaskData {
    TaskData {
        id,
        title: title.to_string(),
        description: description.to_string(),
        completion_state: state,
    }
}

fn board() -> Vec<TaskData> {
    vec![
        task(1, "Buy milk", "from the shop", TaskCompletionState::ToDo),
        task(2, "Write report", "quarterly numbers", TaskCompletionState::Doing),
        task(3, "Call Ana", "about the MILK order", TaskCompletionState::ToDo),
        task(4, "Plan trip", "", TaskCompletionState::Backlog),
    ]
}

#[test]
fn new_tasks_start_in_backlog_with_fresh_ids() {
    let a = TaskData::new("Title".to_string(), "Body".to_string());
    let b = TaskData::new("Title".to_string(), "Body".to_string());
    assert_eq!(a.title, "Title".to_string());
    assert_eq!(a.description, "Body".to_string());
    assert_eq!(a.completion_state, TaskCompletionState::Backlog);
    assert_ne!(a.id, b.id);
    assert_eq!((a.id >> 76) & 0xf, 4);
    assert_eq!((a.id >> 62) & 0x3, 2);
}

#[test]
fn view_type_toggles() {
    assert_eq!(TaskViewType::Kanban.toggled(), TaskViewType::List);
    assert_eq!(TaskViewType::List.toggled(), TaskViewType::Kanban);
}

#[test]
fn find_and_delete_tasks() {
    let mut tasks = board();
    assert_eq!(find_task(&tasks, 3), Some(2));
    assert_eq!(find_task(&tasks, 9), None);
    assert!(delete_task(&mut tasks, 2));
    let ids: Vec<u128> = tasks.iter().map(|t| t.id).collect();
    assert_eq!(ids, vec![1, 3, 4]);
    assert!(!delete_task(&mut tasks, 2));
    assert_eq!(tasks.len(), 3);
}

#[test]
fn moving_a_task_and_back_restores_it() {
    let mut tasks = board();
    assert!(set_task_completion_state(&mut tasks, 1, TaskCompletionState::Done));
    assert_eq!(tasks[0].completion_state, TaskCompletionState::Done);
    assert_eq!(tasks[1].completion_state, TaskCompletionState::Doing);
    assert!(set_task_completion_state(&mut tasks, 1, TaskCompletionState::ToDo));
    let unmoved = board();
    for (t, o) in tasks.iter().zip(unmoved.iter()) {
        assert_eq!(t.id, o.id);
        assert_eq!(t.title, o.title);
        assert_eq!(t.completion_state, o.completion_state);
    }
    assert!(!set_task_completion_state(&mut tasks, 99, TaskCompletionState::Done));
}

#[test]
fn editing_the_current_task() {
    let mut tasks = board();
    assert!(update_current_task(&mut tasks, Some(4), "Plan holiday".to_string(), "Spain".to_string()));
    assert_eq!(tasks[3].title, "Plan holiday".to_string());
    assert_eq!(tasks[3].description, "Spain".to_string());
    assert_eq!(tasks[3].completion_state, TaskCompletionState::Backlog);
    assert_eq!(tasks[3].id, 4);
    assert!(!update_current_task(&mut tasks, Some(77), "x".to_string(), "y".to_string()));
    assert_eq!(tasks.len(), 4);
}

#[test]
fn saving_without_a_current_task_adds_one() {
    let mut tasks = board();
    assert!(update_current_task(&mut tasks, None, "New".to_string(), "Thing".to_string()));
    assert_eq!(tasks.len(), 5);
    assert_eq!(tasks[4].title, "New".to_string());
    assert_eq!(tasks[4].completion_state, TaskCompletionState::Backlog);
}

#[test]
fn drop_zones() {
    assert_eq!(completion_state_for_drop_zone("BACKLOG_ID"), Some(TaskCompletionState::Backlog));
    assert_eq!(completion_state_for_drop_zone("TODO_ID"), Some(TaskCompletionState::ToDo));
    assert_eq!(completion_state_for_drop_zone("DOING_ID"), Some(TaskCompletionState::Doing));
    assert_eq!(completion_state_for_drop_zone("DONE_ID"), Some(TaskCompletionState::Done));
    assert_eq!(completion_state_for_drop_zone("todo_id"), None);
}

#[test]
fn columns_and_filters() {
    let tasks = board();
    assert_eq!(tasks_in_column(&tasks, TaskCompletionState::ToDo, ""), vec![0, 2]);
    assert_eq!(tasks_in_column(&tasks, TaskCompletionState::ToDo, "milk"), vec![0, 2]);
    assert_eq!(tasks_in_column(&tasks, TaskCompletionState::ToDo, "ana"), vec![2]);
    assert_eq!(tasks_in_column(&tasks, TaskCompletionState::Done, ""), Vec::<usize>::new());
    assert_eq!(count_in_column(&tasks, TaskCompletionState::ToDo), 2);
    assert_eq!(count_in_column(&tasks, TaskCompletionState::Backlog), 1);
    assert_eq!(count_in_column(&tasks, TaskCompletionState::Done), 0);
}

#[test]
fn project_files_and_list() {
    assert!(is_project_file_exec("/p/Garden.json"));
    assert!(!is_project_file_exec("/p/Garden.md"));
    assert!(!is_project_file_exec("/p/json"));
    let archived = vec!["garden".to_string()];
    assert!(!is_project_shown("/p/Garden.json", &archived, false, ""));
    assert!(is_project_shown("/p/Garden.json", &archived, true, "GAR"));
    assert!(is_project_shown("/p/House.json", &archived, false, "ous"));
    assert!(!is_project_shown("/p/House.json", &archived, false, "garden"));
}

fn entry(id: u128, title: &str) -> Password {
    Password {
        id,
        title: title.to_string(),
        username: format!("{title}-user"),
        url: format!("https://{title}.example"),
        password: format!("{title}-secret"),
    }
}

#[test]
fn saving_password_entries() {
    let mut list = vec![entry(1, "Mail"), entry(2, "Bank")];
    save_password_entry(
        &mut list,
        Some(2),
        "Bank".to_string(),
        "me".to_string(),
        "https://bank.example".to_string(),
        "hunter2".to_string(),
    );
    assert_eq!(list.len(), 2);
    assert_eq!(list[1].id, 2);
    assert_eq!(list[1].username, "me".to_string());
    assert_eq!(list[1].password, "hunter2".to_string());
    assert_eq!(list[0].username, "Mail-user".to_string());
    save_password_entry(
        &mut list,
        None,
        "Shop".to_string(),
        "buyer".to_string(),
        "https://shop.example".to_string(),
        "pw".to_string(),
    );
    assert_eq!(list.len(), 3);
    assert_eq!(list[2].title, "Shop".to_string());
    assert_eq!(list[2].url, "https://shop.example".to_string());
}

#[test]
fn saving_an_unknown_entry_changes_nothing() {
    let mut list = vec![entry(1, "Mail")];
    save_password_entry(&mut list, Some(5), "X".to_string(), "x".to_string(), "x".to_string(), "x".to_string());
    assert_eq!(list.len(), 1);
    assert_eq!(list[0].title, "Mail".to_string());
}

#[test]
fn deleting_and_finding_entries() {
    let mut list = vec![entry(1, "Mail"), entry(2, "Bank"), entry(3, "Shop")];
    assert_eq!(find_entry(&list, 3), Some(2));
    assert!(delete_password_entry(&mut list, 1));
    assert_eq!(find_entry(&list, 3), Some(1));
    assert_eq!(find_entry(&list, 1), None);
    assert!(!delete_password_entry(&mut list, 1));
    assert_eq!(list.len(), 2);
}

#[test]
fn password_filter_ignores_case() {
    let list = vec![entry(1, "Mail"), entry(2, "Bank"), entry(3, "email")];
    assert_eq!(entries_matching_filter(&list, "MAIL"), vec![0, 2]);
    assert_eq!(entries_matching_filter(&list, ""), vec![0, 1, 2]);
}

#[test]
fn master_password_field() {
    assert_eq!(master_password_option(""), None);
    assert_eq!(master_password_option("s3cret"), Some("s3cret".to_string()));
}

#[test]
fn generated_passwords_are_printable() {
    let p = generate_password();
    assert_eq!(p.chars().count(), GENERATED_PASSWORD_LENGTH);
    assert!(p.chars().all(|c| ('!'..='~').contains(&c)));
    let q = generate_password();
    assert_ne!(p, q);
}

#[test]
fn creating_a_database() {
    assert_eq!(create_database("abc", "abc", false), CreateDatabaseOutcome::Unlocked);
    assert_eq!(create_database("abc", "abd", false), CreateDatabaseOutcome::PasswordsDontMatch);
    assert_eq!(create_database("", "", true), CreateDatabaseOutcome::Unlocked);
    assert_eq!(create_database("", "", false), CreateDatabaseOutcome::Unchanged);
    assert_eq!(create_database("abc", "", true), CreateDatabaseOutcome::Unlocked);
    assert_eq!(create_database("", "x", false), CreateDatabaseOutcome::PasswordsDontMatch);
}
