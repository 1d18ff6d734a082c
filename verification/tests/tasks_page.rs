use std::path::{Path, PathBuf};

use idirfein::config::TaskPageConfig;
use idirfein::path_order::{path_with_file_name, set_json_extension, starts_with_path};
use idirfein::tasks::{TaskCompletionState, TaskData, TaskViewType};
use idirfein::tasks_page::{TasksAction, TasksPage, TasksPageMessage};

const SAMPLES: [&str; 14] = [
    "", "/", "a", "/p/Garden", "/p/Garden.md", "/p/archive.tar.gz", "/p/.hidden", "p/dir/",
    "p/x.txt/", "..", "a/..", ".", "/p/Garden.json", "rel/name.",
];

#[test]
fn json_extension_matches_std() {
    for p in SAMPLES {
        let mut expected = PathBuf::from(p);
        expected.set_extension("json");
        assert_eq!(set_json_extension(p), expected.to_string_lossy().into_owned(), "extension of {p:?}");
    }
    assert_eq!(set_json_extension("/p/Garden"), "/p/Garden.json".to_string());
    assert_eq!(set_json_extension("/p/a.tar.gz"), "/p/a.tar.json".to_string());
}

#[test]
fn file_name_replacement_matches_std() {
    for p in SAMPLES {
        for n in ["House", "", "x.y"] {
            let expected = Path::new(p).with_file_name(n).to_string_lossy().into_owned();
            assert_eq!(path_with_file_name(p, n), expected, "{p:?} with name {n:?}");
        }
    }
}

#[test]
fn starts_with_matches_std() {
    let pairs = [
        ("/p/Garden.json", "/p"),
        ("/p/Garden.json", "/p/"),
        ("/pq/Garden.json", "/p"),
        ("/p", "/p/Garden.json"),
        ("p/x", "/p"),
        ("/p//x", "/p/./"),
        ("/", "/"),
        ("a", ""),
    ];
    for (p, base) in pairs {
        assert_eq!(starts_with_path(p, base), Path::new(p).starts_with(base), "{p:?} under {base:?}");
    }
}

fn config() -> TaskPageConfig {
    TaskPageConfig {
        default_folder: Some("/p".to_string()),
        default_project_file: Some("/p/Garden.json".to_string()),
        kanban_task_view_is_default: false,
        show_sidebar_on_start: true,
        confirm_before_delete: true,
        show_task_completion_toolbar: false,
        right_click_to_edit_task: true,
    }
}

fn task(id: u128, title: &str) -> TaskData {
    TaskData {
        id,
        title: title.to_string(),
        description: format!("{title} details"),
        completion_state: TaskCompletionState::ToDo,
    }
}

fn loaded_page() -> TasksPage {
    let mut page = TasksPage::new(&config());
    page.update(TasksPageMessage::SetTasksList(vec![task(1, "Dig"), task(2, "Plant")], "/p/Garden.json".to_string()));
    page
}

#[test]
fn page_opens_with_chosen_project() {
    let page = TasksPage::new(&config());
    assert_eq!(page.selected_folder, Some("/p".to_string()));
    assert_eq!(page.current_project_file, Some("/p/Garden.json".to_string()));
    assert_eq!(page.task_view_type, TaskViewType::List);
    assert!(page.should_confirm_before_delete);
    assert!(page.tasks_list.is_empty());
}

#[test]
fn loading_projects() {
    let mut page = TasksPage::new(&config());
    assert!(matches!(page.update(TasksPageMessage::LoadProjectsList), TasksAction::LoadProjects(Some(ref f)) if f == "/p"));
    let a = page.update(TasksPageMessage::SetProjectsList(vec!["/p/Garden.json".to_string()], vec!["old".to_string()]));
    assert!(matches!(a, TasksAction::Next(TasksPageMessage::PickProjectFile(Some(ref f))) if f == "/p/Garden.json"));
    assert_eq!(page.archived_list, vec!["old".to_string()]);
    let a = page.update(TasksPageMessage::PickProjectFile(Some("/p/Garden.json".to_string())));
    assert!(matches!(a, TasksAction::CheckProjectFile { ref folder, ref file } if folder == "/p" && file == "/p/Garden.json"));
    let a = page.update(TasksPageMessage::ProjectFileChecked("/p/Garden.json".to_string(), Some("/p".to_string()), Some("/p/Garden.json".to_string())));
    assert!(matches!(a, TasksAction::SaveThenLoadTasks(ref f) if f == "/p/Garden.json"));
    page.update(TasksPageMessage::SetTasksList(vec![], "/p/Garden.json".to_string()));
    page.update(TasksPageMessage::ProjectFileChecked("/p/x.json".to_string(), None, Some("/p/x.json".to_string())));
    assert_eq!(page.current_project_file, Some("/p/Garden.json".to_string()));
    page.update(TasksPageMessage::ProjectFileChecked("/p/gone.json".to_string(), Some("/p".to_string()), None));
    assert_eq!(page.current_project_file, None);
    page.update(TasksPageMessage::SetTasksList(vec![], "/p/Garden.json".to_string()));
    page.update(TasksPageMessage::ProjectFileChecked("/etc/x.json".to_string(), Some("/p".to_string()), Some("/etc/x.json".to_string())));
    assert_eq!(page.current_project_file, None);
    page.update(TasksPageMessage::SetTasksList(vec![], "/p/Garden.json".to_string()));
    // A sibling folder whose name only begins like the projects folder is outside it.
    page.update(TasksPageMessage::ProjectFileChecked("/px/y.json".to_string(), Some("/p".to_string()), Some("/px/y.json".to_string())));
    assert_eq!(page.current_project_file, None);
    assert!(matches!(page.update(TasksPageMessage::PickProjectFile(None)), TasksAction::Nothing));
    let a = page.update(TasksPageMessage::SetProjectsFolder(Some("/q".to_string())));
    assert!(matches!(a, TasksAction::Next(TasksPageMessage::LoadProjectsList)));
    assert_eq!(page.selected_folder, Some("/q".to_string()));
}

#[test]
fn saving_only_when_changed() {
    let mut page = loaded_page();
    assert!(matches!(page.update(TasksPageMessage::SaveProject), TasksAction::Nothing));
    let a = page.update(TasksPageMessage::SetTaskCompletionState(2, TaskCompletionState::Done));
    assert!(matches!(a, TasksAction::Next(TasksPageMessage::SaveProject)));
    assert!(page.is_dirty);
    assert_eq!(page.tasks_list[1].completion_state, TaskCompletionState::Done);
    assert!(matches!(page.update(TasksPageMessage::SaveProject), TasksAction::WriteProject(ref f) if f == "/p/Garden.json"));
    assert!(matches!(page.update(TasksPageMessage::ProjectSaved), TasksAction::Nothing));
    assert!(!page.is_dirty);
    assert!(matches!(page.update(TasksPageMessage::SaveProject), TasksAction::Nothing));
}

#[test]
fn editing_and_adding_tasks() {
    let mut page = loaded_page();
    assert!(matches!(page.update(TasksPageMessage::OpenEditDialogForTask(1)), TasksAction::FocusTaskTitle));
    assert_eq!(page.current_task_title_text, "Dig".to_string());
    assert_eq!(page.current_task_description_text, "Dig details".to_string());
    page.update(TasksPageMessage::UpdateTaskTitle("Dig deeper".to_string()));
    page.update(TasksPageMessage::UpdateTaskDescription("two metres".to_string()));
    page.update(TasksPageMessage::UpdateCurrentTask);
    assert_eq!(page.tasks_list[0].title, "Dig deeper".to_string());
    assert_eq!(page.tasks_list[0].description, "two metres".to_string());
    assert!(!page.show_task_edit_dialog);
    assert_eq!(page.current_task_title_text, String::new());
    page.update(TasksPageMessage::StartCreatingNewTask);
    page.update(TasksPageMessage::UpdateTaskTitle("Water".to_string()));
    page.update(TasksPageMessage::UpdateCurrentTask);
    assert_eq!(page.tasks_list.len(), 3);
    assert_eq!(page.tasks_list[2].title, "Water".to_string());
    assert_eq!(page.tasks_list[2].completion_state, TaskCompletionState::Backlog);
}

#[test]
fn saving_a_missing_task_keeps_the_title() {
    let mut page = loaded_page();
    page.update(TasksPageMessage::SelectTaskToEdit(Some(99)));
    page.update(TasksPageMessage::UpdateTaskTitle("Kept".to_string()));
    page.update(TasksPageMessage::UpdateCurrentTask);
    assert_eq!(page.current_task_title_text, "Kept".to_string());
    assert_eq!(page.tasks_list.len(), 2);
    assert!(!page.is_dirty);
}

#[test]
fn deleting_with_and_without_confirmation() {
    let mut page = loaded_page();
    let a = page.update(TasksPageMessage::DeleteTaskWithConfirmationCheck(1));
    assert!(matches!(a, TasksAction::Next(TasksPageMessage::ToggleConfirmBeforeDeleteDialog)));
    assert_eq!(page.current_task_id, Some(1));
    page.update(TasksPageMessage::SetConfirmBeforeDelete(false));
    let a = page.update(TasksPageMessage::DeleteTaskWithConfirmationCheck(1));
    assert!(matches!(a, TasksAction::Next(TasksPageMessage::DeleteTask(1))));
    page.update(TasksPageMessage::DeleteTask(1));
    assert_eq!(page.tasks_list.len(), 1);
    assert!(page.is_dirty);
}

#[test]
fn dropping_a_task_on_a_column() {
    let mut page = loaded_page();
    let a = page.update(TasksPageMessage::HandleTaskDropZones(2, Some("DOING_ID".to_string())));
    assert!(matches!(a, TasksAction::Next(TasksPageMessage::SetTaskCompletionState(2, TaskCompletionState::Doing))));
    assert!(matches!(page.update(TasksPageMessage::HandleTaskDropZones(2, Some("ELSEWHERE".to_string()))), TasksAction::Nothing));
    assert!(matches!(page.update(TasksPageMessage::HandleTaskDropZones(2, None)), TasksAction::Nothing));
}

#[test]
fn creating_and_renaming_projects() {
    let mut page = loaded_page();
    assert!(matches!(page.update(TasksPageMessage::StartCreatingNewProject), TasksAction::FocusNewProjectName));
    page.update(TasksPageMessage::UpdateNewProjectNameEntry("House".to_string()));
    let a = page.update(TasksPageMessage::CreateNewProject);
    assert!(matches!(a, TasksAction::CreateProjectFile(ref p) if p == "/p/House.json"));
    assert!(!page.is_creating_new_project);
    assert_eq!(page.new_project_name_field_content, String::new());
    page.update(TasksPageMessage::ShowMenuForProject(Some("/p/Garden.json".to_string())));
    page.update(TasksPageMessage::UpdateRenameProjectEntryText("Yard".to_string()));
    let a = page.update(TasksPageMessage::RenameProject);
    assert!(matches!(a, TasksAction::RenameProjectFile { ref from, ref to } if from == "/p/Garden.json" && to == "/p/Yard.json"));
    assert_eq!(page.current_project_file, Some("/p/Yard.json".to_string()));
    assert_eq!(page.current_project_being_managed, None);
    let a = page.update(TasksPageMessage::RenameProject);
    assert!(matches!(a, TasksAction::ErrorToast(ref t) if t == "No selected project to rename"));
}

#[test]
fn archiving_projects() {
    let mut page = loaded_page();
    page.update(TasksPageMessage::ShowMenuForProject(Some("/p/Garden.json".to_string())));
    assert!(matches!(page.update(TasksPageMessage::ArchiveProject), TasksAction::WriteArchivedList(ref f) if f == "/p"));
    assert_eq!(page.archived_list, vec!["garden".to_string()]);
    page.update(TasksPageMessage::ShowMenuForProject(Some("/p/Garden.json".to_string())));
    assert!(matches!(page.update(TasksPageMessage::UnarchiveProject), TasksAction::WriteArchivedList(_)));
    assert!(page.archived_list.is_empty());
    // Unarchiving a project that is not archived changes nothing and writes nothing.
    page.update(TasksPageMessage::ShowMenuForProject(Some("/p/Garden.json".to_string())));
    assert!(matches!(page.update(TasksPageMessage::UnarchiveProject), TasksAction::Nothing));
    assert!(page.archived_list.is_empty());
    page.update(TasksPageMessage::ShowMenuForProject(Some("/p/Old.json".to_string())));
    assert!(matches!(page.update(TasksPageMessage::DeleteProject), TasksAction::DeleteProjectFile(ref p) if p == "/p/Old.json"));
    assert!(matches!(page.update(TasksPageMessage::DeleteProject), TasksAction::Nothing));
}

#[test]
fn views_and_escape() {
    let mut page = loaded_page();
    page.update(TasksPageMessage::ToggleTaskViewType);
    assert_eq!(page.task_view_type, TaskViewType::Kanban);
    assert!(matches!(page.update(TasksPageMessage::ToggleRenameProjectView), TasksAction::FocusRenameProject));
    page.update(TasksPageMessage::UpdateRenameProjectEntryText("x".to_string()));
    page.update(TasksPageMessage::ToggleRenameProjectView);
    assert_eq!(page.rename_project_field_text, String::new());
    page.update(TasksPageMessage::StartCreatingNewTask);
    page.update(TasksPageMessage::UpdateTaskTitle("t".to_string()));
    page.update(TasksPageMessage::EscapeKeyPressed);
    assert!(!page.show_task_edit_dialog);
    assert_eq!(page.current_task_title_text, String::new());
    page.update(TasksPageMessage::ToggleShowSidebar);
    assert!(!page.show_sidebar);
    page.update(TasksPageMessage::UpdateTasksFilter("dig".to_string()));
    assert_eq!(page.filter_tasks_text, "dig".to_string());
}
