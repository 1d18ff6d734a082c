//! The tasks page: the projects folder and its project files, the tasks of the open project,
//! the task being edited, and what has to be read, written or asked of the user as a result.
//! Paths are held as their text.

use vstd::prelude::*;

use crate::config::TaskPageConfig;
use crate::notes::{
    archive_file, archive_name, first_position, lemma_archive_then_unarchive, unarchive_file,
};
use crate::path_order::{
    path_order, path_starts_with, path_with_file_name, same_path, set_json_extension,
    starts_with_path, with_file_name,
    with_json_extension, PathOrder,
};
use crate::paths::{join_path, path_joined};
use crate::settings::opt_text;
use crate::tasks::{
    completion_set, completion_state_for_drop_zone, current_task_saved, delete_task,
    drop_zone_state, find_task, set_task_completion_state, task_position, update_current_task,
    TaskCompletionState, TaskData, TaskViewType,
};

verus! {

/// The state of the tasks page.
pub struct TasksPage {
    /// The folder of project files, if one was chosen.
    pub selected_folder: Option<String>,
    /// The project file shown, if any.
    pub current_project_file: Option<String>,
    /// Whether tasks are shown as a board or as a list.
    pub task_view_type: TaskViewType,
    /// The project files of the folder.
    pub projects_list: Vec<String>,
    /// The tasks of the project shown.
    pub tasks_list: Vec<TaskData>,
    /// Whether the list of projects is shown.
    pub show_sidebar: bool,
    /// Whether the task editing dialog is shown.
    pub show_task_edit_dialog: bool,
    /// The title being edited.
    pub current_task_title_text: String,
    /// The description being edited.
    pub current_task_description_text: String,
    /// The task being edited, if any.
    pub current_task_id: Option<u128>,
    /// Whether deleting a task asks first.
    pub should_confirm_before_delete: bool,
    /// Whether the delete confirmation is shown.
    pub show_confirm_before_delete_dialog: bool,
    /// Whether the tasks changed since they were written.
    pub is_dirty: bool,
    /// Whether a new project is being named.
    pub is_creating_new_project: bool,
    /// The new project's name being typed.
    pub new_project_name_field_content: String,
    /// Whether the buttons that move a task between columns are shown.
    pub show_task_completion_toolbar: bool,
    /// Whether the extra tools are shown.
    pub show_extra_tools_menu: bool,
    /// The project whose menu is open, if any.
    pub current_project_being_managed: Option<String>,
    /// Whether the rename view is shown.
    pub display_rename_project_view: bool,
    /// Whether the delete view is shown.
    pub display_delete_project_view: bool,
    /// Whether the archive view is shown.
    pub display_archive_project_view: bool,
    /// The new name being typed for a project.
    pub rename_project_field_text: String,
    /// Whether a right click opens a task for editing.
    pub right_click_to_edit_task: bool,
    /// The filter on the tasks' titles and descriptions.
    pub filter_tasks_text: String,
    /// The filter on the projects' names.
    pub filter_projects_text: String,
    /// The names of the archived projects.
    pub archived_list: Vec<String>,
    /// Whether archived projects are listed.
    pub show_archived_projects: bool,
}

/// What the user or the files do on the tasks page.
pub enum TasksPageMessage {
    PickProjectsFolder,
    SetProjectsFolder(Option<String>),
    LoadProjectsList,
    PickProjectFile(Option<String>),
    /// The project file that was picked, the projects folder resolved to a canonical path
    /// (`None` when it cannot be resolved), and the file resolved likewise.
    ProjectFileChecked(String, Option<String>, Option<String>),
    SetProjectsList(Vec<String>, Vec<String>),
    SetTasksList(Vec<TaskData>, String),
    SelectTaskToEdit(Option<u128>),
    DeleteTask(u128),
    DeleteTaskWithConfirmationCheck(u128),
    UpdateTaskTitle(String),
    /// The description editor's text after an edit.
    UpdateTaskDescription(String),
    SetTaskCompletionState(u128, TaskCompletionState),
    UpdateCurrentTask,
    SaveProject,
    /// The tasks were written to the project file.
    ProjectSaved,
    OpenEditDialogForTask(u128),
    StartCreatingNewTask,
    StartCreatingNewProject,
    CreateNewProject,
    CancelCreateNewProject,
    UpdateNewProjectNameEntry(String),
    EscapeKeyPressed,
    /// A task was dropped on the zone with the given id (or on none).
    HandleTaskDropZones(u128, Option<String>),
    ShowMenuForProject(Option<String>),
    UpdateRenameProjectEntryText(String),
    RenameProject,
    ArchiveProject,
    UnarchiveProject,
    DeleteProject,
    SetShowTaskCompletionToolbar(bool),
    SetConfirmBeforeDelete(bool),
    SetRightClickToEditTask(bool),
    UpdateTasksFilter(String),
    UpdateProjectsFilter(String),
    ToggleExtraToolsMenu,
    ToggleRenameProjectView,
    ToggleDeleteProjectView,
    ToggleArchiveProjectView,
    ToggleShowArchivedProjects,
    ToggleShowTaskEditDialog,
    ToggleShowSidebar,
    ToggleConfirmBeforeDeleteDialog,
    ToggleTaskViewType,
}

/// What has to happen after the tasks page handled a message.
pub enum TasksAction {
    /// Nothing.
    Nothing,
    /// Handle this message next.
    Next(TasksPageMessage),
    /// List the project files of the folder (and read its archived list), then hand them
    /// back with `SetProjectsList`.
    LoadProjects(Option<String>),
    /// Ask the user for a projects folder, then `SetProjectsFolder`.
    PickProjectsFolder,
    /// Resolve the folder and the picked file, then `ProjectFileChecked`.
    CheckProjectFile { folder: String, file: String },
    /// Handle `SaveProject`, then read the tasks of the file and `SetTasksList`.
    SaveThenLoadTasks(String),
    /// Write the tasks to the project file, then `ProjectSaved` (or report the failure).
    WriteProject(String),
    /// Put the cursor in the task title field.
    FocusTaskTitle,
    /// Put the cursor in the new project name field.
    FocusNewProjectName,
    /// Put the cursor in the rename field.
    FocusRenameProject,
    /// Create the project file, then `LoadProjectsList` (or report the failure).
    CreateProjectFile(String),
    /// Remove the project file, then `LoadProjectsList` and report it.
    DeleteProjectFile(String),
    /// Rename the project file, then `SaveProject` and `LoadProjectsList`.
    RenameProjectFile { from: String, to: String },
    /// Write the archived list into the folder.
    WriteArchivedList(String),
    /// Show a bad toast with the text.
    ErrorToast(String),
}

/// The two optional paths are the same path (or both absent).
pub open spec fn same_optional_path(a: Option<String>, b: Option<String>) -> bool {
    match (a, b) {
        (Some(x), Some(y)) => same_path(x@, y@),
        (None, None) => true,
        _ => false,
    }
}

/// Which part of the page a message concerns: 1 the projects and files, 2 the tasks, 0 the
/// fields and views.
pub open spec fn tasks_message_group(m: TasksPageMessage) -> u8 {
    match m {
        TasksPageMessage::PickProjectsFolder | TasksPageMessage::SetProjectsFolder(_)
        | TasksPageMessage::LoadProjectsList | TasksPageMessage::PickProjectFile(_)
        | TasksPageMessage::ProjectFileChecked(_, _, _) | TasksPageMessage::SetProjectsList(_, _)
        | TasksPageMessage::SetTasksList(_, _) | TasksPageMessage::SaveProject
        | TasksPageMessage::ProjectSaved | TasksPageMessage::CreateNewProject | TasksPageMessage::ShowMenuForProject(_)
        | TasksPageMessage::RenameProject | TasksPageMessage::ArchiveProject
        | TasksPageMessage::UnarchiveProject | TasksPageMessage::DeleteProject => 1,
        TasksPageMessage::SelectTaskToEdit(_) | TasksPageMessage::DeleteTask(_)
        | TasksPageMessage::DeleteTaskWithConfirmationCheck(_)
        | TasksPageMessage::SetTaskCompletionState(_, _) | TasksPageMessage::UpdateCurrentTask
        | TasksPageMessage::OpenEditDialogForTask(_) | TasksPageMessage::StartCreatingNewTask
        | TasksPageMessage::EscapeKeyPressed | TasksPageMessage::HandleTaskDropZones(_, _) => 2,
        _ => 0,
    }
}

fn tasks_group_of(m: &TasksPageMessage) -> (g: u8)
    ensures
        g == tasks_message_group(*m),
{
    match m {
        TasksPageMessage::PickProjectsFolder | TasksPageMessage::SetProjectsFolder(_)
        | TasksPageMessage::LoadProjectsList | TasksPageMessage::PickProjectFile(_)
        | TasksPageMessage::ProjectFileChecked(_, _, _) | TasksPageMessage::SetProjectsList(_, _)
        | TasksPageMessage::SetTasksList(_, _) | TasksPageMessage::SaveProject
        | TasksPageMessage::ProjectSaved | TasksPageMessage::CreateNewProject | TasksPageMessage::ShowMenuForProject(_)
        | TasksPageMessage::RenameProject | TasksPageMessage::ArchiveProject
        | TasksPageMessage::UnarchiveProject | TasksPageMessage::DeleteProject => 1,
        TasksPageMessage::SelectTaskToEdit(_) | TasksPageMessage::DeleteTask(_)
        | TasksPageMessage::DeleteTaskWithConfirmationCheck(_)
        | TasksPageMessage::SetTaskCompletionState(_, _) | TasksPageMessage::UpdateCurrentTask
        | TasksPageMessage::OpenEditDialogForTask(_) | TasksPageMessage::StartCreatingNewTask
        | TasksPageMessage::EscapeKeyPressed | TasksPageMessage::HandleTaskDropZones(_, _) => 2,
        _ => 0,
    }
}

/// How handling a project or file message `m` takes the page from `before` to `after` and
/// what it asks for (`a`).
pub open spec fn project_step(
    before: TasksPage,
    after: TasksPage,
    m: TasksPageMessage,
    a: TasksAction,
) -> bool {
    match m {
        TasksPageMessage::PickProjectsFolder => after == before && a is PickProjectsFolder,
        TasksPageMessage::SetProjectsFolder(f) => after == TasksPage {
            selected_folder: f,
            ..before
        } && a matches TasksAction::Next(TasksPageMessage::LoadProjectsList),
        TasksPageMessage::LoadProjectsList => after == before && (a matches TasksAction::LoadProjects(
            o,
        ) && opt_text(o) == opt_text(before.selected_folder)),
        TasksPageMessage::PickProjectFile(o) => after == before && match (o, before.selected_folder) {
            (Some(file), Some(folder)) => a matches TasksAction::CheckProjectFile {
                folder: fo,
                file: fi,
            } && fo@ == folder@ && fi@ == file@,
            _ => a is Nothing,
        },
        TasksPageMessage::ProjectFileChecked(file, folder, resolved) => match folder {
            None => after == before && a is Nothing,
            Some(base) => if resolved matches Some(p) && path_starts_with(p@, base@) {
                after == before && (a matches TasksAction::SaveThenLoadTasks(f) && f@ == file@)
            } else {
                after == TasksPage { current_project_file: None, ..before } && a is Nothing
            },
        },
        TasksPageMessage::SetProjectsList(projects, archived) => after == TasksPage {
            projects_list: projects,
            archived_list: archived,
            ..before
        } && (a matches TasksAction::Next(TasksPageMessage::PickProjectFile(o)) && opt_text(o)
            == opt_text(before.current_project_file)),
        TasksPageMessage::SetTasksList(tasks, path) => after == TasksPage {
            tasks_list: tasks,
            current_project_file: Some(path),
            ..before
        } && a is Nothing,
        TasksPageMessage::SaveProject => after == before && match before.current_project_file {
            Some(f) => if before.is_dirty {
                a matches TasksAction::WriteProject(g) && g@ == f@
            } else {
                a is Nothing
            },
            None => a is Nothing,
        },
        TasksPageMessage::ProjectSaved => after == TasksPage { is_dirty: false, ..before } && a is Nothing,
        TasksPageMessage::CreateNewProject => match before.selected_folder {
            Some(folder) => {
                &&& after == TasksPage {
                    is_creating_new_project: false,
                    new_project_name_field_content: after.new_project_name_field_content,
                    ..before
                }
                &&& after.new_project_name_field_content@.len() == 0
                &&& a matches TasksAction::CreateProjectFile(p) && p@ == with_json_extension(
                    path_joined(folder@, before.new_project_name_field_content@),
                )
            },
            None => after == TasksPage { is_creating_new_project: false, ..before } && a is Nothing,
        },
        TasksPageMessage::ShowMenuForProject(o) => after == TasksPage {
            display_rename_project_view: false,
            display_delete_project_view: false,
            current_project_being_managed: o,
            ..before
        } && a is Nothing,
        TasksPageMessage::RenameProject => match before.selected_folder {
            None => after == before && (a matches TasksAction::ErrorToast(t) && t@
                == "No selected folder to save renamed project to."@),
            Some(_) => match before.current_project_being_managed {
                None => after == before && (a matches TasksAction::ErrorToast(t) && t@
                    == "No selected project to rename"@),
                Some(p) => {
                    let renamed = with_json_extension(
                        with_file_name(p@, before.rename_project_field_text@),
                    );
                    &&& after == TasksPage {
                        current_project_file: after.current_project_file,
                        rename_project_field_text: after.rename_project_field_text,
                        display_rename_project_view: false,
                        display_delete_project_view: false,
                        current_project_being_managed: None,
                        ..before
                    }
                    &&& after.rename_project_field_text@.len() == 0
                    &&& if same_optional_path(
                        before.current_project_file,
                        before.current_project_being_managed,
                    ) {
                        after.current_project_file matches Some(c) && c@ == renamed
                    } else {
                        after.current_project_file == before.current_project_file
                    }
                    &&& a matches TasksAction::RenameProjectFile { from, to } && from@ == p@ && to@
                        == renamed
                },
            },
        },
        TasksPageMessage::ArchiveProject => match (
            before.selected_folder,
            before.current_project_being_managed,
        ) {
            (Some(folder), Some(p)) => {
                &&& after == TasksPage {
                    archived_list: after.archived_list,
                    current_project_being_managed: None,
                    display_archive_project_view: false,
                    ..before
                }
                &&& after.archived_list@.len() == before.archived_list@.len() + 1
                &&& after.archived_list@.take(before.archived_list@.len() as int)
                    == before.archived_list@
                &&& after.archived_list@.last()@ == archive_name(p@)
                &&& a matches TasksAction::WriteArchivedList(f) && f@ == folder@
            },
            _ => after == TasksPage {
                current_project_being_managed: None,
                display_archive_project_view: false,
                ..before
            } && a is Nothing,
        },
        TasksPageMessage::UnarchiveProject => match (
            before.selected_folder,
            before.current_project_being_managed,
        ) {
            (Some(folder), Some(p)) => {
                &&& after == TasksPage {
                    archived_list: after.archived_list,
                    current_project_being_managed: None,
                    display_archive_project_view: false,
                    ..before
                }
                &&& match first_position(before.archived_list@, archive_name(p@)) {
                    Some(i) => after.archived_list@ == before.archived_list@.remove(i) && (
                    a matches TasksAction::WriteArchivedList(f) && f@ == folder@),
                    None => after.archived_list@ == before.archived_list@ && a is Nothing,
                }
            },
            _ => after == TasksPage {
                current_project_being_managed: None,
                display_archive_project_view: false,
                ..before
            } && a is Nothing,
        },
        TasksPageMessage::DeleteProject => match before.current_project_being_managed {
            Some(p) => after == TasksPage {
                current_project_being_managed: None,
                display_delete_project_view: false,
                ..before
            } && (a matches TasksAction::DeleteProjectFile(q) && q@ == p@),
            None => after == before && a is Nothing,
        },
        _ => true,
    }
}

/// How handling a task message `m` takes the page from `before` to `after` and what it asks
/// for (`a`).
pub open spec fn task_step(
    before: TasksPage,
    after: TasksPage,
    m: TasksPageMessage,
    a: TasksAction,
) -> bool {
    match m {
        TasksPageMessage::SelectTaskToEdit(o) => after == TasksPage {
            current_task_id: o,
            ..before
        } && a is Nothing,
        TasksPageMessage::DeleteTask(id) => {
            &&& after == TasksPage {
                tasks_list: after.tasks_list,
                show_confirm_before_delete_dialog: false,
                is_dirty: before.is_dirty || task_position(before.tasks_list@, id) is Some,
                ..before
            }
            &&& match task_position(before.tasks_list@, id) {
                Some(i) => after.tasks_list@ == before.tasks_list@.remove(i),
                None => after.tasks_list@ == before.tasks_list@,
            }
            &&& a matches TasksAction::Next(TasksPageMessage::SaveProject)
        },
        TasksPageMessage::DeleteTaskWithConfirmationCheck(id) => if before.should_confirm_before_delete {
            after == TasksPage { current_task_id: Some(id), ..before } && a matches TasksAction::Next(
                TasksPageMessage::ToggleConfirmBeforeDeleteDialog,
            )
        } else {
            after == before && (a matches TasksAction::Next(TasksPageMessage::DeleteTask(j)) && j
                == id)
        },
        TasksPageMessage::SetTaskCompletionState(id, state) => {
            &&& after == TasksPage {
                tasks_list: after.tasks_list,
                is_dirty: before.is_dirty || task_position(before.tasks_list@, id) is Some,
                ..before
            }
            &&& completion_set(before.tasks_list@, after.tasks_list@, id, state)
            &&& a matches TasksAction::Next(TasksPageMessage::SaveProject)
        },
        TasksPageMessage::UpdateCurrentTask => {
            let saved = match before.current_task_id {
                Some(id) => task_position(before.tasks_list@, id) is Some,
                None => true,
            };
            &&& after == TasksPage {
                tasks_list: after.tasks_list,
                is_dirty: before.is_dirty || saved,
                current_task_title_text: after.current_task_title_text,
                current_task_description_text: after.current_task_description_text,
                current_task_id: None,
                show_task_edit_dialog: false,
                ..before
            }
            &&& current_task_saved(
                before.tasks_list@,
                after.tasks_list@,
                before.current_task_id,
                before.current_task_title_text@,
                before.current_task_description_text@,
            )
            &&& if saved {
                after.current_task_title_text@.len() == 0
            } else {
                after.current_task_title_text == before.current_task_title_text
            }
            &&& after.current_task_description_text@.len() == 0
            &&& a matches TasksAction::Next(TasksPageMessage::SaveProject)
        },
        TasksPageMessage::OpenEditDialogForTask(id) => match task_position(before.tasks_list@, id) {
            Some(i) => {
                &&& after == TasksPage {
                    current_task_id: Some(id),
                    show_task_edit_dialog: true,
                    current_task_title_text: after.current_task_title_text,
                    current_task_description_text: after.current_task_description_text,
                    ..before
                }
                &&& after.current_task_title_text@ == before.tasks_list@[i].title@
                &&& after.current_task_description_text@ == before.tasks_list@[i].description@
                &&& a is FocusTaskTitle
            },
            None => after == before && a is Nothing,
        },
        TasksPageMessage::StartCreatingNewTask => {
            &&& after == TasksPage {
                show_task_edit_dialog: true,
                current_task_id: None,
                current_task_title_text: after.current_task_title_text,
                current_task_description_text: after.current_task_description_text,
                ..before
            }
            &&& after.current_task_title_text@.len() == 0
            &&& after.current_task_description_text@.len() == 0
            &&& a is FocusTaskTitle
        },
        TasksPageMessage::EscapeKeyPressed => {
            &&& after == TasksPage {
                show_task_edit_dialog: false,
                current_task_title_text: after.current_task_title_text,
                current_task_description_text: after.current_task_description_text,
                current_task_id: None,
                show_confirm_before_delete_dialog: false,
                ..before
            }
            &&& after.current_task_title_text@.len() == 0
            &&& after.current_task_description_text@.len() == 0
            &&& a is Nothing
        },
        TasksPageMessage::HandleTaskDropZones(id, zone) => after == before && match zone {
            Some(z) => match drop_zone_state(z@) {
                Some(state) => a matches TasksAction::Next(
                    TasksPageMessage::SetTaskCompletionState(j, s),
                ) && j == id && s == state,
                None => a is Nothing,
            },
            None => a is Nothing,
        },
        _ => true,
    }
}

/// How handling a field or view message `m` takes the page from `before` to `after` and what
/// it asks for (`a`).
pub open spec fn field_step(
    before: TasksPage,
    after: TasksPage,
    m: TasksPageMessage,
    a: TasksAction,
) -> bool {
    match m {
        TasksPageMessage::UpdateTaskTitle(s) => after == TasksPage {
            current_task_title_text: s,
            ..before
        } && a is Nothing,
        TasksPageMessage::UpdateTaskDescription(s) => after == TasksPage {
            current_task_description_text: s,
            ..before
        } && a is Nothing,
        TasksPageMessage::StartCreatingNewProject => after == TasksPage {
            is_creating_new_project: true,
            ..before
        } && a is FocusNewProjectName,
        TasksPageMessage::CancelCreateNewProject => {
            &&& after == TasksPage {
                is_creating_new_project: false,
                new_project_name_field_content: after.new_project_name_field_content,
                ..before
            }
            &&& after.new_project_name_field_content@.len() == 0
            &&& a is Nothing
        },
        TasksPageMessage::UpdateNewProjectNameEntry(s) => after == TasksPage {
            new_project_name_field_content: s,
            ..before
        } && a is Nothing,
        TasksPageMessage::UpdateRenameProjectEntryText(s) => after == TasksPage {
            rename_project_field_text: s,
            ..before
        } && a is Nothing,
        TasksPageMessage::SetShowTaskCompletionToolbar(b) => after == TasksPage {
            show_task_completion_toolbar: b,
            ..before
        } && a is Nothing,
        TasksPageMessage::SetConfirmBeforeDelete(b) => after == TasksPage {
            should_confirm_before_delete: b,
            ..before
        } && a is Nothing,
        TasksPageMessage::SetRightClickToEditTask(b) => after == TasksPage {
            right_click_to_edit_task: b,
            ..before
        } && a is Nothing,
        TasksPageMessage::UpdateTasksFilter(s) => after == TasksPage {
            filter_tasks_text: s,
            ..before
        } && a is Nothing,
        TasksPageMessage::UpdateProjectsFilter(s) => after == TasksPage {
            filter_projects_text: s,
            ..before
        } && a is Nothing,
        TasksPageMessage::ToggleExtraToolsMenu => after == TasksPage {
            show_extra_tools_menu: !before.show_extra_tools_menu,
            ..before
        } && a is Nothing,
        TasksPageMessage::ToggleRenameProjectView => if before.display_rename_project_view {
            &&& after == TasksPage {
                display_rename_project_view: false,
                rename_project_field_text: after.rename_project_field_text,
                ..before
            }
            &&& after.rename_project_field_text@.len() == 0
            &&& a is Nothing
        } else {
            after == TasksPage { display_rename_project_view: true, ..before }
                && a is FocusRenameProject
        },
        TasksPageMessage::ToggleDeleteProjectView => after == TasksPage {
            display_delete_project_view: !before.display_delete_project_view,
            ..before
        } && a is Nothing,
        TasksPageMessage::ToggleArchiveProjectView => after == TasksPage {
            display_archive_project_view: !before.display_archive_project_view,
            ..before
        } && a is Nothing,
        TasksPageMessage::ToggleShowArchivedProjects => after == TasksPage {
            show_archived_projects: !before.show_archived_projects,
            ..before
        } && a is Nothing,
        TasksPageMessage::ToggleShowTaskEditDialog => after == TasksPage {
            show_task_edit_dialog: !before.show_task_edit_dialog,
            ..before
        } && a is Nothing,
        TasksPageMessage::ToggleShowSidebar => after == TasksPage {
            show_sidebar: !before.show_sidebar,
            ..before
        } && a is Nothing,
        TasksPageMessage::ToggleConfirmBeforeDeleteDialog => after == TasksPage {
            show_confirm_before_delete_dialog: !before.show_confirm_before_delete_dialog,
            ..before
        } && a is Nothing,
        TasksPageMessage::ToggleTaskViewType => after == TasksPage {
            task_view_type: after.task_view_type,
            ..before
        } && after.task_view_type != before.task_view_type && a is Nothing,
        _ => true,
    }
}

/// How handling `m` takes the page from `before` to `after` and what it asks for (`a`).
pub open spec fn tasks_step(
    before: TasksPage,
    after: TasksPage,
    m: TasksPageMessage,
    a: TasksAction,
) -> bool {
    let g = tasks_message_group(m);
    if g == 1 {
        project_step(before, after, m, a)
    } else if g == 2 {
        task_step(before, after, m, a)
    } else {
        field_step(before, after, m, a)
    }
}

fn clone_text_option(o: &Option<String>) -> (r: Option<String>)
    ensures
        opt_text(r) == opt_text(*o),
{
    match o {
        Some(s) => Some(s.clone()),
        None => None,
    }
}

pub(crate) fn same_optional_path_exec(a: &Option<String>, b: &Option<String>) -> (r: bool)
    ensures
        r == same_optional_path(*a, *b),
{
    match (a, b) {
        (Some(x), Some(y)) => path_order(x.as_str(), y.as_str()) == PathOrder::Same,
        (None, None) => true,
        _ => false,
    }
}

impl TasksPage {
    /// The page with the settings `config`: the chosen folder and project (if any), the
    /// chosen view and options, and nothing loaded or being edited.
    pub fn new(config: &TaskPageConfig) -> (r: TasksPage)
        ensures
            opt_text(r.selected_folder) == opt_text(config.default_folder),
            opt_text(r.current_project_file) == opt_text(config.default_project_file),
            r.task_view_type == (if config.kanban_task_view_is_default {
                TaskViewType::Kanban
            } else {
                TaskViewType::List
            }),
            r.show_sidebar == config.show_sidebar_on_start,
            r.should_confirm_before_delete == config.confirm_before_delete,
            r.show_task_completion_toolbar == config.show_task_completion_toolbar,
            r.right_click_to_edit_task == config.right_click_to_edit_task,
            r.tasks_list@.len() == 0 && r.projects_list@.len() == 0 && r.archived_list@.len() == 0,
            r.current_task_id is None && r.current_project_being_managed is None,
            !r.is_dirty && !r.show_task_edit_dialog && !r.show_confirm_before_delete_dialog,
            !r.is_creating_new_project && !r.show_extra_tools_menu,
            !r.display_rename_project_view && !r.display_delete_project_view,
            !r.display_archive_project_view && !r.show_archived_projects,
            r.current_task_title_text@.len() == 0 && r.current_task_description_text@.len() == 0,
            r.new_project_name_field_content@.len() == 0,
            r.rename_project_field_text@.len() == 0,
            r.filter_tasks_text@.len() == 0 && r.filter_projects_text@.len() == 0,
    {
        TasksPage {
            selected_folder: clone_text_option(&config.default_folder),
            current_project_file: clone_text_option(&config.default_project_file),
            task_view_type: if config.kanban_task_view_is_default {
                TaskViewType::Kanban
            } else {
                TaskViewType::List
            },
            projects_list: Vec::new(),
            tasks_list: Vec::new(),
            show_sidebar: config.show_sidebar_on_start,
            show_task_edit_dialog: false,
            current_task_title_text: String::new(),
            current_task_description_text: String::new(),
            current_task_id: None,
            should_confirm_before_delete: config.confirm_before_delete,
            show_confirm_before_delete_dialog: false,
            is_dirty: false,
            is_creating_new_project: false,
            new_project_name_field_content: String::new(),
            show_task_completion_toolbar: config.show_task_completion_toolbar,
            show_extra_tools_menu: false,
            current_project_being_managed: None,
            display_rename_project_view: false,
            display_delete_project_view: false,
            display_archive_project_view: false,
            rename_project_field_text: String::new(),
            right_click_to_edit_task: config.right_click_to_edit_task,
            filter_tasks_text: String::new(),
            filter_projects_text: String::new(),
            archived_list: Vec::new(),
            show_archived_projects: false,
        }
    }

    /// Handles `message` and says what has to happen next (see `tasks_step`).
    pub fn update(&mut self, message: TasksPageMessage) -> (a: TasksAction)
        ensures
            tasks_step(*old(self), *final(self), message, a),
    {
        let g = tasks_group_of(&message);
        if g == 1 {
            self.update_projects(message)
        } else if g == 2 {
            self.update_tasks(message)
        } else {
            self.update_fields(message)
        }
    }

    #[verifier::rlimit(100)]
    #[verifier::spinoff_prover]
    fn update_projects(&mut self, message: TasksPageMessage) -> (a: TasksAction)
        requires
            tasks_message_group(message) == 1,
        ensures
            project_step(*old(self), *final(self), message, a),
    {
        match &message {
            TasksPageMessage::PickProjectsFolder
            | TasksPageMessage::SetProjectsFolder(..)
            | TasksPageMessage::LoadProjectsList
            | TasksPageMessage::PickProjectFile(..)
            | TasksPageMessage::ProjectFileChecked(..)
            | TasksPageMessage::SetProjectsList(..)
            | TasksPageMessage::SetTasksList(..)
            | TasksPageMessage::SaveProject
            | TasksPageMessage::ProjectSaved => self.project_files(message),
            TasksPageMessage::CreateNewProject
            | TasksPageMessage::ShowMenuForProject(..)
            | TasksPageMessage::RenameProject => self.project_naming(message),
            _ => self.project_archiving(message),
        }
    }

    #[verifier::rlimit(100)]
    #[verifier::spinoff_prover]
    fn project_files(&mut self, message: TasksPageMessage) -> (a: TasksAction)
        requires
            message is PickProjectsFolder
                || message is SetProjectsFolder
                || message is LoadProjectsList
                || message is PickProjectFile
                || message is ProjectFileChecked
                || message is SetProjectsList
                || message is SetTasksList
                || message is SaveProject
                || message is ProjectSaved,
        ensures
            project_step(*old(self), *final(self), message, a),
    {
        match message {
            TasksPageMessage::PickProjectsFolder => TasksAction::PickProjectsFolder,
            TasksPageMessage::SetProjectsFolder(f) => {
                self.selected_folder = f;
                TasksAction::Next(TasksPageMessage::LoadProjectsList)
            },
            TasksPageMessage::LoadProjectsList => TasksAction::LoadProjects(
                clone_text_option(&self.selected_folder),
            ),
            TasksPageMessage::PickProjectFile(o) => match (o, &self.selected_folder) {
                (Some(file), Some(folder)) => TasksAction::CheckProjectFile {
                    folder: folder.clone(),
                    file,
                },
                _ => TasksAction::Nothing,
            },
            TasksPageMessage::ProjectFileChecked(file, folder, resolved) => match folder {
                None => TasksAction::Nothing,
                Some(base) => {
                    let inside = match &resolved {
                        Some(p) => starts_with_path(p.as_str(), base.as_str()),
                        None => false,
                    };
                    if inside {
                        TasksAction::SaveThenLoadTasks(file)
                    } else {
                        self.current_project_file = None;
                        TasksAction::Nothing
                    }
                },
            },
            TasksPageMessage::SetProjectsList(projects, archived) => {
                self.projects_list = projects;
                self.archived_list = archived;
                TasksAction::Next(
                    TasksPageMessage::PickProjectFile(clone_text_option(&self.current_project_file)),
                )
            },
            TasksPageMessage::SetTasksList(tasks, path) => {
                self.tasks_list = tasks;
                self.current_project_file = Some(path);
                TasksAction::Nothing
            },
            TasksPageMessage::SaveProject => match &self.current_project_file {
                Some(f) => if self.is_dirty {
                    TasksAction::WriteProject(f.clone())
                } else {
                    TasksAction::Nothing
                },
                None => TasksAction::Nothing,
            },
            TasksPageMessage::ProjectSaved => {
                self.is_dirty = false;
                TasksAction::Nothing
            },
            _ => TasksAction::Nothing,
        }
    }

    #[verifier::rlimit(100)]
    #[verifier::spinoff_prover]
    fn project_naming(&mut self, message: TasksPageMessage) -> (a: TasksAction)
        requires
            message is CreateNewProject
                || message is ShowMenuForProject
                || message is RenameProject,
        ensures
            project_step(*old(self), *final(self), message, a),
    {
        match message {
            TasksPageMessage::CreateNewProject => {
                self.is_creating_new_project = false;
                match &self.selected_folder {
                    Some(folder) => {
                        let joined = join_path(
                            folder.as_str(),
                            self.new_project_name_field_content.as_str(),
                        );
                        let path = set_json_extension(joined.as_str());
                        self.new_project_name_field_content = String::new();
                        TasksAction::CreateProjectFile(path)
                    },
                    None => TasksAction::Nothing,
                }
            },
            TasksPageMessage::ShowMenuForProject(o) => {
                self.display_rename_project_view = false;
                self.display_delete_project_view = false;
                self.current_project_being_managed = o;
                TasksAction::Nothing
            },
            TasksPageMessage::RenameProject => {
                if self.selected_folder.is_none() {
                    return TasksAction::ErrorToast(
                        "No selected folder to save renamed project to.".to_owned(),
                    );
                }
                let p = match &self.current_project_being_managed {
                    Some(p) => p.clone(),
                    None => {
                        return TasksAction::ErrorToast("No selected project to rename".to_owned());
                    },
                };
                let with_name = path_with_file_name(p.as_str(), self.rename_project_field_text.as_str());
                let renamed = set_json_extension(with_name.as_str());
                if same_optional_path_exec(
                    &self.current_project_file,
                    &self.current_project_being_managed,
                ) {
                    self.current_project_file = Some(renamed.clone());
                }
                self.rename_project_field_text = String::new();
                self.display_rename_project_view = false;
                self.display_delete_project_view = false;
                self.current_project_being_managed = None;
                TasksAction::RenameProjectFile { from: p, to: renamed }
            },
            _ => TasksAction::Nothing,
        }
    }

    #[verifier::rlimit(100)]
    #[verifier::spinoff_prover]
    fn project_archiving(&mut self, message: TasksPageMessage) -> (a: TasksAction)
        requires
            message is ArchiveProject || message is UnarchiveProject || message is DeleteProject,
        ensures
            project_step(*old(self), *final(self), message, a),
    {
        match message {
            TasksPageMessage::ArchiveProject => {
                let mut action = TasksAction::Nothing;
                match (&self.selected_folder, &self.current_project_being_managed) {
                    (Some(folder), Some(p)) => {
                        archive_file(&mut self.archived_list, p.as_str());
                        action = TasksAction::WriteArchivedList(folder.clone());
                    },
                    _ => {},
                }
                self.current_project_being_managed = None;
                self.display_archive_project_view = false;
                action
            },
            TasksPageMessage::UnarchiveProject => {
                let mut action = TasksAction::Nothing;
                match (&self.selected_folder, &self.current_project_being_managed) {
                    (Some(folder), Some(p)) => {
                        if unarchive_file(&mut self.archived_list, p.as_str()) {
                            action = TasksAction::WriteArchivedList(folder.clone());
                        }
                    },
                    _ => {},
                }
                self.current_project_being_managed = None;
                self.display_archive_project_view = false;
                action
            },
            TasksPageMessage::DeleteProject => match &self.current_project_being_managed {
                Some(p) => {
                    let q = p.clone();
                    self.current_project_being_managed = None;
                    self.display_delete_project_view = false;
                    TasksAction::DeleteProjectFile(q)
                },
                None => TasksAction::Nothing,
            },
            _ => TasksAction::Nothing,
        }
    }


    #[verifier::rlimit(100)]
    #[verifier::spinoff_prover]
    fn update_tasks(&mut self, message: TasksPageMessage) -> (a: TasksAction)
        requires
            tasks_message_group(message) == 2,
        ensures
            task_step(*old(self), *final(self), message, a),
    {
        match &message {
            TasksPageMessage::SelectTaskToEdit(..)
            | TasksPageMessage::UpdateCurrentTask
            | TasksPageMessage::OpenEditDialogForTask(..)
            | TasksPageMessage::StartCreatingNewTask
            | TasksPageMessage::EscapeKeyPressed => self.task_editing(message),
            _ => self.task_moving(message),
        }
    }

    #[verifier::rlimit(100)]
    #[verifier::spinoff_prover]
    fn task_editing(&mut self, message: TasksPageMessage) -> (a: TasksAction)
        requires
            message is SelectTaskToEdit
                || message is UpdateCurrentTask
                || message is OpenEditDialogForTask
                || message is StartCreatingNewTask
                || message is EscapeKeyPressed,
        ensures
            task_step(*old(self), *final(self), message, a),
    {
        match message {
            TasksPageMessage::SelectTaskToEdit(o) => {
                self.current_task_id = o;
                TasksAction::Nothing
            },
            TasksPageMessage::UpdateCurrentTask => {
                let mut description = String::new();
                std::mem::swap(&mut description, &mut self.current_task_description_text);
                let saved = update_current_task(
                    &mut self.tasks_list,
                    self.current_task_id,
                    self.current_task_title_text.clone(),
                    description,
                );
                if saved {
                    self.current_task_title_text = String::new();
                    self.is_dirty = true;
                }
                self.current_task_id = None;
                self.show_task_edit_dialog = false;
                TasksAction::Next(TasksPageMessage::SaveProject)
            },
            TasksPageMessage::OpenEditDialogForTask(id) => match find_task(&self.tasks_list, id) {
                Some(i) => {
                    let title = self.tasks_list[i].title.clone();
                    let description = self.tasks_list[i].description.clone();
                    self.current_task_id = Some(id);
                    self.show_task_edit_dialog = true;
                    self.current_task_title_text = title;
                    self.current_task_description_text = description;
                    TasksAction::FocusTaskTitle
                },
                None => TasksAction::Nothing,
            },
            TasksPageMessage::StartCreatingNewTask => {
                self.show_task_edit_dialog = true;
                self.current_task_id = None;
                self.current_task_title_text = String::new();
                self.current_task_description_text = String::new();
                TasksAction::FocusTaskTitle
            },
            TasksPageMessage::EscapeKeyPressed => {
                self.show_task_edit_dialog = false;
                self.current_task_title_text = String::new();
                self.current_task_description_text = String::new();
                self.current_task_id = None;
                self.show_confirm_before_delete_dialog = false;
                TasksAction::Nothing
            },
            _ => TasksAction::Nothing,
        }
    }

    #[verifier::rlimit(100)]
    #[verifier::spinoff_prover]
    fn task_moving(&mut self, message: TasksPageMessage) -> (a: TasksAction)
        requires
            message is DeleteTask
                || message is DeleteTaskWithConfirmationCheck
                || message is SetTaskCompletionState
                || message is HandleTaskDropZones,
        ensures
            task_step(*old(self), *final(self), message, a),
    {
        match message {
            TasksPageMessage::DeleteTask(id) => {
                self.show_confirm_before_delete_dialog = false;
                if delete_task(&mut self.tasks_list, id) {
                    self.is_dirty = true;
                }
                TasksAction::Next(TasksPageMessage::SaveProject)
            },
            TasksPageMessage::DeleteTaskWithConfirmationCheck(id) => {
                if self.should_confirm_before_delete {
                    self.current_task_id = Some(id);
                    TasksAction::Next(TasksPageMessage::ToggleConfirmBeforeDeleteDialog)
                } else {
                    TasksAction::Next(TasksPageMessage::DeleteTask(id))
                }
            },
            TasksPageMessage::SetTaskCompletionState(id, state) => {
                if set_task_completion_state(&mut self.tasks_list, id, state) {
                    self.is_dirty = true;
                }
                TasksAction::Next(TasksPageMessage::SaveProject)
            },
            TasksPageMessage::HandleTaskDropZones(id, zone) => match zone {
                Some(z) => match completion_state_for_drop_zone(z.as_str()) {
                    Some(state) => TasksAction::Next(TasksPageMessage::SetTaskCompletionState(id, state)),
                    None => TasksAction::Nothing,
                },
                None => TasksAction::Nothing,
            },
            _ => TasksAction::Nothing,
        }
    }


    #[verifier::rlimit(100)]
    #[verifier::spinoff_prover]
    fn update_fields(&mut self, message: TasksPageMessage) -> (a: TasksAction)
        requires
            tasks_message_group(message) == 0,
        ensures
            field_step(*old(self), *final(self), message, a),
    {
        match message {
            TasksPageMessage::UpdateTaskTitle(s) => {
                self.current_task_title_text = s;
                TasksAction::Nothing
            },
            TasksPageMessage::UpdateTaskDescription(s) => {
                self.current_task_description_text = s;
                TasksAction::Nothing
            },
            TasksPageMessage::StartCreatingNewProject => {
                self.is_creating_new_project = true;
                TasksAction::FocusNewProjectName
            },
            TasksPageMessage::CancelCreateNewProject => {
                self.is_creating_new_project = false;
                self.new_project_name_field_content = String::new();
                TasksAction::Nothing
            },
            TasksPageMessage::UpdateNewProjectNameEntry(s) => {
                self.new_project_name_field_content = s;
                TasksAction::Nothing
            },
            TasksPageMessage::UpdateRenameProjectEntryText(s) => {
                self.rename_project_field_text = s;
                TasksAction::Nothing
            },
            TasksPageMessage::SetShowTaskCompletionToolbar(b) => {
                self.show_task_completion_toolbar = b;
                TasksAction::Nothing
            },
            TasksPageMessage::SetConfirmBeforeDelete(b) => {
                self.should_confirm_before_delete = b;
                TasksAction::Nothing
            },
            TasksPageMessage::SetRightClickToEditTask(b) => {
                self.right_click_to_edit_task = b;
                TasksAction::Nothing
            },
            TasksPageMessage::UpdateTasksFilter(s) => {
                self.filter_tasks_text = s;
                TasksAction::Nothing
            },
            TasksPageMessage::UpdateProjectsFilter(s) => {
                self.filter_projects_text = s;
                TasksAction::Nothing
            },
            TasksPageMessage::ToggleExtraToolsMenu => {
                self.show_extra_tools_menu = !self.show_extra_tools_menu;
                TasksAction::Nothing
            },
            TasksPageMessage::ToggleRenameProjectView => {
                self.display_rename_project_view = !self.display_rename_project_view;
                if self.display_rename_project_view {
                    TasksAction::FocusRenameProject
                } else {
                    self.rename_project_field_text = String::new();
                    TasksAction::Nothing
                }
            },
            TasksPageMessage::ToggleDeleteProjectView => {
                self.display_delete_project_view = !self.display_delete_project_view;
                TasksAction::Nothing
            },
            TasksPageMessage::ToggleArchiveProjectView => {
                self.display_archive_project_view = !self.display_archive_project_view;
                TasksAction::Nothing
            },
            TasksPageMessage::ToggleShowArchivedProjects => {
                self.show_archived_projects = !self.show_archived_projects;
                TasksAction::Nothing
            },
            TasksPageMessage::ToggleShowTaskEditDialog => {
                self.show_task_edit_dialog = !self.show_task_edit_dialog;
                TasksAction::Nothing
            },
            TasksPageMessage::ToggleShowSidebar => {
                self.show_sidebar = !self.show_sidebar;
                TasksAction::Nothing
            },
            TasksPageMessage::ToggleConfirmBeforeDeleteDialog => {
                self.show_confirm_before_delete_dialog = !self.show_confirm_before_delete_dialog;
                TasksAction::Nothing
            },
            TasksPageMessage::ToggleTaskViewType => {
                self.task_view_type = self.task_view_type.toggled();
                TasksAction::Nothing
            },
            _ => TasksAction::Nothing,
        }
    }
}


/// The message for `Ctrl` with the character key `c` on the tasks page, if any: a new task,
/// the sidebar, the view type, and saving the task being edited.
pub open spec fn tasks_shortcut(c: char) -> Option<TasksPageMessage> {
    if c == 'n' || c == 'N' {
        Some(TasksPageMessage::StartCreatingNewTask)
    } else if c == 'b' || c == 'B' {
        Some(TasksPageMessage::ToggleShowSidebar)
    } else if c == 'l' || c == 'L' {
        Some(TasksPageMessage::ToggleTaskViewType)
    } else if c == 's' || c == 'S' {
        Some(TasksPageMessage::UpdateCurrentTask)
    } else {
        None
    }
}

/// The message that `Ctrl` together with the character key `c` sends to the tasks page.
pub fn for_ctrl_shortcut(c: char) -> (m: Option<TasksPageMessage>)
    ensures
        m == tasks_shortcut(c),
{
    if c == 'n' || c == 'N' {
        Some(TasksPageMessage::StartCreatingNewTask)
    } else if c == 'b' || c == 'B' {
        Some(TasksPageMessage::ToggleShowSidebar)
    } else if c == 'l' || c == 'L' {
        Some(TasksPageMessage::ToggleTaskViewType)
    } else if c == 's' || c == 'S' {
        Some(TasksPageMessage::UpdateCurrentTask)
    } else {
        None
    }
}


/// Archiving a project whose name is not archived yet, then opening its menu again and
/// unarchiving it, gives the page back the archived list it had.
pub proof fn lemma_archive_then_unarchive_project(
    p0: TasksPage,
    p1: TasksPage,
    p2: TasksPage,
    p3: TasksPage,
    a1: TasksAction,
    a2: TasksAction,
    a3: TasksAction,
    path: String,
)
    requires
        p0.selected_folder is Some,
        p0.current_project_being_managed == Some(path),
        forall|i: int|
            0 <= i < p0.archived_list@.len() ==> p0.archived_list@[i]@ != archive_name(path@),
        tasks_step(p0, p1, TasksPageMessage::ArchiveProject, a1),
        tasks_step(p1, p2, TasksPageMessage::ShowMenuForProject(Some(path)), a2),
        tasks_step(p2, p3, TasksPageMessage::UnarchiveProject, a3),
    ensures
        p3.archived_list@ == p0.archived_list@,
        p3.current_project_being_managed is None,
{
    lemma_archive_then_unarchive(p0.archived_list@, p1.archived_list@, p3.archived_list@, path@);
}

} // verus!
