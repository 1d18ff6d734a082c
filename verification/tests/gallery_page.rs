use idirfein::config::GalleryPageConfig;
use idirfein::faces::FaceData;
use idirfein::gallery::{get_parent_folders, ImageRow};
use idirfein::gallery_page::{
    GalleryAction, GalleryPage, GalleryPageMessage, ProcessKind, ScrolledList,
};

fn config(folder: Option<&str>, thumbs: bool, faces: bool, people: bool) -> GalleryPageConfig {
    GalleryPageConfig {
        default_folder: folder.map(|f| f.to_string()),
        run_face_extraction_on_start: faces,
        run_face_recognition_on_start: people,
        run_thumbnail_generation_on_start: thumbs,
    }
}

fn paths(n: usize) -> Vec<String> {
    (0..n).map(|i| format!("/pics/{}/img{}.jpg", if i % 2 == 0 { "a" } else { "b" }, i)).collect()
}

/// The files list message for `n` images: four to a row, with their folders.
fn files_list(n: usize) -> GalleryPageMessage {
    let images = paths(n);
    let parents = get_parent_folders(&images);
    GalleryPageMessage::SetGalleryFilesList(images.chunks(4).map(|r| r.to_vec()).collect(), parents)
}

fn face(name: Option<&str>) -> FaceData {
    FaceData {
        original_filename: "img0.jpg".to_string(),
        name_of_person: name.map(|n| n.to_string()),
        is_ignored: false,
        thumbnail_filename: "face0.jpg".to_string(),
        face_matrix_bytes: vec![1, 2, 3],
        checked_names: vec![],
    }
}

#[test]
fn loading_the_folder_starts_the_first_work_asked_for() {
    let mut page = GalleryPage::new(&config(Some("/pics"), false, true, true));
    assert!(matches!(GalleryPage::opening_task(), GalleryPageMessage::LoadGalleryFolder));
    match page.update(GalleryPageMessage::LoadGalleryFolder) {
        GalleryAction::ListImages { folder, then } => {
            assert_eq!(folder.as_deref(), Some("/pics"));
            assert!(matches!(then, Some(ProcessKind::FaceExtraction)));
        }
        _ => panic!("expected the folder to be listed"),
    }
    let mut none = GalleryPage::new(&config(None, false, false, false));
    assert!(matches!(
        none.update(GalleryPageMessage::LoadGalleryFolder),
        GalleryAction::ListImages { folder: None, then: None }
    ));
}

#[test]
fn the_files_list_is_laid_out_in_rows_and_the_first_rows_load() {
    let mut page = GalleryPage::new(&config(Some("/pics"), false, false, false));
    match page.update(files_list(9)) {
        GalleryAction::LoadRowsThenListPeople { rows, folders } => {
            assert_eq!(rows.len(), 3);
            assert_eq!(rows[2].image_paths, vec!["/pics/a/img8.jpg".to_string()]);
            assert_eq!(folders, vec!["/pics/a".to_string(), "/pics/b".to_string()]);
        }
        _ => panic!("expected rows to load"),
    }
    assert_eq!(page.gallery_row_list.len(), 3);
    assert_eq!(page.gallery_row_list[0].image_paths.len(), 4);
    assert!(page.gallery_row_list.iter().all(|r| !r.is_loaded));
    assert_eq!(page.gallery_parents_list, vec!["/pics/a".to_string(), "/pics/b".to_string()]);
}

#[test]
fn scrolling_loads_the_rows_in_view_and_unloads_the_others() {
    let mut page = GalleryPage::new(&config(None, false, false, false));
    page.update(files_list(20));
    match page.update(GalleryPageMessage::GalleryScrolled(2, 2)) {
        GalleryAction::NextTwo(
            GalleryPageMessage::LoadImageRows(load),
            GalleryPageMessage::UnloadImageRows(unload),
        ) => {
            assert_eq!(load.iter().map(|r| r.index).collect::<Vec<_>>(), vec![2, 3]);
            assert_eq!(unload.iter().map(|r| r.index).collect::<Vec<_>>(), vec![0, 1]);
        }
        _ => panic!("expected rows to reload"),
    }
    assert_eq!(page.first_loaded_row_index, 2);
    assert!(page.gallery_viewport_known);
    assert!(matches!(page.update(GalleryPageMessage::GalleryScrolled(2, 2)), GalleryAction::Nothing));
}

#[test]
fn loaded_rows_replace_their_rows_and_unloading_marks_them() {
    let mut page = GalleryPage::new(&config(None, false, false, false));
    page.update(files_list(8));
    let loaded = ImageRow { is_loaded: true, index: 1, image_paths: vec!["/x.png".to_string()] };
    page.update(GalleryPageMessage::SetImageRows(vec![loaded]));
    assert!(page.gallery_row_list[1].is_loaded);
    assert_eq!(page.gallery_row_list[1].image_paths, vec!["/x.png".to_string()]);
    let row = ImageRow { is_loaded: true, index: 1, image_paths: vec!["/x.png".to_string()] };
    match page.update(GalleryPageMessage::UnloadImageRows(vec![row])) {
        GalleryAction::Next(GalleryPageMessage::SetImageRows(rows)) => {
            assert_eq!(rows.len(), 1);
            assert!(!rows[0].is_loaded);
            assert_eq!(rows[0].index, 1);
        }
        _ => panic!("expected the rows back unloaded"),
    }
}

#[test]
fn moving_between_images_in_the_big_view() {
    let mut page = GalleryPage::new(&config(None, false, false, false));
    page.update(files_list(3));
    assert!(matches!(page.update(GalleryPageMessage::SelectNextImage), GalleryAction::Nothing));
    page.update(GalleryPageMessage::FacesRead("/pics/b/img1.jpg".to_string(), Ok(vec![])));
    match page.update(GalleryPageMessage::SelectNextImage) {
        GalleryAction::Next(GalleryPageMessage::SelectImageForBigView(Some(p))) => {
            assert_eq!(p, "/pics/a/img2.jpg")
        }
        _ => panic!("expected the next image"),
    }
    match page.update(GalleryPageMessage::SelectPreviousImage) {
        GalleryAction::Next(GalleryPageMessage::SelectImageForBigView(Some(p))) => {
            assert_eq!(p, "/pics/a/img0.jpg")
        }
        _ => panic!("expected the previous image"),
    }
    page.update(GalleryPageMessage::FacesRead("/pics/a/img2.jpg".to_string(), Ok(vec![])));
    assert!(matches!(page.update(GalleryPageMessage::SelectNextImage), GalleryAction::Nothing));
    assert!(matches!(
        page.update(GalleryPageMessage::EscapeKeyPressed),
        GalleryAction::Next(GalleryPageMessage::SelectImageForBigView(None))
    ));
}

#[test]
fn choosing_an_image_reads_its_faces_and_a_failure_is_reported() {
    let mut page = GalleryPage::new(&config(None, false, false, false));
    page.rename_person_field_text = "Ann".to_string();
    page.show_rename_confirmation = true;
    match page.update(GalleryPageMessage::SelectImageForBigView(Some("/p/x.jpg".to_string()))) {
        GalleryAction::ReadFaces(p) => assert_eq!(p, "/p/x.jpg"),
        _ => panic!("expected the faces to be read"),
    }
    assert!(page.rename_person_field_text.is_empty());
    assert!(!page.show_rename_confirmation);
    match page.update(GalleryPageMessage::FacesRead("/p/x.jpg".to_string(), Err("gone".to_string())))
    {
        GalleryAction::ErrorToast(t) => assert_eq!(t, "Couldn't load faces in image: gone"),
        _ => panic!("expected a toast"),
    }
    assert!(page.selected_image.is_none());
}

#[test]
fn keys_scroll_the_list_that_is_shown() {
    let mut page = GalleryPage::new(&config(None, false, false, false));
    assert!(matches!(page.update(GalleryPageMessage::PageDownKeyPressed), GalleryAction::Nothing));
    page.update(GalleryPageMessage::GalleryScrolled(0, 3));
    assert!(matches!(
        page.update(GalleryPageMessage::PageDownKeyPressed),
        GalleryAction::ScrollBy { list: ScrolledList::Gallery, pixels: 500 }
    ));
    assert!(matches!(
        page.update(GalleryPageMessage::ArrowUpKeyPressed),
        GalleryAction::ScrollBy { list: ScrolledList::Gallery, pixels: -50 }
    ));
    page.update(GalleryPageMessage::TogglePeopleView);
    page.update(GalleryPageMessage::PeopleListScrolled);
    assert!(matches!(
        page.update(GalleryPageMessage::ArrowDownKeyPressed),
        GalleryAction::ScrollBy { list: ScrolledList::People, pixels: 50 }
    ));
}

#[test]
fn only_one_background_work_runs_at_a_time() {
    let mut page = GalleryPage::new(&config(None, false, true, true));
    page.update(files_list(2));
    match page.update(GalleryPageMessage::GenerateAllThumbnails) {
        GalleryAction::StartProcess { kind, inputs, then } => {
            assert!(matches!(kind, ProcessKind::ThumbnailGeneration));
            assert_eq!(inputs.len(), 2);
            assert!(matches!(then, Some(ProcessKind::FaceExtraction)));
        }
        _ => panic!("expected the work to start"),
    }
    page.update(GalleryPageMessage::SetPhotoProcessProgress(Some(ProcessKind::ThumbnailGeneration)));
    match page.update(GalleryPageMessage::RunFaceRecognition) {
        GalleryAction::ErrorToast(t) => assert_eq!(t, "Can't run multiple photo processes at once"),
        _ => panic!("expected a refusal"),
    }
    assert!(matches!(page.update(GalleryPageMessage::AbortProcess), GalleryAction::StopProcess));
    assert!(page.photo_process.is_none());
    page.update(GalleryPageMessage::SetPhotoProcessProgress(None));
    match page.update(GalleryPageMessage::AbortProcess) {
        GalleryAction::ErrorToast(t) => assert_eq!(t, "No process handle found"),
        _ => panic!("expected a toast"),
    }
}

#[test]
fn renaming_a_face_saves_it_with_the_new_name() {
    let mut page = GalleryPage::new(&config(None, false, false, false));
    page.update(files_list(2));
    assert!(matches!(
        page.update(GalleryPageMessage::OpenManagePersonView("/pics/a/img0.jpg".to_string(), face(None))),
        GalleryAction::FocusRenameField
    ));
    page.update(GalleryPageMessage::MaybeRenamePerson(None));
    assert!(!page.show_rename_confirmation);
    page.update(GalleryPageMessage::UpdateRenamePersonField("Ann".to_string()));
    page.update(GalleryPageMessage::MaybeRenamePerson(None));
    assert!(page.show_rename_confirmation);
    match page.update(GalleryPageMessage::ConfirmRenamePerson) {
        GalleryAction::SaveFace { image, face, list_people_of } => {
            assert_eq!(image, "/pics/a/img0.jpg");
            assert_eq!(face.name_of_person.as_deref(), Some("Ann"));
            assert_eq!(list_people_of.map(|l| l.len()), Some(2));
        }
        _ => panic!("expected the face to be saved"),
    }
    assert!(page.person_to_manage.is_none());
    assert!(page.rename_person_field_text.is_empty());
}

#[test]
fn ignoring_a_face_is_refused_while_work_runs() {
    let mut page = GalleryPage::new(&config(None, false, false, false));
    page.update(GalleryPageMessage::OpenManagePersonView("/p/i.jpg".to_string(), face(Some("Bo"))));
    page.update(GalleryPageMessage::SetPhotoProcessProgress(Some(ProcessKind::FaceRecognition)));
    match page.update(GalleryPageMessage::ConfirmIgnorePerson) {
        GalleryAction::ErrorToast(t) => {
            assert_eq!(t, "Can't manage people while background photo process is running")
        }
        _ => panic!("expected a refusal"),
    }
    page.update(GalleryPageMessage::SetPhotoProcessProgress(None));
    match page.update(GalleryPageMessage::ConfirmIgnorePerson) {
        GalleryAction::SaveFace { face, list_people_of: None, .. } => assert!(face.is_ignored),
        _ => panic!("expected the face to be saved"),
    }
}

#[test]
fn a_persons_photos_are_shown_and_escape_goes_back_to_the_people() {
    let mut page = GalleryPage::new(&config(None, false, false, false));
    page.update(files_list(5));
    match page.update(GalleryPageMessage::SetPersonToViewName(Some("Ann".to_string()))) {
        GalleryAction::ListPhotosOf { name, folders } => {
            assert_eq!(name, "Ann");
            assert_eq!(folders.len(), 2);
        }
        _ => panic!("expected the photos to be listed"),
    }
    let timed: Vec<(String, i64)> =
        paths(5).into_iter().zip([10, 30, 20, 30, 5]).collect();
    match page.update(GalleryPageMessage::SetPersonToViewPaths(timed)) {
        GalleryAction::Next(GalleryPageMessage::LoadImageRows(rows)) => assert_eq!(rows.len(), 2),
        _ => panic!("expected rows to load"),
    }
    assert_eq!(page.person_to_view.as_ref().map(|p| p.list_of_rows.len()), Some(2));
    let shown = paths(5);
    assert_eq!(
        page.person_to_view.as_ref().map(|p| p.list_of_image_paths.clone()),
        Some(vec![
            shown[1].clone(),
            shown[3].clone(),
            shown[2].clone(),
            shown[0].clone(),
            shown[4].clone(),
        ])
    );
    match page.update(GalleryPageMessage::EscapeKeyPressed) {
        GalleryAction::ScrollToTopThenLoad(rows) => assert_eq!(rows.len(), 2),
        _ => panic!("expected the gallery rows"),
    }
    assert!(page.person_to_view.is_none());
    assert!(page.show_people_view);
    page.update(GalleryPageMessage::EscapeKeyPressed);
    assert!(!page.show_people_view);
}

#[test]
fn the_files_list_is_taken_as_given() {
    let mut page = GalleryPage::new(&config(None, false, false, false));
    let rows = vec![vec!["/x/a.jpg".to_string()], vec!["/x/b.jpg".to_string(), "/y/c.jpg".to_string()]];
    let parents = vec!["/x".to_string(), "/y".to_string()];
    page.update(GalleryPageMessage::SetGalleryFilesList(rows, parents.clone()));
    assert_eq!(page.gallery_paths_list, vec!["/x/a.jpg".to_string(), "/x/b.jpg".to_string(), "/y/c.jpg".to_string()]);
    assert_eq!(page.gallery_parents_list, parents);
    assert_eq!(page.gallery_row_list.len(), 2);
    assert_eq!(page.gallery_row_list[1].index, 1);
    assert!(!page.gallery_row_list[1].is_loaded);
    assert_eq!(page.gallery_row_list[1].image_paths, vec!["/x/b.jpg".to_string(), "/y/c.jpg".to_string()]);
}
