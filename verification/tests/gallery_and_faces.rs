use idirfein::faces::{
    face_data_file_of, faces_in_image, get_all_photos_by_name, get_named_people_for_display,
    update_face_record, FaceData, FaceEntries,
};
use idirfein::gallery::{
    get_parent_folders, image_rows, is_gallery_image_exec, next_image_index, previous_image_index,
    rows_loaded_on_open, rows_to_reload, sorted_unique_paths, thumbnail_crop, thumbnail_file_of,
    walk_keeps_exec,
    FACE_DATA_FILE_NAME, FACE_DATA_FOLDER_NAME, NUM_IMAGES_IN_ROW, ROW_BATCH_SIZE, THUMBNAIL_FOLDER_NAME,
    THUMBNAIL_SIZE, UNNAMED_STRING,
};

fn strings(v: &[&str]) -> Vec<String> {
    v.iter().map(|s| s.to_string()).collect()
}

#[test]
fn gallery_constants() {
    assert_eq!(NUM_IMAGES_IN_ROW, 4);
    assert_eq!(ROW_BATCH_SIZE, 10);
    assert_eq!(THUMBNAIL_SIZE, 200);
    assert_eq!(UNNAMED_STRING, "Unnamed");
    assert_eq!(THUMBNAIL_FOLDER_NAME, ".thumbnails");
    assert_eq!(FACE_DATA_FOLDER_NAME, ".face_data");
    assert_eq!(FACE_DATA_FILE_NAME, "extracted_faces.json");
}

#[test]
fn gallery_shows_pictures_only() {
    assert!(is_gallery_image_exec("/p/a.jpg"));
    assert!(is_gallery_image_exec("/p/a.jpeg"));
    assert!(is_gallery_image_exec("/p/a.png"));
    assert!(!is_gallery_image_exec("/p/a.JPG"));
    assert!(!is_gallery_image_exec("/p/a.gif"));
    assert!(!is_gallery_image_exec("/p/jpg"));
}

#[test]
fn folder_walk_skips_hidden_entries() {
    assert!(walk_keeps_exec("/p/holiday"));
    assert!(walk_keeps_exec("/p/a.png"));
    assert!(!walk_keeps_exec("/p/.thumbnails"));
    assert!(!walk_keeps_exec("/p/.face_data"));
    assert!(!walk_keeps_exec("/p/.git"));
    assert!(!walk_keeps_exec("/"));
}

#[test]
fn thumbnails_are_centred_squares() {
    assert_eq!(thumbnail_crop(400, 300), (50, 0, 300, 300));
    assert_eq!(thumbnail_crop(300, 400), (0, 50, 300, 300));
    assert_eq!(thumbnail_crop(5, 5), (0, 0, 5, 5));
    assert_eq!(thumbnail_crop(7, 2), (2, 0, 2, 2));
    assert_eq!(thumbnail_crop(0, 9), (0, 4, 0, 0));
}

#[test]
fn images_are_laid_out_in_rows_of_four() {
    let paths = strings(&["1", "2", "3", "4", "5", "6", "7", "8", "9"]);
    let rows = image_rows(&paths);
    assert_eq!(rows.len(), 3);
    assert_eq!(rows[0].image_paths, strings(&["1", "2", "3", "4"]));
    assert_eq!(rows[1].image_paths, strings(&["5", "6", "7", "8"]));
    assert_eq!(rows[2].image_paths, strings(&["9"]));
    assert!(rows.iter().all(|r| !r.is_loaded));
    assert_eq!(rows[2].index, 2);
    assert!(image_rows(&vec![]).is_empty());
}

#[test]
fn first_rows_load_on_open() {
    assert_eq!(rows_loaded_on_open(3), vec![0, 1, 2]);
    assert_eq!(rows_loaded_on_open(25), (0..10).collect::<Vec<usize>>());
    assert_eq!(rows_loaded_on_open(0), Vec::<usize>::new());
}

#[test]
fn scrolling_reloads_rows() {
    assert!(rows_to_reload(4, 4, 10, 50).is_none());
    let (load, unload) = rows_to_reload(0, 3, 5, 50).unwrap();
    assert_eq!(load, vec![3, 4, 5, 6, 7]);
    assert_eq!(unload, vec![0, 1, 2]);
    let (load, unload) = rows_to_reload(10, 8, 5, 12).unwrap();
    assert_eq!(load, vec![8, 9, 10, 11]);
    assert_eq!(unload, Vec::<usize>::new());
}

#[test]
fn moving_between_images() {
    let paths = strings(&["/p/a.png", "/p/b.png", "/p/c.png"]);
    assert_eq!(previous_image_index(&paths, "/p/b.png"), Some(0));
    assert_eq!(previous_image_index(&paths, "/p/a.png"), Some(0));
    assert_eq!(next_image_index(&paths, "/p/b.png"), Some(2));
    assert_eq!(next_image_index(&paths, "/p/c.png"), None);
    assert_eq!(next_image_index(&paths, "/p//a.png"), Some(1));
    assert_eq!(previous_image_index(&paths, "/q/a.png"), None);
    assert_eq!(next_image_index(&paths, "/q/a.png"), None);
}

#[test]
fn parent_folders_sorted_and_unique() {
    let images = strings(&["/b/x.png", "/a/y.png", "/b/z.png", "/a//w.png", "top.png", "/"]);
    assert_eq!(get_parent_folders(&images), strings(&["", "/a", "/b"]));
    assert!(get_parent_folders(&vec![]).is_empty());
}

#[test]
fn sorted_unique_keeps_first_spelling() {
    let paths = strings(&["/b", "/a/", "/a", "/c", "/b/."]);
    assert_eq!(sorted_unique_paths(&paths), strings(&["/a/", "/b", "/c"]));
}

fn face(file: &str, name: Option<&str>, ignored: bool, thumb: &str) -> FaceData {
    FaceData {
        original_filename: file.to_string(),
        name_of_person: name.map(|n| n.to_string()),
        is_ignored: ignored,
        thumbnail_filename: thumb.to_string(),
        face_matrix_bytes: vec![1, 2, 3],
        checked_names: vec![],
    }
}

fn entries_a() -> FaceEntries {
    vec![
        ("a.png".to_string(), Some(face("a.png", Some("Ana"), false, "t1.png"))),
        ("a.png".to_string(), Some(face("a.png", None, false, "t2.png"))),
        ("b.png".to_string(), None),
        ("b.png".to_string(), Some(face("b.png", Some("Ben"), true, "t3.png"))),
        ("c.png".to_string(), Some(face("c.png", Some("Ana"), false, "t4.png"))),
    ]
}

fn entries_b() -> FaceEntries {
    vec![
        ("d.png".to_string(), Some(face("d.png", Some("Cai"), false, "t5.png"))),
        ("e.png".to_string(), Some(face("e.png", Some("Ana"), false, "t6.png"))),
    ]
}

#[test]
fn faces_file_lives_beside_the_image() {
    assert_eq!(face_data_file_of("/p/a.png"), "/p/.face_data/extracted_faces.json".to_string());
    assert_eq!(face_data_file_of("/"), "/.face_data/extracted_faces.json".to_string());
    assert_eq!(face_data_file_of("a.png"), ".face_data/extracted_faces.json".to_string());
}

#[test]
fn faces_of_an_image() {
    let entries = entries_a();
    assert_eq!(faces_in_image(&entries, "/p/a.png"), vec![0, 1]);
    assert_eq!(faces_in_image(&entries, "/p/b.png"), vec![3]);
    assert_eq!(faces_in_image(&entries, "/p/z.png"), Vec::<usize>::new());
    assert_eq!(faces_in_image(&entries, "/"), Vec::<usize>::new());
}

#[test]
fn renaming_a_face() {
    let mut entries = entries_a();
    let renamed = face("a.png", Some("Dara"), false, "t2.png");
    assert!(update_face_record(&mut entries, "/p/a.png", renamed));
    assert_eq!(entries[1].1.as_ref().unwrap().name_of_person, Some("Dara".to_string()));
    assert_eq!(entries[0].1.as_ref().unwrap().name_of_person, Some("Ana".to_string()));
    let unknown = face("a.png", Some("Eve"), false, "t9.png");
    assert!(!update_face_record(&mut entries, "/p/a.png", unknown));
    assert_eq!(entries.len(), 5);
}

#[test]
fn people_listed_once_in_order() {
    let folders = vec![("/p".to_string(), entries_a()), ("/q".to_string(), entries_b())];
    let people = get_named_people_for_display(&folders);
    let names: Vec<&str> = people.iter().map(|(n, _)| n.as_str()).collect();
    assert_eq!(names, vec!["Ana", "Cai", "Unnamed"]);
    assert_eq!(people[0].1, "/p/.face_data/t1.png".to_string());
    assert_eq!(people[1].1, "/q/.face_data/t5.png".to_string());
    assert_eq!(people[2].1, "/p/.face_data/t2.png".to_string());
}

#[test]
fn photos_of_a_person() {
    let folders = vec![("/q".to_string(), entries_b()), ("/p".to_string(), entries_a())];
    assert_eq!(
        get_all_photos_by_name("Ana", &folders),
        strings(&["/p/a.png", "/p/c.png", "/q/e.png"])
    );
    assert_eq!(get_all_photos_by_name("Unnamed", &folders), strings(&["/p/a.png"]));
    assert!(get_all_photos_by_name("Ben", &folders).is_empty());
}

#[test]
fn thumbnails_live_beside_the_image() {
    assert_eq!(thumbnail_file_of("/p/a.png"), Some("/p/.thumbnails/a.png".to_string()));
    assert_eq!(thumbnail_file_of("a.png"), Some(".thumbnails/a.png".to_string()));
    assert_eq!(thumbnail_file_of("/"), None);
}
