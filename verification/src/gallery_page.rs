//! The gallery page: the folder shown and its rows of images, which rows have their
//! thumbnails loaded, the image in the big view, the people recognised, and the background
//! photo work. Paths are held as their text; scrolling is counted in rows and pixels.

use vstd::prelude::*;

use crate::config::GalleryPageConfig;
use crate::faces::FaceData;
use crate::gallery::{
    as_ints, image_rows, next_image_index,
    path_position, path_texts, previous_image_index, row_count, row_holds, row_range,
    rows_loaded_on_open, rows_to_reload, sort_newest_first, timed_texts,
    ordered_newest_first, newest_first, ImageRow,
};
use crate::settings::opt_text;
use crate::text::{chars_of, push_str};

verus! {

/// The kinds of background work on the gallery's photos.
pub enum ProcessKind {
    ThumbnailGeneration,
    FaceExtraction,
    FaceRecognition,
}

/// The photos of one person.
pub struct PersonToView {
    /// The person's name.
    pub name: String,
    /// The photos the person is in, newest first.
    pub list_of_image_paths: Vec<String>,
    /// Those photos laid out in rows.
    pub list_of_rows: Vec<ImageRow>,
}

/// The state of the gallery page.
pub struct GalleryPage {
    /// The folder of images shown, if one was chosen.
    pub selected_folder: Option<String>,
    /// The image in the big view and the faces found in it, if any.
    pub selected_image: Option<(String, Vec<FaceData>)>,
    /// The first row whose thumbnails are loaded.
    pub first_loaded_row_index: usize,
    /// The rows of the folder's images.
    pub gallery_row_list: Vec<ImageRow>,
    /// The folder's images, newest first.
    pub gallery_paths_list: Vec<String>,
    /// The folders that hold the images.
    pub gallery_parents_list: Vec<String>,
    /// Whether the gallery view has reported where it is scrolled.
    pub gallery_viewport_known: bool,
    /// Whether the people list has reported where it is scrolled.
    pub people_list_viewport_known: bool,
    /// The background work under way, if any.
    pub photo_process: Option<ProcessKind>,
    /// Whether a background work was started that can be stopped.
    pub has_abort_handle: bool,
    /// The image and the face being managed, if any.
    pub person_to_manage: Option<(String, FaceData)>,
    /// The new name being typed for the face being managed.
    pub rename_person_field_text: String,
    /// Whether ignoring the face asks for confirmation.
    pub show_ignore_person_confirmation: bool,
    /// Whether renaming the face asks for confirmation.
    pub show_rename_confirmation: bool,
    /// Whether the list of people is shown.
    pub show_people_view: bool,
    /// The people recognised: each name with the thumbnail of one of their faces.
    pub people_list: Vec<(String, String)>,
    /// The person whose photos are shown, if any.
    pub person_to_view: Option<PersonToView>,
    /// Whether thumbnails are made when the folder is loaded.
    pub run_thumbnail_generation_on_start: bool,
    /// Whether faces are looked for when the folder is loaded.
    pub run_face_extraction_on_start: bool,
    /// Whether faces are matched to people when the folder is loaded.
    pub run_face_recognition_on_start: bool,
    /// The text read from the image in the big view, if any.
    pub current_image_ocr_text: Option<String>,
}

/// What the user, the files or the background work do on the gallery page.
pub enum GalleryPageMessage {
    PickGalleryFolder,
    SetGalleryFolder(Option<String>),
    LoadGalleryFolder,
    SelectImageForBigView(Option<String>),
    /// The faces read for the image chosen for the big view, or why they could not be read.
    FacesRead(String, Result<Vec<FaceData>, String>),
    /// The images of the folder, newest first.
    /// The images of the gallery folder laid out in rows, and the folders they are in.
    SetGalleryFilesList(Vec<Vec<String>>, Vec<String>),
    LoadImageRows(Vec<ImageRow>),
    UnloadImageRows(Vec<ImageRow>),
    SetImageRows(Vec<ImageRow>),
    /// The gallery was scrolled: how many rows lie above the view, and how many it shows.
    GalleryScrolled(usize, usize),
    ArrowDownKeyPressed,
    ArrowUpKeyPressed,
    PageDownKeyPressed,
    PageUpKeyPressed,
    EscapeKeyPressed,
    SelectPreviousImage,
    SelectNextImage,
    CopySelectedImagePath,
    ExtractAllFaces,
    GenerateAllThumbnails,
    RunFaceRecognition,
    /// The background work reported progress (`None`: it is over).
    SetPhotoProcessProgress(Option<ProcessKind>),
    AbortProcess,
    OpenManagePersonView(String, FaceData),
    CloseManagePersonView,
    MaybeRenamePerson(Option<String>),
    ConfirmRenamePerson,
    CancelRenamePerson,
    UpdateRenamePersonField(String),
    ShowIgnorePersonConfirmation,
    ConfirmIgnorePerson,
    CancelIgnorePerson,
    TogglePeopleView,
    SetPeopleList(Vec<(String, String)>),
    SetPersonToViewName(Option<String>),
    /// The photos of the person shown, newest first.
    /// The photos of the person shown, each with its modification time.
    SetPersonToViewPaths(Vec<(String, i64)>),
    PeopleListScrolled,
    RunOcrOnSelectedImage,
    SetCurrentImageOcrText(Option<String>),
    CopyOcrText,
}

/// The two scrolled lists of the page.
pub enum ScrolledList {
    Gallery,
    People,
}

/// What has to happen after the gallery page handled a message.
pub enum GalleryAction {
    /// Nothing.
    Nothing,
    /// Handle this message next.
    Next(GalleryPageMessage),
    /// Handle the first message, then the second.
    NextTwo(GalleryPageMessage, GalleryPageMessage),
    /// Ask the user for a folder, then `SetGalleryFolder`.
    PickFolder,
    /// List the images under the folder (none without one), newest first, hand them back
    /// with `SetGalleryFilesList`, then start the work `then`, if any.
    ListImages { folder: Option<String>, then: Option<ProcessKind> },
    /// Make the missing thumbnails of these rows and load them, then `SetImageRows` with the
    /// rows marked loaded.
    LoadThumbnails(Vec<ImageRow>),
    /// Handle `LoadImageRows` with these rows, then list the people named in the faces files
    /// of these folders and `SetPeopleList`.
    LoadRowsThenListPeople { rows: Vec<ImageRow>, folders: Vec<String> },
    /// Scroll the list by this many pixels (down when positive), within its bounds.
    ScrollBy { list: ScrolledList, pixels: i32 },
    /// Scroll the gallery to where it already is, so that it is drawn again.
    KeepGalleryScroll,
    /// Scroll the gallery to its top, then `LoadImageRows` with these rows.
    ScrollToTopThenLoad(Vec<ImageRow>),
    /// Read the faces found in the image, then `FacesRead`.
    ReadFaces(String),
    /// Start the background work on these inputs, reporting with `SetPhotoProcessProgress`,
    /// then start the work `then`, if any.
    StartProcess { kind: ProcessKind, inputs: Vec<String>, then: Option<ProcessKind> },
    /// Stop the background work.
    StopProcess,
    /// Put the cursor in the rename field.
    FocusRenameField,
    /// Write the face into the faces file of the image (reporting a failure), then
    /// `SelectImageForBigView` the image, then, with folders, list their people again.
    SaveFace { image: String, face: FaceData, list_people_of: Option<Vec<String>> },
    /// List the photos of the person named in the faces files of these folders, newest
    /// first, then `SetPersonToViewPaths`.
    ListPhotosOf { name: String, folders: Vec<String> },
    /// Read the text in the image, then `SetCurrentImageOcrText`, or report the failure.
    RunOcr(String),
    /// Put the text on the clipboard.
    CopyToClipboard(String),
    /// Show a bad toast with the text.
    ErrorToast(String),
}

/// The two rows are the same row, with the same images and loaded alike.
pub open spec fn same_row(a: ImageRow, b: ImageRow) -> bool {
    &&& a.index == b.index
    &&& a.is_loaded == b.is_loaded
    &&& path_texts(a.image_paths@) == path_texts(b.image_paths@)
}

/// `got` holds, in order, the rows of `from` at the positions `at`.
pub open spec fn rows_at(got: Seq<ImageRow>, from: Seq<ImageRow>, at: Seq<int>) -> bool {
    &&& got.len() == at.len()
    &&& forall|k: int|
        0 <= k < got.len() ==> 0 <= #[trigger] at[k] < from.len() && same_row(got[k], from[at[k]])
}

/// `got` holds the rows that are loaded first: the first ten of `from`.
pub open spec fn first_batch(got: Seq<ImageRow>, from: Seq<ImageRow>) -> bool {
    rows_at(got, from, row_range(0, 10, from.len() as int))
}

/// `got` holds the rows of `from`, each marked loaded or not as `loaded` says.
pub open spec fn rows_marked(got: Seq<ImageRow>, from: Seq<ImageRow>, loaded: bool) -> bool {
    &&& got.len() == from.len()
    &&& forall|k: int|
        0 <= k < got.len() ==> #[trigger] got[k].index == from[k].index && got[k].is_loaded
            == loaded && path_texts(got[k].image_paths@) == path_texts(from[k].image_paths@)
}

/// `rows` laid over `list`: each row of `rows` replaces the one at its index.
pub open spec fn rows_laid_over(list: Seq<ImageRow>, rows: Seq<ImageRow>) -> Seq<ImageRow>
    decreases rows.len(),
{
    if rows.len() == 0 {
        list
    } else {
        rows_laid_over(list, rows.drop_last()).update(rows.last().index as int, rows.last())
    }
}

/// Every row of `rows` has an index within `list`.
pub open spec fn rows_fit(list: Seq<ImageRow>, rows: Seq<ImageRow>) -> bool {
    forall|k: int| 0 <= k < rows.len() ==> (#[trigger] rows[k]).index < list.len()
}

/// The rows a scroll works on: those of the person shown, or else those of the folder.
pub open spec fn scrolled_rows(p: GalleryPage) -> Seq<ImageRow> {
    match p.person_to_view {
        Some(v) => v.list_of_rows@,
        None => p.gallery_row_list@,
    }
}

/// The images moved through in the big view: those of the person shown, or else those of
/// the folder.
pub open spec fn browsed_paths(p: GalleryPage) -> Seq<String> {
    match p.person_to_view {
        Some(v) => v.list_of_image_paths@,
        None => p.gallery_paths_list@,
    }
}

/// `rows` are the images `paths` laid out four to a row, none loaded.
pub open spec fn rows_of(rows: Seq<ImageRow>, paths: Seq<String>) -> bool {
    &&& rows.len() == row_count(paths.len() as int)
    &&& forall|k: int| 0 <= k < rows.len() ==> row_holds(#[trigger] rows[k], k, paths)
}

/// The work started when a folder is loaded: thumbnails, else faces, else matching, as the
/// settings ask.
pub open spec fn work_on_load(p: GalleryPage) -> Option<ProcessKind> {
    if p.run_thumbnail_generation_on_start {
        Some(ProcessKind::ThumbnailGeneration)
    } else if p.run_face_extraction_on_start {
        Some(ProcessKind::FaceExtraction)
    } else if p.run_face_recognition_on_start {
        Some(ProcessKind::FaceRecognition)
    } else {
        None
    }
}

/// Which part of the page a message concerns: 1 the folder and its rows, 2 moving about the
/// views, 0 the background work and the faces.
pub open spec fn gallery_message_group(m: GalleryPageMessage) -> u8 {
    match m {
        GalleryPageMessage::PickGalleryFolder | GalleryPageMessage::SetGalleryFolder(_)
        | GalleryPageMessage::LoadGalleryFolder | GalleryPageMessage::SetGalleryFilesList(_, _)
        | GalleryPageMessage::LoadImageRows(_) | GalleryPageMessage::UnloadImageRows(_)
        | GalleryPageMessage::SetImageRows(_) | GalleryPageMessage::GalleryScrolled(_, _) => 1,
        GalleryPageMessage::ExtractAllFaces | GalleryPageMessage::GenerateAllThumbnails
        | GalleryPageMessage::RunFaceRecognition | GalleryPageMessage::SetPhotoProcessProgress(_)
        | GalleryPageMessage::AbortProcess | GalleryPageMessage::OpenManagePersonView(_, _)
        | GalleryPageMessage::CloseManagePersonView | GalleryPageMessage::MaybeRenamePerson(_)
        | GalleryPageMessage::ConfirmRenamePerson | GalleryPageMessage::CancelRenamePerson
        | GalleryPageMessage::UpdateRenamePersonField(_)
        | GalleryPageMessage::ShowIgnorePersonConfirmation
        | GalleryPageMessage::ConfirmIgnorePerson | GalleryPageMessage::CancelIgnorePerson => 0,
        _ => 2,
    }
}

fn gallery_group_of(m: &GalleryPageMessage) -> (g: u8)
    ensures
        g == gallery_message_group(*m),
{
    match m {
        GalleryPageMessage::PickGalleryFolder | GalleryPageMessage::SetGalleryFolder(_)
        | GalleryPageMessage::LoadGalleryFolder | GalleryPageMessage::SetGalleryFilesList(_, _)
        | GalleryPageMessage::LoadImageRows(_) | GalleryPageMessage::UnloadImageRows(_)
        | GalleryPageMessage::SetImageRows(_) | GalleryPageMessage::GalleryScrolled(_, _) => 1,
        GalleryPageMessage::ExtractAllFaces | GalleryPageMessage::GenerateAllThumbnails
        | GalleryPageMessage::RunFaceRecognition | GalleryPageMessage::SetPhotoProcessProgress(_)
        | GalleryPageMessage::AbortProcess | GalleryPageMessage::OpenManagePersonView(_, _)
        | GalleryPageMessage::CloseManagePersonView | GalleryPageMessage::MaybeRenamePerson(_)
        | GalleryPageMessage::ConfirmRenamePerson | GalleryPageMessage::CancelRenamePerson
        | GalleryPageMessage::UpdateRenamePersonField(_)
        | GalleryPageMessage::ShowIgnorePersonConfirmation
        | GalleryPageMessage::ConfirmIgnorePerson | GalleryPageMessage::CancelIgnorePerson => 0,
        _ => 2,
    }
}

/// The page can take `m`: rows handed back fit the list they belong to (the page has no
/// row for any other index).
pub open spec fn gallery_can_take(p: GalleryPage, m: GalleryPageMessage) -> bool {
    m matches GalleryPageMessage::SetImageRows(rows) ==> rows_fit(scrolled_rows(p), rows@)
}

/// How handling a folder or rows message `m` takes the page from `before` to `after` and
/// what it asks for (`a`).
pub open spec fn rows_step(
    before: GalleryPage,
    after: GalleryPage,
    m: GalleryPageMessage,
    a: GalleryAction,
) -> bool {
    match m {
        GalleryPageMessage::PickGalleryFolder => after == before && a is PickFolder,
        GalleryPageMessage::SetGalleryFolder(f) => after == GalleryPage {
            selected_folder: f,
            ..before
        } && a matches GalleryAction::Next(GalleryPageMessage::LoadGalleryFolder),
        GalleryPageMessage::LoadGalleryFolder => after == before && (a matches GalleryAction::ListImages {
            folder,
            then,
        } && opt_text(folder) == opt_text(before.selected_folder) && then == work_on_load(before)),
        GalleryPageMessage::SetGalleryFilesList(groups, parents) => {
            &&& after == GalleryPage {
                gallery_paths_list: after.gallery_paths_list,
                gallery_parents_list: parents,
                gallery_row_list: after.gallery_row_list,
                ..before
            }
            &&& path_texts(after.gallery_paths_list@) == flattened(groups@)
            &&& rows_from_groups(after.gallery_row_list@, groups@)
            &&& a matches GalleryAction::LoadRowsThenListPeople { rows, folders } && first_batch(
                rows@,
                after.gallery_row_list@,
            ) && path_texts(folders@) == path_texts(parents@)
        },
        GalleryPageMessage::LoadImageRows(rows) => after == before && a
            == GalleryAction::LoadThumbnails(rows),
        GalleryPageMessage::UnloadImageRows(rows) => after == before && (a matches GalleryAction::Next(
            GalleryPageMessage::SetImageRows(r),
        ) && rows_marked(r@, rows@, false)),
        GalleryPageMessage::SetImageRows(rows) => a is Nothing && match before.person_to_view {
            Some(v) => {
                &&& after == GalleryPage { person_to_view: after.person_to_view, ..before }
                &&& after.person_to_view matches Some(w) && w == PersonToView {
                    list_of_rows: w.list_of_rows,
                    ..v
                } && w.list_of_rows@ == rows_laid_over(v.list_of_rows@, rows@)
            },
            None => after == GalleryPage { gallery_row_list: after.gallery_row_list, ..before }
                && after.gallery_row_list@ == rows_laid_over(before.gallery_row_list@, rows@),
        },
        GalleryPageMessage::GalleryScrolled(above, shown) => {
            let rows = scrolled_rows(before);
            let first = before.first_loaded_row_index;
            let in_view = row_range(above as int, shown as int, rows.len() as int);
            if first == above {
                after == GalleryPage { gallery_viewport_known: true, ..before } && a is Nothing
            } else {
                &&& after == GalleryPage {
                    gallery_viewport_known: true,
                    first_loaded_row_index: above,
                    ..before
                }
                &&& a matches GalleryAction::NextTwo(
                    GalleryPageMessage::LoadImageRows(load),
                    GalleryPageMessage::UnloadImageRows(unload),
                ) && rows_at(load@, rows, in_view) && rows_at(
                    unload@,
                    rows,
                    row_range(first as int, shown as int, rows.len() as int).filter(
                        |k: int| !in_view.contains(k),
                    ),
                )
            }
        },
        _ => true,
    }
}

/// What a scrolling key moving `pixels` asks for: the gallery scrolls when it is shown (no
/// big view, no people list), the people list when it is shown without a person's photos;
/// each only once its position is known.
pub open spec fn key_scroll(p: GalleryPage, pixels: int, a: GalleryAction) -> bool {
    if p.selected_image is None && !p.show_people_view {
        if p.gallery_viewport_known {
            a matches GalleryAction::ScrollBy { list: ScrolledList::Gallery, pixels: n } && n == pixels
        } else {
            a is Nothing
        }
    } else if p.show_people_view && p.person_to_view is None {
        if p.people_list_viewport_known {
            a matches GalleryAction::ScrollBy { list: ScrolledList::People, pixels: n } && n == pixels
        } else {
            a is Nothing
        }
    } else {
        a is Nothing
    }
}

/// The gallery is drawn again where it is scrolled, when that is known.
pub open spec fn keeps_scroll(p: GalleryPage, a: GalleryAction) -> bool {
    if p.gallery_viewport_known {
        a is KeepGalleryScroll
    } else {
        a is Nothing
    }
}

/// What moving from the image in the big view to the next one (`forward`) or the one before
/// asks for: that image among those moved through, if there is one (the first image stays
/// where it is going back).
pub open spec fn steps_to(p: GalleryPage, forward: bool, a: GalleryAction) -> bool {
    match p.selected_image {
        Some((current, _)) => match path_position(browsed_paths(p), current@) {
            Some(i) => {
                let j = if forward {
                    i + 1
                } else if i > 0 {
                    i - 1
                } else {
                    0
                };
                if j < browsed_paths(p).len() {
                    a matches GalleryAction::Next(GalleryPageMessage::SelectImageForBigView(Some(q)))
                        && q@ == browsed_paths(p)[j]@
                } else {
                    a is Nothing
                }
            },
            None => a is Nothing,
        },
        None => a is Nothing,
    }
}

/// How handling a message `m` about moving between the views takes the page from `before`
/// to `after` and what it asks for (`a`).
pub open spec fn view_step(
    before: GalleryPage,
    after: GalleryPage,
    m: GalleryPageMessage,
    a: GalleryAction,
) -> bool {
    match m {
        GalleryPageMessage::ArrowDownKeyPressed => after == before && key_scroll(before, 50, a),
        GalleryPageMessage::ArrowUpKeyPressed => after == before && key_scroll(before, -50, a),
        GalleryPageMessage::PageDownKeyPressed => after == before && key_scroll(before, 500, a),
        GalleryPageMessage::PageUpKeyPressed => after == before && key_scroll(before, -500, a),
        GalleryPageMessage::EscapeKeyPressed => if before.selected_image is Some {
            after == before && a matches GalleryAction::Next(
                GalleryPageMessage::SelectImageForBigView(None),
            )
        } else if before.person_to_view is Some {
            after == GalleryPage { person_to_view: None, show_people_view: true, ..before } && (
            a matches GalleryAction::ScrollToTopThenLoad(r) && first_batch(
                r@,
                before.gallery_row_list@,
            ))
        } else if before.show_people_view {
            after == GalleryPage { show_people_view: false, ..before } && a is Nothing
        } else {
            after == before && a is Nothing
        },
        GalleryPageMessage::SelectImageForBigView(o) => {
            &&& after == GalleryPage {
                selected_image: if o is None {
                    None
                } else {
                    before.selected_image
                },
                person_to_manage: None,
                current_image_ocr_text: None,
                rename_person_field_text: after.rename_person_field_text,
                show_ignore_person_confirmation: false,
                show_rename_confirmation: false,
                ..before
            }
            &&& after.rename_person_field_text@.len() == 0
            &&& match o {
                Some(p) => a == GalleryAction::ReadFaces(p),
                None => keeps_scroll(before, a),
            }
        },
        GalleryPageMessage::FacesRead(p, r) => match r {
            Ok(faces) => after == GalleryPage { selected_image: Some((p, faces)), ..before }
                && keeps_scroll(before, a),
            Err(e) => after == before && (a matches GalleryAction::ErrorToast(t) && t@
                == "Couldn't load faces in image: "@ + e@),
        },
        GalleryPageMessage::SelectPreviousImage => after == before && steps_to(before, false, a),
        GalleryPageMessage::SelectNextImage => after == before && steps_to(before, true, a),
        GalleryPageMessage::CopySelectedImagePath => after == before && match before.selected_image {
            Some((p, _)) => a matches GalleryAction::CopyToClipboard(t) && t@ == p@,
            None => a is Nothing,
        },
        GalleryPageMessage::TogglePeopleView => if before.person_to_view is Some {
            after == GalleryPage { person_to_view: None, show_people_view: true, ..before } && (
            a matches GalleryAction::ScrollToTopThenLoad(r) && first_batch(
                r@,
                before.gallery_row_list@,
            ))
        } else {
            after == GalleryPage { show_people_view: !before.show_people_view, ..before } && a is Nothing
        },
        GalleryPageMessage::SetPeopleList(l) => after == GalleryPage { people_list: l, ..before }
            && a is Nothing,
        GalleryPageMessage::SetPersonToViewName(o) => match o {
            Some(n) => {
                &&& after == GalleryPage { person_to_view: after.person_to_view, ..before }
                &&& after.person_to_view matches Some(v) && v.name == n
                    && v.list_of_image_paths@.len() == 0 && v.list_of_rows@.len() == 0
                &&& a matches GalleryAction::ListPhotosOf { name, folders } && name@ == n@
                    && path_texts(folders@) == path_texts(before.gallery_parents_list@)
            },
            None => after == GalleryPage { person_to_view: None, ..before } && a is Nothing,
        },
        GalleryPageMessage::SetPersonToViewPaths(paths) => match before.person_to_view {
            Some(v) => {
                &&& after == GalleryPage {
                    person_to_view: after.person_to_view,
                    first_loaded_row_index: 0,
                    selected_image: None,
                    person_to_manage: None,
                    gallery_viewport_known: false,
                    show_people_view: false,
                    ..before
                }
                &&& after.person_to_view matches Some(w) && w.name == v.name
                    && ordered_newest_first(path_texts(w.list_of_image_paths@), timed_texts(paths@))
                    && rows_of(w.list_of_rows@, w.list_of_image_paths@) && (
                a matches GalleryAction::Next(GalleryPageMessage::LoadImageRows(r)) && first_batch(
                    r@,
                    w.list_of_rows@,
                ))
            },
            None => after == before && a is Nothing,
        },
        GalleryPageMessage::PeopleListScrolled => after == GalleryPage {
            people_list_viewport_known: true,
            ..before
        } && a is Nothing,
        GalleryPageMessage::RunOcrOnSelectedImage => after == before && match before.selected_image {
            Some((p, _)) => a matches GalleryAction::RunOcr(q) && q@ == p@,
            None => a is Nothing,
        },
        GalleryPageMessage::SetCurrentImageOcrText(o) => after == GalleryPage {
            current_image_ocr_text: o,
            ..before
        } && a is Nothing,
        GalleryPageMessage::CopyOcrText => after == before && match before.current_image_ocr_text {
            Some(t) => a matches GalleryAction::CopyToClipboard(u) && u@ == t@,
            None => a is Nothing,
        },
        _ => true,
    }
}

/// What starting background work of kind `kind` on `inputs`, to be followed by `then`, asks
/// for: it starts when no work is under way, and is refused otherwise.
pub open spec fn work_start(
    before: GalleryPage,
    after: GalleryPage,
    kind: ProcessKind,
    inputs: Seq<String>,
    then: Option<ProcessKind>,
    a: GalleryAction,
) -> bool {
    if before.photo_process is None {
        after == GalleryPage { has_abort_handle: true, ..before } && (a matches GalleryAction::StartProcess {
            kind: k,
            inputs: i,
            then: t,
        } && k == kind && path_texts(i@) == path_texts(inputs) && t == then)
    } else {
        after == before && (a matches GalleryAction::ErrorToast(t) && t@
            == "Can't run multiple photo processes at once"@)
    }
}

/// How handling a message `m` about the background work or a face takes the page from
/// `before` to `after` and what it asks for (`a`).
pub open spec fn faces_step(
    before: GalleryPage,
    after: GalleryPage,
    m: GalleryPageMessage,
    a: GalleryAction,
) -> bool {
    let busy = "Can't manage people while background photo process is running"@;
    match m {
        GalleryPageMessage::ExtractAllFaces => work_start(
            before,
            after,
            ProcessKind::FaceExtraction,
            before.gallery_paths_list@,
            if before.run_face_recognition_on_start {
                Some(ProcessKind::FaceRecognition)
            } else {
                None
            },
            a,
        ),
        GalleryPageMessage::GenerateAllThumbnails => work_start(
            before,
            after,
            ProcessKind::ThumbnailGeneration,
            before.gallery_paths_list@,
            if before.run_face_extraction_on_start {
                Some(ProcessKind::FaceExtraction)
            } else if before.run_face_recognition_on_start {
                Some(ProcessKind::FaceRecognition)
            } else {
                None
            },
            a,
        ),
        GalleryPageMessage::RunFaceRecognition => work_start(
            before,
            after,
            ProcessKind::FaceRecognition,
            before.gallery_parents_list@,
            None,
            a,
        ),
        GalleryPageMessage::SetPhotoProcessProgress(p) => after == GalleryPage {
            photo_process: p,
            has_abort_handle: before.has_abort_handle && p is Some,
            ..before
        } && a is Nothing,
        GalleryPageMessage::AbortProcess => if before.has_abort_handle {
            after == GalleryPage { photo_process: None, ..before } && a is StopProcess
        } else {
            after == before && (a matches GalleryAction::ErrorToast(t) && t@
                == "No process handle found"@)
        },
        GalleryPageMessage::OpenManagePersonView(p, f) => after == GalleryPage {
            person_to_manage: Some((p, f)),
            ..before
        } && a is FocusRenameField,
        GalleryPageMessage::CloseManagePersonView => {
            &&& after == GalleryPage {
                person_to_manage: None,
                rename_person_field_text: after.rename_person_field_text,
                show_ignore_person_confirmation: false,
                show_rename_confirmation: false,
                ..before
            }
            &&& after.rename_person_field_text@.len() == 0
            &&& a is Nothing
        },
        GalleryPageMessage::MaybeRenamePerson(o) => a is Nothing && match o {
            Some(n) => after == GalleryPage {
                rename_person_field_text: n,
                show_rename_confirmation: true,
                ..before
            },
            None => after == GalleryPage {
                show_rename_confirmation: before.show_rename_confirmation
                    || before.rename_person_field_text@.len() > 0,
                ..before
            },
        },
        GalleryPageMessage::ConfirmRenamePerson => if before.photo_process is None {
            match before.person_to_manage {
                Some((image, face)) => {
                    &&& after == GalleryPage {
                        person_to_manage: None,
                        rename_person_field_text: after.rename_person_field_text,
                        show_ignore_person_confirmation: false,
                        show_rename_confirmation: false,
                        ..before
                    }
                    &&& after.rename_person_field_text@.len() == 0
                    &&& a matches GalleryAction::SaveFace { image: i, face: f, list_people_of: Some(l) }
                        && i == image && f == FaceData {
                        name_of_person: Some(before.rename_person_field_text),
                        ..face
                    } && path_texts(l@) == path_texts(before.gallery_parents_list@)
                },
                None => after == before && a is Nothing,
            }
        } else {
            after == before && (a matches GalleryAction::ErrorToast(t) && t@ == busy)
        },
        GalleryPageMessage::CancelRenamePerson => {
            &&& after == GalleryPage {
                show_rename_confirmation: false,
                rename_person_field_text: after.rename_person_field_text,
                ..before
            }
            &&& after.rename_person_field_text@.len() == 0
            &&& a is Nothing
        },
        GalleryPageMessage::UpdateRenamePersonField(t) => after == GalleryPage {
            rename_person_field_text: t,
            ..before
        } && a is Nothing,
        GalleryPageMessage::ShowIgnorePersonConfirmation => after == GalleryPage {
            show_ignore_person_confirmation: true,
            show_rename_confirmation: false,
            ..before
        } && a is Nothing,
        GalleryPageMessage::ConfirmIgnorePerson => if before.photo_process is None {
            match before.person_to_manage {
                Some((image, face)) => {
                    &&& after == GalleryPage {
                        person_to_manage: None,
                        rename_person_field_text: after.rename_person_field_text,
                        show_ignore_person_confirmation: false,
                        show_rename_confirmation: false,
                        ..before
                    }
                    &&& after.rename_person_field_text@.len() == 0
                    &&& a == GalleryAction::SaveFace {
                        image,
                        face: FaceData { is_ignored: true, ..face },
                        list_people_of: None,
                    }
                },
                None => after == before && a is Nothing,
            }
        } else {
            after == before && (a matches GalleryAction::ErrorToast(t) && t@ == busy)
        },
        GalleryPageMessage::CancelIgnorePerson => after == GalleryPage {
            show_ignore_person_confirmation: false,
            ..before
        } && a is Nothing,
        _ => true,
    }
}

/// How handling `m` takes the page from `before` to `after` and what it asks for (`a`).
pub open spec fn gallery_step(
    before: GalleryPage,
    after: GalleryPage,
    m: GalleryPageMessage,
    a: GalleryAction,
) -> bool {
    let g = gallery_message_group(m);
    if g == 1 {
        rows_step(before, after, m, a)
    } else if g == 2 {
        view_step(before, after, m, a)
    } else {
        faces_step(before, after, m, a)
    }
}

fn copy_paths(v: &Vec<String>) -> (r: Vec<String>)
    ensures
        path_texts(r@) == path_texts(v@),
{
    let mut r: Vec<String> = Vec::new();
    let mut i: usize = 0;
    while i < v.len()
        invariant
            i <= v.len(),
            path_texts(r@) == path_texts(v@.take(i as int)),
        decreases v.len() - i,
    {
        let ghost prev = r@;
        let c = v[i].clone();
        r.push(c);
        assert(path_texts(prev).len() == prev.len());
        assert(r@ == prev.push(v@[i as int]));
        assert forall|k: int| 0 <= k <= i implies #[trigger] r@[k]@ == v@[k]@ by {
            if k < i {
                assert(path_texts(prev)[k] == path_texts(v@.take(i as int))[k]);
            }
        }
        assert(path_texts(r@) =~= path_texts(v@.take(i + 1)));
        i += 1;
    }
    assert(v@.take(v.len() as int) =~= v@);
    r
}

/// The paths of the groups, one group after the other.
pub open spec fn flattened(groups: Seq<Vec<String>>) -> Seq<Seq<char>>
    decreases groups.len(),
{
    if groups.len() == 0 {
        seq![]
    } else {
        flattened(groups.drop_last()) + path_texts(groups.last()@)
    }
}

/// `rows` are the groups as rows, in order, none of them loaded yet.
pub open spec fn rows_from_groups(rows: Seq<ImageRow>, groups: Seq<Vec<String>>) -> bool {
    &&& rows.len() == groups.len()
    &&& forall|k: int|
        0 <= k < rows.len() ==> #[trigger] rows[k].index == k && !rows[k].is_loaded && path_texts(
            rows[k].image_paths@,
        ) == path_texts(groups[k]@)
}

/// All the paths of the groups, and the groups as rows.
fn rows_of_groups(groups: &Vec<Vec<String>>) -> (r: (Vec<String>, Vec<ImageRow>))
    ensures
        path_texts(r.0@) == flattened(groups@),
        rows_from_groups(r.1@, groups@),
{
    let mut all: Vec<String> = Vec::new();
    let mut rows: Vec<ImageRow> = Vec::new();
    let mut k: usize = 0;
    while k < groups.len()
        invariant
            k <= groups.len(),
            path_texts(all@) == flattened(groups@.take(k as int)),
            rows_from_groups(rows@, groups@.take(k as int)),
        decreases groups.len() - k,
    {
        let group = copy_paths(&groups[k]);
        let mut i: usize = 0;
        let ghost base = all@;
        while i < groups[k].len()
            invariant
                k < groups.len(),
                i <= groups[k as int].len(),
                all@.len() == base.len() + i,
                path_texts(all@) == path_texts(base) + path_texts(groups[k as int]@.take(i as int)),
                path_texts(base) == flattened(groups@.take(k as int)),
                rows_from_groups(rows@, groups@.take(k as int)),
            decreases groups[k as int].len() - i,
        {
            let ghost prev = all@;
            let c = groups[k][i].clone();
            all.push(c);
            assert(path_texts(all@) =~= path_texts(prev).push(c@));
            assert(path_texts(groups[k as int]@.take(i + 1)) =~= path_texts(
                groups[k as int]@.take(i as int),
            ).push(groups[k as int]@[i as int]@));
            i += 1;
        }
        proof {
            assert(groups[k as int]@.take(i as int) =~= groups[k as int]@);
            assert(groups@.take(k + 1).drop_last() =~= groups@.take(k as int));
            assert(groups@.take(k + 1).last() == groups@[k as int]);
            assert(flattened(groups@.take(k + 1)) == flattened(groups@.take(k as int)) + path_texts(
                groups@[k as int]@,
            ));
        }
        let ghost old_rows = rows@;
        rows.push(ImageRow { is_loaded: false, index: k, image_paths: group });
        proof {
            assert forall|j: int| 0 <= j < rows@.len() implies #[trigger] rows@[j].index == j
                && !rows@[j].is_loaded && path_texts(rows@[j].image_paths@) == path_texts(
                groups@.take(k + 1)[j]@,
            ) by {
                if j < k {
                    assert(rows@[j] == old_rows[j]);
                    assert(groups@.take(k + 1)[j] == groups@.take(k as int)[j]);
                } else {
                    assert(groups@.take(k + 1)[j] == groups@[k as int]);
                }
            }
        }
        k += 1;
    }
    assert(groups@.take(groups.len() as int) =~= groups@);
    (all, rows)
}

/// The paths of `v`, in order.
fn paths_of_timed(v: &Vec<(String, i64)>) -> (r: Vec<String>)
    ensures
        path_texts(r@) == timed_texts(v@).map_values(|p: (Seq<char>, i64)| p.0),
{
    let mut r: Vec<String> = Vec::new();
    let mut i: usize = 0;
    while i < v.len()
        invariant
            i <= v.len(),
            r@.len() == i,
            path_texts(r@) == timed_texts(v@.take(i as int)).map_values(|p: (Seq<char>, i64)| p.0),
        decreases v.len() - i,
    {
        let ghost prev = r@;
        let c = v[i].0.clone();
        r.push(c);
        assert(r@ == prev.push(c));
        assert(c@ == v@[i as int].0@);
        assert forall|k: int| 0 <= k <= i implies #[trigger] r@[k]@ == v@[k].0@ by {
            if k < i {
                let tk = timed_texts(v@.take(i as int));
                assert(path_texts(prev)[k] == prev[k]@);
                assert(tk.map_values(|p: (Seq<char>, i64)| p.0)[k] == tk[k].0);
                assert(tk[k] == (v@.take(i as int)[k].0@, v@.take(i as int)[k].1));
                assert(path_texts(prev)[k] == tk.map_values(|p: (Seq<char>, i64)| p.0)[k]);
            }
        }
        assert(path_texts(r@) =~= timed_texts(v@.take(i + 1)).map_values(
            |p: (Seq<char>, i64)| p.0,
        ));
        i += 1;
    }
    assert(v@.take(v.len() as int) =~= v@);
    r
}

fn copy_row(row: &ImageRow) -> (r: ImageRow)
    ensures
        same_row(r, *row),
{
    ImageRow { is_loaded: row.is_loaded, index: row.index, image_paths: copy_paths(&row.image_paths) }
}

fn rows_at_positions(from: &Vec<ImageRow>, at: &Vec<usize>) -> (r: Vec<ImageRow>)
    requires
        forall|k: int| 0 <= k < at@.len() ==> #[trigger] at@[k] < from@.len(),
    ensures
        rows_at(r@, from@, as_ints(at@)),
{
    let mut r: Vec<ImageRow> = Vec::new();
    let mut i: usize = 0;
    while i < at.len()
        invariant
            i <= at.len(),
            forall|k: int| 0 <= k < at@.len() ==> #[trigger] at@[k] < from@.len(),
            rows_at(r@, from@, as_ints(at@).take(i as int)),
        decreases at.len() - i,
    {
        let row = copy_row(&from[at[i]]);
        r.push(row);
        assert(as_ints(at@).take(i + 1)[i as int] == at@[i as int] as int);
        i += 1;
    }
    assert(as_ints(at@).take(at.len() as int) =~= as_ints(at@));
    r
}

fn first_rows(list: &Vec<ImageRow>) -> (r: Vec<ImageRow>)
    ensures
        first_batch(r@, list@),
{
    let at = rows_loaded_on_open(list.len());
    assert(as_ints(at@) =~= row_range(0, 10, list.len() as int));
    rows_at_positions(list, &at)
}

fn marked_unloaded(rows: &Vec<ImageRow>) -> (r: Vec<ImageRow>)
    ensures
        rows_marked(r@, rows@, false),
{
    let mut r: Vec<ImageRow> = Vec::new();
    let mut i: usize = 0;
    while i < rows.len()
        invariant
            i <= rows.len(),
            rows_marked(r@, rows@.take(i as int), false),
        decreases rows.len() - i,
    {
        let row = ImageRow {
            is_loaded: false,
            index: rows[i].index,
            image_paths: copy_paths(&rows[i].image_paths),
        };
        let ghost prev = r@;
        let ghost rv = row;
        r.push(row);
        proof {
            let taken = rows@.take(i + 1);
            assert(r@.len() == taken.len());
            assert forall|k: int| 0 <= k < r@.len() implies #[trigger] r@[k].index == taken[k].index
                && r@[k].is_loaded == false && path_texts(r@[k].image_paths@) == path_texts(
                taken[k].image_paths@,
            ) by {
                if k < i {
                    assert(r@[k] == prev[k]);
                    assert(taken[k] == rows@.take(i as int)[k]);
                } else {
                    assert(r@[k] == rv);
                    assert(taken[k] == rows@[i as int]);
                }
            }
        }
        i += 1;
    }
    assert(rows@.take(rows.len() as int) =~= rows@);
    r
}

fn lay_rows(list: &mut Vec<ImageRow>, rows: Vec<ImageRow>)
    requires
        rows_fit(old(list)@, rows@),
    ensures
        final(list)@ == rows_laid_over(old(list)@, rows@),
{
    let ghost all = rows@;
    let ghost start = list@;
    let mut rest = rows;
    let ghost mut j: int = 0;
    assert(all.take(0) =~= Seq::<ImageRow>::empty());
    assert(all.skip(0) =~= all);
    while rest.len() > 0
        invariant
            0 <= j <= all.len(),
            rest@ == all.skip(j),
            list@ == rows_laid_over(start, all.take(j)),
            list@.len() == start.len(),
            rows_fit(start, all),
        decreases rest.len(),
    {
        let row = rest.remove(0);
        assert(row == all[j]);
        let idx = row.index;
        list.set(idx, row);
        assert(all.take(j + 1).drop_last() =~= all.take(j));
        assert(all.skip(j + 1) =~= all.skip(j).subrange(1, all.skip(j).len() as int));
        proof {
            j = j + 1;
        }
    }
    assert(all.take(j) =~= all);
}

fn load_on_open_work(p: &GalleryPage) -> (w: Option<ProcessKind>)
    ensures
        w == work_on_load(*p),
{
    if p.run_thumbnail_generation_on_start {
        Some(ProcessKind::ThumbnailGeneration)
    } else if p.run_face_extraction_on_start {
        Some(ProcessKind::FaceExtraction)
    } else if p.run_face_recognition_on_start {
        Some(ProcessKind::FaceRecognition)
    } else {
        None
    }
}

fn rows_scrolled_into_view(list: &Vec<ImageRow>, first: usize, above: usize, shown: usize) -> (r: (
    Vec<ImageRow>,
    Vec<ImageRow>,
))
    requires
        first != above,
    ensures
        ({
            let in_view = row_range(above as int, shown as int, list@.len() as int);
            &&& rows_at(r.0@, list@, in_view)
            &&& rows_at(
                r.1@,
                list@,
                row_range(first as int, shown as int, list@.len() as int).filter(
                    |k: int| !in_view.contains(k),
                ),
            )
        }),
{
    let total = list.len();
    match rows_to_reload(first, above, shown, total) {
        Some((load, unload)) => {
            let ghost in_view = row_range(above as int, shown as int, total as int);
            let ghost old_view = row_range(first as int, shown as int, total as int);
            let ghost keep = |k: int| !in_view.contains(k);
            assert forall|k: int| 0 <= k < load@.len() implies #[trigger] load@[k] < list@.len() by {
                assert(as_ints(load@).len() == load@.len());
                assert(as_ints(load@)[k] == in_view[k]);
                assert(in_view[k] == above + k);
            }
            assert forall|k: int| 0 <= k < unload@.len() implies #[trigger] unload@[k] < list@.len() by {
                assert(as_ints(unload@)[k] == old_view.filter(keep)[k]);
                assert(old_view.filter(keep).contains(old_view.filter(keep)[k]));
                old_view.lemma_filter_contains_rev(keep, old_view.filter(keep)[k]);
            }
            (rows_at_positions(list, &load), rows_at_positions(list, &unload))
        },
        None => (Vec::new(), Vec::new()),
    }
}

impl GalleryPage {
    #[verifier::rlimit(100)]
    #[verifier::spinoff_prover]
    fn update_rows(&mut self, message: GalleryPageMessage) -> (a: GalleryAction)
        requires
            gallery_message_group(message) == 1,
            gallery_can_take(*old(self), message),
        ensures
            rows_step(*old(self), *final(self), message, a),
    {
        match message {
            GalleryPageMessage::PickGalleryFolder => GalleryAction::PickFolder,
            GalleryPageMessage::SetGalleryFolder(f) => {
                self.selected_folder = f;
                GalleryAction::Next(GalleryPageMessage::LoadGalleryFolder)
            },
            GalleryPageMessage::LoadGalleryFolder => {
                let folder = match &self.selected_folder {
                    Some(f) => Some(f.clone()),
                    None => None,
                };
                GalleryAction::ListImages { folder, then: load_on_open_work(self) }
            },
            GalleryPageMessage::SetGalleryFilesList(groups, parents) => {
                let (paths, rows) = rows_of_groups(&groups);
                let batch = first_rows(&rows);
                let folders = copy_paths(&parents);
                self.gallery_paths_list = paths;
                self.gallery_parents_list = parents;
                self.gallery_row_list = rows;
                GalleryAction::LoadRowsThenListPeople { rows: batch, folders }
            },
            GalleryPageMessage::LoadImageRows(rows) => GalleryAction::LoadThumbnails(rows),
            GalleryPageMessage::UnloadImageRows(rows) => GalleryAction::Next(
                GalleryPageMessage::SetImageRows(marked_unloaded(&rows)),
            ),
            GalleryPageMessage::SetImageRows(rows) => {
                let viewed = self.person_to_view.take();
                match viewed {
                    Some(mut v) => {
                        lay_rows(&mut v.list_of_rows, rows);
                        self.person_to_view = Some(v);
                    },
                    None => {
                        lay_rows(&mut self.gallery_row_list, rows);
                    },
                }
                GalleryAction::Nothing
            },
            GalleryPageMessage::GalleryScrolled(above, shown) => {
                self.gallery_viewport_known = true;
                let first = self.first_loaded_row_index;
                if first == above {
                    return GalleryAction::Nothing;
                }
                let (load, unload) = match &self.person_to_view {
                    Some(v) => rows_scrolled_into_view(&v.list_of_rows, first, above, shown),
                    None => rows_scrolled_into_view(&self.gallery_row_list, first, above, shown),
                };
                self.first_loaded_row_index = above;
                GalleryAction::NextTwo(
                    GalleryPageMessage::LoadImageRows(load),
                    GalleryPageMessage::UnloadImageRows(unload),
                )
            },
            _ => GalleryAction::Nothing,
        }
    }

    fn key_scroll_action(&self, pixels: i32) -> (a: GalleryAction)
        ensures
            key_scroll(*self, pixels as int, a),
    {
        if self.selected_image.is_none() && !self.show_people_view {
            if self.gallery_viewport_known {
                GalleryAction::ScrollBy { list: ScrolledList::Gallery, pixels }
            } else {
                GalleryAction::Nothing
            }
        } else if self.show_people_view && self.person_to_view.is_none() {
            if self.people_list_viewport_known {
                GalleryAction::ScrollBy { list: ScrolledList::People, pixels }
            } else {
                GalleryAction::Nothing
            }
        } else {
            GalleryAction::Nothing
        }
    }

    fn keep_scroll_action(&self) -> (a: GalleryAction)
        ensures
            keeps_scroll(*self, a),
    {
        if self.gallery_viewport_known {
            GalleryAction::KeepGalleryScroll
        } else {
            GalleryAction::Nothing
        }
    }

    #[verifier::rlimit(100)]
    #[verifier::spinoff_prover]
    fn update_views(&mut self, message: GalleryPageMessage) -> (a: GalleryAction)
        requires
            gallery_message_group(message) == 2,
        ensures
            view_step(*old(self), *final(self), message, a),
    {
        match message {
            GalleryPageMessage::ArrowDownKeyPressed => self.key_scroll_action(50),
            GalleryPageMessage::ArrowUpKeyPressed => self.key_scroll_action(-50),
            GalleryPageMessage::PageDownKeyPressed => self.key_scroll_action(500),
            GalleryPageMessage::PageUpKeyPressed => self.key_scroll_action(-500),
            GalleryPageMessage::EscapeKeyPressed => {
                if self.selected_image.is_some() {
                    GalleryAction::Next(GalleryPageMessage::SelectImageForBigView(None))
                } else if self.person_to_view.is_some() {
                    self.person_to_view = None;
                    self.show_people_view = true;
                    GalleryAction::ScrollToTopThenLoad(first_rows(&self.gallery_row_list))
                } else if self.show_people_view {
                    self.show_people_view = false;
                    GalleryAction::Nothing
                } else {
                    GalleryAction::Nothing
                }
            },
            GalleryPageMessage::SelectImageForBigView(o) => {
                self.person_to_manage = None;
                self.current_image_ocr_text = None;
                self.rename_person_field_text = String::new();
                self.show_ignore_person_confirmation = false;
                self.show_rename_confirmation = false;
                match o {
                    Some(p) => GalleryAction::ReadFaces(p),
                    None => {
                        self.selected_image = None;
                        self.keep_scroll_action()
                    },
                }
            },
            GalleryPageMessage::FacesRead(p, r) => match r {
                Ok(faces) => {
                    self.selected_image = Some((p, faces));
                    self.keep_scroll_action()
                },
                Err(e) => {
                    let mut t = "Couldn't load faces in image: ".to_owned();
                    push_str(&mut t, e.as_str());
                    GalleryAction::ErrorToast(t)
                },
            },
            GalleryPageMessage::SelectPreviousImage => self.step_through_images(false),
            GalleryPageMessage::SelectNextImage => self.step_through_images(true),
            GalleryPageMessage::CopySelectedImagePath => match &self.selected_image {
                Some((p, _)) => GalleryAction::CopyToClipboard(p.clone()),
                None => GalleryAction::Nothing,
            },
            GalleryPageMessage::TogglePeopleView => {
                if self.person_to_view.is_some() {
                    self.person_to_view = None;
                    self.show_people_view = true;
                    GalleryAction::ScrollToTopThenLoad(first_rows(&self.gallery_row_list))
                } else {
                    self.show_people_view = !self.show_people_view;
                    GalleryAction::Nothing
                }
            },
            GalleryPageMessage::SetPeopleList(l) => {
                self.people_list = l;
                GalleryAction::Nothing
            },
            GalleryPageMessage::SetPersonToViewName(o) => match o {
                Some(n) => {
                    let name = n.clone();
                    self.person_to_view = Some(
                        PersonToView {
                            name: n,
                            list_of_image_paths: Vec::new(),
                            list_of_rows: Vec::new(),
                        },
                    );
                    GalleryAction::ListPhotosOf {
                        name,
                        folders: copy_paths(&self.gallery_parents_list),
                    }
                },
                None => {
                    self.person_to_view = None;
                    GalleryAction::Nothing
                },
            },
            GalleryPageMessage::SetPersonToViewPaths(timed) => {
                let viewed = self.person_to_view.take();
                match viewed {
                    Some(mut v) => {
                        let sorted = sort_newest_first(timed);
                        let paths = paths_of_timed(&sorted);
                        assert(newest_first(timed_texts(sorted@)));
                        let rows = image_rows(&paths);
                        let batch = first_rows(&rows);
                        v.list_of_rows = rows;
                        v.list_of_image_paths = paths;
                        self.person_to_view = Some(v);
                        self.first_loaded_row_index = 0;
                        self.selected_image = None;
                        self.person_to_manage = None;
                        self.gallery_viewport_known = false;
                        self.show_people_view = false;
                        GalleryAction::Next(GalleryPageMessage::LoadImageRows(batch))
                    },
                    None => GalleryAction::Nothing,
                }
            },
            GalleryPageMessage::PeopleListScrolled => {
                self.people_list_viewport_known = true;
                GalleryAction::Nothing
            },
            GalleryPageMessage::RunOcrOnSelectedImage => match &self.selected_image {
                Some((p, _)) => GalleryAction::RunOcr(p.clone()),
                None => GalleryAction::Nothing,
            },
            GalleryPageMessage::SetCurrentImageOcrText(o) => {
                self.current_image_ocr_text = o;
                GalleryAction::Nothing
            },
            GalleryPageMessage::CopyOcrText => match &self.current_image_ocr_text {
                Some(t) => GalleryAction::CopyToClipboard(t.clone()),
                None => GalleryAction::Nothing,
            },
            _ => GalleryAction::Nothing,
        }
    }

    fn step_through_images(&self, forward: bool) -> (a: GalleryAction)
        ensures
            steps_to(*self, forward, a),
    {
        match &self.selected_image {
            Some((p, _)) => {
                let paths = match &self.person_to_view {
                    Some(v) => &v.list_of_image_paths,
                    None => &self.gallery_paths_list,
                };
                // The list's length is a `usize`, so every position in it fits in one.
                let count = paths.len();
                assert(paths@.len() == count);
                let r = if forward {
                    next_image_index(paths, p.as_str())
                } else {
                    previous_image_index(paths, p.as_str())
                };
                match r {
                    Some(k) => GalleryAction::Next(
                        GalleryPageMessage::SelectImageForBigView(Some(paths[k].clone())),
                    ),
                    None => GalleryAction::Nothing,
                }
            },
            None => GalleryAction::Nothing,
        }
    }

    fn start_work(&mut self, kind: ProcessKind, inputs: &Vec<String>, then: Option<ProcessKind>) -> (a:
        GalleryAction)
        ensures
            work_start(*old(self), *final(self), kind, inputs@, then, a),
    {
        if self.photo_process.is_none() {
            self.has_abort_handle = true;
            GalleryAction::StartProcess { kind, inputs: copy_paths(inputs), then }
        } else {
            GalleryAction::ErrorToast("Can't run multiple photo processes at once".to_owned())
        }
    }

    #[verifier::rlimit(100)]
    #[verifier::spinoff_prover]
    fn update_faces(&mut self, message: GalleryPageMessage) -> (a: GalleryAction)
        requires
            gallery_message_group(message) == 0,
        ensures
            faces_step(*old(self), *final(self), message, a),
    {
        match message {
            GalleryPageMessage::ExtractAllFaces => {
                let then = if self.run_face_recognition_on_start {
                    Some(ProcessKind::FaceRecognition)
                } else {
                    None
                };
                let inputs = copy_paths(&self.gallery_paths_list);
                self.start_work(ProcessKind::FaceExtraction, &inputs, then)
            },
            GalleryPageMessage::GenerateAllThumbnails => {
                let then = if self.run_face_extraction_on_start {
                    Some(ProcessKind::FaceExtraction)
                } else if self.run_face_recognition_on_start {
                    Some(ProcessKind::FaceRecognition)
                } else {
                    None
                };
                let inputs = copy_paths(&self.gallery_paths_list);
                self.start_work(ProcessKind::ThumbnailGeneration, &inputs, then)
            },
            GalleryPageMessage::RunFaceRecognition => {
                let inputs = copy_paths(&self.gallery_parents_list);
                self.start_work(ProcessKind::FaceRecognition, &inputs, None)
            },
            GalleryPageMessage::SetPhotoProcessProgress(p) => {
                if p.is_none() {
                    self.has_abort_handle = false;
                }
                self.photo_process = p;
                GalleryAction::Nothing
            },
            GalleryPageMessage::AbortProcess => {
                if self.has_abort_handle {
                    self.photo_process = None;
                    GalleryAction::StopProcess
                } else {
                    GalleryAction::ErrorToast("No process handle found".to_owned())
                }
            },
            GalleryPageMessage::OpenManagePersonView(p, f) => {
                self.person_to_manage = Some((p, f));
                GalleryAction::FocusRenameField
            },
            GalleryPageMessage::CloseManagePersonView => {
                self.person_to_manage = None;
                self.rename_person_field_text = String::new();
                self.show_ignore_person_confirmation = false;
                self.show_rename_confirmation = false;
                GalleryAction::Nothing
            },
            GalleryPageMessage::MaybeRenamePerson(o) => {
                match o {
                    Some(n) => {
                        self.rename_person_field_text = n;
                        self.show_rename_confirmation = true;
                    },
                    None => {
                        if chars_of(self.rename_person_field_text.as_str()).len() > 0 {
                            self.show_rename_confirmation = true;
                        }
                    },
                }
                GalleryAction::Nothing
            },
            GalleryPageMessage::ConfirmRenamePerson => {
                if self.photo_process.is_some() {
                    return GalleryAction::ErrorToast(
                        "Can't manage people while background photo process is running".to_owned(),
                    );
                }
                match self.person_to_manage.take() {
                    Some((image, face)) => {
                        let mut name = String::new();
                        std::mem::swap(&mut name, &mut self.rename_person_field_text);
                        let face = FaceData { name_of_person: Some(name), ..face };
                        self.show_ignore_person_confirmation = false;
                        self.show_rename_confirmation = false;
                        GalleryAction::SaveFace {
                            image,
                            face,
                            list_people_of: Some(copy_paths(&self.gallery_parents_list)),
                        }
                    },
                    None => GalleryAction::Nothing,
                }
            },
            GalleryPageMessage::CancelRenamePerson => {
                self.show_rename_confirmation = false;
                self.rename_person_field_text = String::new();
                GalleryAction::Nothing
            },
            GalleryPageMessage::UpdateRenamePersonField(t) => {
                self.rename_person_field_text = t;
                GalleryAction::Nothing
            },
            GalleryPageMessage::ShowIgnorePersonConfirmation => {
                self.show_ignore_person_confirmation = true;
                self.show_rename_confirmation = false;
                GalleryAction::Nothing
            },
            GalleryPageMessage::ConfirmIgnorePerson => {
                if self.photo_process.is_some() {
                    return GalleryAction::ErrorToast(
                        "Can't manage people while background photo process is running".to_owned(),
                    );
                }
                match self.person_to_manage.take() {
                    Some((image, face)) => {
                        self.show_ignore_person_confirmation = false;
                        self.rename_person_field_text = String::new();
                        self.show_rename_confirmation = false;
                        GalleryAction::SaveFace {
                            image,
                            face: FaceData { is_ignored: true, ..face },
                            list_people_of: None,
                        }
                    },
                    None => GalleryAction::Nothing,
                }
            },
            GalleryPageMessage::CancelIgnorePerson => {
                self.show_ignore_person_confirmation = false;
                GalleryAction::Nothing
            },
            _ => GalleryAction::Nothing,
        }
    }

    /// The page with the settings `config`: the chosen folder (if any) and the work to start
    /// on load, nothing listed, loaded, selected or under way.
    pub fn new(config: &GalleryPageConfig) -> (r: GalleryPage)
        ensures
            opt_text(r.selected_folder) == opt_text(config.default_folder),
            r.run_thumbnail_generation_on_start == config.run_thumbnail_generation_on_start,
            r.run_face_extraction_on_start == config.run_face_extraction_on_start,
            r.run_face_recognition_on_start == config.run_face_recognition_on_start,
            r.selected_image is None && r.person_to_manage is None && r.person_to_view is None,
            r.photo_process is None && !r.has_abort_handle && r.current_image_ocr_text is None,
            r.first_loaded_row_index == 0,
            r.gallery_row_list@.len() == 0 && r.gallery_paths_list@.len() == 0,
            r.gallery_parents_list@.len() == 0 && r.people_list@.len() == 0,
            !r.gallery_viewport_known && !r.people_list_viewport_known,
            !r.show_ignore_person_confirmation && !r.show_rename_confirmation,
            !r.show_people_view && r.rename_person_field_text@.len() == 0,
    {
        GalleryPage {
            selected_folder: match &config.default_folder {
                Some(f) => Some(f.clone()),
                None => None,
            },
            selected_image: None,
            first_loaded_row_index: 0,
            gallery_row_list: Vec::new(),
            gallery_paths_list: Vec::new(),
            gallery_parents_list: Vec::new(),
            gallery_viewport_known: false,
            people_list_viewport_known: false,
            photo_process: None,
            has_abort_handle: false,
            person_to_manage: None,
            rename_person_field_text: String::new(),
            show_ignore_person_confirmation: false,
            show_rename_confirmation: false,
            show_people_view: false,
            people_list: Vec::new(),
            person_to_view: None,
            run_thumbnail_generation_on_start: config.run_thumbnail_generation_on_start,
            run_face_extraction_on_start: config.run_face_extraction_on_start,
            run_face_recognition_on_start: config.run_face_recognition_on_start,
            current_image_ocr_text: None,
        }
    }

    /// The message the page handles when it opens: load the folder.
    pub fn opening_task() -> (m: GalleryPageMessage)
        ensures
            m is LoadGalleryFolder,
    {
        GalleryPageMessage::LoadGalleryFolder
    }

    /// Handles `message` and says what has to happen next (see `gallery_step`).
    pub fn update(&mut self, message: GalleryPageMessage) -> (a: GalleryAction)
        requires
            gallery_can_take(*old(self), message),
        ensures
            gallery_step(*old(self), *final(self), message, a),
    {
        let g = gallery_group_of(&message);
        if g == 1 {
            self.update_rows(message)
        } else if g == 2 {
            self.update_views(message)
        } else {
            self.update_faces(message)
        }
    }
}


/// The named keys the gallery answers to.
pub enum GalleryKey {
    Escape,
    ArrowUp,
    ArrowDown,
    PageUp,
    PageDown,
    ArrowRight,
    ArrowLeft,
}

/// The message a named key sends to the gallery: the arrows left and right move between
/// images, the others scroll or go back.
pub open spec fn gallery_key_message(k: GalleryKey) -> GalleryPageMessage {
    match k {
        GalleryKey::Escape => GalleryPageMessage::EscapeKeyPressed,
        GalleryKey::ArrowUp => GalleryPageMessage::ArrowUpKeyPressed,
        GalleryKey::ArrowDown => GalleryPageMessage::ArrowDownKeyPressed,
        GalleryKey::PageUp => GalleryPageMessage::PageUpKeyPressed,
        GalleryKey::PageDown => GalleryPageMessage::PageDownKeyPressed,
        GalleryKey::ArrowRight => GalleryPageMessage::SelectNextImage,
        GalleryKey::ArrowLeft => GalleryPageMessage::SelectPreviousImage,
    }
}

/// The message the named key `k` sends to the gallery.
pub fn message_for_key(k: GalleryKey) -> (m: GalleryPageMessage)
    ensures
        m == gallery_key_message(k),
{
    match k {
        GalleryKey::Escape => GalleryPageMessage::EscapeKeyPressed,
        GalleryKey::ArrowUp => GalleryPageMessage::ArrowUpKeyPressed,
        GalleryKey::ArrowDown => GalleryPageMessage::ArrowDownKeyPressed,
        GalleryKey::PageUp => GalleryPageMessage::PageUpKeyPressed,
        GalleryKey::PageDown => GalleryPageMessage::PageDownKeyPressed,
        GalleryKey::ArrowRight => GalleryPageMessage::SelectNextImage,
        GalleryKey::ArrowLeft => GalleryPageMessage::SelectPreviousImage,
    }
}

} // verus!
