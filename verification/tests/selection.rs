use bent::direction::{DialogMode, FileDirection};
use bent::files::ImageFile;
use bent::store::SelectionStore;

fn image(path: &str) -> ImageFile {
    ImageFile::try_new(path).unwrap()
}

#[test]
fn a_new_store_is_empty() {
    let store = SelectionStore::new();
    assert_eq!(store.get(FileDirection::Input), None);
    assert_eq!(store.get(FileDirection::Output), None);
}

#[test]
fn get_returns_what_was_set() {
    let mut store = SelectionStore::new();
    store.set(FileDirection::Input, image("photo.png"));
    assert_eq!(store.get(FileDirection::Input), Some(&image("photo.png")));
}

#[test]
fn a_second_set_overwrites_the_first() {
    let mut store = SelectionStore::new();
    store.set(FileDirection::Input, image("photo.png"));
    store.set(FileDirection::Input, image("scan.tiff"));
    assert_eq!(store.get(FileDirection::Input), Some(&image("scan.tiff")));
}

#[test]
fn a_set_leaves_the_other_direction_alone() {
    let mut store = SelectionStore::new();
    store.set(FileDirection::Input, image("photo.png"));
    assert_eq!(store.get(FileDirection::Output), None);
    store.set(FileDirection::Output, image("out.jpg"));
    store.set(FileDirection::Input, image("scan.tiff"));
    assert_eq!(store.get(FileDirection::Output), Some(&image("out.jpg")));
    store.set(FileDirection::Output, image("out.bmp"));
    assert_eq!(store.get(FileDirection::Input), Some(&image("scan.tiff")));
    assert_eq!(store.get(FileDirection::Output), Some(&image("out.bmp")));
}

#[test]
fn directions_are_listed_input_first() {
    assert_eq!(FileDirection::all(), vec![FileDirection::Input, FileDirection::Output]);
}

#[test]
fn directions_have_names() {
    assert_eq!(FileDirection::Input.name(), "Input");
    assert_eq!(FileDirection::Output.name(), "Output");
}

#[test]
fn input_is_opened_and_output_is_saved() {
    assert_eq!(FileDirection::Input.mode(), DialogMode::Open);
    assert_eq!(FileDirection::Output.mode(), DialogMode::Save);
}
