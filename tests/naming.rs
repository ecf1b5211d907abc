use bpg::naming::file_name;

#[test]
fn test_file_name() {
    assert_eq!(file_name("test.jpg"), "test_bordered.jpg");
    assert_eq!(file_name(".png"), ".png_bordered");
    assert_eq!(file_name("test"), "test_bordered");
}

#[test]
fn file_name_keeps_directory_and_last_extension() {
    assert_eq!(file_name("photos/cat.png"), "photos/cat_bordered.png");
    assert_eq!(file_name("a.tar.gz"), "a.tar_bordered.gz");
}

#[test]
fn file_name_without_file_name_is_unchanged() {
    assert_eq!(file_name(""), "");
    assert_eq!(file_name("dir/.."), "dir/..");
}
