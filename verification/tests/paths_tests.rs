use webp_converter::error::{CommandError, PathProblem};
use webp_converter::paths::{get_parent_directory, parent_directory_answer, ParentLookup};

fn no_parent() -> Result<String, CommandError> {
    Err(CommandError::PathResolution(PathProblem::NoParent))
}

#[test]
fn parent_of_a_file_in_nested_directories() {
    assert_eq!(get_parent_directory(String::from("/a/b/c.png")), Ok(String::from("/a/b")));
}

#[test]
fn bare_file_name_has_no_parent() {
    assert_eq!(get_parent_directory(String::from("c.png")), no_parent());
}

#[test]
fn empty_path_has_no_parent() {
    assert_eq!(get_parent_directory(String::new()), no_parent());
}

#[test]
fn root_has_no_parent() {
    assert_eq!(get_parent_directory(String::from("/")), no_parent());
}

#[test]
fn parent_of_a_file_in_the_root() {
    assert_eq!(get_parent_directory(String::from("/c.png")), Ok(String::from("/")));
}

#[test]
fn parent_of_a_relative_path() {
    assert_eq!(get_parent_directory(String::from("a/b.png")), Ok(String::from("a")));
}

#[test]
fn parent_differs_from_the_path() {
    let path = String::from("/photos/2024/in.png");
    assert_ne!(get_parent_directory(path.clone()), Ok(path));
}

#[test]
fn found_parent_is_the_answer() {
    assert_eq!(
        parent_directory_answer(ParentLookup::Found(String::from("/a/b"))),
        Ok(String::from("/a/b"))
    );
}

#[test]
fn empty_parent_is_no_parent() {
    assert_eq!(parent_directory_answer(ParentLookup::Found(String::new())), no_parent());
}

#[test]
fn missing_parent_is_no_parent() {
    assert_eq!(parent_directory_answer(ParentLookup::Missing), no_parent());
}

#[test]
fn parent_that_is_not_text_is_reported_as_such() {
    assert_eq!(
        parent_directory_answer(ParentLookup::NotText),
        Err(CommandError::PathResolution(PathProblem::NotText))
    );
}

#[test]
fn missing_parent_message() {
    let error = get_parent_directory(String::from("c.png")).unwrap_err();
    assert_eq!(error.message(), "无法获取文件的父目录");
}
