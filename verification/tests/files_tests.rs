use webp_converter::error::{CommandError, FileOperation};
use webp_converter::files::{read_file_binary_answer, write_temp_file_answer};

#[test]
fn successful_write_succeeds() {
    assert_eq!(write_temp_file_answer(Ok(())), Ok(()));
}

#[test]
fn failed_write_is_a_file_error() {
    let answer = write_temp_file_answer(Err(String::from("Permission denied (os error 13)")));
    assert_eq!(
        answer,
        Err(CommandError::FileIo(
            FileOperation::WriteTemp,
            String::from("Permission denied (os error 13)")
        ))
    );
    assert_eq!(
        answer.unwrap_err().message(),
        "Failed to write temp file: Permission denied (os error 13)"
    );
}

#[test]
fn successful_read_gives_the_bytes_as_they_are() {
    let data: Vec<u8> = vec![0x52, 0x49, 0x46, 0x46, 0x00, 0xff, 0x80, 0x0a];
    assert_eq!(read_file_binary_answer(Ok(data.clone())), Ok(data));
}

#[test]
fn successful_read_of_an_empty_file() {
    assert_eq!(read_file_binary_answer(Ok(Vec::new())), Ok(Vec::new()));
}

#[test]
fn successful_read_keeps_every_byte_value() {
    let data: Vec<u8> = (0..=255).collect();
    assert_eq!(read_file_binary_answer(Ok(data.clone())), Ok(data));
}

#[test]
fn failed_read_is_a_file_error() {
    let answer = read_file_binary_answer(Err(String::from("No such file or directory (os error 2)")));
    assert_eq!(
        answer,
        Err(CommandError::FileIo(
            FileOperation::Read,
            String::from("No such file or directory (os error 2)")
        ))
    );
    assert_eq!(
        answer.unwrap_err().message(),
        "Failed to read file: No such file or directory (os error 2)"
    );
}
