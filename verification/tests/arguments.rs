use ziptree::args::text_args;
use ziptree::error::ArchiveError;
use ziptree::error::Operation;

#[test]
fn fewer_than_two_arguments_is_a_usage_error() {
    let none: Vec<Result<String, String>> = Vec::new();
    let one = vec![Ok("only".to_string())];
    assert_eq!(text_args(Operation::Extract, &none), Err(ArchiveError::Usage(Operation::Extract)));
    assert_eq!(text_args(Operation::Extract, &one), Err(ArchiveError::Usage(Operation::Extract)));
    assert_eq!(text_args(Operation::Compress, &none), Err(ArchiveError::Usage(Operation::Compress)));
    assert_eq!(text_args(Operation::Compress, &one), Err(ArchiveError::Usage(Operation::Compress)));
    let not_text = vec![Err("not a string".to_string())];
    assert_eq!(
        text_args(Operation::Extract, &not_text),
        Err(ArchiveError::Usage(Operation::Extract))
    );
}

#[test]
fn two_text_arguments_are_handed_back_in_order() {
    let args = vec![Ok("in.zip".to_string()), Ok("out".to_string())];
    assert_eq!(
        text_args(Operation::Extract, &args),
        Ok(("in.zip".to_string(), "out".to_string()))
    );
    let more = vec![Ok("a".to_string()), Ok("b".to_string()), Err("ignored".to_string())];
    assert_eq!(text_args(Operation::Compress, &more), Ok(("a".to_string(), "b".to_string())));
}

#[test]
fn argument_that_is_no_text_is_an_argument_error() {
    let first = vec![Err("first is no text".to_string()), Err("second is no text".to_string())];
    assert_eq!(
        text_args(Operation::Extract, &first),
        Err(ArchiveError::Argument("first is no text".to_string()))
    );
    let second = vec![Ok("a".to_string()), Err("second is no text".to_string())];
    assert_eq!(
        text_args(Operation::Compress, &second),
        Err(ArchiveError::Argument("second is no text".to_string()))
    );
}

#[test]
fn messages_of_every_error() {
    assert_eq!(ArchiveError::Usage(Operation::Extract).message(), "Args: zip_path, dest_dir");
    assert_eq!(ArchiveError::Usage(Operation::Compress).message(), "Args: source_dir, zip_path");
    assert_eq!(ArchiveError::Argument("expected string".to_string()).message(), "expected string");
    assert_eq!(ArchiveError::Open("no such file".to_string()).message(), "Open failed: no such file");
    assert_eq!(ArchiveError::Create("denied".to_string()).message(), "denied");
    assert_eq!(ArchiveError::Format("bad magic".to_string()).message(), "Invalid zip: bad magic");
    assert_eq!(ArchiveError::PathPrefix.message(), "Path prefix error");
    assert_eq!(ArchiveError::PathNotText.message(), "Invalid UTF-8 path");
    assert_eq!(ArchiveError::Io("disk full".to_string()).message(), "disk full");
}

#[test]
fn operations_are_registered_under_their_names() {
    assert_eq!(Operation::Extract.name(), "zip_extract");
    assert_eq!(Operation::Compress.name(), "zip_compress");
}
