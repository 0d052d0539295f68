use file_store::handlers::{
    check_upload_size, content_disposition, delete_file, delete_start, download_file,
    download_start, upload_file, Step, UPLOAD_LIMIT,
};
use file_store::listing::{file_names, list_files, Entry};
use file_store::rejection::{handle_rejection, respond, Failure};
use file_store::reply::{Body, Reply, Status};

fn text_of(r: &Reply) -> String {
    match &r.body {
        Body::Text(t) => t.clone(),
        _ => panic!("expected a text body"),
    }
}

fn file(name: &str) -> Entry {
    Entry { name: Some(name.to_string()), is_file: true }
}

fn folder(name: &str) -> Entry {
    Entry { name: Some(name.to_string()), is_file: false }
}

fn listed(r: &Reply) -> Vec<String> {
    match &r.body {
        Body::Listing(names) => names.clone(),
        _ => panic!("expected a listing"),
    }
}

#[test]
fn missing_file_download_is_not_found() {
    match download_start("missing.txt", false) {
        Step::Answer(r) => {
            assert_eq!(r.status.code(), 404);
            assert_eq!(text_of(&r), "File 'missing.txt' not found");
            assert!(r.disposition.is_none());
        }
        Step::Proceed => panic!("expected an answer"),
    }
}

#[test]
fn existing_file_download_proceeds() {
    assert!(matches!(download_start("a.txt", true), Step::Proceed));
    assert!(matches!(delete_start("a.txt", true), Step::Proceed));
}

#[test]
fn listing_of_three_uploads_is_sorted() {
    let r = list_files(Some(vec![file("c"), file("a"), file("b")])).unwrap();
    assert_eq!(r.status.code(), 200);
    let names = listed(&r);
    assert_eq!(names, vec!["a".to_string(), "b".to_string(), "c".to_string()]);
    assert_eq!(names.len(), 3);
}

#[test]
fn listing_leaves_out_subdirectories() {
    let r = list_files(Some(vec![file("b.txt"), folder("sub"), file("a.txt")])).unwrap();
    assert_eq!(listed(&r), vec!["a.txt".to_string(), "b.txt".to_string()]);
}

#[test]
fn listing_leaves_out_unreadable_entries() {
    let names = file_names(&vec![Entry { name: None, is_file: true }, file("x")]);
    assert_eq!(names, vec!["x".to_string()]);
}

#[test]
fn listing_of_empty_directory() {
    let r = list_files(Some(Vec::new())).unwrap();
    assert!(listed(&r).is_empty());
}

#[test]
fn listing_orders_by_bytes() {
    let names = file_names(&vec![file("b"), file("B"), file("ab"), file("a"), file("é")]);
    assert_eq!(
        names,
        vec!["B".to_string(), "a".to_string(), "ab".to_string(), "b".to_string(), "é".to_string()]
    );
}

#[test]
fn listing_read_failure_is_file_error() {
    assert_eq!(list_files(None).err(), Some(Failure::FileError));
}

#[test]
fn upload_limit_is_one_hundred_mebibytes() {
    assert_eq!(UPLOAD_LIMIT, 100 * 1024 * 1024);
    assert_eq!(check_upload_size(0), Ok(()));
    assert_eq!(check_upload_size(UPLOAD_LIMIT), Ok(()));
    assert_eq!(check_upload_size(UPLOAD_LIMIT + 1), Err(Failure::PayloadTooLarge));
}

#[test]
fn oversized_upload_is_bad_request() {
    let f = check_upload_size(200 * 1024 * 1024).unwrap_err();
    let r = handle_rejection(f);
    assert_eq!(r.status.code(), 400);
    assert_eq!(text_of(&r), "Payload too large");
}

#[test]
fn upload_confirms_name() {
    let r = upload_file("notes.txt", true).unwrap();
    assert_eq!(r.status, Status::Success);
    assert_eq!(text_of(&r), "Successfully uploaded: notes.txt");
}

#[test]
fn failed_upload_is_file_error() {
    assert_eq!(upload_file("notes.txt", false).err(), Some(Failure::FileError));
}

#[test]
fn download_returns_bytes_read() {
    let data = vec![0u8, 1, 2, 255];
    let r = download_file("blob.bin", Some(data.clone())).unwrap();
    assert_eq!(r.status.code(), 200);
    match &r.body {
        Body::Data(d) => assert_eq!(d, &data),
        _ => panic!("expected data"),
    }
    assert_eq!(r.disposition, Some("attachment; filename=\"blob.bin\"".to_string()));
}

#[test]
fn failed_read_is_file_error() {
    assert_eq!(download_file("blob.bin", None).err(), Some(Failure::FileError));
}

#[test]
fn disposition_names_the_file() {
    assert_eq!(content_disposition("a b.txt"), "attachment; filename=\"a b.txt\"");
    assert_eq!(content_disposition("é.txt"), "attachment; filename=\"é.txt\"");
    assert_eq!(content_disposition("tab\there"), "attachment; filename=\"tab\there\"");
}

#[test]
fn disposition_falls_back_on_control_characters() {
    assert_eq!(content_disposition("bad\nname"), "attachment");
    assert_eq!(content_disposition("del\u{7f}"), "attachment");
}

#[test]
fn delete_of_missing_file_is_not_found() {
    match delete_start("gone.txt", false) {
        Step::Answer(r) => {
            assert_eq!(r.status.code(), 404);
            assert_eq!(text_of(&r), "File 'gone.txt' not found");
        }
        Step::Proceed => panic!("expected an answer"),
    }
}

#[test]
fn delete_confirms_removal() {
    let r = delete_file("gone.txt", true).unwrap();
    assert_eq!(r.status.code(), 200);
    assert_eq!(text_of(&r), "File 'gone.txt' deleted successfully");
    assert_eq!(delete_file("gone.txt", false).err(), Some(Failure::FileError));
}

#[test]
fn rejections_map_to_fixed_messages() {
    let cases = [
        (Failure::RouteNotFound, 404, "Not Found"),
        (Failure::FileError, 500, "File operation error"),
        (Failure::InvalidBody, 400, "Invalid body"),
        (Failure::PayloadTooLarge, 400, "Payload too large"),
        (Failure::Unrecognized, 500, "Internal Server Error"),
    ];
    for (f, code, msg) in cases {
        let r = handle_rejection(f);
        assert_eq!(r.status.code(), code);
        assert_eq!(text_of(&r), msg);
    }
}

#[test]
fn respond_passes_replies_and_translates_failures() {
    let ok = respond(upload_file("x", true));
    assert_eq!(ok.status.code(), 200);
    let failed = respond(upload_file("x", false));
    assert_eq!(failed.status.code(), 500);
    assert_eq!(text_of(&failed), "File operation error");
}

#[test]
fn status_codes() {
    assert_eq!(Status::Success.code(), 200);
    assert_eq!(Status::BadRequest.code(), 400);
    assert_eq!(Status::NotFound.code(), 404);
    assert_eq!(Status::InternalServerError.code(), 500);
}
