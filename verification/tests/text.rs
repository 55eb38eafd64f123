use backend::protocol::{Reply, Status};
use backend::text::{content_disposition, file_path_in, join_path, user_directory};

const USER: u128 = 0x0123_4567_89ab_cdef_0123_4567_89ab_cdef;

#[test]
fn join_path_adds_one_separator() {
    assert_eq!(join_path("uploads", "a"), "uploads/a");
    assert_eq!(join_path("uploads/", "a"), "uploads/a");
    assert_eq!(join_path("", "a"), "a");
    assert_eq!(join_path("/", "a"), "/a");
    assert_eq!(join_path("dir/sub", "b-c"), "dir/sub/b-c");
}

#[test]
fn join_path_matches_pathbuf_join() {
    for (base, part) in [("uploads", "x"), ("uploads/", "x"), ("", "x"), ("/srv/data", "y")] {
        let expected = std::path::PathBuf::from(base).join(part);
        assert_eq!(join_path(base, part), expected.to_string_lossy());
    }
}

#[test]
fn user_directory_uses_hyphenated_lowercase_uuid() {
    assert_eq!(
        user_directory("./uploads", USER),
        "./uploads/01234567-89ab-cdef-0123-456789abcdef"
    );
    assert_eq!(user_directory("", 0), "00000000-0000-0000-0000-000000000000");
}

#[test]
fn file_path_in_appends_the_file_id() {
    let dir = user_directory("store", USER);
    assert_eq!(
        file_path_in(&dir, u128::MAX),
        "store/01234567-89ab-cdef-0123-456789abcdef/ffffffff-ffff-ffff-ffff-ffffffffffff"
    );
}

#[test]
fn content_disposition_quotes_the_name() {
    assert_eq!(content_disposition("report.pdf"), "attachment; filename=\"report.pdf\"");
    assert_eq!(content_disposition(""), "attachment; filename=\"\"");
    assert_eq!(content_disposition("é ü.txt"), "attachment; filename=\"é ü.txt\"");
}

#[test]
fn status_codes() {
    let all = [
        (Status::Success, 200),
        (Status::Created, 201),
        (Status::NoContent, 204),
        (Status::BadRequest, 400),
        (Status::NotFound, 404),
        (Status::Conflict, 409),
        (Status::PayloadTooLarge, 413),
        (Status::InternalServerError, 500),
    ];
    for (s, c) in all {
        assert_eq!(s.code(), c);
        assert_eq!(Reply::Status(s).status(), s);
    }
    assert_eq!(Reply::Files(vec![]).status(), Status::Success);
}
