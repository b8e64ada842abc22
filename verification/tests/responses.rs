use backend::responses::{collect_upload, upload_error_answer, UploadField, empty_upload_refusal, registration_error_status, upload_error_status, UploadKind};
use backend::text::str_contains;

#[test]
fn upload_errors() {
    assert_eq!(upload_error_status("File size exceeds 5MB limit"), 400);
    assert_eq!(upload_error_status("Invalid image format"), 400);
    assert_eq!(upload_error_status("S3 upload failed"), 500);
    assert_eq!(upload_error_status("invalid lowercase"), 500);
    assert_eq!(upload_error_status(""), 500);
}

#[test]
fn registration_errors() {
    assert_eq!(
        registration_error_status("error returned from database: duplicate key value violates unique constraint"),
        409
    );
    assert_eq!(registration_error_status("connection refused"), 500);
}

#[test]
fn substring_search() {
    assert!(str_contains("hello world", "o w"));
    assert!(str_contains("abc", ""));
    assert!(str_contains("abc", "abc"));
    assert!(!str_contains("abc", "abcd"));
    assert!(!str_contains("", "a"));
    assert!(str_contains("café", "fé"));
}

#[test]
fn empty_uploads_are_refused() {
    assert_eq!(empty_upload_refusal(UploadKind::Image, 0), Some((400, "No image data received".to_string())));
    assert_eq!(empty_upload_refusal(UploadKind::Audio, 0), Some((400, "No audio data received".to_string())));
    assert_eq!(empty_upload_refusal(UploadKind::Artwork, 0), Some((400, "No artwork data received".to_string())));
    assert_eq!(empty_upload_refusal(UploadKind::Image, 12), None);
}

#[test]
fn upload_error_answers() {
    assert_eq!(
        upload_error_answer(UploadKind::Image, "Image exceeds 5MB limit"),
        (400, "Image exceeds 5MB limit".to_string())
    );
    assert_eq!(
        upload_error_answer(UploadKind::Image, "S3 down"),
        (500, "Failed to upload image".to_string())
    );
    assert_eq!(
        upload_error_answer(UploadKind::Audio, "Invalid audio format"),
        (400, "Invalid audio format".to_string())
    );
    assert_eq!(upload_error_answer(UploadKind::Audio, "x"), (500, "Failed to upload audio".to_string()));
    assert_eq!(upload_error_answer(UploadKind::Artwork, "x"), (500, "Failed to upload artwork".to_string()));
}

fn field(name: Option<&str>, filename: Option<&str>, data: &[u8]) -> UploadField {
    UploadField {
        name: name.map(|s| s.to_string()),
        filename: filename.map(|s| s.to_string()),
        data: data.to_vec(),
    }
}

#[test]
fn uploads_read_only_their_field() {
    let fields = vec![
        field(Some("title"), None, b"ignored"),
        field(Some("image"), Some("a.png"), b"ab"),
        field(None, Some("z.png"), b"zz"),
        field(Some("image"), None, b"cd"),
    ];
    assert_eq!(collect_upload(UploadKind::Image, &fields), (b"abcd".to_vec(), "a.png".to_string()));
    assert_eq!(collect_upload(UploadKind::Image, &vec![]), (vec![], "upload.jpg".to_string()));
    assert_eq!(collect_upload(UploadKind::Audio, &fields), (vec![], "upload.mp3".to_string()));
    let art = vec![field(Some("artwork"), Some("1.jpg"), b"x"), field(Some("artwork"), Some("2.jpg"), b"y")];
    assert_eq!(collect_upload(UploadKind::Artwork, &art), (b"xy".to_vec(), "2.jpg".to_string()));
    assert_eq!(collect_upload(UploadKind::Artwork, &vec![]).1, "artwork.jpg");
}
