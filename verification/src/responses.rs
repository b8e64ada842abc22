//! The HTTP statuses with which the API answers refused requests.
//!
//! Each handler maps the error of its operation to a status: the client's
//! mistakes give 4xx answers, everything else a server error.

use vstd::prelude::*;

use crate::auth_rules::AuthError;
use crate::roles::RoleError;
use crate::text::{has_substring, str_contains, str_eq};

verus! {

/// Status of a refused profile update: a malformed slug is a bad request, a
/// taken one a conflict.
pub fn profile_update_status(e: AuthError) -> (r: u16)
    ensures
        r == (match e {
            AuthError::InvalidSlugFormat => 400u16,
            AuthError::SlugTaken => 409u16,
            _ => 500u16,
        }),
{
    match e {
        AuthError::InvalidSlugFormat => 400,
        AuthError::SlugTaken => 409,
        _ => 500,
    }
}

/// Status of a refused password change: a wrong current password is a bad
/// request, a missing user is not found.
pub fn password_change_status(e: AuthError) -> (r: u16)
    ensures
        r == (match e {
            AuthError::CurrentPasswordIncorrect => 400u16,
            AuthError::UserNotFound => 404u16,
            _ => 500u16,
        }),
{
    match e {
        AuthError::CurrentPasswordIncorrect => 400,
        AuthError::UserNotFound => 404,
        _ => 500,
    }
}

/// Status of a refused first password: an account that already has one is a
/// bad request, a missing user is not found.
pub fn password_set_status(e: AuthError) -> (r: u16)
    ensures
        r == (match e {
            AuthError::AlreadyHasPassword => 400u16,
            AuthError::UserNotFound => 404u16,
            _ => 500u16,
        }),
{
    match e {
        AuthError::AlreadyHasPassword => 400,
        AuthError::UserNotFound => 404,
        _ => 500,
    }
}

/// Status of a refused account deletion: the system user is a bad request, a
/// missing user is not found.
pub fn account_deletion_status(e: AuthError) -> (r: u16)
    ensures
        r == (match e {
            AuthError::CannotDeleteSystemUser => 400u16,
            AuthError::UserNotFound => 404u16,
            _ => 500u16,
        }),
{
    match e {
        AuthError::CannotDeleteSystemUser => 400,
        AuthError::UserNotFound => 404,
        _ => 500,
    }
}

/// Status of refused timer preferences: listing a private timer is a bad
/// request.
pub fn preferences_status(e: AuthError) -> (r: u16)
    ensures
        r == (if e == AuthError::ShowInListRequiresPublic {
            400u16
        } else {
            500u16
        }),
{
    match e {
        AuthError::ShowInListRequiresPublic => 400,
        _ => 500,
    }
}

/// Status of a refused role grant: an unknown role or the base role is a bad
/// request.
pub fn role_add_status(e: RoleError) -> (r: u16)
    ensures
        r == (match e {
            RoleError::InvalidRoleName => 400u16,
            RoleError::CannotAddUserRole => 400u16,
            _ => 500u16,
        }),
{
    match e {
        RoleError::InvalidRoleName => 400,
        RoleError::CannotAddUserRole => 400,
        _ => 500,
    }
}

/// Status of a refused role removal: taking the last administrator's role is
/// a conflict; an unknown role or the base role is a bad request.
pub fn role_remove_status(e: RoleError) -> (r: u16)
    ensures
        r == (match e {
            RoleError::LastAdmin => 409u16,
            RoleError::InvalidRoleName => 400u16,
            RoleError::CannotRemoveUserRole => 400u16,
            RoleError::CannotAddUserRole => 500u16,
        }),
{
    match e {
        RoleError::LastAdmin => 409,
        RoleError::InvalidRoleName => 400,
        RoleError::CannotRemoveUserRole => 400,
        RoleError::CannotAddUserRole => 500,
    }
}

/// Status of a failed upload from the storage's error message: a file that
/// is too large or malformed is a bad request.
pub fn upload_error_status(message: &str) -> (r: u16)
    ensures
        r == (if has_substring(message@, "exceeds"@) || has_substring(message@, "Invalid"@) {
            400u16
        } else {
            500u16
        }),
{
    if str_contains(message, "exceeds") || str_contains(message, "Invalid") {
        400
    } else {
        500
    }
}

/// Status of a failed registration from the store's error message: a
/// duplicate key means the email is already registered.
pub fn registration_error_status(message: &str) -> (r: u16)
    ensures
        r == (if has_substring(message@, "duplicate key"@) {
            409u16
        } else {
            500u16
        }),
{
    if str_contains(message, "duplicate key") {
        409
    } else {
        500
    }
}

/// What an upload carries.
#[derive(Clone, Copy, PartialEq, Eq, Debug)]
pub enum UploadKind {
    Image,
    Audio,
    Artwork,
}

/// The refusal of an upload that carried no data: a bad request with a
/// message naming what was missing; none when there is data.
pub fn empty_upload_refusal(kind: UploadKind, data_len: usize) -> (r: Option<(u16, String)>)
    ensures
        data_len > 0 ==> r is None,
        data_len == 0 ==> (r matches Some((status, msg)) && status == 400 && msg@ == match kind {
            UploadKind::Image => "No image data received"@,
            UploadKind::Audio => "No audio data received"@,
            UploadKind::Artwork => "No artwork data received"@,
        }),
{
    if data_len > 0 {
        return None;
    }
    let msg = match kind {
        UploadKind::Image => "No image data received".to_owned(),
        UploadKind::Audio => "No audio data received".to_owned(),
        UploadKind::Artwork => "No artwork data received".to_owned(),
    };
    Some((400, msg))
}

/// The multipart field an upload reads, and the filename used when the
/// field gives none.
pub open spec fn upload_field(kind: UploadKind) -> (Seq<char>, Seq<char>) {
    match kind {
        UploadKind::Image => ("image"@, "upload.jpg"@),
        UploadKind::Audio => ("audio"@, "upload.mp3"@),
        UploadKind::Artwork => ("artwork"@, "artwork.jpg"@),
    }
}

/// The answer to a failed upload, from the storage's error message: a file
/// that is too large or malformed is a bad request that shows the message;
/// anything else is a server error with a fixed message.
pub fn upload_error_answer(kind: UploadKind, message: &str) -> (r: (u16, String))
    ensures
        has_substring(message@, "exceeds"@) || has_substring(message@, "Invalid"@) ==> r.0 == 400
            && r.1@ == message@,
        !(has_substring(message@, "exceeds"@) || has_substring(message@, "Invalid"@)) ==> r.0
            == 500 && r.1@ == match kind {
            UploadKind::Image => "Failed to upload image"@,
            UploadKind::Audio => "Failed to upload audio"@,
            UploadKind::Artwork => "Failed to upload artwork"@,
        },
{
    if upload_error_status(message) == 400 {
        return (400, message.to_owned());
    }
    let m = match kind {
        UploadKind::Image => "Failed to upload image".to_owned(),
        UploadKind::Audio => "Failed to upload audio".to_owned(),
        UploadKind::Artwork => "Failed to upload artwork".to_owned(),
    };
    (500, m)
}

/// One multipart field as read: its name and filename, if any, and its
/// data.
pub struct UploadField {
    pub name: Option<String>,
    pub filename: Option<String>,
    pub data: Vec<u8>,
}

/// Whether a field has the given name.
pub open spec fn field_named(f: UploadField, name: Seq<char>) -> bool {
    f.name matches Some(n) && n@ == name
}

/// The data of the fields with the given name, joined in order.
pub open spec fn collected_data(fields: Seq<UploadField>, name: Seq<char>) -> Seq<u8>
    decreases fields.len(),
{
    if fields.len() == 0 {
        Seq::empty()
    } else if field_named(fields.last(), name) {
        collected_data(fields.drop_last(), name) + fields.last().data@
    } else {
        collected_data(fields.drop_last(), name)
    }
}

/// The filename of the last field with the given name that has one, else
/// the default.
pub open spec fn collected_filename(
    fields: Seq<UploadField>,
    name: Seq<char>,
    default: Seq<char>,
) -> Seq<char>
    decreases fields.len(),
{
    if fields.len() == 0 {
        default
    } else if field_named(fields.last(), name) && fields.last().filename is Some {
        fields.last().filename->0@
    } else {
        collected_filename(fields.drop_last(), name, default)
    }
}

fn append_bytes(a: &mut Vec<u8>, b: &Vec<u8>)
    ensures
        final(a)@ == old(a)@ + b@,
{
    let mut k: usize = 0;
    let ghost a0 = a@;
    while k < b.len()
        invariant
            k <= b.len(),
            a@ == a0 + b@.take(k as int),
        decreases b.len() - k,
    {
        a.push(b[k]);
        proof {
            assert(b@.take(k + 1) =~= b@.take(k as int).push(b@[k as int]));
        }
        k = k + 1;
    }
    proof {
        assert(b@.take(b.len() as int) =~= b@);
    }
}

/// Collect an upload from the multipart fields read: the data of the fields
/// with the upload's field name, in order, and the last filename they give
/// (or the default one).
pub fn collect_upload(kind: UploadKind, fields: &Vec<UploadField>) -> (r: (Vec<u8>, String))
    ensures
        r.0@ == collected_data(fields@, upload_field(kind).0),
        r.1@ == collected_filename(fields@, upload_field(kind).0, upload_field(kind).1),
{
    let (field_name, default_name) = match kind {
        UploadKind::Image => ("image", "upload.jpg"),
        UploadKind::Audio => ("audio", "upload.mp3"),
        UploadKind::Artwork => ("artwork", "artwork.jpg"),
    };
    let mut data: Vec<u8> = Vec::new();
    let mut filename: String = default_name.to_owned();
    let mut i: usize = 0;
    assert(fields@.take(0) =~= Seq::<UploadField>::empty());
    while i < fields.len()
        invariant
            i <= fields.len(),
            field_name@ == upload_field(kind).0,
            default_name@ == upload_field(kind).1,
            data@ == collected_data(fields@.take(i as int), field_name@),
            filename@ == collected_filename(fields@.take(i as int), field_name@, default_name@),
        decreases fields.len() - i,
    {
        proof {
            assert(fields@.take(i + 1).drop_last() =~= fields@.take(i as int));
            assert(fields@.take(i + 1).last() == fields@[i as int]);
        }
        let f = &fields[i];
        let named = match &f.name {
            Some(n) => str_eq(n.as_str(), field_name),
            None => false,
        };
        if named {
            append_bytes(&mut data, &f.data);
            match &f.filename {
                Some(fname) => {
                    filename = fname.clone();
                },
                None => {},
            }
        }
        i = i + 1;
    }
    proof {
        assert(fields@.take(fields.len() as int) =~= fields@);
    }
    (data, filename)
}

} // verus!
