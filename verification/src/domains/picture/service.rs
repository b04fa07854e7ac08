//! The rules of the picture service: what an upload must bring, where it is
//! stored, and who may delete a picture.

use crate::domains::picture::model::{Picture, PictureView};
use crate::domains::user::repository::random_token;
use crate::storage::{S3Storage, S3StorageView};
use crate::text::{decimal_of_int, extension, i32_to_decimal, spec_extension};
use crate::views::{option_view, result_view};
use vstd::prelude::*;
use vstd::string::*;

verus! {

/// Why the picture service refused a request.
#[derive(Debug)]
pub enum PictureServiceError {
    InternalServerError(String),
    BadRequest(String),
    NotFound(String),
    Forbidden(String),
}

pub enum PictureServiceErrorView {
    InternalServerError(Seq<char>),
    BadRequest(Seq<char>),
    NotFound(Seq<char>),
    Forbidden(Seq<char>),
}

impl View for PictureServiceError {
    type V = PictureServiceErrorView;

    open spec fn view(&self) -> PictureServiceErrorView {
        match self {
            PictureServiceError::InternalServerError(m) =>
                PictureServiceErrorView::InternalServerError(m@),
            PictureServiceError::BadRequest(m) => PictureServiceErrorView::BadRequest(m@),
            PictureServiceError::NotFound(m) => PictureServiceErrorView::NotFound(m@),
            PictureServiceError::Forbidden(m) => PictureServiceErrorView::Forbidden(m@),
        }
    }
}

impl PictureServiceError {
    /// The error as one line of text: its kind, a colon, its explanation.
    pub fn to_string(&self) -> (line: String)
        ensures
            line@ == match self@ {
                PictureServiceErrorView::InternalServerError(m) => "Internal Server Error: "@ + m,
                PictureServiceErrorView::BadRequest(m) => "Bad Request: "@ + m,
                PictureServiceErrorView::NotFound(m) => "Not Found: "@ + m,
                PictureServiceErrorView::Forbidden(m) => "Forbidden: "@ + m,
            },
    {
        match self {
            PictureServiceError::InternalServerError(m) => String::from_str(
                "Internal Server Error: ",
            ).concat(m.as_str()),
            PictureServiceError::BadRequest(m) => String::from_str("Bad Request: ").concat(
                m.as_str(),
            ),
            PictureServiceError::NotFound(m) => String::from_str("Not Found: ").concat(m.as_str()),
            PictureServiceError::Forbidden(m) => String::from_str("Forbidden: ").concat(
                m.as_str(),
            ),
        }
    }
}

pub const PICTURES_FOLDER: &'static str = "pictures/";

pub const SLASH: &'static str = "/";

pub const DOT: &'static str = ".";

pub const PICTURE_WITH_ID: &'static str = "Picture with id ";

pub const NOT_FOUND_SUFFIX: &'static str = " not found";

pub const NOT_OWNER: &'static str = "You do not have permission to delete this picture";

pub const NO_FILE: &'static str = "No file provided";

pub const NO_FILE_NAME: &'static str = "No file name provided";

pub const DEFAULT_CONTENT_TYPE: &'static str = "application/octet-stream";

/// The key under which an upload of the account `user_id` is stored:
/// `pictures/`, the account's id, a slash, the unique part, a dot, and the
/// extension of the file's name.
pub open spec fn spec_picture_object_key(user_id: i32, unique: Seq<char>, file_name: Seq<char>)
    -> Seq<char> {
    PICTURES_FOLDER@ + decimal_of_int(user_id as int) + SLASH@ + unique + DOT@ + spec_extension(
        file_name,
    )
}

/// The key under which an upload is stored, given its unique part.
pub fn picture_object_key(user_id: i32, unique: &str, file_name: &str) -> (key: String)
    ensures
        key@ == spec_picture_object_key(user_id, unique@, file_name@),
{
    let mut key = String::from_str(PICTURES_FOLDER);
    let id = i32_to_decimal(user_id);
    key.append(id.as_str());
    key.append(SLASH);
    key.append(unique);
    key.append(DOT);
    key.append(extension(file_name));
    key
}

/// The key under which a new upload is stored, with a freshly drawn unique
/// part.
pub fn new_picture_object_key(user_id: i32, file_name: &str) -> (key: String)
    ensures
        exists|unique: Seq<char>| key@ == #[trigger] spec_picture_object_key(
            user_id,
            unique,
            file_name@,
        ),
{
    let unique = random_token();
    picture_object_key(user_id, unique.as_str(), file_name)
}

/// What the deletion of the picture `picture_id` by the account `user_id`
/// comes to, given what the picture store holds under the id: a picture that
/// is not there is `NotFound`, one of another account is `Forbidden`, and else
/// the key of the stored object that is to go with it, where the picture's URL
/// points into the bucket.
pub open spec fn spec_plan_deletion(
    storage: S3StorageView,
    found: Option<PictureView>,
    picture_id: i32,
    user_id: i32,
) -> Result<Option<Seq<char>>, PictureServiceErrorView> {
    match found {
        None => Err(
            PictureServiceErrorView::NotFound(
                PICTURE_WITH_ID@ + decimal_of_int(picture_id as int) + NOT_FOUND_SUFFIX@,
            ),
        ),
        Some(picture) => if picture.user_id != user_id {
            Err(PictureServiceErrorView::Forbidden(NOT_OWNER@))
        } else {
            Ok(storage.key_of(picture.image_url))
        },
    }
}

/// Decides a deletion from what the picture store returned.
pub fn plan_deletion(
    storage: &S3Storage,
    found: Option<Picture>,
    picture_id: i32,
    user_id: i32,
) -> (plan: Result<Option<String>, PictureServiceError>)
    ensures
        match plan {
            Ok(key) => spec_plan_deletion(storage@, option_view(found), picture_id, user_id) == Ok::<
                Option<Seq<char>>,
                PictureServiceErrorView,
            >(option_view(key)),
            Err(e) => spec_plan_deletion(storage@, option_view(found), picture_id, user_id) == Err::<
                Option<Seq<char>>,
                PictureServiceErrorView,
            >(e@),
        },
{
    let picture = match found {
        Some(picture) => picture,
        None => {
            let mut message = String::from_str(PICTURE_WITH_ID);
            let id = i32_to_decimal(picture_id);
            message.append(id.as_str());
            message.append(NOT_FOUND_SUFFIX);
            return Err(PictureServiceError::NotFound(message));
        },
    };
    if picture.user_id != user_id {
        return Err(PictureServiceError::Forbidden(String::from_str(NOT_OWNER)));
    }
    Ok(storage.extract_key_from_url(picture.image_url.as_str()))
}

/// A file as it arrives in an upload.
#[derive(Debug)]
pub struct UploadedFile {
    pub data: Vec<u8>,
    pub file_name: String,
    pub content_type: String,
}

pub struct UploadedFileView {
    pub data: Seq<u8>,
    pub file_name: Seq<char>,
    pub content_type: Seq<char>,
}

impl View for UploadedFile {
    type V = UploadedFileView;

    open spec fn view(&self) -> UploadedFileView {
        UploadedFileView {
            data: self.data@,
            file_name: self.file_name@,
            content_type: self.content_type@,
        }
    }
}

/// What an upload comes to, given the parts found in the form: the data and
/// the file's name are required, the content type has a default.
pub open spec fn spec_accept_upload(
    data: Option<Seq<u8>>,
    file_name: Option<Seq<char>>,
    content_type: Option<Seq<char>>,
) -> Result<UploadedFileView, PictureServiceErrorView> {
    if data is None {
        Err(PictureServiceErrorView::BadRequest(NO_FILE@))
    } else if file_name is None {
        Err(PictureServiceErrorView::BadRequest(NO_FILE_NAME@))
    } else {
        Ok(
            UploadedFileView {
                data: data->0,
                file_name: file_name->0,
                content_type: if content_type is Some {
                    content_type->0
                } else {
                    DEFAULT_CONTENT_TYPE@
                },
            },
        )
    }
}

/// Checks the parts of an upload form.
pub fn accept_upload(
    data: Option<Vec<u8>>,
    file_name: Option<String>,
    content_type: Option<String>,
) -> (upload: Result<UploadedFile, PictureServiceError>)
    ensures
        result_view(upload) == spec_accept_upload(
            option_view(data),
            option_view(file_name),
            option_view(content_type),
        ),
{
    let data = match data {
        Some(data) => data,
        None => {
            return Err(PictureServiceError::BadRequest(String::from_str(NO_FILE)));
        },
    };
    let file_name = match file_name {
        Some(file_name) => file_name,
        None => {
            return Err(PictureServiceError::BadRequest(String::from_str(NO_FILE_NAME)));
        },
    };
    let content_type = match content_type {
        Some(content_type) => content_type,
        None => String::from_str(DEFAULT_CONTENT_TYPE),
    };
    Ok(UploadedFile { data, file_name, content_type })
}

} // verus!
