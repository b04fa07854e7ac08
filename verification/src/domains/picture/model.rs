//! The picture record.

use vstd::prelude::*;
use vstd::string::*;

verus! {

/// A picture that a user uploaded.
#[derive(Debug)]
pub struct Picture {
    pub id: i32,
    /// The account that owns the picture.
    pub user_id: i32,
    pub image_url: String,
    /// Creation time, in seconds since the epoch.
    pub created_at: Option<i64>,
}

pub struct PictureView {
    pub id: i32,
    pub user_id: i32,
    pub image_url: Seq<char>,
    pub created_at: Option<i64>,
}

impl View for Picture {
    type V = PictureView;

    open spec fn view(&self) -> PictureView {
        PictureView {
            id: self.id,
            user_id: self.user_id,
            image_url: self.image_url@,
            created_at: self.created_at,
        }
    }
}

impl Clone for Picture {
    fn clone(&self) -> (copy: Self)
        ensures
            copy@ == self@,
    {
        Picture {
            id: self.id,
            user_id: self.user_id,
            image_url: self.image_url.clone(),
            created_at: self.created_at,
        }
    }
}

/// A list of pictures, as the transport returns it.
#[derive(Debug)]
pub struct PicturesResponse {
    pub pictures: Vec<Picture>,
}

} // verus!
