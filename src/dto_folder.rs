//! Request and response bodies of the folder endpoints.
use crate::validation::{folder_name_problem, validate_folder_name};
use vstd::prelude::*;

verus! {

#[derive(Clone, Debug)]
pub struct CreateFolderRequest {
    pub folder_name: String,
}

#[derive(Clone, Debug)]
pub struct UpdateFolderRequest {
    pub folder_name: String,
}

impl CreateFolderRequest {
    pub fn validate(&self) -> (r: Result<(), String>)
        ensures
            match folder_name_problem(self.folder_name@) {
                None => r is Ok,
                Some(m) => r matches Err(e) && e@ == m,
            },
    {
        validate_folder_name(self.folder_name.as_str())
    }
}

impl UpdateFolderRequest {
    pub fn validate(&self) -> (r: Result<(), String>)
        ensures
            match folder_name_problem(self.folder_name@) {
                None => r is Ok,
                Some(m) => r matches Err(e) && e@ == m,
            },
    {
        validate_folder_name(self.folder_name.as_str())
    }
}

#[derive(Clone, Debug)]
pub struct FolderResponse {
    pub folder_id: i32,
    pub folder_name: String,
    pub image_count: i64,
    pub created_at: String,
    pub deleted_at: Option<String>,
}

#[derive(Clone, Debug)]
pub struct FolderListResponse {
    pub folders: Vec<FolderResponse>,
    pub total: i64,
}

#[derive(Clone, Debug)]
pub struct DeleteFolderResponse {
    pub message: String,
    pub deleted_images_count: i64,
}

} // verus!
