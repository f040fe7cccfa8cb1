use vstd::prelude::*;

verus! {

/// Why a request or a yt-dlp call failed.
#[derive(Debug, Clone, Copy, PartialEq, Eq, Structural)]
pub enum DumAhhError {
    /// The address given is not a valid URL.
    InvalidUrl,
    /// The request carried a wrong password, or none where one is needed.
    WrongPassword,
    /// Storing the file would exceed the storage allowed on disk.
    OutOfStorage,
    /// The file is larger than the largest file allowed.
    FileTooBig,
    /// yt-dlp could not be run, failed, or gave an unusable answer.
    DownloadFailed,
    /// The file that was downloaded could not be found.
    FileNotFound,
    /// Any other failure of the service itself.
    Internal,
}

/// The HTTP status with which a request is answered.
#[derive(Debug, Clone, Copy, PartialEq, Eq, Structural)]
pub enum ReplyStatus {
    Success,
    BadRequest,
    Unauthorized,
    NotFound,
    InternalServerError,
    InsufficientStorage,
}

impl ReplyStatus {
    pub open spec fn spec_code(self) -> u16 {
        match self {
            ReplyStatus::Success => 200,
            ReplyStatus::BadRequest => 400,
            ReplyStatus::Unauthorized => 401,
            ReplyStatus::NotFound => 404,
            ReplyStatus::InternalServerError => 500,
            ReplyStatus::InsufficientStorage => 507,
        }
    }

    /// The numeric HTTP status code.
    pub fn code(&self) -> (r: u16)
        ensures
            r == self.spec_code(),
    {
        match self {
            ReplyStatus::Success => 200,
            ReplyStatus::BadRequest => 400,
            ReplyStatus::Unauthorized => 401,
            ReplyStatus::NotFound => 404,
            ReplyStatus::InternalServerError => 500,
            ReplyStatus::InsufficientStorage => 507,
        }
    }
}

} // verus!
