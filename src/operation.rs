//! The operations a user can ask for, and how a request whose parameters may
//! be absent becomes a command that can run.
use vstd::prelude::*;

verus! {

/// A requested operation, with its parameters as given (each may be absent).
pub enum BucketOperation {
    CreateBucket,
    ShowBucket,
    DeleteBucket,
    UploadBlob { blob_name: Option<String>, upload_file_path: Option<String> },
    DownloadBlob { blob_name: Option<String>, download_file_path: Option<String> },
    DeleteBlob { blob_name: Option<String> },
}

/// An operation with every parameter it needs.
pub enum Command {
    CreateBucket,
    ShowBucket,
    DeleteBucket,
    UploadBlob { blob_name: String, upload_file_path: String },
    DownloadBlob { blob_name: String, download_file_path: String },
    DeleteBlob { blob_name: String },
}

/// The first required parameter that a request lacks.
#[derive(Debug, Clone, Copy, PartialEq, Eq, Structural)]
pub enum MissingArgument {
    BlobName,
    UploadFilePath,
    DownloadFilePath,
}

/// The command a request stands for, or the first parameter it lacks; the
/// blob name is looked at before the file path.
pub open spec fn resolved(op: BucketOperation) -> Result<Command, MissingArgument> {
    match op {
        BucketOperation::CreateBucket => Ok(Command::CreateBucket),
        BucketOperation::ShowBucket => Ok(Command::ShowBucket),
        BucketOperation::DeleteBucket => Ok(Command::DeleteBucket),
        BucketOperation::UploadBlob { blob_name, upload_file_path } => match (
            blob_name,
            upload_file_path,
        ) {
            (None, _) => Err(MissingArgument::BlobName),
            (Some(_), None) => Err(MissingArgument::UploadFilePath),
            (Some(b), Some(p)) => Ok(Command::UploadBlob { blob_name: b, upload_file_path: p }),
        },
        BucketOperation::DownloadBlob { blob_name, download_file_path } => match (
            blob_name,
            download_file_path,
        ) {
            (None, _) => Err(MissingArgument::BlobName),
            (Some(_), None) => Err(MissingArgument::DownloadFilePath),
            (Some(b), Some(p)) => Ok(
                Command::DownloadBlob { blob_name: b, download_file_path: p },
            ),
        },
        BucketOperation::DeleteBlob { blob_name } => match blob_name {
            None => Err(MissingArgument::BlobName),
            Some(b) => Ok(Command::DeleteBlob { blob_name: b }),
        },
    }
}

impl BucketOperation {
    /// Turns the request into a command, or names the first parameter it lacks.
    pub fn resolve(self) -> (r: Result<Command, MissingArgument>)
        ensures
            r == resolved(self),
    {
        match self {
            BucketOperation::CreateBucket => Ok(Command::CreateBucket),
            BucketOperation::ShowBucket => Ok(Command::ShowBucket),
            BucketOperation::DeleteBucket => Ok(Command::DeleteBucket),
            BucketOperation::UploadBlob { blob_name, upload_file_path } => match blob_name {
                None => Err(MissingArgument::BlobName),
                Some(b) => match upload_file_path {
                    None => Err(MissingArgument::UploadFilePath),
                    Some(p) => Ok(Command::UploadBlob { blob_name: b, upload_file_path: p }),
                },
            },
            BucketOperation::DownloadBlob { blob_name, download_file_path } => match blob_name {
                None => Err(MissingArgument::BlobName),
                Some(b) => match download_file_path {
                    None => Err(MissingArgument::DownloadFilePath),
                    Some(p) => Ok(Command::DownloadBlob { blob_name: b, download_file_path: p }),
                },
            },
            BucketOperation::DeleteBlob { blob_name } => match blob_name {
                None => Err(MissingArgument::BlobName),
                Some(b) => Ok(Command::DeleteBlob { blob_name: b }),
            },
        }
    }
}

impl MissingArgument {
    /// The command-line flag that supplies the parameter.
    pub fn flag(&self) -> (r: &'static str)
        ensures
            r@ == flag_text(*self),
    {
        match self {
            MissingArgument::BlobName => "--blob-name",
            MissingArgument::UploadFilePath => "--upload-file-path",
            MissingArgument::DownloadFilePath => "--download-file-path",
        }
    }
}

pub open spec fn flag_text(m: MissingArgument) -> Seq<char> {
    match m {
        MissingArgument::BlobName => "--blob-name"@,
        MissingArgument::UploadFilePath => "--upload-file-path"@,
        MissingArgument::DownloadFilePath => "--download-file-path"@,
    }
}

} // verus!
