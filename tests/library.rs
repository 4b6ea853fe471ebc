use aws_sdk_s3::config::{BehaviorVersion, Builder, Region};
use aws_sdk_s3::types::BucketLocationConstraint;
use aws_sdk_s3::Client;
use s3_blob_cli::handler::AwsS3BucketHandler;
use s3_blob_cli::messages::{
    bucket_listing_message, bucket_listing_messages, create_bucket_message, delete_blob_message,
    delete_bucket_message, download_message, missing_var_message, upload_message,
};
use s3_blob_cli::operation::{BucketOperation, Command, MissingArgument};
use s3_blob_cli::settings::{are_env_vars_set, missing_env_vars};

fn offline_client(region: &str) -> Client {
    let conf = Builder::new()
        .behavior_version(BehaviorVersion::latest())
        .region(Region::new(region.to_string()))
        .build();
    Client::from_conf(conf)
}

fn names(list: &[&str]) -> Vec<String> {
    list.iter().map(|s| s.to_string()).collect()
}

#[test]
fn create_bucket_line_names_the_bucket() {
    assert_eq!(create_bucket_message("photos"), "About to create bucket with name photos");
}

#[test]
fn listing_line_and_absent_name() {
    assert_eq!(bucket_listing_message("logs"), "Bucket name: logs");
    let lines = bucket_listing_messages(&[Some("a".to_string()), None, Some("b-2".to_string())]);
    assert_eq!(lines, vec!["Bucket name: a", "Bucket name: ", "Bucket name: b-2"]);
}

#[test]
fn listing_of_no_buckets_is_empty() {
    assert!(bucket_listing_messages(&[]).is_empty());
}

#[test]
fn upload_and_download_lines() {
    assert_eq!(
        upload_message("test/assets/sample.txt", "sample.txt", "bkt"),
        "Uploaded file test/assets/sample.txt with object name sample.txt to bucket bkt"
    );
    assert_eq!(
        download_message("test/output/sample-copy.txt", "sample.txt", "bkt"),
        "Downloaded file test/output/sample-copy.txt with object name sample.txt from bucket bkt"
    );
}

#[test]
fn delete_lines() {
    assert_eq!(delete_blob_message("sample.txt", "bkt"), "Object sample.txt deleted from bkt bucket.");
    assert_eq!(delete_bucket_message("bkt"), "Bucket bkt deleted");
    assert_eq!(missing_var_message("AWS_REGION"), "AWS_REGION is not set.");
}

#[test]
fn all_variables_found() {
    assert!(are_env_vars_set(&[true, true, true, true]));
    let vars = names(&["AWS_ACCESS_KEY_ID", "AWS_SECRET_ACCESS_KEY", "AWS_REGION", "AWS_BUCKET_NAME"]);
    assert!(missing_env_vars(&vars, &[true, true, true, true]).is_empty());
}

#[test]
fn no_variables_asked_for() {
    assert!(are_env_vars_set(&[]));
    assert!(missing_env_vars(&[], &[]).is_empty());
}

#[test]
fn missing_variables_in_order() {
    let vars = names(&["AWS_ACCESS_KEY_ID", "AWS_SECRET_ACCESS_KEY", "AWS_REGION", "AWS_BUCKET_NAME"]);
    let present = [true, false, true, false];
    assert!(!are_env_vars_set(&present));
    assert_eq!(
        missing_env_vars(&vars, &present),
        vec!["AWS_SECRET_ACCESS_KEY".to_string(), "AWS_BUCKET_NAME".to_string()]
    );
}

#[test]
fn bucket_operations_resolve() {
    assert!(matches!(BucketOperation::CreateBucket.resolve(), Ok(Command::CreateBucket)));
    assert!(matches!(BucketOperation::ShowBucket.resolve(), Ok(Command::ShowBucket)));
    assert!(matches!(BucketOperation::DeleteBucket.resolve(), Ok(Command::DeleteBucket)));
}

#[test]
fn upload_resolves_with_both_parameters() {
    let op = BucketOperation::UploadBlob {
        blob_name: Some("sample.txt".to_string()),
        upload_file_path: Some("test/assets/sample.txt".to_string()),
    };
    match op.resolve() {
        Ok(Command::UploadBlob { blob_name, upload_file_path }) => {
            assert_eq!(blob_name, "sample.txt");
            assert_eq!(upload_file_path, "test/assets/sample.txt");
        }
        _ => panic!("upload did not resolve"),
    }
}

#[test]
fn download_and_delete_resolve() {
    let op = BucketOperation::DownloadBlob {
        blob_name: Some("sample.txt".to_string()),
        download_file_path: Some("out.txt".to_string()),
    };
    match op.resolve() {
        Ok(Command::DownloadBlob { blob_name, download_file_path }) => {
            assert_eq!(blob_name, "sample.txt");
            assert_eq!(download_file_path, "out.txt");
        }
        _ => panic!("download did not resolve"),
    }
    let op = BucketOperation::DeleteBlob { blob_name: Some("k".to_string()) };
    match op.resolve() {
        Ok(Command::DeleteBlob { blob_name }) => assert_eq!(blob_name, "k"),
        _ => panic!("delete did not resolve"),
    }
}

#[test]
fn missing_parameters_are_named() {
    let op = BucketOperation::UploadBlob { blob_name: None, upload_file_path: None };
    assert!(matches!(op.resolve(), Err(MissingArgument::BlobName)));
    let op = BucketOperation::UploadBlob { blob_name: Some("k".to_string()), upload_file_path: None };
    assert!(matches!(op.resolve(), Err(MissingArgument::UploadFilePath)));
    let op = BucketOperation::DownloadBlob { blob_name: Some("k".to_string()), download_file_path: None };
    assert!(matches!(op.resolve(), Err(MissingArgument::DownloadFilePath)));
    let op = BucketOperation::DownloadBlob { blob_name: None, download_file_path: Some("p".to_string()) };
    assert!(matches!(op.resolve(), Err(MissingArgument::BlobName)));
    let op = BucketOperation::DeleteBlob { blob_name: None };
    assert!(matches!(op.resolve(), Err(MissingArgument::BlobName)));
    assert_eq!(MissingArgument::UploadFilePath.flag(), "--upload-file-path");
}

#[test]
fn handler_keeps_its_configuration() {
    let handler = AwsS3BucketHandler::new(offline_client("eu-central-1"), "my-bucket", "eu-central-1".to_string());
    assert_eq!(handler.bucket_name(), "my-bucket");
    assert_eq!(handler.region(), "eu-central-1");
    assert_eq!(handler.client().config().region().map(|r| r.as_ref().to_string()), Some("eu-central-1".to_string()));
}

#[test]
fn location_constraint_follows_the_region() {
    let handler = AwsS3BucketHandler::new(offline_client("eu-central-1"), "b", "eu-central-1".to_string());
    let constraint = handler.location_constraint();
    assert_eq!(constraint, BucketLocationConstraint::EuCentral1);
    assert_eq!(constraint.as_str(), "eu-central-1");
    let handler = AwsS3BucketHandler::new(offline_client("us-east-1"), "b", "us-east-1".to_string());
    assert_eq!(handler.location_constraint().as_str(), "us-east-1");
}
