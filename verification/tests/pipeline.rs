use imgsqueeze::pipeline::not_smaller_error;
use imgsqueeze::pipeline::plan_commit;
use imgsqueeze::pipeline::stage;
use imgsqueeze::pipeline::success_result;
use imgsqueeze::pipeline::CommitPlan;
use imgsqueeze::pipeline::StagedOutput;
use imgsqueeze::settings::ProfileData;
use imgsqueeze::types::CompressErrorType;
use imgsqueeze::types::FileEntry;
use imgsqueeze::types::FileEntryStatus;

fn entry(path: &str) -> FileEntry {
    FileEntry {
        path: path.to_string(),
        file: None,
        status: FileEntryStatus::Processing,
        size: None,
        original_size: Some(1000),
        ext: None,
        savings: None,
        error: None,
    }
}

fn staged(conversion_requested: bool, original_size: u32) -> StagedOutput {
    StagedOutput {
        input_path: "dir/photo.png".to_string(),
        out_path: "dir/photo.min.png".to_string(),
        temp_path: "dir/.photo.png".to_string(),
        original_size,
        conversion_requested,
    }
}

#[test]
fn test_overwrite_guard() {
    // with the postfix disabled and no conversion, the output path equals the
    // input path; overwriting is disallowed, so the pipeline must refuse
    // before touching any file (the path does not even exist)
    let mut parameters = ProfileData::new();
    parameters.add_posfix = false;
    parameters.should_overwrite = false;
    let file = entry("no_such_dir/photo.png");
    let err = stage(&parameters, &file).unwrap_err();
    assert_eq!(err.error_type, CompressErrorType::WontOverwrite);
    assert_eq!(
        err.error,
        "Image would be overwritten. Enable Overwrite in settings to allow this.".to_string()
    );
}

#[test]
fn test_unreadable_file_is_unsupported() {
    // the default profile appends a postfix, so the guard passes; decoding
    // the missing file then fails and maps to UnsupportedFileType
    let parameters = ProfileData::new();
    let file = entry("no_such_dir/photo.png");
    let err = stage(&parameters, &file).unwrap_err();
    assert_eq!(err.error_type, CompressErrorType::UnsupportedFileType);
}

#[test]
fn test_savings_guard_rejects_four_percent() {
    // 960 bytes out of 1000 keeps 96% of the original: rejected, and the
    // plan names the temporary file to delete
    let plan = plan_commit(&staged(false, 1000), 960);
    assert_eq!(
        plan,
        CommitPlan::RejectNotSmaller { temp_path: "dir/.photo.png".to_string() }
    );
}

#[test]
fn test_savings_guard_accepts_ten_percent() {
    // 900 bytes out of 1000 is a 10% saving: committed beside the original
    let plan = plan_commit(&staged(false, 1000), 900);
    assert_eq!(
        plan,
        CommitPlan::WriteBeside {
            temp_path: "dir/.photo.png".to_string(),
            out_path: "dir/photo.min.png".to_string(),
            out_size: 900,
        }
    );
}

#[test]
fn test_savings_guard_boundary() {
    // exactly 95% is not over the threshold: committed
    let plan = plan_commit(&staged(false, 1000), 950);
    assert!(!matches!(plan, CommitPlan::RejectNotSmaller { .. }));
    // one byte more is over it: rejected
    let plan = plan_commit(&staged(false, 1000), 951);
    assert!(matches!(plan, CommitPlan::RejectNotSmaller { .. }));
}

#[test]
fn test_conversion_bypasses_savings_guard() {
    // a conversion producing a larger file than the original still commits
    let plan = plan_commit(&staged(true, 1000), 2000);
    assert_eq!(
        plan,
        CommitPlan::WriteBeside {
            temp_path: "dir/.photo.png".to_string(),
            out_path: "dir/photo.min.png".to_string(),
            out_size: 2000,
        }
    );
}

#[test]
fn test_rerun_on_own_output_is_rejected() {
    // a second run records the first run's output size as the original; when
    // recompression gains nothing the guard trips, so runs cannot loop
    let first = plan_commit(&staged(false, 1000), 900);
    let committed_size: u32 = match first {
        CommitPlan::WriteBeside { out_size, .. } => out_size,
        _ => panic!("first run should commit"),
    };
    let second = plan_commit(&staged(false, committed_size), committed_size as u64);
    assert!(matches!(second, CommitPlan::RejectNotSmaller { .. }));
}

#[test]
fn test_same_path_commit_replaces_original() {
    let mut s = staged(false, 1000);
    s.out_path = s.input_path.clone();
    let plan = plan_commit(&s, 900);
    assert_eq!(
        plan,
        CommitPlan::ReplaceOriginal {
            temp_path: "dir/.photo.png".to_string(),
            out_path: "dir/photo.png".to_string(),
            out_size: 900,
        }
    );
}

#[test]
fn test_out_size_saturates() {
    let plan = plan_commit(&staged(true, 1000), (u32::MAX as u64) + 5);
    match plan {
        CommitPlan::WriteBeside { out_size, .. } => assert_eq!(out_size, u32::MAX),
        _ => panic!("conversion should commit"),
    }
}

#[test]
fn test_not_smaller_error() {
    let err = not_smaller_error();
    assert_eq!(err.error_type, CompressErrorType::NotSmaller);
    assert_eq!(err.error, "Image cannot be compressed further.".to_string());
}

#[test]
fn test_success_result() {
    let r = success_result("a.png".to_string(), "a.min.png".to_string(), 42);
    assert_eq!(r.path, "a.png".to_string());
    assert_eq!(r.out_path, "a.min.png".to_string());
    assert_eq!(r.out_size, 42);
    assert_eq!(r.result, "Success".to_string());
}
