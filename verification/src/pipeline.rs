//! The pipeline orchestrator. `stage` runs the front of the pipeline —
//! resolve the output and temporary paths, guard against an illegal
//! overwrite, decode the source dimensions, sniff the true image type, and
//! drive the engine into the hidden temporary file. `plan_commit` then takes
//! the staged file's measured size and decides the commit: reject the result
//! under the minimum-savings policy, or rename it into place (deleting the
//! original first when output and input coincide). The caller performs the
//! filesystem actions the plan names.
//!
//! The temporary path is a durable on-disk contract: the input's own
//! filename dot-prefixed, in the input's directory, with no extra suffix
//! (`dir/photo.png` stages into `dir/.photo.png`). It depends on the input
//! path alone — not on the profile — so two concurrent runs on the same
//! input share one temporary path and must be serialized by the caller.

use vstd::prelude::*;

use crate::codec::create_codec_params;
use crate::codec::decide_conversion;
use crate::codec::guess_image_type;
use crate::codec::read_image_dims;
use crate::codec::run_stage;
use crate::paths::get_out_path;
use crate::paths::get_temp_path;
use crate::paths::spec_out_path;
use crate::paths::spec_temp_path;
use crate::paths::valid_path;
use crate::settings::ProfileData;
use crate::types::CompressError;
use crate::types::CompressErrorType;
use crate::types::CompressResult;
use crate::types::FileEntry;

verus! {

/// A successfully staged compression: where the result waits, where it is to
/// go, and what the savings check needs.
#[derive(Debug, Clone, PartialEq, Eq)]
pub struct StagedOutput {
    pub input_path: String,
    pub out_path: String,
    pub temp_path: String,
    pub original_size: u32,
    pub conversion_requested: bool,
}

/// The overwrite guard: the resolved output path equals the input path while
/// the profile disallows overwriting.
pub open spec fn overwrite_guard_trips(p: ProfileData, input: Seq<char>) -> bool {
    spec_out_path(p, input) == input && !p.should_overwrite
}

/// Stages one file: resolves the paths, applies the overwrite guard, decodes
/// the dimensions, sniffs the true type, and runs the engine into the hidden
/// temporary file. On success the returned value carries exactly the resolved
/// paths and the data the savings check needs; the guard trips if and only if
/// the error is `WontOverwrite`, and it trips before any file is read or
/// written.
pub fn stage(parameters: &ProfileData, file: &FileEntry) -> (r: Result<StagedOutput, CompressError>)
    requires
        valid_path(file.path@),
        file.original_size is Some,
    ensures
        overwrite_guard_trips(*parameters, file.path@) <==> (r matches Err(e) && e.error_type
            == CompressErrorType::WontOverwrite),
        r matches Err(e) ==> (e.error_type == CompressErrorType::WontOverwrite || e.error_type
            == CompressErrorType::UnsupportedFileType || e.error_type
            == CompressErrorType::Unknown),
        r matches Ok(staged) ==> {
            &&& staged.input_path@ == file.path@
            &&& staged.out_path@ == spec_out_path(*parameters, file.path@)
            &&& staged.temp_path@ == spec_temp_path(file.path@)
            &&& staged.original_size == file.original_size->0
            &&& staged.conversion_requested == parameters.should_convert
        },
{
    let out_path = get_out_path(parameters, file.path.as_str());
    if file.path == out_path && !parameters.should_overwrite {
        return Err(
            CompressError {
                error: "Image would be overwritten. Enable Overwrite in settings to allow this.".to_owned(),
                error_type: CompressErrorType::WontOverwrite,
            },
        );
    }
    let (width, height) = match read_image_dims(file.path.as_str()) {
        Ok(dims) => dims,
        Err(e) => {
            return Err(
                CompressError { error: e, error_type: CompressErrorType::UnsupportedFileType },
            );
        },
    };
    let params = create_codec_params(parameters, width, height);
    let detected = match guess_image_type(file.path.as_str()) {
        Ok(t) => t,
        Err(e) => {
            return Err(
                CompressError { error: e, error_type: CompressErrorType::UnsupportedFileType },
            );
        },
    };
    let convert_target = decide_conversion(parameters, detected);
    let temp_path = get_temp_path(file.path.as_str());
    match run_stage(file.path.as_str(), temp_path.as_str(), &params, convert_target) {
        Ok(()) => {},
        Err(e) => {
            return Err(CompressError { error: e, error_type: CompressErrorType::Unknown });
        },
    }
    let original_size = file.original_size.unwrap();
    Ok(
        StagedOutput {
            input_path: file.path.clone(),
            out_path,
            temp_path,
            original_size,
            conversion_requested: parameters.should_convert,
        },
    )
}

/// The minimum-savings policy: a staged result that keeps more than 95% of
/// the original's bytes saved too little. Stated exactly in integers:
/// `temp_size > original_size * 0.95` is `20 * temp_size > 19 * original_size`.
pub open spec fn savings_insufficient(temp_size: u64, original_size: u32) -> bool {
    20 * (temp_size as int) > 19 * (original_size as int)
}

/// A `u64` byte size narrowed to the `u32` the result reports, saturating.
pub open spec fn spec_saturate_u32(n: u64) -> u32 {
    if n > u32::MAX {
        u32::MAX
    } else {
        n as u32
    }
}

/// The commit decision for a staged result of the measured size.
#[derive(Debug, Clone, PartialEq, Eq)]
pub enum CommitPlan {
    /// The savings policy rejects the result: delete the temporary file and
    /// fail with `NotSmaller`.
    RejectNotSmaller { temp_path: String },
    /// Output and input coincide and overwriting was allowed: delete the
    /// original first, then rename the temporary file into place.
    ReplaceOriginal { temp_path: String, out_path: String, out_size: u32 },
    /// Output lies elsewhere: rename only; the original is left untouched.
    WriteBeside { temp_path: String, out_path: String, out_size: u32 },
}

/// The commit decision: a non-conversion result with insufficient savings is
/// rejected; otherwise the result is committed, replacing the original
/// exactly when output and input paths coincide.
pub open spec fn spec_plan_commit(staged: StagedOutput, temp_size: u64) -> CommitPlan {
    if !staged.conversion_requested && savings_insufficient(temp_size, staged.original_size) {
        CommitPlan::RejectNotSmaller { temp_path: staged.temp_path }
    } else if staged.out_path@ == staged.input_path@ {
        CommitPlan::ReplaceOriginal {
            temp_path: staged.temp_path,
            out_path: staged.out_path,
            out_size: spec_saturate_u32(temp_size),
        }
    } else {
        CommitPlan::WriteBeside {
            temp_path: staged.temp_path,
            out_path: staged.out_path,
            out_size: spec_saturate_u32(temp_size),
        }
    }
}

/// Decides the commit for a staged result whose temporary file measured
/// `temp_size` bytes.
pub fn plan_commit(staged: &StagedOutput, temp_size: u64) -> (r: CommitPlan)
    ensures
        r == spec_plan_commit(*staged, temp_size),
{
    let reject = !staged.conversion_requested && 20 * (temp_size as u128) > 19 * (
    staged.original_size as u128);
    let out_size: u32 = if temp_size > u32::MAX as u64 {
        u32::MAX
    } else {
        temp_size as u32
    };
    if reject {
        CommitPlan::RejectNotSmaller { temp_path: staged.temp_path.clone() }
    } else if staged.out_path == staged.input_path {
        CommitPlan::ReplaceOriginal {
            temp_path: staged.temp_path.clone(),
            out_path: staged.out_path.clone(),
            out_size,
        }
    } else {
        CommitPlan::WriteBeside {
            temp_path: staged.temp_path.clone(),
            out_path: staged.out_path.clone(),
            out_size,
        }
    }
}

/// The error reported when the savings policy rejects a result.
pub fn not_smaller_error() -> (r: CompressError)
    ensures
        r.error_type == CompressErrorType::NotSmaller,
        r.error@ == "Image cannot be compressed further."@,
{
    CompressError {
        error: "Image cannot be compressed further.".to_owned(),
        error_type: CompressErrorType::NotSmaller,
    }
}

/// The result reported after a committed run.
pub fn success_result(input_path: String, out_path: String, out_size: u32) -> (r: CompressResult)
    ensures
        r.path == input_path,
        r.out_path == out_path,
        r.out_size == out_size,
        r.result@ == "Success"@,
{
    CompressResult { path: input_path, out_size, out_path, result: "Success".to_owned() }
}

/// Law: the savings guard. A non-conversion result that keeps more than 95%
/// of the original size is rejected — the plan is to delete the temporary
/// file and fail — while one at or under the threshold is committed.
pub proof fn lemma_savings_guard(staged: StagedOutput, temp_size: u64)
    requires
        !staged.conversion_requested,
    ensures
        savings_insufficient(temp_size, staged.original_size) ==> spec_plan_commit(
            staged,
            temp_size,
        ) == (CommitPlan::RejectNotSmaller { temp_path: staged.temp_path }),
        !savings_insufficient(temp_size, staged.original_size) ==> !(spec_plan_commit(
            staged,
            temp_size,
        ) matches CommitPlan::RejectNotSmaller { .. }),
{
}

/// Law: a conversion bypasses the savings guard. A requested conversion is
/// committed whatever the staged size, even one larger than the original.
pub proof fn lemma_conversion_bypasses_guard(staged: StagedOutput, temp_size: u64)
    requires
        staged.conversion_requested,
    ensures
        !(spec_plan_commit(staged, temp_size) matches CommitPlan::RejectNotSmaller { .. }),
{
}

/// Law: the idempotence boundary. Re-running a non-conversion compression on
/// a file it cannot shrink below its recorded size — in particular on its own
/// committed output when recompression gains nothing — hits the savings guard
/// and is rejected, so repeated runs cannot loop shrinking forever.
pub proof fn lemma_rerun_hits_guard(staged: StagedOutput, temp_size: u64)
    requires
        !staged.conversion_requested,
        staged.original_size > 0,
        temp_size >= staged.original_size as u64,
    ensures
        spec_plan_commit(staged, temp_size) == (CommitPlan::RejectNotSmaller {
            temp_path: staged.temp_path,
        }),
{
}

} // verus!
