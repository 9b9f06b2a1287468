//! The decisions behind the user-facing commands.

use vstd::prelude::*;
use vstd::string::*;
use crate::output::{LocalDateTime, recording_output_path, recording_output_path_spec};
use crate::sources::{TargetInfo, target_id, resolve_source};

verus! {

/// What the user asks to record.
#[derive(Debug, Clone)]
pub struct RecordingConfig {
    pub source_id: String,
    pub fps: u32,
    pub output_dir: String,
    pub record_audio: bool,
    pub record_microphone: bool,
}

/// A recording ready to start: which target, where to, and with what.
#[derive(Debug, Clone)]
pub struct RecordingPlan {
    /// Position of the chosen target in the enumerated targets.
    pub target_index: usize,
    pub output_path: String,
    pub fps: u32,
    pub record_mic: bool,
    pub record_system_audio: bool,
}

/// Whether some target has identifier `id`.
pub open spec fn has_target(targets: Seq<TargetInfo>, id: Seq<char>) -> bool {
    exists|k: int| 0 <= k < targets.len() && target_id(#[trigger] targets[k]) == id
}

/// The plan for recording `config` into `output_path`: the requested source
/// must be among the targets (the first one with that identifier is taken).
pub fn plan_for_output(
    config: &RecordingConfig,
    targets: &Vec<TargetInfo>,
    output_path: String,
) -> (r: Result<RecordingPlan, String>)
    ensures
        if has_target(targets@, config.source_id@) {
            r matches Ok(p) && {
                &&& p.target_index < targets.len()
                &&& target_id(targets@[p.target_index as int]) == config.source_id@
                &&& forall|k: int| 0 <= k < p.target_index ==> target_id(#[trigger] targets@[k]) != config.source_id@
                &&& p.output_path@ == output_path@
                &&& p.fps == config.fps
                &&& p.record_mic == config.record_microphone
                &&& p.record_system_audio == config.record_audio
            }
        } else {
            r matches Err(e) && e@ == "Capture source not found"@
        },
{
    let target_index: usize = match resolve_source(targets, config.source_id.as_str()) {
        Ok(j) => j,
        Err(e) => return Err(e),
    };
    Ok(RecordingPlan {
        target_index,
        output_path,
        fps: config.fps,
        record_mic: config.record_microphone,
        record_system_audio: config.record_audio,
    })
}

/// Turns a recording request into a plan: the output file is named after the
/// start time in the requested directory, and the requested source must be
/// among the targets (the first one with that identifier is taken).
pub fn plan_recording(
    config: &RecordingConfig,
    targets: &Vec<TargetInfo>,
    now: &LocalDateTime,
) -> (r: Result<RecordingPlan, String>)
    ensures
        match recording_output_path_spec(config.output_dir@, *now) {
            None => r matches Err(e) && e@ == "Invalid local time"@,
            Some(path) => if has_target(targets@, config.source_id@) {
                r matches Ok(p) && {
                    &&& p.target_index < targets.len()
                    &&& target_id(targets@[p.target_index as int]) == config.source_id@
                    &&& forall|k: int| 0 <= k < p.target_index ==> target_id(#[trigger] targets@[k]) != config.source_id@
                    &&& p.output_path@ == path
                    &&& p.fps == config.fps
                    &&& p.record_mic == config.record_microphone
                    &&& p.record_system_audio == config.record_audio
                }
            } else {
                r matches Err(e) && e@ == "Capture source not found"@
            },
        },
{
    match recording_output_path(config.output_dir.as_str(), now) {
        Some(p) => plan_for_output(config, targets, p),
        None => Err(String::from_str("Invalid local time")),
    }
}

} // verus!
