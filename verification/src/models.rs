//! Value types exchanged between the plan generator, the uploader and their
//! callers, together with the small defaulting rules that govern them.

use vstd::prelude::*;
use crate::dates::PlainDate;

verus! {

/// A single planned workout. Immutable once produced; its only identity is
/// its position in a batch.
#[derive(Debug, Clone)]
pub struct Workout {
    /// 1-based week number within the plan.
    pub week: u32,
    /// Day of the week, 1 = Monday .. 7 = Sunday.
    pub day_of_week: u8,
    pub name: String,
    pub description: String,
    /// Workout discipline; defaults to "Run" when absent from model output.
    pub workout_type: String,
    /// Calendar category; defaults to "WORKOUT" when absent from model output.
    pub category: String,
    /// Local start time as an ISO-8601 timestamp string (no enforced zone).
    pub start_date_local: String,
}

/// The mathematical image of a workout: its fields as plain values and
/// character sequences.
pub struct WorkoutModel {
    pub week: u32,
    pub day_of_week: u8,
    pub name: Seq<char>,
    pub description: Seq<char>,
    pub workout_type: Seq<char>,
    pub category: Seq<char>,
    pub start_date_local: Seq<char>,
}

impl View for Workout {
    type V = WorkoutModel;

    open spec fn view(&self) -> WorkoutModel {
        WorkoutModel {
            week: self.week,
            day_of_week: self.day_of_week,
            name: self.name@,
            description: self.description@,
            workout_type: self.workout_type@,
            category: self.category@,
            start_date_local: self.start_date_local@,
        }
    }
}

/// The models of a sequence of workouts, in order.
pub open spec fn views_of(ws: Seq<Workout>) -> Seq<WorkoutModel> {
    ws.map_values(|w: Workout| w@)
}

/// A request for a plan: an optional start date (the current date when
/// absent) and an optional week count (16 when absent, clamped up to 1).
#[derive(Debug, Clone)]
pub struct PlanRequest {
    pub start_date: Option<PlainDate>,
    pub weeks: Option<u8>,
}

/// An ordered plan of workouts, in the order the model produced them.
#[derive(Debug, Clone)]
pub struct PlanResponse {
    pub workouts: Vec<Workout>,
}

/// A batch of workouts to upload, with an optional athlete override.
#[derive(Debug, Clone)]
pub struct UploadRequest {
    pub workouts: Vec<Workout>,
    pub athlete_id: Option<String>,
}

/// Outcome of an upload: a status tag ("ok"/"error") and an optional message.
#[derive(Debug, Clone)]
pub struct UploadResult {
    pub status: String,
    pub message: Option<String>,
}

/// The discipline a workout carries when the model output names none.
pub fn default_type() -> (r: String)
    ensures
        r@ == "Run"@,
{
    "Run".to_owned()
}

/// The category a workout carries when the model output names none.
pub fn default_category() -> (r: String)
    ensures
        r@ == "WORKOUT"@,
{
    "WORKOUT".to_owned()
}

/// Number of plan weeks a request resolves to: 16 when unspecified, and never
/// below 1 (a request for 0 weeks is clamped up to 1).
pub open spec fn spec_resolved_weeks(weeks: Option<u8>) -> u8 {
    match weeks {
        None => 16,
        Some(w) => if w == 0 {
            1
        } else {
            w
        },
    }
}

/// Resolve the requested number of weeks, applying the default and the
/// minimum clamp.
pub fn resolved_weeks(weeks: Option<u8>) -> (r: u8)
    ensures
        r == spec_resolved_weeks(weeks),
        1 <= r,
{
    match weeks {
        None => 16,
        Some(w) => if w == 0 {
            1
        } else {
            w
        },
    }
}

/// A request for `weeks == Some(0)` resolves exactly as one for
/// `weeks == Some(1)`: zero is clamped to the one-week minimum.
pub proof fn resolved_weeks_clamps_zero()
    ensures
        spec_resolved_weeks(Some(0u8)) == spec_resolved_weeks(Some(1u8)),
        spec_resolved_weeks(Some(0u8)) == 1u8,
{
}

} // verus!
