//! The Plan Generator: prompt construction for the model call, and tolerant
//! extraction of the model's completion into a typed workout list.

use vstd::prelude::*;
use vstd::string::*;
use crate::dates::{PlainDate, date_valid, date_iso, spec_plus_days, window_end, append_date_iso};
use crate::errors::CoreError;
use crate::jsonrep::{
    JsonRep, json_of, value_rep, reps_of, parse_json, value_as_array, value_get, value_index,
    value_as_str, value_as_i64,
};
use crate::models::{Workout, WorkoutModel, PlanRequest, views_of, resolved_weeks,
    spec_resolved_weeks, default_type, default_category};
use crate::text::{dec_str, append_u64};

verus! {

// ---------------------------------------------------------------------------
// Prompt construction
// ---------------------------------------------------------------------------

/// Everything the model call needs: the two messages, and the resolved plan
/// window they embed.
pub struct PlanPrompts {
    pub system_prompt: String,
    pub user_prompt: String,
    pub weeks: u8,
    pub start: PlainDate,
    pub end: PlainDate,
}

/// The system instruction: total weeks, the fixed build/recovery cycle and
/// default start time, the required output fields, and the literal window
/// dates.
pub open spec fn spec_system_prompt(weeks: u8, start: PlainDate, end: PlainDate) -> Seq<char> {
    "You are a running coach.\nProduce a "@ + dec_str(weeks as nat)
        + "-week half-marathon style plan as pure JSON (no markdown). Key rules: 3 build weeks + 1 recovery week cycle; default start time 06:00; keep fields: week (1..n), day_of_week (1=Mon), name, description, type='Run', category='WORKOUT', start_date_local (ISO 8601). The first day is "@
        + date_iso(start) + " and the window ends by "@ + date_iso(end) + "."@
}

/// The user instruction: the start date and the timestamp convention.
pub open spec fn spec_user_prompt(start: PlainDate) -> Seq<char> {
    "Return workouts scheduled from "@ + date_iso(start)
        + ". Use ISO timestamp with local time at 06:00."@
}

/// Resolve a plan request against today's date and build both prompts.
/// The window is [start, start + 7 * weeks days).
pub fn build_plan_prompts(request: &PlanRequest, today: PlainDate) -> (r: PlanPrompts)
    requires
        date_valid(today),
        today.year + 6 <= 9999,
        request.start_date matches Some(d) ==> date_valid(d) && d.year + 6 <= 9999,
    ensures
        r.start == (match request.start_date {
            Some(d) => d,
            None => today,
        }),
        r.weeks == spec_resolved_weeks(request.weeks),
        r.end == spec_plus_days(r.start, (7 * r.weeks) as nat),
        date_valid(r.end),
        r.system_prompt@ == spec_system_prompt(r.weeks, r.start, r.end),
        r.user_prompt@ == spec_user_prompt(r.start),
{
    let start: PlainDate = match request.start_date {
        Some(d) => d,
        None => today,
    };
    let weeks = resolved_weeks(request.weeks);
    let end = window_end(start, weeks);

    let mut system_prompt: String = "You are a running coach.\nProduce a ".to_owned();
    append_u64(&mut system_prompt, weeks as u64);
    system_prompt.append(
        "-week half-marathon style plan as pure JSON (no markdown). Key rules: 3 build weeks + 1 recovery week cycle; default start time 06:00; keep fields: week (1..n), day_of_week (1=Mon), name, description, type='Run', category='WORKOUT', start_date_local (ISO 8601). The first day is ",
    );
    append_date_iso(&mut system_prompt, start);
    system_prompt.append(" and the window ends by ");
    append_date_iso(&mut system_prompt, end);
    system_prompt.append(".");
    proof {
        assert(system_prompt@ =~= spec_system_prompt(weeks, start, end));
    }

    let mut user_prompt: String = "Return workouts scheduled from ".to_owned();
    append_date_iso(&mut user_prompt, start);
    user_prompt.append(". Use ISO timestamp with local time at 06:00.");
    proof {
        assert(user_prompt@ =~= spec_user_prompt(start));
    }

    PlanPrompts { system_prompt, user_prompt, weeks, start, end }
}

/// A base URL with its trailing slashes removed.
pub open spec fn trim_trailing_slashes(s: Seq<char>) -> Seq<char>
    decreases s.len(),
{
    if s.len() > 0 && s[s.len() - 1] == '/' {
        trim_trailing_slashes(s.drop_last())
    } else {
        s
    }
}

/// The chat-completions endpoint under a base URL, tolerating trailing
/// slashes on the configured base.
pub fn chat_completions_url(base: &str) -> (r: String)
    ensures
        r@ == trim_trailing_slashes(base@) + "/chat/completions"@,
{
    let n = base.unicode_len();
    let mut k: usize = n;
    proof {
        assert(base@.subrange(0, n as int) =~= base@);
    }
    while k > 0 && base.get_char(k - 1) == '/'
        invariant
            k <= n,
            n == base@.len(),
            trim_trailing_slashes(base@) == trim_trailing_slashes(base@.subrange(0, k as int)),
        decreases k,
    {
        proof {
            assert(base@.subrange(0, k as int).drop_last() =~= base@.subrange(0, k as int - 1));
        }
        k = k - 1;
    }
    proof {
        assert(base@.subrange(0, k as int) == trim_trailing_slashes(base@.subrange(0, k as int)));
    }
    let mut r: String = base.substring_char(0, k).to_owned();
    r.append("/chat/completions");
    proof {
        assert(r@ =~= trim_trailing_slashes(base@) + "/chat/completions"@);
    }
    r
}

// ---------------------------------------------------------------------------
// Completion content extraction
// ---------------------------------------------------------------------------

/// Member lookup on an object document.
pub open spec fn member(j: JsonRep, k: Seq<char>) -> Option<JsonRep> {
    match j {
        JsonRep::Obj(m) => if m.contains_key(k) {
            Some(m[k])
        } else {
            None
        },
        _ => None,
    }
}

/// The step a JSON pointer takes for the token `0`: the first element of an
/// array, or the member under the key "0" of an object.
pub open spec fn first_element(j: JsonRep) -> Option<JsonRep> {
    match j {
        JsonRep::Arr(s) => if s.len() > 0 {
            Some(s[0])
        } else {
            None
        },
        JsonRep::Obj(m) => if m.contains_key("0"@) {
            Some(m["0"@])
        } else {
            None
        },
        _ => None,
    }
}

/// The completion text of a model response: the string under the first
/// choice's message content, when every step of that path exists.
pub open spec fn completion_content(j: JsonRep) -> Option<Seq<char>> {
    match member(j, "choices"@) {
        Some(choices) => match first_element(choices) {
            Some(choice) => match member(choice, "message"@) {
                Some(msg) => match member(msg, "content"@) {
                    Some(JsonRep::Text(t)) => Some(t),
                    _ => None,
                },
                None => None,
            },
            None => None,
        },
        None => None,
    }
}

/// First element of an array value, or the member "0" of an object value.
fn first_element_exec<'a>(v: &'a serde_json::Value) -> (r: Option<&'a serde_json::Value>)
    ensures
        match r {
            Some(e) => first_element(value_rep(*v)) == Some(value_rep(*e)),
            None => first_element(value_rep(*v)) is None,
        },
{
    match value_index(v, 0) {
        Some(e) => Some(e),
        None => value_get(v, "0"),
    }
}

/// Extract the completion text from a model response body. Fails with a
/// parse failure when the body is not valid JSON or the content is absent.
pub fn extract_completion_content(body: &str) -> (r: Result<String, CoreError>)
    ensures
        match r {
            Ok(s) => json_of(body@) is Some && completion_content(json_of(body@).unwrap())
                == Some(s@),
            Err(e) => e is ParseError && (json_of(body@) is None || completion_content(
                json_of(body@).unwrap(),
            ) is None),
        },
{
    let parsed = match parse_json(body) {
        Ok(v) => v,
        Err(diag) => {
            let mut msg: String = "model response was not valid JSON: ".to_owned();
            msg.append(diag.as_str());
            return Err(CoreError::ParseError(msg));
        },
    };
    let missing = "missing completion content in model response";
    let choices = match value_get(&parsed, "choices") {
        Some(c) => c,
        None => {
            return Err(CoreError::ParseError(missing.to_owned()));
        },
    };
    let choice = match first_element_exec(choices) {
        Some(c) => c,
        None => {
            return Err(CoreError::ParseError(missing.to_owned()));
        },
    };
    let msg = match value_get(choice, "message") {
        Some(m) => m,
        None => {
            return Err(CoreError::ParseError(missing.to_owned()));
        },
    };
    let content = match value_get(msg, "content") {
        Some(c) => c,
        None => {
            return Err(CoreError::ParseError(missing.to_owned()));
        },
    };
    match value_as_str(content) {
        Some(s) => Ok(s.to_owned()),
        None => Err(CoreError::ParseError(missing.to_owned())),
    }
}

// ---------------------------------------------------------------------------
// Workout decoding and shape normalization
// ---------------------------------------------------------------------------

/// A required text member of an object.
pub open spec fn obj_text(m: Map<Seq<char>, JsonRep>, k: Seq<char>) -> Option<Seq<char>> {
    if m.contains_key(k) {
        match m[k] {
            JsonRep::Text(t) => Some(t),
            _ => None,
        }
    } else {
        None
    }
}

/// A required integer member of an object.
pub open spec fn obj_int(m: Map<Seq<char>, JsonRep>, k: Seq<char>) -> Option<i64> {
    if m.contains_key(k) {
        match m[k] {
            JsonRep::Int(i) => Some(i),
            _ => None,
        }
    } else {
        None
    }
}

/// A text member that falls back to a default when absent (but not when
/// present with the wrong shape).
pub open spec fn obj_text_or(m: Map<Seq<char>, JsonRep>, k: Seq<char>, dflt: Seq<char>) -> Option<
    Seq<char>,
> {
    if m.contains_key(k) {
        match m[k] {
            JsonRep::Text(t) => Some(t),
            _ => None,
        }
    } else {
        Some(dflt)
    }
}

/// The workout a JSON document decodes to: an object with the required
/// fields in range, `type` defaulting to "Run" and `category` to "WORKOUT".
pub open spec fn workout_of(j: JsonRep) -> Option<WorkoutModel> {
    match j {
        JsonRep::Obj(m) => {
            let week = obj_int(m, "week"@);
            let dow = obj_int(m, "day_of_week"@);
            let name = obj_text(m, "name"@);
            let description = obj_text(m, "description"@);
            let wtype = obj_text_or(m, "type"@, "Run"@);
            let category = obj_text_or(m, "category"@, "WORKOUT"@);
            let sdl = obj_text(m, "start_date_local"@);
            if week is Some && 0 <= week.unwrap() <= u32::MAX as i64 && dow is Some && 0
                <= dow.unwrap() <= u8::MAX as i64 && name is Some && description is Some
                && wtype is Some && category is Some && sdl is Some {
                Some(
                    WorkoutModel {
                        week: week.unwrap() as u32,
                        day_of_week: dow.unwrap() as u8,
                        name: name.unwrap(),
                        description: description.unwrap(),
                        workout_type: wtype.unwrap(),
                        category: category.unwrap(),
                        start_date_local: sdl.unwrap(),
                    },
                )
            } else {
                None
            }
        },
        _ => None,
    }
}

/// Decode one array element into a workout, or report that its shape does
/// not match.
pub fn decode_workout(v: &serde_json::Value) -> (r: Option<Workout>)
    ensures
        match r {
            Some(w) => workout_of(value_rep(*v)) == Some(w@),
            None => workout_of(value_rep(*v)) is None,
        },
{
    let week_v = match value_get(v, "week") {
        Some(x) => x,
        None => {
            return None;
        },
    };
    let week_i = match value_as_i64(week_v) {
        Some(x) => x,
        None => {
            return None;
        },
    };
    if week_i < 0 || week_i > u32::MAX as i64 {
        return None;
    }
    let dow_v = match value_get(v, "day_of_week") {
        Some(x) => x,
        None => {
            return None;
        },
    };
    let dow_i = match value_as_i64(dow_v) {
        Some(x) => x,
        None => {
            return None;
        },
    };
    if dow_i < 0 || dow_i > u8::MAX as i64 {
        return None;
    }
    let name = match value_get(v, "name") {
        Some(x) => match value_as_str(x) {
            Some(s) => s.to_owned(),
            None => {
                return None;
            },
        },
        None => {
            return None;
        },
    };
    let description = match value_get(v, "description") {
        Some(x) => match value_as_str(x) {
            Some(s) => s.to_owned(),
            None => {
                return None;
            },
        },
        None => {
            return None;
        },
    };
    let start_date_local = match value_get(v, "start_date_local") {
        Some(x) => match value_as_str(x) {
            Some(s) => s.to_owned(),
            None => {
                return None;
            },
        },
        None => {
            return None;
        },
    };
    let workout_type = match value_get(v, "type") {
        Some(x) => match value_as_str(x) {
            Some(s) => s.to_owned(),
            None => {
                return None;
            },
        },
        None => default_type(),
    };
    let category = match value_get(v, "category") {
        Some(x) => match value_as_str(x) {
            Some(s) => s.to_owned(),
            None => {
                return None;
            },
        },
        None => default_category(),
    };
    Some(
        Workout {
            week: week_i as u32,
            day_of_week: dow_i as u8,
            name,
            description,
            workout_type,
            category,
            start_date_local,
        },
    )
}

/// The workouts a sequence of documents decodes to, when every element
/// decodes.
pub open spec fn workouts_decoded(s: Seq<JsonRep>) -> Option<Seq<WorkoutModel>> {
    if forall|i: int| 0 <= i < s.len() ==> workout_of(s[i]) is Some {
        Some(Seq::new(s.len(), |i: int| workout_of(s[i]).unwrap()))
    } else {
        None
    }
}

/// Decode every element of a parsed array, in order.
fn decode_workout_list(items: &Vec<serde_json::Value>) -> (r: Option<Vec<Workout>>)
    ensures
        match r {
            Some(ws) => workouts_decoded(reps_of(items@)) == Some(views_of(ws@)),
            None => workouts_decoded(reps_of(items@)) is None,
        },
{
    let ghost rs = reps_of(items@);
    let mut out: Vec<Workout> = Vec::new();
    let mut i: usize = 0;
    while i < items.len()
        invariant
            i <= items.len(),
            rs == reps_of(items@),
            rs.len() == items@.len(),
            out@.len() == i,
            forall|j: int|
                0 <= j < i ==> workout_of(#[trigger] rs[j]) is Some && workout_of(rs[j]) == Some(
                    out@[j]@,
                ),
        decreases items.len() - i,
    {
        proof {
            assert(rs[i as int] == value_rep(items@[i as int]));
        }
        match decode_workout(&items[i]) {
            Some(w) => {
                out.push(w);
            },
            None => {
                proof {
                    assert(workout_of(rs[i as int]) is None);
                }
                return None;
            },
        }
        i = i + 1;
    }
    proof {
        assert(workouts_decoded(rs) == Some(views_of(out@))) by {
            assert(forall|j: int| 0 <= j < rs.len() ==> workout_of(#[trigger] rs[j]) is Some);
            assert(Seq::new(rs.len(), |j: int| workout_of(rs[j]).unwrap()) =~= views_of(out@));
        }
    }
    Some(out)
}

/// The value the normalization step selects, by shape precedence: an array
/// as it stands; the member "workouts", else "plan", of an object; an
/// empty array for everything else.
pub open spec fn chosen_workouts_rep(j: JsonRep) -> JsonRep {
    match j {
        JsonRep::Arr(s) => JsonRep::Arr(s),
        JsonRep::Obj(m) => if m.contains_key("workouts"@) {
            m["workouts"@]
        } else if m.contains_key("plan"@) {
            m["plan"@]
        } else {
            JsonRep::Arr(Seq::empty())
        },
        _ => JsonRep::Arr(Seq::empty()),
    }
}

/// The workouts a selected value decodes to: it must be an array whose
/// every element decodes.
pub open spec fn decoded_of(j: JsonRep) -> Option<Seq<WorkoutModel>> {
    match j {
        JsonRep::Arr(s) => workouts_decoded(s),
        _ => None,
    }
}

/// The workouts a whole completion document yields: normalization by shape
/// precedence, then element-wise decoding.
pub open spec fn plan_decoded(j: JsonRep) -> Option<Seq<WorkoutModel>> {
    decoded_of(chosen_workouts_rep(j))
}

/// Decode a selected value as the workout array.
fn decode_value_as_workouts(v: &serde_json::Value) -> (r: Result<Vec<Workout>, CoreError>)
    ensures
        match r {
            Ok(ws) => decoded_of(value_rep(*v)) == Some(views_of(ws@)),
            Err(e) => e is SchemaError && decoded_of(value_rep(*v)) is None,
        },
{
    match value_as_array(v) {
        Some(items) => match decode_workout_list(items) {
            Some(ws) => Ok(ws),
            None => Err(
                CoreError::SchemaError("failed to deserialize workouts".to_owned()),
            ),
        },
        None => Err(CoreError::SchemaError("failed to deserialize workouts".to_owned())),
    }
}

/// Parse a completion's content text and extract its workouts: a parse
/// failure when the text is not JSON, a schema failure when the selected
/// value does not decode, and the decoded list otherwise (an empty list,
/// not a failure, when an object carries neither "workouts" nor "plan").
pub fn extract_workouts(content: &str) -> (r: Result<Vec<Workout>, CoreError>)
    ensures
        match r {
            Ok(ws) => json_of(content@) is Some && plan_decoded(json_of(content@).unwrap())
                == Some(views_of(ws@)),
            Err(e) => match e {
                CoreError::ParseError(_) => json_of(content@) is None,
                CoreError::SchemaError(_) => json_of(content@) is Some && plan_decoded(
                    json_of(content@).unwrap(),
                ) is None,
                _ => false,
            },
        },
{
    let parsed = match parse_json(content) {
        Ok(v) => v,
        Err(diag) => {
            let mut msg: String = "invalid JSON in model response: ".to_owned();
            msg.append(diag.as_str());
            return Err(CoreError::ParseError(msg));
        },
    };
    if value_as_array(&parsed).is_some() {
        decode_value_as_workouts(&parsed)
    } else if let Some(wv) = value_get(&parsed, "workouts") {
        decode_value_as_workouts(wv)
    } else if let Some(pv) = value_get(&parsed, "plan") {
        decode_value_as_workouts(pv)
    } else {
        proof {
            assert(views_of(Seq::<Workout>::empty()) =~= Seq::<WorkoutModel>::empty());
            assert(Seq::new(0, |j: int| workout_of(Seq::<JsonRep>::empty()[j]).unwrap())
                =~= Seq::<WorkoutModel>::empty());
        }
        Ok(Vec::new())
    }
}

/// A completion that is a bare JSON array is used as it stands, and its
/// elements decode in their original order.
pub proof fn lemma_bare_array_selected(s: Seq<JsonRep>)
    ensures
        chosen_workouts_rep(JsonRep::Arr(s)) == JsonRep::Arr(s),
        plan_decoded(JsonRep::Arr(s)) == workouts_decoded(s),
        workouts_decoded(s) matches Some(ws) ==> ws.len() == s.len() && forall|i: int|
            0 <= i < s.len() ==> Some(#[trigger] ws[i]) == workout_of(s[i]),
{
}

/// An object's "workouts" member is selected; failing that, its "plan"
/// member; with neither present, the selection is an empty array, not a
/// failure.
pub proof fn lemma_object_selection(m: Map<Seq<char>, JsonRep>)
    ensures
        m.contains_key("workouts"@) ==> chosen_workouts_rep(JsonRep::Obj(m)) == m["workouts"@],
        !m.contains_key("workouts"@) && m.contains_key("plan"@) ==> chosen_workouts_rep(
            JsonRep::Obj(m),
        ) == m["plan"@],
        !m.contains_key("workouts"@) && !m.contains_key("plan"@) ==> plan_decoded(JsonRep::Obj(m))
            == Some(Seq::<WorkoutModel>::empty()),
{
    if !m.contains_key("workouts"@) && !m.contains_key("plan"@) {
        assert(Seq::new(0, |j: int| workout_of(Seq::<JsonRep>::empty()[j]).unwrap())
            =~= Seq::<WorkoutModel>::empty());
    }
}

/// What a model response body yields, end to end.
pub enum PlanOutcome {
    /// The body is unreadable or the completion content is absent.
    MissingContent,
    /// The completion content is not valid JSON.
    InvalidContent,
    /// The selected value does not decode into workouts.
    BadShape,
    /// The decoded workout list, in model output order.
    Produced(Seq<WorkoutModel>),
}

/// The outcome of reading one model response body.
pub open spec fn plan_outcome(body: Seq<char>) -> PlanOutcome {
    match json_of(body) {
        None => PlanOutcome::MissingContent,
        Some(j) => match completion_content(j) {
            None => PlanOutcome::MissingContent,
            Some(t) => match json_of(t) {
                None => PlanOutcome::InvalidContent,
                Some(cj) => match plan_decoded(cj) {
                    None => PlanOutcome::BadShape,
                    Some(ws) => PlanOutcome::Produced(ws),
                },
            },
        },
    }
}

/// Extract and normalize the workout list from a model response body:
/// completion content, then JSON parse, then shape normalization, then
/// element decoding. The first failure is final.
pub fn plan_from_response(body: &str) -> (r: Result<Vec<Workout>, CoreError>)
    ensures
        match r {
            Ok(ws) => plan_outcome(body@) == PlanOutcome::Produced(views_of(ws@)),
            Err(e) => match e {
                CoreError::ParseError(_) => plan_outcome(body@) is MissingContent
                    || plan_outcome(body@) is InvalidContent,
                CoreError::SchemaError(_) => plan_outcome(body@) is BadShape,
                _ => false,
            },
        },
{
    let content = match extract_completion_content(body) {
        Ok(c) => c,
        Err(e) => {
            return Err(e);
        },
    };
    extract_workouts(content.as_str())
}

} // verus!
