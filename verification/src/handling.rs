//! Handling of requests: which API call a request asks for, and the reply it gets.
//!
//! The calls themselves are made by the simulator. [`handle_request`] decides
//! what to call (or which failure to reply at once), and [`respond`] turns what
//! the call gave back into the response. The inputs of a step and the outputs
//! of `get_data` are read with `serde_json` first ([`value_to_read`]); the
//! message of its error, where it gives one, goes into the failure reply.

use crate::decimal::{append_decimal, decimal_chars};
use crate::json::{
    input_data, input_data_matches, into_string, is_input_data, is_output_request, output_request,
    lemma_find_key, output_request_matches, spec_as_string, spec_as_u64, spec_lookup, spec_without_key, take_entry,
    InputData, Json, JsonNumber, OutputRequest,
};
use crate::mosaik_protocol::{MessageID, MosaikMessage, MsgType};
use crate::request::{spec_error_message, text_of, MosaikError, MosaikErrorView, Request, RequestView};
use crate::text::{json_string_text, serde_json_string_text};
use crate::types::{ModelName, SimId, Time};
use vstd::prelude::*;

verus! {

/// An API call that a request asks the simulator to make.
#[derive(Debug, PartialEq)]
pub enum ApiCall {
    /// `init(sid, time_resolution, sim_params)`; `time_resolution` is the
    /// number given for it, if one was given (the simulator's default is 1.0).
    Init { sid: SimId, time_resolution: Option<JsonNumber>, sim_params: Vec<(String, Json)> },
    /// `create(num, model_name, model_params)`.
    Create { num: usize, model_name: ModelName, model_params: Vec<(String, Json)> },
    /// `step(time, inputs, max_advance)`.
    Step { time: Time, inputs: InputData, max_advance: Time },
    /// `get_data(outputs)`.
    GetData { outputs: OutputRequest },
    /// `setup_done()`.
    SetupDone,
    /// `stop()`; the connection closes afterwards.
    Stop,
    /// Any other method: `extra_method(method, args, kwargs)`.
    Extra { method: String, args: Vec<Json>, kwargs: Vec<(String, Json)> },
}

/// What to do with a request.
#[derive(Debug, PartialEq)]
pub enum Handling {
    /// Send this response without calling the simulator.
    Respond(Response),
    /// Make this call, then [`respond`] to the request with this ID.
    Call(MessageID, ApiCall),
}

/// What an API call gave back.
#[derive(Debug, PartialEq)]
pub enum CallOutcome {
    /// The call returned a value; this is its JSON text.
    Value(Vec<u8>),
    /// The call returned nothing (`setup_done`).
    Done,
    /// The simulator reported this error.
    UserError(String),
    /// The returned value could not be turned into JSON, for this reason.
    NotSerializable(String),
    /// The simulator was stopped.
    Stopped,
}

/// The response to a request.
#[derive(Debug, PartialEq)]
pub enum Response {
    /// Send this reply.
    Reply(MosaikMessage),
    /// Send nothing and stop the simulation and the connection.
    Stop,
}

/// A parse error with the text `s`.
pub open spec fn parse_error(s: Seq<char>) -> MosaikErrorView {
    MosaikErrorView::ParseError(s)
}

/// The number given for a parameter, if the value given is a number.
pub open spec fn spec_number(v: Option<Json>) -> Option<JsonNumber> {
    match v {
        Some(Json::Number(n)) => Some(n),
        _ => None,
    }
}

/// What `serde_json` reads before a request is planned: these two arguments
/// are read into the simulator's own types, and the message of its error, where
/// it gives one, is part of the reply.
#[derive(Debug, PartialEq, Eq, Clone, Copy)]
pub enum ReadTarget {
    /// The inputs of a `step` request, read as input data.
    Inputs,
    /// The outputs of a `get_data` request, read as an output request.
    Outputs,
}

/// The argument of a request that is read with `serde_json` before the request
/// is planned, by its index, and what it is read as: the inputs of a `step`
/// request whose time is valid, and the outputs of a `get_data` request.
pub open spec fn spec_value_to_read(r: RequestView) -> Option<(ReadTarget, int)> {
    if r.method == "step"@ && r.args.len() >= 2 && spec_as_u64(r.args[0]) is Some {
        Some((ReadTarget::Inputs, 1))
    } else if r.method == "get_data"@ && r.args.len() >= 1 {
        Some((ReadTarget::Outputs, 0))
    } else {
        None
    }
}

/// Detail of the error for inputs that are not input data, where `serde_json`
/// reported no error for them (which it does for every value that is not).
pub open spec fn inputs_detail() -> Seq<char> {
    "expected a map of entity IDs to maps of attributes to maps of full IDs to values"@
}

/// Detail of the error for outputs that are not an output request, where
/// `serde_json` reported no error for them (which it does for every value that is not).
pub open spec fn outputs_detail() -> Seq<char> {
    "expected a map of entity IDs to lists of attributes"@
}

/// The error for an `init` request, if it has one.
pub open spec fn init_error(args: Seq<Json>) -> Option<MosaikErrorView> {
    if args.len() == 0 {
        Some(parse_error("Missing SimId in init request"@))
    } else if spec_as_string(args[0]) is None {
        Some(parse_error("Invalid SimId format"@))
    } else {
        None
    }
}

/// The error for a `create` request, if it has one.
pub open spec fn create_error(args: Seq<Json>) -> Option<MosaikErrorView> {
    if args.len() == 0 {
        Some(parse_error("Missing number of instances in create request"@))
    } else if spec_as_u64(args[0]) is None {
        Some(parse_error("Invalid number format"@))
    } else if spec_as_u64(args[0]).unwrap() > usize::MAX {
        Some(
            parse_error(
                "Num in create request is too large. Maximum is "@ + decimal_chars(usize::MAX as nat),
            ),
        )
    } else if args.len() < 2 {
        Some(parse_error("Missing model_name in create request"@))
    } else if spec_as_string(args[1]) is None {
        Some(parse_error("Invalid model_name format"@))
    } else {
        None
    }
}

/// The error for a `step` request, if it has one; `read_error` is the message
/// of `serde_json`'s error in reading the inputs, if it gave one.
pub open spec fn step_error(args: Seq<Json>, read_error: Option<Seq<char>>) -> Option<MosaikErrorView> {
    if args.len() == 0 {
        Some(parse_error("Missing time in step request"@))
    } else if spec_as_u64(args[0]) is None {
        Some(parse_error("Invalid time format"@))
    } else if args.len() < 2 {
        Some(parse_error("Missing inputs in step request"@))
    } else if read_error is Some {
        Some(parse_error("Failed to parse inputs from step request: "@ + read_error->0))
    } else if !is_input_data(args[1]) {
        Some(parse_error("Failed to parse inputs from step request: "@ + inputs_detail()))
    } else if args.len() < 3 {
        Some(parse_error("Missing max_advance in step request"@))
    } else if spec_as_u64(args[2]) is None {
        Some(parse_error("Invalid max_advance format"@))
    } else {
        None
    }
}

/// The error for a `get_data` request, if it has one; `read_error` is the
/// message of `serde_json`'s error in reading the outputs, if it gave one.
pub open spec fn get_data_error(args: Seq<Json>, read_error: Option<Seq<char>>) -> Option<MosaikErrorView> {
    if args.len() == 0 {
        Some(parse_error("Missing outputs in get_data request"@))
    } else if read_error is Some {
        Some(parse_error("Failed to parse outputs from get_data request: "@ + read_error->0))
    } else if !is_output_request(args[0]) {
        Some(parse_error("Failed to parse outputs from get_data request: "@ + outputs_detail()))
    } else {
        None
    }
}

/// The error that a request is answered with before any call, if it has one;
/// `read_error` is the message of `serde_json`'s error in reading the value
/// that [`spec_value_to_read`] names, if it gave one.
pub open spec fn spec_plan_error(r: RequestView, read_error: Option<Seq<char>>) -> Option<MosaikErrorView> {
    if r.method == "init"@ {
        init_error(r.args)
    } else if r.method == "create"@ {
        create_error(r.args)
    } else if r.method == "step"@ {
        step_error(r.args, read_error)
    } else if r.method == "get_data"@ {
        get_data_error(r.args, read_error)
    } else {
        None
    }
}

/// `c` is the call that the request `r` (one without an error) asks for.
pub open spec fn call_matches(r: RequestView, c: ApiCall) -> bool {
    if r.method == "init"@ {
        c matches ApiCall::Init { sid, time_resolution, sim_params } && spec_as_string(r.args[0])
            == Some(sid) && time_resolution == spec_number(
            spec_lookup(r.kwargs, "time_resolution"@),
        ) && sim_params@ == spec_without_key(r.kwargs, "time_resolution"@)
    } else if r.method == "create"@ {
        c matches ApiCall::Create { num, model_name, model_params } && spec_as_u64(r.args[0])
            == Some(num as u64) && spec_as_string(r.args[1]) == Some(model_name) && model_params@
            == r.kwargs
    } else if r.method == "step"@ {
        c matches ApiCall::Step { time, inputs, max_advance } && spec_as_u64(r.args[0]) == Some(
            time,
        ) && input_data_matches(r.args[1], inputs@) && spec_as_u64(r.args[2]) == Some(max_advance)
    } else if r.method == "get_data"@ {
        c matches ApiCall::GetData { outputs } && output_request_matches(r.args[0], outputs@)
    } else if r.method == "setup_done"@ {
        c is SetupDone
    } else if r.method == "stop"@ {
        c is Stop
    } else {
        c matches ApiCall::Extra { method, args, kwargs } && method@ == r.method && args@ == r.args
            && kwargs@ == r.kwargs
    }
}

/// The content of a failure reply with the text `message`: the JSON string of
/// the text.
pub open spec fn failure_content(message: Seq<char>) -> Seq<u8> {
    serde_json_string_text(message)
}

/// `r` is the failure reply with the text `message` to the request with ID `id`.
pub open spec fn is_failure_reply(r: Response, id: MessageID, message: Seq<char>) -> bool {
    r matches Response::Reply(m) && m.msg_type == MsgType::ReplyFailure && m.id == id
        && m.content@ == failure_content(message)
}

/// `r` is the success reply with the content `content` to the request with ID `id`.
pub open spec fn is_success_reply(r: Response, id: MessageID, content: Seq<u8>) -> bool {
    r matches Response::Reply(m) && m.msg_type == MsgType::ReplySuccess && m.id == id
        && m.content@ == content
}

/// The JSON text `null`.
pub open spec fn null_content() -> Seq<u8> {
    seq![110, 117, 108, 108]
}

/// The failure reply to the request with ID `id` for the error `err`.
pub fn failure_reply(id: MessageID, err: &MosaikError) -> (r: Response)
    ensures
        is_failure_reply(r, id, spec_error_message(err@)),
{
    let message = err.message();
    let content = json_string_text(message.as_str()).unwrap();
    Response::Reply(MosaikMessage { msg_type: MsgType::ReplyFailure, id, content })
}

/// The response to the request with ID `id` after a call that gave back `outcome`:
/// a success reply with the returned value (`null` where nothing was returned),
/// a failure reply with the error's text, or, once the simulator was stopped,
/// [`Response::Stop`].
pub fn respond(id: MessageID, outcome: CallOutcome) -> (r: Response)
    ensures
        match outcome {
            CallOutcome::Value(v) => is_success_reply(r, id, v@),
            CallOutcome::Done => is_success_reply(r, id, null_content()),
            CallOutcome::UserError(e) => is_failure_reply(
                r,
                id,
                spec_error_message(MosaikErrorView::UserError(e@)),
            ),
            CallOutcome::NotSerializable(e) => is_failure_reply(
                r,
                id,
                spec_error_message(MosaikErrorView::Serde(e@)),
            ),
            CallOutcome::Stopped => r is Stop,
        },
{
    match outcome {
        CallOutcome::Value(v) => Response::Reply(
            MosaikMessage { msg_type: MsgType::ReplySuccess, id, content: v },
        ),
        CallOutcome::Done => {
            let content: Vec<u8> = vec![110, 117, 108, 108];
            assert(content@ =~= null_content());
            Response::Reply(MosaikMessage { msg_type: MsgType::ReplySuccess, id, content })
        },
        CallOutcome::UserError(e) => failure_reply(id, &MosaikError::UserError(e)),
        CallOutcome::NotSerializable(e) => failure_reply(id, &MosaikError::Serde(e)),
        CallOutcome::Stopped => Response::Stop,
    }
}

/// Whether `s` is the text `lit`.
fn is_text(s: &String, lit: &str) -> (r: bool)
    ensures
        r == (s@ == lit@),
{
    *s == lit.to_owned()
}

/// The names of the API calls differ from each other.
proof fn lemma_method_names()
    ensures
        "init"@ != "create"@,
        "init"@ != "step"@,
        "init"@ != "get_data"@,
        "init"@ != "setup_done"@,
        "init"@ != "stop"@,
        "create"@ != "step"@,
        "create"@ != "get_data"@,
        "create"@ != "setup_done"@,
        "create"@ != "stop"@,
        "step"@ != "get_data"@,
        "step"@ != "setup_done"@,
        "step"@ != "stop"@,
        "get_data"@ != "setup_done"@,
        "get_data"@ != "stop"@,
        "setup_done"@ != "stop"@,
{
    reveal_strlit("init");
    reveal_strlit("create");
    reveal_strlit("step");
    reveal_strlit("get_data");
    reveal_strlit("setup_done");
    reveal_strlit("stop");
    assert("init"@.len() == 4 && "create"@.len() == 6 && "step"@.len() == 4);
    assert("get_data"@.len() == 8 && "setup_done"@.len() == 10 && "stop"@.len() == 4);
    assert("init"@[0] == 'i' && "step"@[0] == 's' && "stop"@[0] == 's');
    assert("step"@[2] == 'e' && "stop"@[2] == 'o');
}

/// A parse error with the text `s`.
fn parse_err(s: &str) -> (r: MosaikError)
    ensures
        r@ == parse_error(s@),
{
    MosaikError::ParseError(s.to_owned())
}

/// The `init` call of a request with the given arguments.
fn plan_init(args: Vec<Json>, kwargs: Vec<(String, Json)>) -> (r: Result<ApiCall, MosaikError>)
    ensures
        match init_error(args@) {
            Some(e) => r matches Err(err) && err@ == e,
            None => r matches Ok(c) && call_matches(
                RequestView { msg_id: 0, method: "init"@, args: args@, kwargs: kwargs@ },
                c,
            ),
        },
{
    proof {
        lemma_method_names();
    }
    if args.len() == 0 {
        return Err(parse_err("Missing SimId in init request"));
    }
    let mut args = args;
    let first = args.remove(0);
    let sid = match into_string(first) {
        Some(s) => s,
        None => {
            return Err(parse_err("Invalid SimId format"));
        },
    };
    let mut sim_params = kwargs;
    let time_resolution = match take_entry(&mut sim_params, "time_resolution") {
        Some(Json::Number(n)) => Some(n),
        _ => None,
    };
    Ok(ApiCall::Init { sid, time_resolution, sim_params })
}

/// The `create` call of a request with the given arguments.
fn plan_create(args: Vec<Json>, kwargs: Vec<(String, Json)>) -> (r: Result<ApiCall, MosaikError>)
    ensures
        match create_error(args@) {
            Some(e) => r matches Err(err) && err@ == e,
            None => r matches Ok(c) && call_matches(
                RequestView { msg_id: 0, method: "create"@, args: args@, kwargs: kwargs@ },
                c,
            ),
        },
{
    proof {
        lemma_method_names();
    }
    if args.len() == 0 {
        return Err(parse_err("Missing number of instances in create request"));
    }
    let n = match args[0].as_u64() {
        Some(n) => n,
        None => {
            return Err(parse_err("Invalid number format"));
        },
    };
    if n > usize::MAX as u64 {
        let mut s = "Num in create request is too large. Maximum is ".to_owned();
        append_decimal(&mut s, usize::MAX as u64);
        return Err(MosaikError::ParseError(s));
    }
    let num = n as usize;
    if args.len() < 2 {
        return Err(parse_err("Missing model_name in create request"));
    }
    let mut args = args;
    let second = args.remove(1);
    let model_name = match into_string(second) {
        Some(s) => s,
        None => {
            return Err(parse_err("Invalid model_name format"));
        },
    };
    Ok(ApiCall::Create { num, model_name, model_params: kwargs })
}

/// The `step` call of a request with the given arguments.
fn plan_step(args: Vec<Json>, kwargs: Vec<(String, Json)>, read_error: Option<String>) -> (r: Result<
    ApiCall,
    MosaikError,
>)
    ensures
        match step_error(args@, text_of(read_error)) {
            Some(e) => r matches Err(err) && err@ == e,
            None => r matches Ok(c) && call_matches(
                RequestView { msg_id: 0, method: "step"@, args: args@, kwargs: kwargs@ },
                c,
            ),
        },
{
    proof {
        lemma_method_names();
    }
    if args.len() == 0 {
        return Err(parse_err("Missing time in step request"));
    }
    let time = match args[0].as_u64() {
        Some(t) => t,
        None => {
            return Err(parse_err("Invalid time format"));
        },
    };
    if args.len() < 2 {
        return Err(parse_err("Missing inputs in step request"));
    }
    let ghost orig = args@;
    let mut args = args;
    let second = args.remove(1);
    if let Some(e) = read_error {
        let mut s = "Failed to parse inputs from step request: ".to_owned();
        s.append(e.as_str());
        return Err(MosaikError::ParseError(s));
    }
    let inputs = match input_data(second) {
        Some(d) => d,
        None => {
            let mut s = "Failed to parse inputs from step request: ".to_owned();
            s.append("expected a map of entity IDs to maps of attributes to maps of full IDs to values");
            return Err(MosaikError::ParseError(s));
        },
    };
    if args.len() < 2 {
        return Err(parse_err("Missing max_advance in step request"));
    }
    assert(args@[1] == orig[2]);
    let max_advance = match args[1].as_u64() {
        Some(t) => t,
        None => {
            return Err(parse_err("Invalid max_advance format"));
        },
    };
    Ok(ApiCall::Step { time, inputs, max_advance })
}

/// The `get_data` call of a request with the given arguments.
fn plan_get_data(args: Vec<Json>, kwargs: Vec<(String, Json)>, read_error: Option<String>) -> (r:
    Result<ApiCall, MosaikError>)
    ensures
        match get_data_error(args@, text_of(read_error)) {
            Some(e) => r matches Err(err) && err@ == e,
            None => r matches Ok(c) && call_matches(
                RequestView { msg_id: 0, method: "get_data"@, args: args@, kwargs: kwargs@ },
                c,
            ),
        },
{
    proof {
        lemma_method_names();
    }
    if args.len() == 0 {
        return Err(parse_err("Missing outputs in get_data request"));
    }
    if let Some(e) = read_error {
        let mut s = "Failed to parse outputs from get_data request: ".to_owned();
        s.append(e.as_str());
        return Err(MosaikError::ParseError(s));
    }
    let mut args = args;
    let first = args.remove(0);
    match output_request(first) {
        Some(outputs) => Ok(ApiCall::GetData { outputs }),
        None => {
            let mut s = "Failed to parse outputs from get_data request: ".to_owned();
            s.append("expected a map of entity IDs to lists of attributes");
            Err(MosaikError::ParseError(s))
        },
    }
}

/// The argument of `request` that `serde_json` is to read before the request
/// is planned, by its index, and what it is read as (see [`handle_request`]).
pub fn value_to_read(request: &Request) -> (r: Option<(ReadTarget, usize)>)
    ensures
        match r {
            Some((t, i)) => spec_value_to_read(request@) == Some((t, i as int)),
            None => spec_value_to_read(request@) is None,
        },
{
    proof {
        lemma_method_names();
    }
    if is_text(&request.method, "step") && request.args.len() >= 2 && request.args[0].as_u64().is_some() {
        Some((ReadTarget::Inputs, 1))
    } else if is_text(&request.method, "get_data") && request.args.len() >= 1 {
        Some((ReadTarget::Outputs, 0))
    } else {
        None
    }
}

/// What to do with a request: reply at once with a failure where its arguments
/// do not fit the method, else make the call it asks for and [`respond`]
/// with the request's ID. `read_error` is the message of the error that
/// `serde_json` gave in reading the argument that [`value_to_read`] names as
/// the simulator's input data or output request, if it gave one; such a
/// request is answered with a failure that carries the message.
pub fn handle_request(request: Request, read_error: Option<String>) -> (r: Handling)
    ensures
        match spec_plan_error(request@, text_of(read_error)) {
            Some(e) => r matches Handling::Respond(resp) && is_failure_reply(
                resp,
                request.msg_id,
                spec_error_message(e),
            ),
            None => r matches Handling::Call(id, c) && id == request.msg_id && call_matches(
                request@,
                c,
            ),
        },
{
    proof {
        lemma_method_names();
    }
    let Request { msg_id, method, args, kwargs } = request;
    let planned = if is_text(&method, "init") {
        plan_init(args, kwargs)
    } else if is_text(&method, "create") {
        plan_create(args, kwargs)
    } else if is_text(&method, "step") {
        plan_step(args, kwargs, read_error)
    } else if is_text(&method, "get_data") {
        plan_get_data(args, kwargs, read_error)
    } else if is_text(&method, "setup_done") {
        Ok(ApiCall::SetupDone)
    } else if is_text(&method, "stop") {
        Ok(ApiCall::Stop)
    } else {
        Ok(ApiCall::Extra { method, args, kwargs })
    };
    match planned {
        Ok(call) => Handling::Call(msg_id, call),
        Err(e) => Handling::Respond(failure_reply(msg_id, &e)),
    }
}

/// A step request whose first argument is any unsigned integer `t` (0
/// included), whose second is input data (entity, attribute, source) and whose
/// third is an unsigned integer `m` has its inputs read by `serde_json` and,
/// where that read gave no error, is planned as the step call at time `t` up
/// to `m`, with the input data of the request entry for entry.
pub proof fn lemma_step_request_planned(r: RequestView, t: u64, e: Vec<(String, Json)>, m: u64, c: ApiCall)
    requires
        r.method == "step"@,
        r.args.len() >= 3,
        r.args[0] == Json::Number(JsonNumber::PosInt(t)),
        r.args[1] == Json::Object(e),
        forall|i: int|
            #![trigger e@[i]]
            0 <= i < e@.len() ==> e@[i].1 is Object && forall|k: int|
                #![trigger e@[i].1->Object_0@[k]]
                0 <= k < e@[i].1->Object_0@.len() ==> e@[i].1->Object_0@[k].1 is Object,
        r.args[2] == Json::Number(JsonNumber::PosInt(m)),
    ensures
        spec_value_to_read(r) == Some((ReadTarget::Inputs, 1int)),
        spec_plan_error(r, None) is None,
        call_matches(r, c) ==> (c matches ApiCall::Step { time, inputs, max_advance } && time == t
            && max_advance == m && inputs@.len() == e@.len() && forall|i: int|
            #![trigger inputs@[i]]
            0 <= i < e@.len() ==> inputs@[i].0 == e@[i].0 && inputs@[i].1@.len() == e@[i].1->Object_0@.len()
                && forall|k: int|
                #![trigger inputs@[i].1@[k]]
                0 <= k < inputs@[i].1@.len() ==> inputs@[i].1@[k].0 == e@[i].1->Object_0@[k].0
                    && e@[i].1->Object_0@[k].1 == Json::Object(inputs@[i].1@[k].1)),
{
    lemma_method_names();
    assert(is_input_data(r.args[1])) by {
        assert forall|i: int| #![trigger e@[i]] 0 <= i < e@.len() implies crate::json::is_map_of_maps(e@[i].1) by {
            let w = e@[i].1->Object_0;
            assert(e@[i].1 == Json::Object(w));
            assert forall|k: int| 0 <= k < w@.len() implies (#[trigger] w@[k]).1 is Object by {
                assert(w@[k] == e@[i].1->Object_0@[k]);
            }
        }
    }
    if call_matches(r, c) {
        let inputs = c->Step_inputs;
        assert(input_data_matches(r.args[1], inputs@));
        assert forall|i: int| #![trigger inputs@[i]] 0 <= i < e@.len() implies inputs@[i].0 == e@[i].0
            && inputs@[i].1@.len() == e@[i].1->Object_0@.len() && forall|k: int|
            #![trigger inputs@[i].1@[k]]
            0 <= k < inputs@[i].1@.len() ==> inputs@[i].1@[k].0 == e@[i].1->Object_0@[k].0
                && e@[i].1->Object_0@[k].1 == Json::Object(inputs@[i].1@[k].1) by {
            assert(inputs@[i].0 == e@[i].0 && crate::json::map_of_maps_matches(e@[i].1, inputs@[i].1@));
            let w = e@[i].1->Object_0;
            assert(e@[i].1 == Json::Object(w));
            assert forall|k: int| #![trigger inputs@[i].1@[k]] 0 <= k < inputs@[i].1@.len() implies inputs@[i].1@[k].0
                == w@[k].0 && w@[k].1 == Json::Object(inputs@[i].1@[k].1) by {}
        }
    }
}

/// A step request is answered with `Invalid time format` exactly where it has
/// a first argument and that argument is not an unsigned integer.
pub proof fn lemma_step_time_error(args: Seq<Json>, read_error: Option<Seq<char>>)
    ensures
        step_error(args, read_error) == Some(parse_error("Invalid time format"@)) <==> (args.len() >= 1
            && !(args[0] is Number && args[0]->Number_0 is PosInt)),
{
    reveal_strlit("Invalid time format");
    reveal_strlit("Missing time in step request");
    reveal_strlit("Missing inputs in step request");
    reveal_strlit("Failed to parse inputs from step request: ");
    reveal_strlit("Missing max_advance in step request");
    reveal_strlit("Invalid max_advance format");
    let it = "Invalid time format"@;
    assert(it[0] == 'I' && it[8] == 't');
    assert("Missing time in step request"@[0] == 'M');
    assert("Missing inputs in step request"@[0] == 'M');
    assert("Missing max_advance in step request"@[0] == 'M');
    assert("Invalid max_advance format"@[8] == 'm');
    let f = "Failed to parse inputs from step request: "@;
    assert(f[0] == 'F');
    assert(forall|x: Seq<char>| #[trigger] (f + x)[0] == 'F');
    assert((f + inputs_detail())[0] == 'F');
    if let Some(x) = read_error {
        assert((f + x)[0] == 'F');
    }
}

/// A `get_data` request whose first argument maps entities to lists of
/// attribute names has its outputs read by `serde_json` and, where that read
/// gave no error, is planned as the `get_data` call with one entry per entity of the request, in
/// order, each with the same attribute names.
pub proof fn lemma_get_data_request_planned(r: RequestView, e: Vec<(String, Json)>, c: ApiCall)
    requires
        r.method == "get_data"@,
        r.args.len() >= 1,
        r.args[0] == Json::Object(e),
        forall|i: int|
            #![trigger e@[i]]
            0 <= i < e@.len() ==> e@[i].1 is Array && forall|k: int|
                #![trigger e@[i].1->Array_0@[k]]
                0 <= k < e@[i].1->Array_0@.len() ==> e@[i].1->Array_0@[k] is String,
    ensures
        spec_value_to_read(r) == Some((ReadTarget::Outputs, 0int)),
        spec_plan_error(r, None) is None,
        call_matches(r, c) ==> (c matches ApiCall::GetData { outputs } && outputs@.len() == e@.len()
            && forall|i: int|
            #![trigger outputs@[i]]
            0 <= i < e@.len() ==> outputs@[i].0 == e@[i].0 && outputs@[i].1@.len() == e@[i].1->Array_0@.len()
                && forall|k: int|
                #![trigger outputs@[i].1@[k]]
                0 <= k < outputs@[i].1@.len() ==> e@[i].1->Array_0@[k] == Json::String(outputs@[i].1@[k])),
{
    lemma_method_names();
    assert(is_output_request(r.args[0])) by {
        assert forall|i: int| #![trigger e@[i]] 0 <= i < e@.len() implies crate::json::is_string_array(e@[i].1) by {
            let w = e@[i].1->Array_0;
            assert(e@[i].1 == Json::Array(w));
            assert forall|k: int| 0 <= k < w@.len() implies (#[trigger] w@[k]) is String by {
                assert(w@[k] == e@[i].1->Array_0@[k]);
            }
        }
    }
    if call_matches(r, c) {
        let outputs = c->GetData_outputs;
        assert(output_request_matches(r.args[0], outputs@));
        assert forall|i: int| #![trigger outputs@[i]] 0 <= i < e@.len() implies outputs@[i].0 == e@[i].0
            && outputs@[i].1@.len() == e@[i].1->Array_0@.len() && forall|k: int|
            #![trigger outputs@[i].1@[k]]
            0 <= k < outputs@[i].1@.len() ==> e@[i].1->Array_0@[k] == Json::String(outputs@[i].1@[k]) by {
            assert(outputs@[i].0 == e@[i].0 && crate::json::strings_match(e@[i].1, outputs@[i].1@));
            let w = e@[i].1->Array_0;
            assert(e@[i].1 == Json::Array(w));
            assert forall|k: int| #![trigger outputs@[i].1@[k]] 0 <= k < outputs@[i].1@.len() implies w@[k]
                == Json::String(outputs@[i].1@[k]) by {}
        }
    }
}

/// An `init` request whose first argument is a string `sid` is planned as the
/// `init` call with that ID. Where the first keyword argument named
/// `time_resolution` stands at index `i`, the call carries its number (any
/// JSON number, integer or not; none where its value is not a number) and the
/// other keyword arguments, that one removed.
pub proof fn lemma_init_time_resolution(
    r: RequestView,
    sid: String,
    i: int,
    read_error: Option<Seq<char>>,
    c: ApiCall,
)
    requires
        r.method == "init"@,
        r.args.len() >= 1,
        r.args[0] == Json::String(sid),
        0 <= i < r.kwargs.len(),
        r.kwargs[i].0@ == "time_resolution"@,
        forall|j: int| 0 <= j < i ==> (#[trigger] r.kwargs[j]).0@ != "time_resolution"@,
    ensures
        spec_plan_error(r, read_error) is None,
        call_matches(r, c) ==> (c matches ApiCall::Init { sid: s, time_resolution, sim_params } && s == sid
            && time_resolution == (if r.kwargs[i].1 is Number {
            Some(r.kwargs[i].1->Number_0)
        } else {
            None
        }) && sim_params@ == r.kwargs.remove(i)),
{
    lemma_method_names();
    lemma_find_key(r.kwargs, "time_resolution"@, i);
}

/// An `init` request whose first argument is a string `sid` and which has no
/// keyword argument named `time_resolution` is planned as the `init` call with
/// that ID, no time resolution and all its keyword arguments.
pub proof fn lemma_init_without_time_resolution(
    r: RequestView,
    sid: String,
    read_error: Option<Seq<char>>,
    c: ApiCall,
)
    requires
        r.method == "init"@,
        r.args.len() >= 1,
        r.args[0] == Json::String(sid),
        forall|j: int| 0 <= j < r.kwargs.len() ==> (#[trigger] r.kwargs[j]).0@ != "time_resolution"@,
    ensures
        spec_plan_error(r, read_error) is None,
        call_matches(r, c) ==> (c matches ApiCall::Init { sid: s, time_resolution, sim_params } && s == sid
            && time_resolution is None && sim_params@ == r.kwargs),
{
    lemma_method_names();
    lemma_find_key(r.kwargs, "time_resolution"@, r.kwargs.len() as int);
}

/// A `create` request whose first argument is an unsigned integer `n` that
/// fits `usize` and whose second is a string is planned as the `create` call
/// for `n` entities of that model, with the request's keyword arguments.
pub proof fn lemma_create_request_planned(
    r: RequestView,
    n: u64,
    model: String,
    read_error: Option<Seq<char>>,
    c: ApiCall,
)
    requires
        r.method == "create"@,
        r.args.len() >= 2,
        r.args[0] == Json::Number(JsonNumber::PosInt(n)),
        n <= usize::MAX,
        r.args[1] == Json::String(model),
    ensures
        spec_plan_error(r, read_error) is None,
        call_matches(r, c) ==> (c matches ApiCall::Create { num, model_name, model_params } && num as u64
            == n && model_name == model && model_params@ == r.kwargs),
{
    lemma_method_names();
}

/// A `create` request is answered with the error that its number is too large
/// only where its first argument is an unsigned integer above `usize::MAX`.
pub proof fn lemma_create_too_large(args: Seq<Json>)
    ensures
        create_error(args) == Some(
            parse_error("Num in create request is too large. Maximum is "@ + decimal_chars(usize::MAX as nat)),
        ) ==> (args.len() >= 1 && args[0] is Number && args[0]->Number_0 is PosInt
            && args[0]->Number_0->PosInt_0 > usize::MAX),
{
    reveal_strlit("Num in create request is too large. Maximum is ");
    reveal_strlit("Missing number of instances in create request");
    reveal_strlit("Invalid number format");
    reveal_strlit("Missing model_name in create request");
    reveal_strlit("Invalid model_name format");
    let t = "Num in create request is too large. Maximum is "@;
    assert(t[0] == 'N');
    assert((t + decimal_chars(usize::MAX as nat))[0] == 'N');
    assert("Missing number of instances in create request"@[0] == 'M');
    assert("Invalid number format"@[0] == 'I');
    assert("Missing model_name in create request"@[0] == 'M');
    assert("Invalid model_name format"@[0] == 'I');
}

/// `setup_done` and `stop` are planned as those calls whatever their
/// arguments, and a request for any other method than the six of the API is
/// passed on to the simulator's extra methods with its method name, arguments
/// and keyword arguments as they came.
pub proof fn lemma_other_requests_planned(r: RequestView, read_error: Option<Seq<char>>, c: ApiCall)
    ensures
        r.method == "setup_done"@ ==> spec_plan_error(r, read_error) is None && (call_matches(r, c)
            ==> c == ApiCall::SetupDone),
        r.method == "stop"@ ==> spec_plan_error(r, read_error) is None && (call_matches(r, c) ==> c
            == ApiCall::Stop),
        r.method != "init"@ && r.method != "create"@ && r.method != "step"@ && r.method != "get_data"@
            && r.method != "setup_done"@ && r.method != "stop"@ ==> spec_plan_error(r, read_error) is None
            && (call_matches(r, c) ==> (c matches ApiCall::Extra { method, args, kwargs } && method@
            == r.method && args@ == r.args && kwargs@ == r.kwargs)),
{
    lemma_method_names();
}

} // verus!
