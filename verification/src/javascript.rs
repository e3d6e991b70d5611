//! The execution bridge: what is decided before a script is handed to the
//! external runtime, and how what the runtime printed is read.
//!
//! Starting the runtime and writing its files is the caller's part. This
//! module says where the runtime is looked for, under which file names a run
//! keeps its script, how the result of a capability reaches the script, how
//! long a run is waited for, and what the outcome of a run is.

use crate::error::{PluginError, PluginErrorView};
use crate::json::{
    json_parse, json_text, lemma_member_push, members_value, push_member, Json, JsonValue,
};
use crate::plugin_api::answer_view;
use crate::text::{
    chars_of, decimal, decimal_string, find_char, join_three, lemma_decimal_injective, opt_text,
    position_of, texts, trim_range, trimmed,
};
use vstd::prelude::*;
use vstd::utf8::encode_utf8;

verus! {

/// The largest number of bytes of a capability result that is handed to the
/// script in an environment variable.
pub const INLINE_LIMIT: usize = 1024;

/// The length of a text in bytes.
pub open spec fn byte_len(text: Seq<char>) -> nat {
    encode_utf8(text).len()
}

/// What the caller of a script gets back.
#[derive(Debug, PartialEq)]
pub struct JsResult {
    success: bool,
    result: Json,
    error: Option<String>,
}

/// The mathematical value of a [`JsResult`].
pub struct JsResultView {
    pub success: bool,
    pub result: JsonValue,
    pub error: Option<Seq<char>>,
}

impl View for JsResult {
    type V = JsResultView;

    closed spec fn view(&self) -> JsResultView {
        JsResultView { success: self.success, result: self.result@, error: opt_text(self.error) }
    }
}

/// The report of an outcome: the document of a run that succeeded, or the
/// words of the failure.
pub open spec fn reported(outcome: Result<JsonValue, PluginErrorView>) -> JsResultView {
    match outcome {
        Ok(v) => JsResultView { success: true, result: v, error: None },
        Err(e) => JsResultView { success: false, result: JsonValue::Null, error: Some(e.message()) },
    }
}

impl JsResult {
    /// The report of an outcome.
    pub fn from_outcome(outcome: Result<Json, PluginError>) -> (report: JsResult)
        ensures
            report@ == reported(answer_view(outcome)),
    {
        match outcome {
            Ok(result) => JsResult { success: true, result, error: None },
            Err(e) => JsResult { success: false, result: Json::Null, error: Some(e.message()) },
        }
    }

    /// Whether the run succeeded.
    pub fn success(&self) -> (b: bool)
        ensures
            b == self@.success,
    {
        self.success
    }

    /// The document that the run gave; null after a failure.
    pub fn result(&self) -> (json: &Json)
        ensures
            json@ == self@.result,
    {
        &self.result
    }

    /// The words of the failure.
    pub fn error(&self) -> (words: Option<&str>)
        ensures
            match words {
                Some(w) => self@.error == Some(w@),
                None => self@.error is None,
            },
    {
        match &self.error {
            Some(w) => Some(w.as_str()),
            None => None,
        }
    }
}

/// The script that runs `code` as the body of a function and prints what it
/// returns, or what it throws, as one line of JSON.
pub open spec fn wrapped(code: Seq<char>) -> Seq<char> {
    "try {\n  const result = (function() { \n    "@ + code
        + ";\n  })();\n  console.log(JSON.stringify({ success: true, result }));\n} catch (error) {\n  console.log(JSON.stringify({ success: false, error: error.toString() }));\n}\n"@
}

/// Wraps code that a user typed into a script for the runtime.
pub fn wrap_user_code(code: &str) -> (script: String)
    ensures
        script@ == wrapped(code@),
{
    join_three(
        "try {\n  const result = (function() { \n    ",
        code,
        ";\n  })();\n  console.log(JSON.stringify({ success: true, result }));\n} catch (error) {\n  console.log(JSON.stringify({ success: false, error: error.toString() }));\n}\n",
    )
}

/// The name of the file that holds the script of run number `run`.
pub open spec fn script_name(run: u64) -> Seq<char> {
    "script-"@ + decimal(run as nat) + ".js"@
}

/// The name of the file that holds the capability result of run number `run`.
pub open spec fn result_name(run: u64) -> Seq<char> {
    "api_result-"@ + decimal(run as nat) + ".json"@
}

/// The name of the script file of a run. Each run has a file of its own, so
/// that two runs at the same time do not write over each other.
pub fn script_file_name(run: u64) -> (name: String)
    ensures
        name@ == script_name(run),
{
    let digits = decimal_string(run);
    join_three("script-", digits.as_str(), ".js")
}

/// The name of the file for the capability result of a run.
pub fn result_file_name(run: u64) -> (name: String)
    ensures
        name@ == result_name(run),
{
    let digits = decimal_string(run);
    join_three("api_result-", digits.as_str(), ".json")
}

/// Two runs never share a file: runs with different numbers have different
/// script files and different result files.
pub proof fn law_runs_have_files_of_their_own(first: u64, second: u64)
    requires
        first != second,
    ensures
        script_name(first) != script_name(second),
        result_name(first) != result_name(second),
{
    let a = decimal(first as nat);
    let b = decimal(second as nat);
    if a == b {
        lemma_decimal_injective(first as nat, second as nat);
    }
    if script_name(first) == script_name(second) {
        let head = "script-"@;
        let tail = ".js"@;
        let x = head + a + tail;
        let y = head + b + tail;
        assert(x.len() == y.len());
        assert(a =~= x.subrange(head.len() as int, (head.len() + a.len()) as int));
        assert(b =~= y.subrange(head.len() as int, (head.len() + b.len()) as int));
    }
    if result_name(first) == result_name(second) {
        let head = "api_result-"@;
        let tail = ".json"@;
        let x = head + a + tail;
        let y = head + b + tail;
        assert(x.len() == y.len());
        assert(a =~= x.subrange(head.len() as int, (head.len() + a.len()) as int));
        assert(b =~= y.subrange(head.len() as int, (head.len() + b.len()) as int));
    }
}

/// The well-known places of the runtime, in the order in which they are tried.
pub open spec fn common_locations() -> Seq<Seq<char>> {
    seq!["C:\\Program Files\\nodejs\\node.exe"@, "C:\\Program Files (x86)\\nodejs\\node.exe"@]
}

/// The first line of `output`, without white space at either end.
pub open spec fn first_line(output: Seq<char>) -> Seq<char> {
    trimmed(output.take(position_of(output, '\n') as int))
}

/// The first well-known place that is installed, from position `from` on.
pub open spec fn first_installed(installed: Seq<bool>, from: int) -> Option<Seq<char>>
    decreases common_locations().len() - from,
{
    if from < 0 || from >= common_locations().len() {
        None
    } else if from < installed.len() && installed[from] {
        Some(common_locations()[from])
    } else {
        first_installed(installed, from + 1)
    }
}

/// Where the runtime is. `lookup` holds what the search of the path printed,
/// if that search succeeded; `installed` says for each of the well-known
/// places whether the runtime is there.
pub open spec fn runtime_path(lookup: Option<Seq<char>>, installed: Seq<bool>) -> Option<
    Seq<char>,
> {
    match lookup {
        Some(output) => if output.len() == 0 {
            None
        } else {
            Some(first_line(output))
        },
        None => first_installed(installed, 0),
    }
}

/// The well-known places of the runtime.
pub fn runtime_locations() -> (places: Vec<String>)
    ensures
        texts(places@) == common_locations(),
{
    let mut places: Vec<String> = Vec::new();
    places.push(String::from_str("C:\\Program Files\\nodejs\\node.exe"));
    places.push(String::from_str("C:\\Program Files (x86)\\nodejs\\node.exe"));
    assert(texts(places@) =~= common_locations());
    places
}

/// Decides where the runtime is, from what the search of the path printed
/// and from which of the well-known places are installed. Fails with
/// `RuntimeNotFound` where neither gives a path.
pub fn find_nodejs(lookup: Option<&str>, installed: &Vec<bool>) -> (path: Result<
    String,
    PluginError,
>)
    ensures
        match path {
            Ok(p) => runtime_path(
                match lookup {
                    Some(output) => Some(output@),
                    None => None,
                },
                installed@,
            ) == Some(p@),
            Err(e) => e@ == PluginErrorView::RuntimeNotFound && runtime_path(
                match lookup {
                    Some(output) => Some(output@),
                    None => None,
                },
                installed@,
            ) is None,
        },
{
    match lookup {
        Some(output) => {
            let chars = chars_of(output);
            if chars.len() == 0 {
                return Err(PluginError::RuntimeNotFound);
            }
            let end = find_char(&chars, '\n');
            assert(chars@.subrange(0, end as int) =~= chars@.take(end as int));
            Ok(trim_range(&chars, 0, end))
        },
        None => {
            let places = runtime_locations();
            let mut i: usize = 0;
            while i < places.len()
                invariant
                    i <= places.len(),
                    lookup is None,
                    texts(places@) == common_locations(),
                    first_installed(installed@, 0) == first_installed(installed@, i as int),
                decreases places.len() - i,
            {
                if i < installed.len() && installed[i] {
                    assert(texts(places@)[i as int] == places@[i as int]@);
                    return Ok(places[i].clone());
                }
                i += 1;
            }
            Err(PluginError::RuntimeNotFound)
        },
    }
}

/// How the result of a capability reaches the script.
#[derive(Debug, PartialEq, Eq)]
pub enum Injection {
    /// No capability was called: nothing is handed to the script.
    Absent,
    /// The text is the value of an environment variable.
    Inline(String),
    /// The text is written to a file, whose path is the value of an
    /// environment variable.
    File(String),
}

/// The mathematical value of an [`Injection`].
pub enum InjectionView {
    Absent,
    Inline(Seq<char>),
    File(Seq<char>),
}

impl View for Injection {
    type V = InjectionView;

    open spec fn view(&self) -> InjectionView {
        match *self {
            Injection::Absent => InjectionView::Absent,
            Injection::Inline(text) => InjectionView::Inline(text@),
            Injection::File(text) => InjectionView::File(text@),
        }
    }
}

/// How a text reaches the script: inline up to the limit, in a file above it.
pub open spec fn placed(text: Seq<char>) -> InjectionView {
    if byte_len(text) > INLINE_LIMIT {
        InjectionView::File(text)
    } else {
        InjectionView::Inline(text)
    }
}

/// The text that tells the script that the capability failed.
pub open spec fn failure_text(words: Seq<char>) -> Seq<char> {
    "{\"error\":\"API 调用失败: "@ + words + "\"}"@
}

/// How the resolved capability call reaches the script. The text of an
/// answer is printed by `serde_json`; a failure is told inline. Where no
/// capability was called, nothing is handed over.
pub open spec fn injected(resolved: Option<Result<JsonValue, PluginErrorView>>) -> InjectionView {
    match resolved {
        Some(Ok(v)) => placed(json_text(v)),
        Some(Err(e)) => InjectionView::Inline(failure_text(e.message())),
        None => InjectionView::Absent,
    }
}

/// Decides how a text reaches the script.
pub fn place_text(text: String) -> (injection: Injection)
    ensures
        injection@ == placed(text@),
{
    if text.as_str().as_bytes().len() > INLINE_LIMIT {
        Injection::File(text)
    } else {
        Injection::Inline(text)
    }
}

/// Decides how the resolved capability call reaches the script.
pub fn plan_injection(resolved: Option<&Result<Json, PluginError>>) -> (injection: Injection)
    ensures
        injection@ == injected(
            match resolved {
                Some(answer) => Some(answer_view(*answer)),
                None => None,
            },
        ),
{
    match resolved {
        Some(Ok(json)) => place_text(json.to_text()),
        Some(Err(e)) => {
            let words = e.message();
            Injection::Inline(join_three("{\"error\":\"API 调用失败: ", words.as_str(), "\"}"))
        },
        None => Injection::Absent,
    }
}

/// The environment of the script: at most one of the variables
/// `APP_API_RESULT` and `APP_API_RESULT_FILE`, and neither where no
/// capability was called. `written` holds the path of the file to which the
/// text of a [`Injection::File`] was written, or `None` where it could not be
/// written; the text is then handed over inline after all.
pub open spec fn environment_of(injection: InjectionView, written: Option<Seq<char>>) -> Seq<
    (Seq<char>, Seq<char>),
> {
    match injection {
        InjectionView::Absent => Seq::empty(),
        InjectionView::Inline(text) => seq![("APP_API_RESULT"@, text)],
        InjectionView::File(text) => match written {
            Some(path) => seq![("APP_API_RESULT_FILE"@, path)],
            None => seq![("APP_API_RESULT"@, text)],
        },
    }
}

/// The names and values of a list of environment variables.
pub open spec fn variables(env: Seq<(String, String)>) -> Seq<(Seq<char>, Seq<char>)> {
    Seq::new(env.len(), |i: int| (env[i].0@, env[i].1@))
}

/// The environment variables that hand the capability result to the script.
pub fn environment(injection: &Injection, written: Option<&str>) -> (env: Vec<(String, String)>)
    ensures
        variables(env@) == environment_of(
            injection@,
            match written {
                Some(path) => Some(path@),
                None => None,
            },
        ),
{
    let mut env: Vec<(String, String)> = Vec::new();
    match injection {
        Injection::Absent => {
            assert(variables(env@) =~= Seq::empty());
        },
        Injection::Inline(text) => {
            env.push((String::from_str("APP_API_RESULT"), text.clone()));
            assert(variables(env@) =~= seq![("APP_API_RESULT"@, text@)]);
        },
        Injection::File(text) => match written {
            Some(path) => {
                env.push((String::from_str("APP_API_RESULT_FILE"), String::from_str(path)));
                assert(variables(env@) =~= seq![("APP_API_RESULT_FILE"@, path@)]);
            },
            None => {
                env.push((String::from_str("APP_API_RESULT"), text.clone()));
                assert(variables(env@) =~= seq![("APP_API_RESULT"@, text@)]);
            },
        },
    }
    env
}

/// How long a run may last, in milliseconds.
pub const RUN_LIMIT_MS: u64 = 300_000;

/// What is done with a run that was started.
#[derive(Clone, Copy, Debug, PartialEq, Eq, Structural)]
pub enum WaitStep {
    /// The runtime is still at work and has time left: wait on.
    Wait,
    /// The time of the run is up: end the runtime by force.
    Kill,
    /// The runtime has ended; holds whether its status was zero.
    Done(bool),
}

/// What is done with a run after `elapsed_ms` of at most `limit_ms`
/// milliseconds. `exited` holds whether the status was zero, once the runtime
/// has ended. A runtime that has ended is done, however long it took; one
/// that has not is waited for until the limit is reached, and stopped then.
pub open spec fn waited(elapsed_ms: u64, limit_ms: u64, exited: Option<bool>) -> WaitStep {
    match exited {
        Some(exit_ok) => WaitStep::Done(exit_ok),
        None => if elapsed_ms >= limit_ms {
            WaitStep::Kill
        } else {
            WaitStep::Wait
        },
    }
}

/// Decides what is done with a run that was started.
pub fn wait_step(elapsed_ms: u64, limit_ms: u64, exited: Option<bool>) -> (step: WaitStep)
    ensures
        step == waited(elapsed_ms, limit_ms, exited),
{
    match exited {
        Some(exit_ok) => WaitStep::Done(exit_ok),
        None => if elapsed_ms >= limit_ms {
            WaitStep::Kill
        } else {
            WaitStep::Wait
        },
    }
}

/// A document wrapped as the result of a run that succeeded.
pub open spec fn envelope(v: JsonValue) -> JsonValue {
    JsonValue::Object(Seq::empty().push(("result"@, v)).push(("success"@, JsonValue::Bool(true))))
}

/// Whether a document says of itself whether the run succeeded: it is an
/// object with a member `success`.
pub open spec fn is_envelope(v: JsonValue) -> bool {
    v.get("success"@) is Some
}

/// The outcome of a run. `exit_ok` says whether the runtime ended with
/// status zero, `parsed` is the document that its standard output holds, if
/// it holds one.
pub open spec fn interpreted(
    exit_ok: bool,
    parsed: Option<JsonValue>,
    stdout: Seq<char>,
    stderr: Seq<char>,
) -> Result<JsonValue, PluginErrorView> {
    if !exit_ok {
        Err(PluginErrorView::ExecutionError(stderr))
    } else {
        match parsed {
            Some(v) => if is_envelope(v) {
                Ok(v)
            } else {
                Ok(envelope(v))
            },
            None => if stderr.len() > 0 {
                Err(PluginErrorView::ExecutionError(stderr))
            } else {
                Ok(JsonValue::Text(stdout))
            },
        }
    }
}

/// The value of an optional document.
pub open spec fn opt_value(o: Option<Json>) -> Option<JsonValue> {
    match o {
        Some(json) => Some(json@),
        None => None,
    }
}

/// Wraps a document as the result of a run that succeeded.
pub fn wrap_result(value: Json) -> (wrapped: Json)
    ensures
        wrapped@ == envelope(value@),
{
    let mut members: Vec<(String, Json)> = Vec::new();
    assert(members_value(members@) =~= Seq::empty());
    push_member(&mut members, "result", value);
    push_member(&mut members, "success", Json::Bool(true));
    Json::object(members)
}

/// The outcome of a run whose standard output was read already: `parsed`
/// holds the document, or `None` where the output is no JSON.
pub fn interpret_parsed(
    exit_ok: bool,
    parsed: Option<Json>,
    stdout: &str,
    stderr: &str,
) -> (outcome: Result<Json, PluginError>)
    ensures
        answer_view(outcome) == interpreted(exit_ok, opt_value(parsed), stdout@, stderr@),
{
    if !exit_ok {
        return Err(PluginError::ExecutionError(String::from_str(stderr)));
    }
    match parsed {
        Some(value) => {
            if value.get("success").is_some() {
                Ok(value)
            } else {
                Ok(wrap_result(value))
            }
        },
        None => {
            if !stderr.is_empty() {
                Err(PluginError::ExecutionError(String::from_str(stderr)))
            } else {
                Ok(Json::text(stdout))
            }
        },
    }
}

/// The outcome of a run, from the exit status of the runtime and from what
/// it wrote to standard output and standard error.
pub fn interpret_output(exit_ok: bool, stdout: &str, stderr: &str) -> (outcome: Result<
    Json,
    PluginError,
>)
    ensures
        answer_view(outcome) == interpreted(exit_ok, json_parse(stdout@), stdout@, stderr@),
{
    if !exit_ok {
        return interpret_parsed(false, None, stdout, stderr);
    }
    let parsed = match Json::parse(stdout) {
        Ok(json) => Some(json),
        Err(_) => None,
    };
    interpret_parsed(true, parsed, stdout, stderr)
}

/// The outcome of a run that is over. `ended` holds whether the runtime ended
/// with status zero, or `None` where it was stopped because its time was up:
/// that is the failure `ExecutionTimeout`, whatever the runtime had printed.
pub open spec fn concluded(
    ended: Option<bool>,
    parsed: Option<JsonValue>,
    stdout: Seq<char>,
    stderr: Seq<char>,
) -> Result<JsonValue, PluginErrorView> {
    match ended {
        Some(exit_ok) => interpreted(exit_ok, parsed, stdout, stderr),
        None => Err(PluginErrorView::ExecutionTimeout),
    }
}

/// The outcome of a run that is over, from how it ended and from what the
/// runtime wrote to standard output and standard error.
pub fn run_outcome(ended: Option<bool>, stdout: &str, stderr: &str) -> (outcome: Result<
    Json,
    PluginError,
>)
    ensures
        answer_view(outcome) == concluded(ended, json_parse(stdout@), stdout@, stderr@),
{
    match ended {
        Some(exit_ok) => interpret_output(exit_ok, stdout, stderr),
        None => Err(PluginError::ExecutionTimeout),
    }
}

/// A wrapped document holds the document as its member `result` and says
/// of itself that the run succeeded.
pub proof fn lemma_envelope(v: JsonValue)
    ensures
        envelope(v).get("result"@) == Some(v),
        envelope(v).get("success"@) == Some(JsonValue::Bool(true)),
        is_envelope(envelope(v)),
{
    reveal_strlit("result");
    reveal_strlit("success");
    assert("result"@.len() != "success"@.len());
    let m0 = Seq::<(Seq<char>, JsonValue)>::empty();
    let m1 = m0.push(("result"@, v));
    lemma_member_push(m0, "result"@, v, "result"@);
    lemma_member_push(m1, "success"@, JsonValue::Bool(true), "result"@);
    lemma_member_push(m1, "success"@, JsonValue::Bool(true), "success"@);
}

/// The three ways in which the output of a run that ended with status zero
/// is read. A document that says of itself whether the run succeeded is the
/// outcome as it stands. Any other document is the outcome wrapped as the
/// result of a success. Output that is no JSON is a failure with what was
/// written to standard error, or, where nothing was, the outcome is the
/// output as a string. A run that ended with another status failed with what
/// it wrote to standard error, whatever it printed.
pub proof fn law_output_tiers(v: JsonValue, stdout: Seq<char>, stderr: Seq<char>)
    ensures
        is_envelope(v) ==> interpreted(true, Some(v), stdout, stderr) == Ok::<
            JsonValue,
            PluginErrorView,
        >(v),
        !is_envelope(v) ==> interpreted(true, Some(v), stdout, stderr) == Ok::<
            JsonValue,
            PluginErrorView,
        >(envelope(v)),
        envelope(v).get("success"@) == Some(JsonValue::Bool(true)),
        envelope(v).get("result"@) == Some(v),
        stderr.len() > 0 ==> interpreted(true, None, stdout, stderr) == Err::<
            JsonValue,
            PluginErrorView,
        >(PluginErrorView::ExecutionError(stderr)),
        stderr.len() == 0 ==> interpreted(true, None, stdout, stderr) == Ok::<
            JsonValue,
            PluginErrorView,
        >(JsonValue::Text(stdout)),
        interpreted(false, Some(v), stdout, stderr) == Err::<JsonValue, PluginErrorView>(
            PluginErrorView::ExecutionError(stderr),
        ),
        interpreted(false, None, stdout, stderr) == Err::<JsonValue, PluginErrorView>(
            PluginErrorView::ExecutionError(stderr),
        ),
{
    lemma_envelope(v);
}

/// A run without a capability call is started with neither of the two
/// variables: their absence is the sign that no capability result is there.
/// A run with a capability call is started with exactly one of them.
pub proof fn law_no_call_no_variable(
    resolved: Option<Result<JsonValue, PluginErrorView>>,
    written: Option<Seq<char>>,
)
    ensures
        resolved is None ==> environment_of(injected(resolved), written).len() == 0,
        resolved is Some ==> environment_of(injected(resolved), written).len() == 1,
        forall|i: int|
            0 <= i < environment_of(injected(resolved), written).len() ==> {
                let name = (#[trigger] environment_of(injected(resolved), written)[i]).0;
                name == "APP_API_RESULT"@ || name == "APP_API_RESULT_FILE"@
            },
{
}

/// A capability result reaches the script by one way only, which its size
/// decides. A text of at most [`INLINE_LIMIT`] bytes is the value of the
/// variable `APP_API_RESULT`. A longer text is written to a file, and the
/// path of that file is the value of the variable `APP_API_RESULT_FILE`; the
/// text that the file holds is the text of the result.
pub proof fn law_injection_threshold(text: Seq<char>, path: Seq<char>)
    ensures
        byte_len(text) <= INLINE_LIMIT ==> placed(text) == InjectionView::Inline(text)
            && environment_of(placed(text), Some(path)) == seq![("APP_API_RESULT"@, text)],
        byte_len(text) > INLINE_LIMIT ==> placed(text) == InjectionView::File(text)
            && environment_of(placed(text), Some(path)) == seq![("APP_API_RESULT_FILE"@, path)],
{
}

} // verus!
