use moro_host::error::PluginError;
use moro_host::javascript::{
    environment, find_nodejs, interpret_output, interpret_parsed, place_text, plan_injection,
    result_file_name, run_outcome, runtime_locations, script_file_name, wait_step, wrap_result,
    wrap_user_code, Injection, JsResult, WaitStep, INLINE_LIMIT, RUN_LIMIT_MS,
};
use moro_host::json::Json;

fn object(members: Vec<(&str, Json)>) -> Json {
    Json::Object(members.into_iter().map(|(k, v)| (k.to_string(), v)).collect())
}

#[test]
fn envelope_on_stdout_is_the_outcome_as_it_stands() {
    let outcome = interpret_output(true, "{\"success\":true,\"result\":{\"x\":1}}", "").unwrap();
    assert_eq!(
        outcome,
        object(vec![("result", object(vec![("x", Json::from_u64(1))])), ("success", Json::Bool(true))])
    );
    assert_eq!(outcome.to_text(), "{\"result\":{\"x\":1},\"success\":true}");
}

#[test]
fn envelope_of_a_failure_is_kept_too() {
    let outcome = interpret_output(true, "{\"success\":false,\"error\":\"Error: x\"}\n", "warn").unwrap();
    assert_eq!(outcome, object(vec![("error", Json::text("Error: x")), ("success", Json::Bool(false))]));
}

#[test]
fn bare_value_on_stdout_is_wrapped() {
    let outcome = interpret_output(true, "{\"x\":1}", "").unwrap();
    assert_eq!(outcome, Json::parse("{\"success\":true,\"result\":{\"x\":1}}").unwrap());
    assert_eq!(
        interpret_output(true, "42", "").unwrap(),
        Json::parse("{\"success\":true,\"result\":42}").unwrap()
    );
    assert_eq!(
        interpret_output(true, "[{\"success\":true}]", "").unwrap(),
        Json::parse("{\"success\":true,\"result\":[{\"success\":true}]}").unwrap()
    );
}

#[test]
fn no_json_with_stderr_is_an_execution_error() {
    assert_eq!(
        interpret_output(true, "oops, not json", "boom"),
        Err(PluginError::ExecutionError("boom".to_string()))
    );
}

#[test]
fn no_json_without_stderr_is_the_raw_output() {
    assert_eq!(interpret_output(true, "hello there", ""), Ok(Json::text("hello there")));
    assert_eq!(interpret_output(true, "", ""), Ok(Json::text("")));
}

#[test]
fn nonzero_exit_is_an_execution_error() {
    assert_eq!(
        interpret_output(false, "{\"success\":true,\"result\":1}", "trace"),
        Err(PluginError::ExecutionError("trace".to_string()))
    );
    assert_eq!(interpret_output(false, "", ""), Err(PluginError::ExecutionError("".to_string())));
}

#[test]
fn interpret_parsed_takes_the_document_as_given() {
    assert_eq!(
        interpret_parsed(true, Some(Json::Null), "ignored", ""),
        Ok(object(vec![("result", Json::Null), ("success", Json::Bool(true))]))
    );
    assert_eq!(interpret_parsed(true, None, "raw", ""), Ok(Json::text("raw")));
    assert_eq!(
        interpret_parsed(true, None, "raw", "e"),
        Err(PluginError::ExecutionError("e".to_string()))
    );
}

#[test]
fn wrap_result_builds_the_envelope() {
    assert_eq!(
        wrap_result(Json::text("v")),
        object(vec![("result", Json::text("v")), ("success", Json::Bool(true))])
    );
}

#[test]
fn small_result_is_handed_over_inline() {
    let value = Json::text("x".repeat(INLINE_LIMIT - 2).as_str());
    assert_eq!(value.to_text().len(), 1024);
    let injection = plan_injection(Some(&Ok(value.clone())));
    assert_eq!(injection, Injection::Inline(value.to_text()));
    assert_eq!(
        environment(&injection, Some("/tmp/t/api_result-1.json")),
        vec![("APP_API_RESULT".to_string(), value.to_text())]
    );
}

#[test]
fn large_result_is_handed_over_in_a_file() {
    let value = object(vec![("data", Json::text("y".repeat(2000).as_str())), ("n", Json::from_u64(7))]);
    let injection = plan_injection(Some(&Ok(value.clone())));
    let content = match &injection {
        Injection::File(text) => text.clone(),
        other => panic!("a large result must go to a file, not {:?}", other),
    };
    assert!(content.len() > 1024);
    assert_eq!(Json::parse(content.as_str()).unwrap(), value);
    assert_eq!(
        environment(&injection, Some("/tmp/t/api_result-1.json")),
        vec![("APP_API_RESULT_FILE".to_string(), "/tmp/t/api_result-1.json".to_string())]
    );
    assert_eq!(environment(&injection, None), vec![("APP_API_RESULT".to_string(), content)]);
}

#[test]
fn threshold_counts_bytes() {
    let at_limit = Json::text("x".repeat(1022).as_str());
    assert_eq!(plan_injection(Some(&Ok(at_limit.clone()))), Injection::Inline(at_limit.to_text()));
    let above = Json::text("x".repeat(1023).as_str());
    assert_eq!(plan_injection(Some(&Ok(above.clone()))), Injection::File(above.to_text()));
    let wide = "界".repeat(342);
    assert_eq!(wide.len(), 1026);
    assert_eq!(place_text(wide.clone()), Injection::File(wide));
    let narrow = "界".repeat(341);
    assert_eq!(place_text(narrow.clone()), Injection::Inline(narrow));
}

#[test]
fn failed_capability_is_told_inline() {
    let failure: Result<Json, PluginError> = Err(PluginError::CapabilityFailed("未指定文件路径".to_string()));
    assert_eq!(
        plan_injection(Some(&failure)),
        Injection::Inline("{\"error\":\"API 调用失败: 未指定文件路径\"}".to_string())
    );
    let unknown: Result<Json, PluginError> = Err(PluginError::CapabilityNotFound("x".to_string()));
    assert_eq!(
        plan_injection(Some(&unknown)),
        Injection::Inline("{\"error\":\"API 调用失败: API 函数 'x' 未注册\"}".to_string())
    );
}

#[test]
fn no_capability_call_sets_neither_variable() {
    let injection = plan_injection(None);
    assert_eq!(injection, Injection::Absent);
    assert_eq!(environment(&injection, None), vec![]);
    assert_eq!(environment(&injection, Some("/tmp/t/api_result-1.json")), vec![]);
}

#[test]
fn capability_call_sets_exactly_one_variable() {
    let small: Result<Json, PluginError> = Ok(Json::Null);
    let large: Result<Json, PluginError> = Ok(Json::text("z".repeat(5000).as_str()));
    let failed: Result<Json, PluginError> = Err(PluginError::CapabilityFailed("x".to_string()));
    for resolved in [&small, &large, &failed] {
        for written in [None, Some("/tmp/t/r.json")] {
            let env = environment(&plan_injection(Some(resolved)), written);
            assert_eq!(env.len(), 1);
            assert!(env[0].0 == "APP_API_RESULT" || env[0].0 == "APP_API_RESULT_FILE");
        }
    }
}

#[test]
fn wait_step_waits_until_the_limit_and_stops_then() {
    assert_eq!(RUN_LIMIT_MS, 300_000);
    assert_eq!(wait_step(0, RUN_LIMIT_MS, None), WaitStep::Wait);
    assert_eq!(wait_step(RUN_LIMIT_MS - 1, RUN_LIMIT_MS, None), WaitStep::Wait);
    assert_eq!(wait_step(RUN_LIMIT_MS, RUN_LIMIT_MS, None), WaitStep::Kill);
    assert_eq!(wait_step(u64::MAX, RUN_LIMIT_MS, None), WaitStep::Kill);
    assert_eq!(wait_step(0, 0, None), WaitStep::Kill);
}

#[test]
fn wait_step_is_done_once_the_runtime_has_ended() {
    assert_eq!(wait_step(5, 10, Some(true)), WaitStep::Done(true));
    assert_eq!(wait_step(5, 10, Some(false)), WaitStep::Done(false));
    assert_eq!(wait_step(50, 10, Some(true)), WaitStep::Done(true));
}

#[test]
fn run_outcome_of_a_stopped_run_is_a_timeout() {
    assert_eq!(
        run_outcome(None, "{\"success\":true,\"result\":1}", ""),
        Err(PluginError::ExecutionTimeout)
    );
    assert_eq!(
        run_outcome(Some(true), "{\"success\":true,\"result\":1}", ""),
        interpret_output(true, "{\"success\":true,\"result\":1}", "")
    );
    assert_eq!(
        run_outcome(Some(false), "x", "boom"),
        Err(PluginError::ExecutionError("boom".to_string()))
    );
}

#[test]
fn wrap_user_code_wraps_the_code_in_a_function() {
    assert_eq!(
        wrap_user_code("return 1 + 1"),
        "try {\n  const result = (function() { \n    return 1 + 1;\n  })();\n  console.log(JSON.stringify({ success: true, result }));\n} catch (error) {\n  console.log(JSON.stringify({ success: false, error: error.toString() }));\n}\n"
    );
}

#[test]
fn each_run_has_files_of_its_own() {
    assert_eq!(script_file_name(0), "script-0.js");
    assert_eq!(script_file_name(17), "script-17.js");
    assert_eq!(result_file_name(17), "api_result-17.json");
    assert_ne!(script_file_name(1), script_file_name(2));
}

#[test]
fn find_nodejs_takes_the_first_line_of_the_lookup() {
    assert_eq!(
        find_nodejs(Some("C:\\node\\node.exe\r\nC:\\other\\node.exe\r\n"), &vec![true, true]),
        Ok("C:\\node\\node.exe".to_string())
    );
    assert_eq!(find_nodejs(Some("  /usr/bin/node  "), &vec![]), Ok("/usr/bin/node".to_string()));
    assert_eq!(find_nodejs(Some("\nsecond"), &vec![]), Ok("".to_string()));
    assert_eq!(find_nodejs(Some(""), &vec![true, true]), Err(PluginError::RuntimeNotFound));
}

#[test]
fn find_nodejs_falls_back_to_the_well_known_places() {
    assert_eq!(
        runtime_locations(),
        vec!["C:\\Program Files\\nodejs\\node.exe", "C:\\Program Files (x86)\\nodejs\\node.exe"]
    );
    assert_eq!(
        find_nodejs(None, &vec![true, true]),
        Ok("C:\\Program Files\\nodejs\\node.exe".to_string())
    );
    assert_eq!(
        find_nodejs(None, &vec![false, true]),
        Ok("C:\\Program Files (x86)\\nodejs\\node.exe".to_string())
    );
    assert_eq!(find_nodejs(None, &vec![false, false]), Err(PluginError::RuntimeNotFound));
    assert_eq!(find_nodejs(None, &vec![]), Err(PluginError::RuntimeNotFound));
    assert_eq!(find_nodejs(None, &vec![false, false, true]), Err(PluginError::RuntimeNotFound));
}

#[test]
fn js_result_reports_success_and_failure() {
    let ok = JsResult::from_outcome(Ok(Json::from_u64(3)));
    assert!(ok.success());
    assert_eq!(ok.result(), &Json::from_u64(3));
    assert_eq!(ok.error(), None);
    let failed = JsResult::from_outcome(Err(PluginError::RuntimeNotFound));
    assert!(!failed.success());
    assert_eq!(failed.result(), &Json::Null);
    assert_eq!(failed.error(), Some("找不到 Node.js 执行环境"));
    let crashed = JsResult::from_outcome(Err(PluginError::ExecutionError("boom".to_string())));
    assert_eq!(crashed.error(), Some("Node.js 执行错误: boom"));
}
