use moro_host::error::PluginError;
use moro_host::javascript::interpret_output;
use moro_host::json::Json;
use moro_host::invocation::{
    entry_script, method_outcome, plan_plugin_method, MethodPlan, API_PREFIX,
};
use moro_host::plugins::{register_plugin, PluginInfo, PluginRegistry};
use moro_host::script::{
    exports_script, function_script, function_script_from_text, method_script,
    method_script_from_text, LOCAL_FILE_API, METHOD_ARGS, METHOD_BRIDGE, METHOD_CALL,
    METHOD_CHECK, METHOD_CLOSE, METHOD_OPEN, METHOD_THROW,
};

fn plugin(id: &str, main: &str) -> PluginInfo {
    PluginInfo {
        name: id.to_string(),
        id: id.to_string(),
        display_name: None,
        version: "1".to_string(),
        description: "".to_string(),
        main: main.to_string(),
        author: None,
        requires_file_selection: None,
        file_filters: None,
        requires_output_file_selection: None,
        output_file_filters: None,
        default_output_file_name: None,
    }
}

fn registry_with(id: &str, main: &str) -> PluginRegistry {
    let mut registry = PluginRegistry::new();
    registry.set_plugin_dir("/data/plugins");
    register_plugin(&mut registry, plugin(id, main));
    registry
}

#[test]
fn prefixed_method_is_a_capability_call_whatever_the_plugin() {
    assert_eq!(API_PREFIX, "appApi_");
    let registry = PluginRegistry::new();
    assert_eq!(
        plan_plugin_method(&registry, "ghost", "appApi_readFile"),
        Ok(MethodPlan::CallApi { name: "readFile".to_string() })
    );
    assert_eq!(
        plan_plugin_method(&registry, "ghost", "appApi_appApi_x"),
        Ok(MethodPlan::CallApi { name: "appApi_x".to_string() })
    );
    assert_eq!(
        plan_plugin_method(&registry, "ghost", "appApi_"),
        Ok(MethodPlan::CallApi { name: "".to_string() })
    );
}

#[test]
fn method_of_an_unknown_plugin_is_refused() {
    let registry = registry_with("wc", "index.js");
    assert_eq!(
        plan_plugin_method(&registry, "ghost", "count"),
        Err(PluginError::PluginNotFound("ghost".to_string()))
    );
    assert_eq!(
        plan_plugin_method(&registry, "ghost", "appapi_count"),
        Err(PluginError::PluginNotFound("ghost".to_string()))
    );
}

#[test]
fn method_needs_the_plugin_directory() {
    let mut registry = PluginRegistry::new();
    register_plugin(&mut registry, plugin("wc", "index.js"));
    assert_eq!(plan_plugin_method(&registry, "wc", "count"), Err(PluginError::NotInitialized));
}

#[test]
fn method_of_a_plugin_runs_its_entry_module() {
    let registry = registry_with("wc", "dist/index.js");
    assert_eq!(
        plan_plugin_method(&registry, "wc", "count"),
        Ok(MethodPlan::RunEntry {
            plugin_dir: "/data/plugins".to_string(),
            plugin_id: "wc".to_string(),
            main: "dist/index.js".to_string(),
        })
    );
}

#[test]
fn missing_entry_module_gives_no_script() {
    let failure = entry_script(false, "/data/plugins/wc/index.js", "count", &Json::Null).unwrap_err();
    assert_eq!(failure, PluginError::EntryMissing("/data/plugins/wc/index.js".to_string()));
    assert_eq!(failure.message(), "插件主文件不存在: /data/plugins/wc/index.js");
}

#[test]
fn method_script_puts_the_call_into_the_template() {
    let script = entry_script(true, "C:\\plugins\\d\\index.js", "double", &Json::from_u64(21)).unwrap();
    let expected = [
        METHOD_OPEN,
        LOCAL_FILE_API,
        METHOD_BRIDGE,
        "C:\\\\plugins\\\\d\\\\index.js",
        METHOD_CHECK,
        "double",
        METHOD_THROW,
        "double",
        METHOD_CALL,
        "double",
        METHOD_ARGS,
        "21",
        METHOD_CLOSE,
    ]
    .concat();
    assert_eq!(script, expected);
    assert_eq!(script, method_script("C:\\plugins\\d\\index.js", "double", &Json::from_u64(21)));
    assert_eq!(script, method_script_from_text("C:\\plugins\\d\\index.js", "double", "21"));
}

#[test]
fn method_script_loads_checks_calls_and_prints() {
    let script = method_script("/p/d/index.js", "double", &Json::from_u64(21));
    assert!(script.contains("const plugin = require('/p/d/index.js');"));
    assert!(script.contains("if (typeof plugin.double !== 'function') {"));
    assert!(script.contains("throw new Error('方法 double 不存在或不是函数');"));
    assert!(script.contains("const result = plugin.double(21);"));
    assert!(script.contains("console.log(JSON.stringify({ success: true, result }));"));
    assert!(script.contains("console.log(JSON.stringify({ success: false, error: error.toString() }));"));
    assert!(script.contains("global.appApi = {"));
    assert!(script.contains("process.env.APP_API_RESULT_FILE"));
    assert!(script.contains("return { success: false, error: '未找到API结果或API调用失败' };"));
    assert!(script.contains("process.env.APP_API_RESULT;"));
    assert!(script.contains("readFile: function(args) {"));
    assert!(script.contains("writeFile: function(args) {"));
    assert!(script.contains("throw new Error(`读取文件失败: ${err.message}`);"));
    assert!(!script.contains("{{"));
    assert!(script.starts_with("\n        try {\n"));
}

#[test]
fn method_script_prints_the_arguments_as_json() {
    let args = Json::Object(vec![
        ("text".to_string(), Json::text("a \"b\"")),
        ("n".to_string(), Json::from_u64(2)),
    ]);
    let script = method_script("/p/index.js", "run", &args);
    assert!(script.contains("const result = plugin.run({\"n\":2,\"text\":\"a \\\"b\\\"\"});"));
}

/// The arguments of every `console.log` call in `script`, up to the closing
/// bracket of the call.
fn written_to_standard_output(script: &str) -> Vec<String> {
    script
        .match_indices("console.log(")
        .map(|(at, _)| {
            let rest = &script[at..];
            rest[..rest.find(";").unwrap_or(rest.len())].to_string()
        })
        .collect()
}

#[test]
fn method_script_writes_only_json_lines_to_standard_output() {
    let script = method_script("/p/d/index.js", "double", &Json::from_u64(21));
    assert_eq!(
        written_to_standard_output(&script),
        vec![
            "console.log(JSON.stringify(result))",
            "console.log(JSON.stringify({ success: true, result }))",
            "console.log(JSON.stringify({ success: false, error: error.toString() }))",
        ]
    );
    assert!(script.contains("console.error('将插件结果包装为标准格式:', JSON.stringify(result));"));
    assert!(script.contains("console.error('插件返回了标准格式结果:', JSON.stringify(result));"));
}

#[test]
fn double_of_21_comes_back_as_42() {
    let script = entry_script(true, "/p/d/index.js", "double", &Json::from_u64(21)).unwrap();
    assert!(script.contains("const result = plugin.double(21);"));
    assert!(script.contains("console.log(JSON.stringify({ success: true, result }));"));
    // What the script writes for the result 42: the line above on standard
    // output, and its report of the wrapping on standard error.
    let stdout = "{\"success\":true,\"result\":42}\n";
    let stderr = "将插件结果包装为标准格式: 42\n";
    let outcome = method_outcome("double", interpret_output(true, stdout, stderr)).unwrap();
    assert_eq!(
        outcome,
        Json::Object(vec![
            ("result".to_string(), Json::from_u64(42)),
            ("success".to_string(), Json::Bool(true)),
        ])
    );
    assert_eq!(outcome, Json::parse("{\"success\":true,\"result\":42}").unwrap());
}

#[test]
fn debug_text_before_the_json_line_would_not_be_read_as_the_envelope() {
    let mixed = "将插件结果包装为标准格式: 42\n{\"success\":true,\"result\":42}\n";
    assert_eq!(interpret_output(true, mixed, ""), Ok(Json::text(mixed)));
}

#[test]
fn missing_export_yields_function_not_found() {
    let script = method_script("/p/d/index.js", "missing", &Json::Object(vec![]));
    assert!(script.contains("if (typeof plugin.missing !== 'function') {"));
    assert!(script.contains("throw new Error('方法 missing 不存在或不是函数');"));
    let printed = "{\"success\":false,\"error\":\"Error: 方法 missing 不存在或不是函数\"}\n";
    let outcome = interpret_output(true, printed, "");
    assert_eq!(
        outcome.as_ref().unwrap().text_member("error"),
        Some("Error: 方法 missing 不存在或不是函数")
    );
    assert_eq!(
        method_outcome("missing", outcome),
        Err(PluginError::FunctionNotFound("missing".to_string()))
    );
}

#[test]
fn method_outcome_leaves_other_outcomes_as_they_are() {
    let success = interpret_output(true, "{\"success\":true,\"result\":42}", "");
    assert_eq!(method_outcome("double", success), interpret_output(true, "{\"success\":true,\"result\":42}", ""));
    let thrown = "{\"success\":false,\"error\":\"Error: something else\"}";
    assert_eq!(method_outcome("double", interpret_output(true, thrown, "")), interpret_output(true, thrown, ""));
    let other_method = "{\"success\":false,\"error\":\"Error: 方法 missing 不存在或不是函数\"}";
    assert_eq!(
        method_outcome("double", interpret_output(true, other_method, "")),
        interpret_output(true, other_method, "")
    );
    let claims_success = "{\"success\":true,\"error\":\"Error: 方法 double 不存在或不是函数\"}";
    assert!(method_outcome("double", interpret_output(true, claims_success, "")).is_ok());
    assert_eq!(
        method_outcome("double", Err(PluginError::RuntimeNotFound)),
        Err(PluginError::RuntimeNotFound)
    );
}

#[test]
fn function_script_calls_the_module_beside_it() {
    assert_eq!(
        function_script_from_text("index.js", "f", "[1,2]"),
        "const plugin = require('./index.js');if (typeof plugin.f !== 'function') {throw new Error('Function f not found in plugin');}return plugin.f([1,2])"
    );
    assert_eq!(
        function_script("index.js", "f", &Json::Array(vec![Json::from_u64(1), Json::from_u64(2)])),
        function_script_from_text("index.js", "f", "[1,2]")
    );
}

#[test]
fn exports_script_names_the_module() {
    assert!(exports_script("main.js").starts_with("const plugin = require('main.js');"));
    assert!(exports_script("main.js").ends_with("return exports;"));
}
