//! The invocation of a method of a plugin: what has to be done for the
//! call, the script that makes it, and how its outcome is read.

use crate::error::{PluginError, PluginErrorView};
use crate::json::{json_text, Json, JsonValue};
use crate::plugin_api::answer_view;
use crate::plugins::{get_plugin, PluginRegistry, RegistryView};
use crate::script::{method_script, method_script_text, script_view};
use crate::text::{after_prefix, join_two, str_equal, strip_prefix};
use vstd::prelude::*;

verus! {

/// The prefix of a method name that stands for a capability of the host.
pub const API_PREFIX: &'static str = "appApi_";

/// What has to be done to call a method of a plugin.
#[derive(Debug, PartialEq, Eq)]
pub enum MethodPlan {
    /// The method names a capability of the host: call it, and start no
    /// runtime.
    CallApi { name: String },
    /// Run the entry module `main` of the package `plugin_id` under the plugin
    /// directory `plugin_dir`.
    RunEntry { plugin_dir: String, plugin_id: String, main: String },
}

/// The mathematical value of a [`MethodPlan`].
pub enum MethodPlanView {
    CallApi { name: Seq<char> },
    RunEntry { plugin_dir: Seq<char>, plugin_id: Seq<char>, main: Seq<char> },
}

impl View for MethodPlan {
    type V = MethodPlanView;

    open spec fn view(&self) -> MethodPlanView {
        match *self {
            MethodPlan::CallApi { name } => MethodPlanView::CallApi { name: name@ },
            MethodPlan::RunEntry { plugin_dir, plugin_id, main } => MethodPlanView::RunEntry {
                plugin_dir: plugin_dir@,
                plugin_id: plugin_id@,
                main: main@,
            },
        }
    }
}

/// What has to be done to call `method` of the plugin `plugin_id`. A method
/// with the prefix of the host's capabilities is a call of the capability
/// whose name is what follows the prefix, whatever the plugin. Any other
/// method needs the plugin to be registered and the plugin directory to be
/// set.
pub open spec fn planned(registry: RegistryView, plugin_id: Seq<char>, method: Seq<char>) -> Result<
    MethodPlanView,
    PluginErrorView,
> {
    match after_prefix(method, API_PREFIX@) {
        Some(name) => Ok(MethodPlanView::CallApi { name }),
        None => match registry.get(plugin_id) {
            None => Err(PluginErrorView::PluginNotFound(plugin_id)),
            Some(record) => match registry.plugin_dir {
                None => Err(PluginErrorView::NotInitialized),
                Some(dir) => Ok(
                    MethodPlanView::RunEntry { plugin_dir: dir, plugin_id, main: record.0.main },
                ),
            },
        },
    }
}

/// The value of the outcome of planning.
pub open spec fn plan_view(plan: Result<MethodPlan, PluginError>) -> Result<
    MethodPlanView,
    PluginErrorView,
> {
    match plan {
        Ok(p) => Ok(p@),
        Err(e) => Err(e@),
    }
}

/// Decides what has to be done to call `method` of the plugin `plugin_id`.
pub fn plan_plugin_method(
    registry: &PluginRegistry,
    plugin_id: &str,
    method: &str,
) -> (plan: Result<MethodPlan, PluginError>)
    ensures
        plan_view(plan) == planned(registry@, plugin_id@, method@),
{
    match strip_prefix(method, API_PREFIX) {
        Some(name) => {
            return Ok(MethodPlan::CallApi { name });
        },
        None => {},
    }
    match get_plugin(registry, plugin_id) {
        Err(e) => Err(e),
        Ok(record) => match registry.plugin_dir() {
            None => Err(PluginError::NotInitialized),
            Some(dir) => Ok(
                MethodPlan::RunEntry {
                    plugin_dir: String::from_str(dir),
                    plugin_id: String::from_str(plugin_id),
                    main: record.0.main,
                },
            ),
        },
    }
}

/// The script for a method of a plugin, or the failure that the entry module
/// is not on disk.
pub open spec fn entry_script_text(
    entry_exists: bool,
    entry_path: Seq<char>,
    method: Seq<char>,
    args: Seq<char>,
) -> Result<Seq<char>, PluginErrorView> {
    if entry_exists {
        Ok(method_script_text(entry_path, method, args))
    } else {
        Err(PluginErrorView::EntryMissing(entry_path))
    }
}

/// Writes the script that calls `method` of the entry module at `entry_path`
/// with the arguments `args`. `entry_exists` says whether the entry module is
/// on disk; no script is written for one that is not.
pub fn entry_script(
    entry_exists: bool,
    entry_path: &str,
    method: &str,
    args: &Json,
) -> (script: Result<String, PluginError>)
    ensures
        script_view(script) == entry_script_text(
            entry_exists,
            entry_path@,
            method@,
            json_text(args@),
        ),
{
    if !entry_exists {
        return Err(PluginError::EntryMissing(String::from_str(entry_path)));
    }
    Ok(method_script(entry_path, method, args))
}

/// What the script prints as its failure where the entry module exports no
/// function `method`.
pub open spec fn missing_function_report(method: Seq<char>) -> Seq<char> {
    "Error: "@ + PluginErrorView::FunctionNotFound(method).message()
}

/// Whether a document is the report of the script that the entry module
/// exports no function `method`: an object whose member `success` is false
/// and whose member `error` holds the words of that report.
pub open spec fn reports_missing_function(v: JsonValue, method: Seq<char>) -> bool {
    v.bool_member("success"@) == Some(false) && v.text_member("error"@) == Some(
        missing_function_report(method),
    )
}

/// The outcome of a call of `method`, from the outcome of the run: the report
/// that the method does not exist is the failure `FunctionNotFound`, any
/// other outcome stands as it is.
pub open spec fn method_result(method: Seq<char>, outcome: Result<JsonValue, PluginErrorView>)
    -> Result<JsonValue, PluginErrorView> {
    match outcome {
        Ok(v) => if reports_missing_function(v, method) {
            Err(PluginErrorView::FunctionNotFound(method))
        } else {
            Ok(v)
        },
        Err(e) => Err(e),
    }
}

/// Reads the outcome of a run as the outcome of the call of `method`.
pub fn method_outcome(method: &str, outcome: Result<Json, PluginError>) -> (result: Result<
    Json,
    PluginError,
>)
    ensures
        answer_view(result) == method_result(method@, answer_view(outcome)),
{
    match outcome {
        Ok(value) => {
            let failed = match value.bool_member("success") {
                Some(false) => true,
                _ => false,
            };
            let missing = if failed {
                match value.text_member("error") {
                    Some(words) => {
                        let expected = join_two(
                            "Error: ",
                            PluginError::FunctionNotFound(String::from_str(method)).message().as_str(),
                        );
                        str_equal(words, expected.as_str())
                    },
                    None => false,
                }
            } else {
                false
            };
            if missing {
                Err(PluginError::FunctionNotFound(String::from_str(method)))
            } else {
                Ok(value)
            }
        },
        Err(e) => Err(e),
    }
}

} // verus!
