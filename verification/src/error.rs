//! The ways in which an operation of the plugin host fails, and the words in
//! which each failure is reported to the user.

use crate::text::{join_two, join_three};
use vstd::prelude::*;

verus! {

/// A failure of the plugin host.
#[derive(Debug, PartialEq, Eq)]
pub enum PluginError {
    /// The manifest is missing, is no JSON object of the expected shape, or
    /// leaves a required field empty. Holds the reason.
    ManifestInvalid(String),
    /// A plugin with this identifier is registered already.
    AlreadyInstalled(String),
    /// No plugin with this identifier is registered.
    PluginNotFound(String),
    /// The plugin directory was never set.
    NotInitialized,
    /// The entry module of the plugin is not on disk. Holds its path.
    EntryMissing(String),
    /// The entry module exports no function of this name.
    FunctionNotFound(String),
    /// No script runtime was found on this machine.
    RuntimeNotFound,
    /// The script runtime failed. Holds what it wrote to standard error.
    ExecutionError(String),
    /// The script runtime did not finish in time.
    ExecutionTimeout,
    /// What the script printed is not what was asked of it. Holds the reason.
    OutputParseFailure(String),
    /// No capability of this name is registered.
    CapabilityNotFound(String),
    /// A capability ran and failed. Holds its own words.
    CapabilityFailed(String),
    /// Reading, writing or copying on disk failed. Holds the reason.
    IoError(String),
}

/// The mathematical value of a [`PluginError`].
pub enum PluginErrorView {
    ManifestInvalid(Seq<char>),
    AlreadyInstalled(Seq<char>),
    PluginNotFound(Seq<char>),
    NotInitialized,
    EntryMissing(Seq<char>),
    FunctionNotFound(Seq<char>),
    RuntimeNotFound,
    ExecutionError(Seq<char>),
    ExecutionTimeout,
    OutputParseFailure(Seq<char>),
    CapabilityNotFound(Seq<char>),
    CapabilityFailed(Seq<char>),
    IoError(Seq<char>),
}

impl View for PluginError {
    type V = PluginErrorView;

    open spec fn view(&self) -> PluginErrorView {
        match *self {
            PluginError::ManifestInvalid(s) => PluginErrorView::ManifestInvalid(s@),
            PluginError::AlreadyInstalled(s) => PluginErrorView::AlreadyInstalled(s@),
            PluginError::PluginNotFound(s) => PluginErrorView::PluginNotFound(s@),
            PluginError::NotInitialized => PluginErrorView::NotInitialized,
            PluginError::EntryMissing(s) => PluginErrorView::EntryMissing(s@),
            PluginError::FunctionNotFound(s) => PluginErrorView::FunctionNotFound(s@),
            PluginError::RuntimeNotFound => PluginErrorView::RuntimeNotFound,
            PluginError::ExecutionError(s) => PluginErrorView::ExecutionError(s@),
            PluginError::ExecutionTimeout => PluginErrorView::ExecutionTimeout,
            PluginError::OutputParseFailure(s) => PluginErrorView::OutputParseFailure(s@),
            PluginError::CapabilityNotFound(s) => PluginErrorView::CapabilityNotFound(s@),
            PluginError::CapabilityFailed(s) => PluginErrorView::CapabilityFailed(s@),
            PluginError::IoError(s) => PluginErrorView::IoError(s@),
        }
    }
}

impl PluginErrorView {
    /// The words in which the failure is reported.
    pub open spec fn message(self) -> Seq<char> {
        match self {
            PluginErrorView::ManifestInvalid(reason) => reason,
            PluginErrorView::AlreadyInstalled(id) => "插件 "@ + id + " 已存在"@,
            PluginErrorView::PluginNotFound(id) => "插件 "@ + id + " 不存在"@,
            PluginErrorView::NotInitialized => "插件系统未初始化"@,
            PluginErrorView::EntryMissing(path) => "插件主文件不存在: "@ + path,
            PluginErrorView::FunctionNotFound(name) => "方法 "@ + name + " 不存在或不是函数"@,
            PluginErrorView::RuntimeNotFound => "找不到 Node.js 执行环境"@,
            PluginErrorView::ExecutionError(stderr) => "Node.js 执行错误: "@ + stderr,
            PluginErrorView::ExecutionTimeout => "Node.js 执行超时"@,
            PluginErrorView::OutputParseFailure(reason) => reason,
            PluginErrorView::CapabilityNotFound(name) => "API 函数 '"@ + name + "' 未注册"@,
            PluginErrorView::CapabilityFailed(reason) => reason,
            PluginErrorView::IoError(reason) => reason,
        }
    }
}

impl PluginError {
    /// The words in which the failure is reported to the user.
    pub fn message(&self) -> (words: String)
        ensures
            words@ == self@.message(),
    {
        match self {
            PluginError::ManifestInvalid(reason) => reason.clone(),
            PluginError::AlreadyInstalled(id) => join_three("插件 ", id.as_str(), " 已存在"),
            PluginError::PluginNotFound(id) => join_three("插件 ", id.as_str(), " 不存在"),
            PluginError::NotInitialized => String::from_str("插件系统未初始化"),
            PluginError::EntryMissing(path) => join_two("插件主文件不存在: ", path.as_str()),
            PluginError::FunctionNotFound(name) => join_three(
                "方法 ",
                name.as_str(),
                " 不存在或不是函数",
            ),
            PluginError::RuntimeNotFound => String::from_str("找不到 Node.js 执行环境"),
            PluginError::ExecutionError(stderr) => join_two("Node.js 执行错误: ", stderr.as_str()),
            PluginError::ExecutionTimeout => String::from_str("Node.js 执行超时"),
            PluginError::OutputParseFailure(reason) => reason.clone(),
            PluginError::CapabilityNotFound(name) => join_three(
                "API 函数 '",
                name.as_str(),
                "' 未注册",
            ),
            PluginError::CapabilityFailed(reason) => reason.clone(),
            PluginError::IoError(reason) => reason.clone(),
        }
    }
}

impl Clone for PluginError {
    fn clone(&self) -> (copy: PluginError)
        ensures
            copy@ == self@,
    {
        match self {
            PluginError::ManifestInvalid(s) => PluginError::ManifestInvalid(s.clone()),
            PluginError::AlreadyInstalled(s) => PluginError::AlreadyInstalled(s.clone()),
            PluginError::PluginNotFound(s) => PluginError::PluginNotFound(s.clone()),
            PluginError::NotInitialized => PluginError::NotInitialized,
            PluginError::EntryMissing(s) => PluginError::EntryMissing(s.clone()),
            PluginError::FunctionNotFound(s) => PluginError::FunctionNotFound(s.clone()),
            PluginError::RuntimeNotFound => PluginError::RuntimeNotFound,
            PluginError::ExecutionError(s) => PluginError::ExecutionError(s.clone()),
            PluginError::ExecutionTimeout => PluginError::ExecutionTimeout,
            PluginError::OutputParseFailure(s) => PluginError::OutputParseFailure(s.clone()),
            PluginError::CapabilityNotFound(s) => PluginError::CapabilityNotFound(s.clone()),
            PluginError::CapabilityFailed(s) => PluginError::CapabilityFailed(s.clone()),
            PluginError::IoError(s) => PluginError::IoError(s.clone()),
        }
    }
}

} // verus!
