//! A host for plugins: packages of script code with a manifest, whose
//! functions the host calls in an external runtime.
//!
//! The library holds what the host decides and computes. It reads manifests
//! ([`manifest`]) and keeps the registry of installed plugins ([`plugins`]),
//! binds the capabilities that the host offers to plugin code and works out
//! what each call asks of the machine ([`plugin_api`]), plans the call of a
//! method of a plugin ([`invocation`]), writes the scripts that the runtime
//! executes ([`script`]), and reads what the runtime printed
//! ([`javascript`]). Nothing here touches the disk, starts a process or opens
//! a window: the caller does that and hands over what it found.
//!
//! Beside the plugin host stand the smaller computations of the application
//! around it: requests to an embedding store and to providers of language
//! models ([`ai`]), the records of the chat history ([`database`]), and what
//! is decided before a picture is turned into an icon ([`image_converter`])
//! or a spreadsheet is cleaned ([`excel`]).

pub mod ai;
pub mod database;
pub mod error;
pub mod excel;
pub mod image_converter;
pub mod invocation;
pub mod javascript;
pub mod json;
pub mod manifest;
pub mod plugin_api;
pub mod plugins;
pub mod script;
pub mod text;
