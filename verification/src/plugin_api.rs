//! The capabilities that the host offers to plugins: the table that binds
//! names to them, what each asks of the host, and what it answers.
//!
//! A capability touches the machine (a dialog, a file, the clock), which this
//! library never does. A call is therefore made in two steps. [`call_api`]
//! reads the arguments and either answers at once or says what the host has
//! to do; [`finish_call`] turns what the host reports into the answer.

use crate::error::{PluginError, PluginErrorView};
use crate::json::{
    items_value, json_text, lemma_member_push, members_value, push_member, Json, JsonValue,
};
use crate::javascript::{wrap_user_code, wrapped};
use crate::plugins::{get_plugin, PluginRegistry, RegistryView};
use crate::script::{
    exports_script, exports_script_text, function_script, function_script_text, script_view,
};
use crate::text::{join_two, decimal, str_equal, texts, trim_start_char, without_leading};
use vstd::prelude::*;

verus! {

/// A capability of the host.
#[derive(Clone, Copy, Debug, PartialEq, Eq, Structural)]
pub enum Capability {
    /// Lets the user pick a file to open or to save.
    OpenFileDialog,
    /// Lets the user pick a folder.
    OpenFolderDialog,
    /// Shows a message to the user.
    ShowNotification,
    /// Reads a text file.
    ReadFile,
    /// Writes a text file.
    WriteFile,
    /// Describes a file.
    GetFileInfo,
    /// Reads the clipboard.
    GetClipboardText,
    /// Fills the clipboard.
    SetClipboardText,
    /// Describes the machine.
    GetSystemInfo,
}

/// The mathematical value of an [`ApiRegistry`]: the bindings in the order in
/// which their names were first bound.
pub struct ApiTable {
    pub entries: Seq<(Seq<char>, Capability)>,
}

impl ApiTable {
    /// No name is bound twice.
    pub open spec fn wf(self) -> bool {
        forall|i: int, j: int|
            0 <= i < j < self.entries.len() ==> (#[trigger] self.entries[i]).0 != (
            #[trigger] self.entries[j]).0
    }

    /// Whether the binding at position `i` is the first of `name`.
    pub open spec fn first_at(self, name: Seq<char>, i: int) -> bool {
        &&& 0 <= i < self.entries.len()
        &&& self.entries[i].0 == name
        &&& forall|k: int| 0 <= k < i ==> (#[trigger] self.entries[k]).0 != name
    }

    /// Whether `name` is bound.
    pub open spec fn contains(self, name: Seq<char>) -> bool {
        exists|i: int| self.first_at(name, i)
    }

    /// The position of the first binding of `name`.
    pub open spec fn slot(self, name: Seq<char>) -> int {
        choose|i: int| self.first_at(name, i)
    }

    /// The capability bound to `name`.
    pub open spec fn get(self, name: Seq<char>) -> Option<Capability> {
        if self.contains(name) {
            Some(self.entries[self.slot(name)].1)
        } else {
            None
        }
    }

    /// The table after `name` was bound to `handler`: the binding replaces
    /// that of the same name, or is added at the end.
    pub open spec fn bind(self, name: Seq<char>, handler: Capability) -> ApiTable {
        if self.contains(name) {
            ApiTable { entries: self.entries.update(self.slot(name), (name, handler)) }
        } else {
            ApiTable { entries: self.entries.push((name, handler)) }
        }
    }

    /// The bound names, in the order of the table.
    pub open spec fn names(self) -> Seq<Seq<char>> {
        Seq::new(self.entries.len(), |i: int| self.entries[i].0)
    }

    /// The first binding of a name is at one position only.
    pub proof fn lemma_slot(self, name: Seq<char>, i: int)
        requires
            self.first_at(name, i),
        ensures
            self.contains(name),
            self.slot(name) == i,
    {
        let j = self.slot(name);
        assert(self.first_at(name, j));
        if i < j {
            assert(self.entries[i].0 != name);
        }
        if j < i {
            assert(self.entries[j].0 != name);
        }
    }

    /// A table that binds `name` at any position contains `name`.
    pub proof fn lemma_contains(self, name: Seq<char>, i: int)
        requires
            0 <= i < self.entries.len(),
            self.entries[i].0 == name,
        ensures
            self.contains(name),
        decreases i,
    {
        if forall|k: int| 0 <= k < i ==> (#[trigger] self.entries[k]).0 != name {
            assert(self.first_at(name, i));
        } else {
            let k = choose|k: int| 0 <= k < i && (#[trigger] self.entries[k]).0 == name;
            self.lemma_contains(name, k);
        }
    }

    /// A table that binds `name` at no position does not contain `name`.
    pub proof fn lemma_absent(self, name: Seq<char>)
        requires
            forall|k: int| 0 <= k < self.entries.len() ==> (#[trigger] self.entries[k]).0 != name,
        ensures
            !self.contains(name),
    {
        if self.contains(name) {
            let j = self.slot(name);
            assert(self.first_at(name, j));
            assert(self.entries[j].0 != name);
        }
    }

    /// After `name` was bound to `handler`, the table gives `handler` for
    /// `name` and what it gave before for every other name, and a table
    /// without a name bound twice stays so.
    pub proof fn lemma_bind(self, name: Seq<char>, handler: Capability, other: Seq<char>)
        ensures
            self.bind(name, handler).get(name) == Some(handler),
            other != name ==> self.bind(name, handler).get(other) == self.get(other),
            self.wf() ==> self.bind(name, handler).wf(),
    {
        let after = self.bind(name, handler);
        let replaced = self.contains(name);
        let s = self.slot(name);
        let n = self.entries.len() as int;
        if replaced {
            assert(self.first_at(name, s));
        } else {
            assert forall|k: int| 0 <= k < n implies (#[trigger] self.entries[k]).0 != name by {
                if self.entries[k].0 == name {
                    self.lemma_contains(name, k);
                }
            }
        }
        let at = if replaced {
            s
        } else {
            n
        };
        assert forall|k: int| 0 <= k < n && k != at implies #[trigger] after.entries[k]
            == self.entries[k] by {}
        assert(after.first_at(name, at));
        after.lemma_slot(name, at);
        if other != name {
            if self.contains(other) {
                let t = self.slot(other);
                assert(self.first_at(other, t));
                assert(after.entries[t] == self.entries[t]);
                assert forall|k: int| 0 <= k < t implies (#[trigger] after.entries[k]).0
                    != other by {
                    if k != at {
                        assert(after.entries[k] == self.entries[k]);
                    }
                }
                assert(after.first_at(other, t));
                after.lemma_slot(other, t);
            } else {
                assert forall|k: int| 0 <= k < after.entries.len() implies (
                #[trigger] after.entries[k]).0 != other by {
                    if k != at {
                        assert(after.entries[k] == self.entries[k]);
                        if self.entries[k].0 == other {
                            self.lemma_contains(other, k);
                        }
                    }
                }
                after.lemma_absent(other);
            }
        }
        if self.wf() {
            assert forall|i: int, j: int| 0 <= i < j < after.entries.len() implies (
            #[trigger] after.entries[i]).0 != (#[trigger] after.entries[j]).0 by {
                if i != at {
                    assert(after.entries[i] == self.entries[i]);
                }
                if j != at {
                    assert(after.entries[j] == self.entries[j]);
                }
                if replaced {
                    assert(self.entries[i].0 != self.entries[j].0);
                }
            }
        }
    }
}

/// The table of the host's capabilities, by name.
pub struct ApiRegistry {
    entries: Vec<(String, Capability)>,
}

/// The values of a list of bindings.
pub open spec fn bindings(entries: Seq<(String, Capability)>) -> Seq<(Seq<char>, Capability)> {
    Seq::new(entries.len(), |i: int| (entries[i].0@, entries[i].1))
}

impl View for ApiRegistry {
    type V = ApiTable;

    closed spec fn view(&self) -> ApiTable {
        ApiTable { entries: bindings(self.entries@) }
    }
}

impl ApiRegistry {
    /// A table without bindings.
    pub fn new() -> (registry: ApiRegistry)
        ensures
            registry@.entries.len() == 0,
            registry@.wf(),
    {
        let registry = ApiRegistry { entries: Vec::new() };
        assert(registry@.entries =~= Seq::empty());
        registry
    }

    /// The position of the first binding of `name`.
    fn find(&self, name: &str) -> (found: Option<usize>)
        ensures
            match found {
                Some(i) => self@.contains(name@) && self@.slot(name@) == i && i
                    < self.entries.len(),
                None => !self@.contains(name@),
            },
    {
        let mut i: usize = 0;
        while i < self.entries.len()
            invariant
                i <= self.entries.len(),
                forall|k: int| 0 <= k < i ==> (#[trigger] self@.entries[k]).0 != name@,
            decreases self.entries.len() - i,
        {
            if str_equal(self.entries[i].0.as_str(), name) {
                proof {
                    assert(self@.first_at(name@, i as int));
                    self@.lemma_slot(name@, i as int);
                }
                return Some(i);
            }
            i += 1;
        }
        proof {
            self@.lemma_absent(name@);
        }
        None
    }

    /// The capability bound to `name`.
    pub fn lookup(&self, name: &str) -> (found: Option<Capability>)
        ensures
            found == self@.get(name@),
    {
        match self.find(name) {
            Some(i) => Some(self.entries[i].1),
            None => None,
        }
    }
}

/// Binds `name` to `handler`. An earlier binding of the name is replaced.
pub fn register_api(registry: &mut ApiRegistry, name: &str, handler: Capability)
    ensures
        final(registry)@ == old(registry)@.bind(name@, handler),
        old(registry)@.wf() ==> final(registry)@.wf(),
{
    let ghost before = registry@;
    proof {
        before.lemma_bind(name@, handler, name@);
    }
    let ghost added = (name@, handler);
    match registry.find(name) {
        Some(i) => {
            registry.entries.set(i, (String::from_str(name), handler));
            assert(registry@.entries =~= before.entries.update(i as int, added));
        },
        None => {
            registry.entries.push((String::from_str(name), handler));
            assert(registry@.entries =~= before.entries.push(added));
        },
    }
}

/// The names of all capabilities that can be called.
pub fn list_available_apis(registry: &ApiRegistry) -> (names: Vec<String>)
    ensures
        texts(names@) == registry@.names(),
{
    let mut out: Vec<String> = Vec::new();
    let mut i: usize = 0;
    while i < registry.entries.len()
        invariant
            i <= registry.entries.len(),
            out@.len() == i,
            forall|k: int| 0 <= k < i ==> (#[trigger] out@[k])@ == registry.entries@[k].0@,
        decreases registry.entries.len() - i,
    {
        out.push(registry.entries[i].0.clone());
        i += 1;
    }
    assert(texts(out@) =~= registry@.names());
    out
}

/// The table after the capabilities of the host were bound to their names.
pub open spec fn with_host_capabilities(table: ApiTable) -> ApiTable {
    table.bind("openFileDialog"@, Capability::OpenFileDialog).bind(
        "openFolderDialog"@,
        Capability::OpenFolderDialog,
    ).bind("showNotification"@, Capability::ShowNotification).bind(
        "readFile"@,
        Capability::ReadFile,
    ).bind("writeFile"@, Capability::WriteFile).bind("getFileInfo"@, Capability::GetFileInfo).bind(
        "getClipboardText"@,
        Capability::GetClipboardText,
    ).bind("setClipboardText"@, Capability::SetClipboardText).bind(
        "getSystemInfo"@,
        Capability::GetSystemInfo,
    )
}

/// Binds every capability of the host to the name under which plugins call it.
pub fn initialize_plugin_api(registry: &mut ApiRegistry)
    ensures
        final(registry)@ == with_host_capabilities(old(registry)@),
        old(registry)@.wf() ==> final(registry)@.wf(),
{
    register_api(registry, "openFileDialog", Capability::OpenFileDialog);
    register_api(registry, "openFolderDialog", Capability::OpenFolderDialog);
    register_api(registry, "showNotification", Capability::ShowNotification);
    register_api(registry, "readFile", Capability::ReadFile);
    register_api(registry, "writeFile", Capability::WriteFile);
    register_api(registry, "getFileInfo", Capability::GetFileInfo);
    register_api(registry, "getClipboardText", Capability::GetClipboardText);
    register_api(registry, "setClipboardText", Capability::SetClipboardText);
    register_api(registry, "getSystemInfo", Capability::GetSystemInfo);
}

/// What a capability asks the host to do.
#[derive(Debug, PartialEq, Eq)]
pub enum HostRequest {
    /// Let the user pick a file to open. `extensions` limits the choice to
    /// files with one of these extensions, unless it is empty.
    PickFile { title: String, extensions: Vec<String> },
    /// Let the user pick where to save a file.
    SaveFile { title: String },
    /// Let the user pick a folder.
    PickFolder { title: String },
    /// Show a message.
    ShowMessage { title: String, message: String },
    /// Read the file at `path` as text.
    ReadFile { path: String },
    /// Write `content` to the file at `path`.
    WriteFile { path: String, content: String },
    /// Describe the file at `path`.
    FileInfo { path: String },
    /// Describe the machine and tell the time.
    SystemInfo,
}

/// The mathematical value of a [`HostRequest`].
pub enum HostRequestView {
    PickFile { title: Seq<char>, extensions: Seq<Seq<char>> },
    SaveFile { title: Seq<char> },
    PickFolder { title: Seq<char> },
    ShowMessage { title: Seq<char>, message: Seq<char> },
    ReadFile { path: Seq<char> },
    WriteFile { path: Seq<char>, content: Seq<char> },
    FileInfo { path: Seq<char> },
    SystemInfo,
}

impl View for HostRequest {
    type V = HostRequestView;

    open spec fn view(&self) -> HostRequestView {
        match *self {
            HostRequest::PickFile { title, extensions } => HostRequestView::PickFile {
                title: title@,
                extensions: texts(extensions@),
            },
            HostRequest::SaveFile { title } => HostRequestView::SaveFile { title: title@ },
            HostRequest::PickFolder { title } => HostRequestView::PickFolder { title: title@ },
            HostRequest::ShowMessage { title, message } => HostRequestView::ShowMessage {
                title: title@,
                message: message@,
            },
            HostRequest::ReadFile { path } => HostRequestView::ReadFile { path: path@ },
            HostRequest::WriteFile { path, content } => HostRequestView::WriteFile {
                path: path@,
                content: content@,
            },
            HostRequest::FileInfo { path } => HostRequestView::FileInfo { path: path@ },
            HostRequest::SystemInfo => HostRequestView::SystemInfo,
        }
    }
}

/// What the host found out about a file.
#[derive(Debug, PartialEq, Eq)]
pub struct FileFacts {
    /// The last component of the path.
    pub name: String,
    /// The length in bytes.
    pub size: u64,
    pub is_directory: bool,
    pub is_file: bool,
    /// The extension of the file name, without the dot.
    pub extension: String,
    /// The time of the last change, in seconds since 1970, where it is known.
    pub last_modified: Option<u64>,
}

/// The mathematical value of [`FileFacts`].
pub struct FileFactsView {
    pub name: Seq<char>,
    pub size: u64,
    pub is_directory: bool,
    pub is_file: bool,
    pub extension: Seq<char>,
    pub last_modified: Option<u64>,
}

impl View for FileFacts {
    type V = FileFactsView;

    open spec fn view(&self) -> FileFactsView {
        FileFactsView {
            name: self.name@,
            size: self.size,
            is_directory: self.is_directory,
            is_file: self.is_file,
            extension: self.extension@,
            last_modified: self.last_modified,
        }
    }
}

/// What the host reports after it did what a [`HostRequest`] asked.
#[derive(Debug, PartialEq, Eq)]
pub enum HostReply {
    /// The path that the user picked, or `None` where the user picked none.
    Picked(Option<String>),
    /// The message was shown.
    Shown,
    /// The text of the file, or why it could not be read.
    Content(Result<String, String>),
    /// The file was written, or why it could not be.
    Written(Result<(), String>),
    /// There is no file at the path.
    NoSuchFile,
    /// The file is there, but its description could not be had; holds why.
    NoFileFacts(String),
    /// The description of the file.
    Facts(FileFacts),
    /// The operating system, the processor architecture, the version of the
    /// host, and the time.
    System { os: String, arch: String, version: String, timestamp: String },
}

/// The mathematical value of a [`HostReply`].
pub enum HostReplyView {
    Picked(Option<Seq<char>>),
    Shown,
    Content(Result<Seq<char>, Seq<char>>),
    Written(Result<(), Seq<char>>),
    NoSuchFile,
    NoFileFacts(Seq<char>),
    Facts(FileFactsView),
    System { os: Seq<char>, arch: Seq<char>, version: Seq<char>, timestamp: Seq<char> },
}

impl View for HostReply {
    type V = HostReplyView;

    open spec fn view(&self) -> HostReplyView {
        match *self {
            HostReply::Picked(Some(path)) => HostReplyView::Picked(Some(path@)),
            HostReply::Picked(None) => HostReplyView::Picked(None),
            HostReply::Shown => HostReplyView::Shown,
            HostReply::Content(Ok(text)) => HostReplyView::Content(Ok(text@)),
            HostReply::Content(Err(why)) => HostReplyView::Content(Err(why@)),
            HostReply::Written(Ok(_)) => HostReplyView::Written(Ok(())),
            HostReply::Written(Err(why)) => HostReplyView::Written(Err(why@)),
            HostReply::NoSuchFile => HostReplyView::NoSuchFile,
            HostReply::NoFileFacts(why) => HostReplyView::NoFileFacts(why@),
            HostReply::Facts(facts) => HostReplyView::Facts(facts@),
            HostReply::System { os, arch, version, timestamp } => HostReplyView::System {
                os: os@,
                arch: arch@,
                version: version@,
                timestamp: timestamp@,
            },
        }
    }
}

/// The value of an answer: a document or a failure.
pub open spec fn answer_view(answer: Result<Json, PluginError>) -> Result<
    JsonValue,
    PluginErrorView,
> {
    match answer {
        Ok(json) => Ok(json@),
        Err(e) => Err(e@),
    }
}

/// How far a call of a capability got.
#[derive(Debug, PartialEq)]
pub enum ApiStep {
    /// The call is answered.
    Done(Result<Json, PluginError>),
    /// The host has to act first; [`finish_call`] then gives the answer.
    Ask(HostRequest),
}

/// The mathematical value of an [`ApiStep`].
pub enum ApiStepView {
    Done(Result<JsonValue, PluginErrorView>),
    Ask(HostRequestView),
}

impl View for ApiStep {
    type V = ApiStepView;

    open spec fn view(&self) -> ApiStepView {
        match *self {
            ApiStep::Done(answer) => ApiStepView::Done(answer_view(answer)),
            ApiStep::Ask(request) => ApiStepView::Ask(request@),
        }
    }
}

/// The string member `key` of the arguments, or `fallback` where the
/// arguments hold no such string.
pub open spec fn text_or(args: JsonValue, key: Seq<char>, fallback: Seq<char>) -> Seq<char> {
    match args.text_member(key) {
        Some(s) => s,
        None => fallback,
    }
}

/// The boolean member `key` of the arguments, or `fallback` where the
/// arguments hold no such boolean.
pub open spec fn bool_or(args: JsonValue, key: Seq<char>, fallback: bool) -> bool {
    match args.bool_member(key) {
        Some(b) => b,
        None => fallback,
    }
}

/// The texts of those items that are strings, in order.
pub open spec fn strings_among(items: Seq<JsonValue>) -> Seq<Seq<char>>
    decreases items.len(),
{
    if items.len() == 0 {
        Seq::empty()
    } else {
        match items.last() {
            JsonValue::Text(s) => strings_among(items.drop_last()).push(s),
            _ => strings_among(items.drop_last()),
        }
    }
}

/// The file filters that the arguments give: the strings of the array member
/// `filters`.
pub open spec fn filters_of(args: JsonValue) -> Seq<Seq<char>> {
    match args.get("filters"@) {
        Some(JsonValue::Array(items)) => strings_among(items),
        _ => Seq::empty(),
    }
}

/// The extensions that the filters stand for: each filter without its leading
/// dots.
pub open spec fn extensions_of(filters: Seq<Seq<char>>) -> Seq<Seq<char>> {
    Seq::new(filters.len(), |i: int| without_leading(filters[i], '.'))
}

/// The failure of a capability that was called without the path it needs.
pub open spec fn no_path() -> Result<JsonValue, PluginErrorView> {
    Err(PluginErrorView::CapabilityFailed("未指定文件路径"@))
}

/// The first step of a call of `capability` with the arguments `args`.
pub open spec fn begun(capability: Capability, args: JsonValue) -> ApiStepView {
    match capability {
        Capability::OpenFileDialog => if bool_or(args, "save"@, false) {
            ApiStepView::Ask(HostRequestView::SaveFile { title: text_or(args, "title"@, "选择文件"@) })
        } else {
            ApiStepView::Ask(
                HostRequestView::PickFile {
                    title: text_or(args, "title"@, "选择文件"@),
                    extensions: extensions_of(filters_of(args)),
                },
            )
        },
        Capability::OpenFolderDialog => ApiStepView::Ask(
            HostRequestView::PickFolder { title: text_or(args, "title"@, "选择文件夹"@) },
        ),
        Capability::ShowNotification => ApiStepView::Ask(
            HostRequestView::ShowMessage {
                title: text_or(args, "title"@, "通知"@),
                message: text_or(args, "message"@, ""@),
            },
        ),
        Capability::ReadFile => match args.text_member("path"@) {
            Some(path) => ApiStepView::Ask(HostRequestView::ReadFile { path }),
            None => ApiStepView::Done(no_path()),
        },
        Capability::WriteFile => match args.text_member("path"@) {
            Some(path) => ApiStepView::Ask(
                HostRequestView::WriteFile { path, content: text_or(args, "content"@, ""@) },
            ),
            None => ApiStepView::Done(no_path()),
        },
        Capability::GetFileInfo => match args.text_member("path"@) {
            Some(path) => ApiStepView::Ask(HostRequestView::FileInfo { path }),
            None => ApiStepView::Done(no_path()),
        },
        Capability::GetClipboardText => ApiStepView::Done(Ok(JsonValue::Text("模拟剪贴板内容"@))),
        Capability::SetClipboardText => ApiStepView::Done(Ok(JsonValue::Bool(true))),
        Capability::GetSystemInfo => ApiStepView::Ask(HostRequestView::SystemInfo),
    }
}

/// A number, or null where there is none.
pub open spec fn number_or_null(n: Option<u64>) -> JsonValue {
    match n {
        Some(x) => JsonValue::Number(decimal(x as nat)),
        None => JsonValue::Null,
    }
}

/// The description of a file as a document.
pub open spec fn file_facts_json(path: Seq<char>, facts: FileFactsView) -> JsonValue {
    JsonValue::Object(
        Seq::empty().push(("extension"@, JsonValue::Text(facts.extension))).push(
            ("isDirectory"@, JsonValue::Bool(facts.is_directory)),
        ).push(("isFile"@, JsonValue::Bool(facts.is_file))).push(
            ("lastModified"@, number_or_null(facts.last_modified)),
        ).push(("name"@, JsonValue::Text(facts.name))).push(("path"@, JsonValue::Text(path))).push(
            ("size"@, JsonValue::Number(decimal(facts.size as nat))),
        ),
    )
}

/// The description of the machine as a document.
pub open spec fn system_json(
    os: Seq<char>,
    arch: Seq<char>,
    version: Seq<char>,
    timestamp: Seq<char>,
) -> JsonValue {
    JsonValue::Object(
        Seq::empty().push(("arch"@, JsonValue::Text(arch))).push(("os"@, JsonValue::Text(os))).push(
            ("timestamp"@, JsonValue::Text(timestamp)),
        ).push(("version"@, JsonValue::Text(version))),
    )
}

/// The failure of a capability with the given words.
pub open spec fn failed(words: Seq<char>) -> Result<JsonValue, PluginErrorView> {
    Err(PluginErrorView::CapabilityFailed(words))
}

/// The path that the user picked as a document: the path, or null.
pub open spec fn picked_json(reply: HostReplyView) -> Result<JsonValue, PluginErrorView> {
    match reply {
        HostReplyView::Picked(Some(path)) => Ok(JsonValue::Text(path)),
        HostReplyView::Picked(None) => Ok(JsonValue::Null),
        _ => failed("宿主应答与请求不符"@),
    }
}

/// The answer of a call, from what was asked of the host and what the host
/// reported. A report that does not fit the request is a failure.
pub open spec fn finished(request: HostRequestView, reply: HostReplyView) -> Result<
    JsonValue,
    PluginErrorView,
> {
    match request {
        HostRequestView::PickFile { .. } => picked_json(reply),
        HostRequestView::SaveFile { .. } => picked_json(reply),
        HostRequestView::PickFolder { .. } => picked_json(reply),
        HostRequestView::ShowMessage { .. } => match reply {
            HostReplyView::Shown => Ok(JsonValue::Bool(true)),
            _ => failed("宿主应答与请求不符"@),
        },
        HostRequestView::ReadFile { .. } => match reply {
            HostReplyView::Content(Ok(text)) => Ok(JsonValue::Text(text)),
            HostReplyView::Content(Err(why)) => failed("读取文件失败: "@ + why),
            _ => failed("宿主应答与请求不符"@),
        },
        HostRequestView::WriteFile { .. } => match reply {
            HostReplyView::Written(Ok(_)) => Ok(JsonValue::Bool(true)),
            HostReplyView::Written(Err(why)) => failed("写入文件失败: "@ + why),
            _ => failed("宿主应答与请求不符"@),
        },
        HostRequestView::FileInfo { path } => match reply {
            HostReplyView::NoSuchFile => failed("文件不存在: "@ + path),
            HostReplyView::NoFileFacts(why) => failed("获取文件信息失败: "@ + why),
            HostReplyView::Facts(facts) => Ok(file_facts_json(path, facts)),
            _ => failed("宿主应答与请求不符"@),
        },
        HostRequestView::SystemInfo => match reply {
            HostReplyView::System { os, arch, version, timestamp } => Ok(
                system_json(os, arch, version, timestamp),
            ),
            _ => failed("宿主应答与请求不符"@),
        },
    }
}

/// The first step of a call of the capability `name` with the table `table`.
pub open spec fn called(table: ApiTable, name: Seq<char>, args: JsonValue) -> Result<
    ApiStepView,
    PluginErrorView,
> {
    match table.get(name) {
        Some(capability) => Ok(begun(capability, args)),
        None => Err(PluginErrorView::CapabilityNotFound(name)),
    }
}

/// The value of the outcome of a first step.
pub open spec fn step_view(step: Result<ApiStep, PluginError>) -> Result<
    ApiStepView,
    PluginErrorView,
> {
    match step {
        Ok(s) => Ok(s@),
        Err(e) => Err(e@),
    }
}

/// The string member `key` of the arguments, or `fallback`.
fn read_text_or(args: &Json, key: &str, fallback: &str) -> (text: String)
    ensures
        text@ == text_or(args@, key@, fallback@),
{
    match args.text_member(key) {
        Some(s) => String::from_str(s),
        None => String::from_str(fallback),
    }
}

/// The boolean member `key` of the arguments, or `fallback`.
fn read_bool_or(args: &Json, key: &str, fallback: bool) -> (b: bool)
    ensures
        b == bool_or(args@, key@, fallback),
{
    match args.bool_member(key) {
        Some(b) => b,
        None => fallback,
    }
}

/// The texts of those items that are strings.
fn read_strings(items: &Vec<Json>) -> (found: Vec<String>)
    ensures
        texts(found@) == strings_among(items_value(items@)),
{
    let ghost values = items_value(items@);
    let mut out: Vec<String> = Vec::new();
    let mut i: usize = 0;
    assert(values.take(0) =~= Seq::<JsonValue>::empty());
    assert(texts(out@) =~= Seq::<Seq<char>>::empty());
    while i < items.len()
        invariant
            i <= items.len(),
            values == items_value(items@),
            texts(out@) == strings_among(values.take(i as int)),
        decreases items.len() - i,
    {
        let ghost before = out@;
        proof {
            let next = values.take(i + 1);
            assert(next.drop_last() =~= values.take(i as int));
            assert(next.last() == items@[i as int]@);
        }
        match &items[i] {
            Json::Text(s) => {
                out.push(s.clone());
                assert(texts(out@) =~= texts(before).push(s@));
            },
            _ => {},
        }
        i += 1;
    }
    assert(values.take(items.len() as int) =~= values);
    out
}

/// The file filters that the arguments give.
fn read_filters(args: &Json) -> (filters: Vec<String>)
    ensures
        texts(filters@) == filters_of(args@),
{
    match args.get("filters") {
        Some(value) => match value.as_array() {
            Some(items) => read_strings(items),
            None => {
                let none: Vec<String> = Vec::new();
                assert(texts(none@) =~= Seq::<Seq<char>>::empty());
                none
            },
        },
        None => {
            let none: Vec<String> = Vec::new();
            assert(texts(none@) =~= Seq::<Seq<char>>::empty());
            none
        },
    }
}

/// The extensions that the filters stand for.
fn read_extensions(filters: &Vec<String>) -> (extensions: Vec<String>)
    ensures
        texts(extensions@) == extensions_of(texts(filters@)),
{
    let mut out: Vec<String> = Vec::new();
    let mut i: usize = 0;
    while i < filters.len()
        invariant
            i <= filters.len(),
            out@.len() == i,
            forall|k: int|
                0 <= k < i ==> (#[trigger] out@[k])@ == without_leading(filters@[k]@, '.'),
        decreases filters.len() - i,
    {
        out.push(trim_start_char(filters[i].as_str(), '.'));
        i += 1;
    }
    assert(texts(out@) =~= extensions_of(texts(filters@)));
    out
}

/// The failure of a capability with the given words.
fn fail(words: String) -> (answer: Result<Json, PluginError>)
    ensures
        answer_view(answer) == failed(words@),
{
    Err(PluginError::CapabilityFailed(words))
}

/// The first step of a call of `capability`: reads the arguments and either
/// answers or says what the host has to do.
pub fn begin_call(capability: Capability, args: &Json) -> (step: ApiStep)
    ensures
        step@ == begun(capability, args@),
{
    match capability {
        Capability::OpenFileDialog => {
            let title = read_text_or(args, "title", "选择文件");
            if read_bool_or(args, "save", false) {
                ApiStep::Ask(HostRequest::SaveFile { title })
            } else {
                let filters = read_filters(args);
                let extensions = read_extensions(&filters);
                ApiStep::Ask(HostRequest::PickFile { title, extensions })
            }
        },
        Capability::OpenFolderDialog => {
            let title = read_text_or(args, "title", "选择文件夹");
            ApiStep::Ask(HostRequest::PickFolder { title })
        },
        Capability::ShowNotification => {
            let title = read_text_or(args, "title", "通知");
            let message = read_text_or(args, "message", "");
            ApiStep::Ask(HostRequest::ShowMessage { title, message })
        },
        Capability::ReadFile => match args.text_member("path") {
            Some(p) => ApiStep::Ask(HostRequest::ReadFile { path: String::from_str(p) }),
            None => ApiStep::Done(fail(String::from_str("未指定文件路径"))),
        },
        Capability::WriteFile => match args.text_member("path") {
            Some(p) => {
                let content = read_text_or(args, "content", "");
                ApiStep::Ask(HostRequest::WriteFile { path: String::from_str(p), content })
            },
            None => ApiStep::Done(fail(String::from_str("未指定文件路径"))),
        },
        Capability::GetFileInfo => match args.text_member("path") {
            Some(p) => ApiStep::Ask(HostRequest::FileInfo { path: String::from_str(p) }),
            None => ApiStep::Done(fail(String::from_str("未指定文件路径"))),
        },
        Capability::GetClipboardText => ApiStep::Done(Ok(Json::text("模拟剪贴板内容"))),
        Capability::SetClipboardText => ApiStep::Done(Ok(Json::Bool(true))),
        Capability::GetSystemInfo => ApiStep::Ask(HostRequest::SystemInfo),
    }
}

/// Calls the capability bound to `name`: the first step of the call, or the
/// failure that no capability has this name.
pub fn call_api(registry: &ApiRegistry, name: &str, args: &Json) -> (step: Result<
    ApiStep,
    PluginError,
>)
    ensures
        step_view(step) == called(registry@, name@, args@),
{
    match registry.lookup(name) {
        Some(capability) => Ok(begin_call(capability, args)),
        None => Err(PluginError::CapabilityNotFound(String::from_str(name))),
    }
}

/// A number, or null where there is none.
fn number_or_null_json(n: Option<u64>) -> (json: Json)
    ensures
        json@ == number_or_null(n),
{
    match n {
        Some(x) => Json::from_u64(x),
        None => Json::Null,
    }
}

/// The description of a file as a document.
fn file_facts_document(path: &str, facts: FileFacts) -> (json: Json)
    ensures
        json@ == file_facts_json(path@, facts@),
{
    let mut members: Vec<(String, Json)> = Vec::new();
    assert(members_value(members@) =~= Seq::empty());
    push_member(&mut members, "extension", Json::Text(facts.extension));
    push_member(&mut members, "isDirectory", Json::Bool(facts.is_directory));
    push_member(&mut members, "isFile", Json::Bool(facts.is_file));
    push_member(&mut members, "lastModified", number_or_null_json(facts.last_modified));
    push_member(&mut members, "name", Json::Text(facts.name));
    push_member(&mut members, "path", Json::text(path));
    push_member(&mut members, "size", Json::from_u64(facts.size));
    Json::object(members)
}

/// The description of the machine as a document.
fn system_document(os: String, arch: String, version: String, timestamp: String) -> (json: Json)
    ensures
        json@ == system_json(os@, arch@, version@, timestamp@),
{
    let mut members: Vec<(String, Json)> = Vec::new();
    assert(members_value(members@) =~= Seq::empty());
    push_member(&mut members, "arch", Json::Text(arch));
    push_member(&mut members, "os", Json::Text(os));
    push_member(&mut members, "timestamp", Json::Text(timestamp));
    push_member(&mut members, "version", Json::Text(version));
    Json::object(members)
}

/// The failure for a report that does not fit the request.
fn misfit() -> (answer: Result<Json, PluginError>)
    ensures
        answer_view(answer) == failed("宿主应答与请求不符"@),
{
    fail(String::from_str("宿主应答与请求不符"))
}

/// The path that the user picked as a document.
fn picked_document(reply: HostReply) -> (answer: Result<Json, PluginError>)
    ensures
        answer_view(answer) == picked_json(reply@),
{
    match reply {
        HostReply::Picked(Some(path)) => Ok(Json::Text(path)),
        HostReply::Picked(None) => Ok(Json::Null),
        _ => misfit(),
    }
}

/// The second step of a call: the answer, from what was asked of the host and
/// what the host reported.
pub fn finish_call(request: &HostRequest, reply: HostReply) -> (answer: Result<Json, PluginError>)
    ensures
        answer_view(answer) == finished(request@, reply@),
{
    match request {
        HostRequest::PickFile { .. } => picked_document(reply),
        HostRequest::SaveFile { .. } => picked_document(reply),
        HostRequest::PickFolder { .. } => picked_document(reply),
        HostRequest::ShowMessage { .. } => match reply {
            HostReply::Shown => Ok(Json::Bool(true)),
            _ => misfit(),
        },
        HostRequest::ReadFile { .. } => match reply {
            HostReply::Content(Ok(text)) => Ok(Json::Text(text)),
            HostReply::Content(Err(why)) => fail(join_two("读取文件失败: ", why.as_str())),
            _ => misfit(),
        },
        HostRequest::WriteFile { .. } => match reply {
            HostReply::Written(Ok(_)) => Ok(Json::Bool(true)),
            HostReply::Written(Err(why)) => fail(join_two("写入文件失败: ", why.as_str())),
            _ => misfit(),
        },
        HostRequest::FileInfo { path } => match reply {
            HostReply::NoSuchFile => fail(join_two("文件不存在: ", path.as_str())),
            HostReply::NoFileFacts(why) => fail(join_two("获取文件信息失败: ", why.as_str())),
            HostReply::Facts(facts) => Ok(file_facts_document(path.as_str(), facts)),
            _ => misfit(),
        },
        HostRequest::SystemInfo => match reply {
            HostReply::System { os, arch, version, timestamp } => Ok(
                system_document(os, arch, version, timestamp),
            ),
            _ => misfit(),
        },
    }
}

/// The script that calls `function_name` of the plugin `plugin_id` and prints
/// what it returns, or what it throws, as one line of JSON; or the failure
/// that no such plugin is registered.
pub open spec fn function_call(
    registry: RegistryView,
    plugin_id: Seq<char>,
    function_name: Seq<char>,
    args: Seq<char>,
) -> Result<Seq<char>, PluginErrorView> {
    match registry.get(plugin_id) {
        Some(record) => Ok(wrapped(function_script_text(record.0.main, function_name, args))),
        None => Err(PluginErrorView::PluginNotFound(plugin_id)),
    }
}

/// Writes the script that calls the function `function_name` of the plugin
/// `plugin_id` with the arguments `args`.
pub fn plugin_function_script(
    registry: &PluginRegistry,
    plugin_id: &str,
    function_name: &str,
    args: &Json,
) -> (script: Result<String, PluginError>)
    ensures
        script_view(script) == function_call(
            registry@,
            plugin_id@,
            function_name@,
            json_text(args@),
        ),
{
    match get_plugin(registry, plugin_id) {
        Ok(record) => {
            let body = function_script(record.0.main.as_str(), function_name, args);
            Ok(wrap_user_code(body.as_str()))
        },
        Err(e) => Err(e),
    }
}

/// The script that lists the functions of the plugin `plugin_id` and prints
/// the list as one line of JSON; or the failure that no such plugin is
/// registered.
pub open spec fn exports_query(registry: RegistryView, plugin_id: Seq<char>) -> Result<
    Seq<char>,
    PluginErrorView,
> {
    match registry.get(plugin_id) {
        Some(record) => Ok(wrapped(exports_script_text(record.0.main))),
        None => Err(PluginErrorView::PluginNotFound(plugin_id)),
    }
}

/// Writes the script that lists the functions which the plugin `plugin_id`
/// exports.
pub fn plugin_exports_script(registry: &PluginRegistry, plugin_id: &str) -> (script: Result<
    String,
    PluginError,
>)
    ensures
        script_view(script) == exports_query(registry@, plugin_id@),
{
    match get_plugin(registry, plugin_id) {
        Ok(record) => {
            let body = exports_script(record.0.main.as_str());
            Ok(wrap_user_code(body.as_str()))
        },
        Err(e) => Err(e),
    }
}

/// The list that an outcome holds: its member `result`, or the outcome
/// itself where it has no such member.
pub open spec fn listed_in(outcome: JsonValue) -> JsonValue {
    match outcome.get("result"@) {
        Some(list) => list,
        None => outcome,
    }
}

/// The names of the exports that the outcome of a run holds: the list has to
/// be an array of strings.
pub open spec fn exports_of(outcome: JsonValue) -> Result<Seq<Seq<char>>, PluginErrorView> {
    match listed_in(outcome).as_texts() {
        Some(names) => Ok(names),
        None => Err(PluginErrorView::OutputParseFailure("解析插件导出失败: 结果不是字符串数组"@)),
    }
}

/// The value of a list of names or the failure to read one.
pub open spec fn names_view(names: Result<Vec<String>, PluginError>) -> Result<
    Seq<Seq<char>>,
    PluginErrorView,
> {
    match names {
        Ok(v) => Ok(texts(v@)),
        Err(e) => Err(e@),
    }
}

/// Reads the names of the exported functions from the outcome of the run of
/// the script of [`plugin_exports_script`].
pub fn read_exports(outcome: &Json) -> (names: Result<Vec<String>, PluginError>)
    ensures
        names_view(names) == exports_of(outcome@),
{
    let listed = match outcome.get("result") {
        Some(list) => list,
        None => outcome,
    };
    match listed.as_texts() {
        Some(names) => Ok(names),
        None => Err(
            PluginError::OutputParseFailure(String::from_str("解析插件导出失败: 结果不是字符串数组")),
        ),
    }
}

/// The first step of a call that is made in the name of `plugin_id`: the name
/// `system` stands for the host itself and needs no plugin, any other has to
/// be registered.
pub open spec fn called_for(
    registry: RegistryView,
    table: ApiTable,
    plugin_id: Seq<char>,
    api_name: Seq<char>,
    args: JsonValue,
) -> Result<ApiStepView, PluginErrorView> {
    if plugin_id == "system"@ || registry.contains(plugin_id) {
        called(table, api_name, args)
    } else {
        Err(PluginErrorView::PluginNotFound(plugin_id))
    }
}

/// Calls the capability `api_name` in the name of `plugin_id`.
pub fn plugin_call_api(
    registry: &PluginRegistry,
    apis: &ApiRegistry,
    plugin_id: &str,
    api_name: &str,
    args: &Json,
) -> (step: Result<ApiStep, PluginError>)
    ensures
        step_view(step) == called_for(registry@, apis@, plugin_id@, api_name@, args@),
{
    if !str_equal(plugin_id, "system") {
        match get_plugin(registry, plugin_id) {
            Ok(_) => {},
            Err(e) => {
                return Err(e);
            },
        }
    }
    call_api(apis, api_name, args)
}

/// After the capabilities of the host were bound, each of their names gives
/// its capability, whatever the table held before.
pub proof fn law_host_capabilities_are_bound(table: ApiTable)
    ensures
        with_host_capabilities(table).get("openFileDialog"@) == Some(Capability::OpenFileDialog),
        with_host_capabilities(table).get("openFolderDialog"@) == Some(
            Capability::OpenFolderDialog,
        ),
        with_host_capabilities(table).get("showNotification"@) == Some(
            Capability::ShowNotification,
        ),
        with_host_capabilities(table).get("readFile"@) == Some(Capability::ReadFile),
        with_host_capabilities(table).get("writeFile"@) == Some(Capability::WriteFile),
        with_host_capabilities(table).get("getFileInfo"@) == Some(Capability::GetFileInfo),
        with_host_capabilities(table).get("getClipboardText"@) == Some(
            Capability::GetClipboardText,
        ),
        with_host_capabilities(table).get("setClipboardText"@) == Some(
            Capability::SetClipboardText,
        ),
        with_host_capabilities(table).get("getSystemInfo"@) == Some(Capability::GetSystemInfo),
        table.wf() ==> with_host_capabilities(table).wf(),
{
    reveal_strlit("openFileDialog");
    reveal_strlit("openFolderDialog");
    reveal_strlit("showNotification");
    reveal_strlit("readFile");
    reveal_strlit("writeFile");
    reveal_strlit("getFileInfo");
    reveal_strlit("getClipboardText");
    reveal_strlit("setClipboardText");
    reveal_strlit("getSystemInfo");
    let n1 = "openFileDialog"@;
    let n2 = "openFolderDialog"@;
    let n3 = "showNotification"@;
    let n4 = "readFile"@;
    let n5 = "writeFile"@;
    let n6 = "getFileInfo"@;
    let n7 = "getClipboardText"@;
    let n8 = "setClipboardText"@;
    let n9 = "getSystemInfo"@;
    assert(n1.len() == 14 && n2.len() == 16 && n3.len() == 16 && n4.len() == 8 && n5.len() == 9
        && n6.len() == 11 && n7.len() == 16 && n8.len() == 16 && n9.len() == 13);
    assert(n2[0] == 'o' && n3[0] == 's' && n7[0] == 'g' && n8[0] == 's' && n3[1] == 'h' && n8[1]
        == 'e');
    let t1 = table.bind(n1, Capability::OpenFileDialog);
    let t2 = t1.bind(n2, Capability::OpenFolderDialog);
    let t3 = t2.bind(n3, Capability::ShowNotification);
    let t4 = t3.bind(n4, Capability::ReadFile);
    let t5 = t4.bind(n5, Capability::WriteFile);
    let t6 = t5.bind(n6, Capability::GetFileInfo);
    let t7 = t6.bind(n7, Capability::GetClipboardText);
    let t8 = t7.bind(n8, Capability::SetClipboardText);
    let t9 = t8.bind(n9, Capability::GetSystemInfo);
    table.lemma_bind(n1, Capability::OpenFileDialog, n1);
    t1.lemma_bind(n2, Capability::OpenFolderDialog, n1);
    t2.lemma_bind(n3, Capability::ShowNotification, n1);
    t2.lemma_bind(n3, Capability::ShowNotification, n2);
    t3.lemma_bind(n4, Capability::ReadFile, n1);
    t3.lemma_bind(n4, Capability::ReadFile, n2);
    t3.lemma_bind(n4, Capability::ReadFile, n3);
    t4.lemma_bind(n5, Capability::WriteFile, n1);
    t4.lemma_bind(n5, Capability::WriteFile, n2);
    t4.lemma_bind(n5, Capability::WriteFile, n3);
    t4.lemma_bind(n5, Capability::WriteFile, n4);
    t5.lemma_bind(n6, Capability::GetFileInfo, n1);
    t5.lemma_bind(n6, Capability::GetFileInfo, n2);
    t5.lemma_bind(n6, Capability::GetFileInfo, n3);
    t5.lemma_bind(n6, Capability::GetFileInfo, n4);
    t5.lemma_bind(n6, Capability::GetFileInfo, n5);
    t6.lemma_bind(n7, Capability::GetClipboardText, n1);
    t6.lemma_bind(n7, Capability::GetClipboardText, n2);
    t6.lemma_bind(n7, Capability::GetClipboardText, n3);
    t6.lemma_bind(n7, Capability::GetClipboardText, n4);
    t6.lemma_bind(n7, Capability::GetClipboardText, n5);
    t6.lemma_bind(n7, Capability::GetClipboardText, n6);
    t7.lemma_bind(n8, Capability::SetClipboardText, n1);
    t7.lemma_bind(n8, Capability::SetClipboardText, n2);
    t7.lemma_bind(n8, Capability::SetClipboardText, n3);
    t7.lemma_bind(n8, Capability::SetClipboardText, n4);
    t7.lemma_bind(n8, Capability::SetClipboardText, n5);
    t7.lemma_bind(n8, Capability::SetClipboardText, n6);
    t7.lemma_bind(n8, Capability::SetClipboardText, n7);
    t8.lemma_bind(n9, Capability::GetSystemInfo, n1);
    t8.lemma_bind(n9, Capability::GetSystemInfo, n2);
    t8.lemma_bind(n9, Capability::GetSystemInfo, n3);
    t8.lemma_bind(n9, Capability::GetSystemInfo, n4);
    t8.lemma_bind(n9, Capability::GetSystemInfo, n5);
    t8.lemma_bind(n9, Capability::GetSystemInfo, n6);
    t8.lemma_bind(n9, Capability::GetSystemInfo, n7);
    t8.lemma_bind(n9, Capability::GetSystemInfo, n8);
}

/// The description of the machine holds what the host reported, member by
/// member.
pub proof fn lemma_system_members(
    os: Seq<char>,
    arch: Seq<char>,
    version: Seq<char>,
    timestamp: Seq<char>,
)
    ensures
        system_json(os, arch, version, timestamp).get("os"@) == Some(JsonValue::Text(os)),
        system_json(os, arch, version, timestamp).get("arch"@) == Some(JsonValue::Text(arch)),
        system_json(os, arch, version, timestamp).get("version"@) == Some(
            JsonValue::Text(version),
        ),
        system_json(os, arch, version, timestamp).get("timestamp"@) == Some(
            JsonValue::Text(timestamp),
        ),
{
    reveal_strlit("os");
    reveal_strlit("arch");
    reveal_strlit("version");
    reveal_strlit("timestamp");
    let k1 = "arch"@;
    let k2 = "os"@;
    let k3 = "timestamp"@;
    let k4 = "version"@;
    assert(k1.len() == 4 && k2.len() == 2 && k3.len() == 9 && k4.len() == 7);
    let m0 = Seq::<(Seq<char>, JsonValue)>::empty();
    let m1 = m0.push((k1, JsonValue::Text(arch)));
    let m2 = m1.push((k2, JsonValue::Text(os)));
    let m3 = m2.push((k3, JsonValue::Text(timestamp)));
    lemma_member_push(m0, k1, JsonValue::Text(arch), k1);
    lemma_member_push(m1, k2, JsonValue::Text(os), k1);
    lemma_member_push(m1, k2, JsonValue::Text(os), k2);
    lemma_member_push(m2, k3, JsonValue::Text(timestamp), k1);
    lemma_member_push(m2, k3, JsonValue::Text(timestamp), k2);
    lemma_member_push(m2, k3, JsonValue::Text(timestamp), k3);
    lemma_member_push(m3, k4, JsonValue::Text(version), k1);
    lemma_member_push(m3, k4, JsonValue::Text(version), k2);
    lemma_member_push(m3, k4, JsonValue::Text(version), k3);
    lemma_member_push(m3, k4, JsonValue::Text(version), k4);
}

/// Asking for the description of the machine changes nothing and depends on
/// nothing but the machine: with any arguments the call asks the host the
/// same question, and two answers that the host gives with the same
/// operating system, architecture and version agree on these three members,
/// while each carries the time that the host reported with it.
pub proof fn law_system_info_is_stable(
    table: ApiTable,
    name: Seq<char>,
    first_args: JsonValue,
    second_args: JsonValue,
    os: Seq<char>,
    arch: Seq<char>,
    version: Seq<char>,
    first_time: Seq<char>,
    second_time: Seq<char>,
)
    requires
        table.get(name) == Some(Capability::GetSystemInfo),
    ensures
        called(table, name, first_args) == Ok::<ApiStepView, PluginErrorView>(
            ApiStepView::Ask(HostRequestView::SystemInfo),
        ),
        called(table, name, second_args) == called(table, name, first_args),
        ({
            let first = finished(
                HostRequestView::SystemInfo,
                HostReplyView::System { os, arch, version, timestamp: first_time },
            );
            let second = finished(
                HostRequestView::SystemInfo,
                HostReplyView::System { os, arch, version, timestamp: second_time },
            );
            &&& first is Ok
            &&& second is Ok
            &&& first->Ok_0.get("os"@) == second->Ok_0.get("os"@)
            &&& first->Ok_0.get("arch"@) == second->Ok_0.get("arch"@)
            &&& first->Ok_0.get("version"@) == second->Ok_0.get("version"@)
            &&& first->Ok_0.get("os"@) == Some(JsonValue::Text(os))
            &&& first->Ok_0.get("timestamp"@) == Some(JsonValue::Text(first_time))
            &&& second->Ok_0.get("timestamp"@) == Some(JsonValue::Text(second_time))
        }),
{
    lemma_system_members(os, arch, version, first_time);
    lemma_system_members(os, arch, version, second_time);
}

} // verus!
