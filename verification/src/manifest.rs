//! The manifest loader: reads the descriptor of a package into a manifest,
//! or says why the package declares none.

use crate::error::{PluginError, PluginErrorView};
use crate::json::{json_parse, Json, JsonValue};
use crate::plugins::{PluginInfo, PluginInfoView};
use crate::text::{has_prefix, join_two, opt_text, opt_texts};
use vstd::prelude::*;

verus! {

/// An optional string member of a manifest: `Some(None)` where the member is
/// absent or null, `Some(Some(..))` where it is a string, `None` where it is
/// anything else.
pub open spec fn optional_text(v: JsonValue, key: Seq<char>) -> Option<Option<Seq<char>>> {
    match v.get(key) {
        None => Some(None),
        Some(JsonValue::Null) => Some(None),
        Some(JsonValue::Text(s)) => Some(Some(s)),
        Some(_) => None,
    }
}

/// An optional boolean member of a manifest, read as [`optional_text`] reads a
/// string.
pub open spec fn optional_bool(v: JsonValue, key: Seq<char>) -> Option<Option<bool>> {
    match v.get(key) {
        None => Some(None),
        Some(JsonValue::Null) => Some(None),
        Some(JsonValue::Bool(b)) => Some(Some(b)),
        Some(_) => None,
    }
}

/// An optional member of a manifest that lists strings, read as
/// [`optional_text`] reads a string.
pub open spec fn optional_texts(v: JsonValue, key: Seq<char>) -> Option<Option<Seq<Seq<char>>>> {
    match v.get(key) {
        None => Some(None),
        Some(JsonValue::Null) => Some(None),
        Some(other) => match other.as_texts() {
            Some(list) => Some(Some(list)),
            None => None,
        },
    }
}

/// The fields of a manifest as the document gives them, where the document is
/// an object with the strings `name`, `version`, `description` and `main`,
/// and each optional member has the type that it should have. A missing `id`
/// is held as the empty text.
pub open spec fn manifest_fields(v: JsonValue) -> Option<PluginInfoView> {
    if v.text_member("name"@) is Some && v.text_member("version"@) is Some && v.text_member(
        "description"@,
    ) is Some && v.text_member("main"@) is Some && optional_text(v, "id"@) is Some
        && optional_text(v, "displayName"@) is Some && optional_text(v, "author"@) is Some
        && optional_bool(v, "requiresFileSelection"@) is Some && optional_texts(
        v,
        "fileFilters"@,
    ) is Some && optional_bool(v, "requiresOutputFileSelection"@) is Some && optional_texts(
        v,
        "outputFileFilters"@,
    ) is Some && optional_text(v, "defaultOutputFileName"@) is Some {
        Some(
            PluginInfoView {
                name: v.text_member("name"@)->0,
                id: match optional_text(v, "id"@)->0 {
                    Some(id) => id,
                    None => Seq::empty(),
                },
                display_name: optional_text(v, "displayName"@)->0,
                version: v.text_member("version"@)->0,
                description: v.text_member("description"@)->0,
                main: v.text_member("main"@)->0,
                author: optional_text(v, "author"@)->0,
                requires_file_selection: optional_bool(v, "requiresFileSelection"@)->0,
                file_filters: optional_texts(v, "fileFilters"@)->0,
                requires_output_file_selection: optional_bool(
                    v,
                    "requiresOutputFileSelection"@,
                )->0,
                output_file_filters: optional_texts(v, "outputFileFilters"@)->0,
                default_output_file_name: optional_text(v, "defaultOutputFileName"@)->0,
            },
        )
    } else {
        None
    }
}

/// The manifest that is registered for the given fields: the fields
/// themselves, with the name in place of an empty identifier. There is none
/// where the name or the entry module is empty.
pub open spec fn resolved(fields: PluginInfoView) -> Option<PluginInfoView> {
    if fields.name.len() == 0 || fields.main.len() == 0 {
        None
    } else if fields.id.len() == 0 {
        Some(PluginInfoView { id: fields.name, ..fields })
    } else {
        Some(fields)
    }
}

/// The manifest that a document declares, if it declares one.
pub open spec fn manifest_of(v: JsonValue) -> Option<PluginInfoView> {
    match manifest_fields(v) {
        Some(fields) => resolved(fields),
        None => None,
    }
}

/// The reason given for a manifest that has not the expected members.
pub open spec fn shape_fault() -> Seq<char> {
    "解析 package.json 失败: 字段缺失或类型不符"@
}

/// The reason given for a manifest without a name or an entry module.
pub open spec fn empty_fault() -> Seq<char> {
    "插件名称或主文件未指定"@
}

/// The reason for which a document declares no manifest.
pub open spec fn manifest_fault(v: JsonValue) -> Seq<char> {
    if manifest_fields(v) is None {
        shape_fault()
    } else {
        empty_fault()
    }
}

/// Reads an optional string member.
fn read_optional_text(json: &Json, key: &str) -> (found: Option<Option<String>>)
    ensures
        match found {
            Some(o) => optional_text(json@, key@) == Some(opt_text(o)),
            None => optional_text(json@, key@) is None,
        },
{
    match json.get(key) {
        None => Some(None),
        Some(Json::Null) => Some(None),
        Some(Json::Text(s)) => Some(Some(s.clone())),
        Some(_) => None,
    }
}

/// Reads an optional boolean member.
fn read_optional_bool(json: &Json, key: &str) -> (found: Option<Option<bool>>)
    ensures
        found == optional_bool(json@, key@),
{
    match json.get(key) {
        None => Some(None),
        Some(Json::Null) => Some(None),
        Some(Json::Bool(b)) => Some(Some(*b)),
        Some(_) => None,
    }
}

/// Reads an optional member that lists strings.
fn read_optional_texts(json: &Json, key: &str) -> (found: Option<Option<Vec<String>>>)
    ensures
        match found {
            Some(o) => optional_texts(json@, key@) == Some(opt_texts(o)),
            None => optional_texts(json@, key@) is None,
        },
{
    match json.get(key) {
        None => Some(None),
        Some(Json::Null) => Some(None),
        Some(other) => match other.as_texts() {
            Some(list) => Some(Some(list)),
            None => None,
        },
    }
}

/// Reads a required string member.
fn read_text(json: &Json, key: &str) -> (found: Option<String>)
    ensures
        opt_text(found) == json@.text_member(key@),
{
    match json.text_member(key) {
        Some(s) => Some(String::from_str(s)),
        None => None,
    }
}

/// The failure for a document that has not the members of a manifest.
fn shape_error() -> (e: PluginError)
    ensures
        e@ == PluginErrorView::ManifestInvalid(shape_fault()),
{
    PluginError::ManifestInvalid(String::from_str("解析 package.json 失败: 字段缺失或类型不符"))
}

/// Reads the fields of a manifest from a document.
pub fn manifest_fields_from_json(json: &Json) -> (read: Result<PluginInfo, PluginError>)
    ensures
        match read {
            Ok(info) => manifest_fields(json@) == Some(info@),
            Err(e) => manifest_fields(json@) is None && e@ == PluginErrorView::ManifestInvalid(
                shape_fault(),
            ),
        },
{
    let name = match read_text(json, "name") {
        Some(x) => x,
        None => { return Err(shape_error()); },
    };
    let version = match read_text(json, "version") {
        Some(x) => x,
        None => { return Err(shape_error()); },
    };
    let description = match read_text(json, "description") {
        Some(x) => x,
        None => { return Err(shape_error()); },
    };
    let main = match read_text(json, "main") {
        Some(x) => x,
        None => { return Err(shape_error()); },
    };
    let id = match read_optional_text(json, "id") {
        Some(Some(x)) => x,
        Some(None) => String::new(),
        None => { return Err(shape_error()); },
    };
    let display_name = match read_optional_text(json, "displayName") {
        Some(x) => x,
        None => { return Err(shape_error()); },
    };
    let author = match read_optional_text(json, "author") {
        Some(x) => x,
        None => { return Err(shape_error()); },
    };
    let requires_file_selection = match read_optional_bool(json, "requiresFileSelection") {
        Some(x) => x,
        None => { return Err(shape_error()); },
    };
    let file_filters = match read_optional_texts(json, "fileFilters") {
        Some(x) => x,
        None => { return Err(shape_error()); },
    };
    let requires_output_file_selection = match read_optional_bool(
        json,
        "requiresOutputFileSelection",
    ) {
        Some(x) => x,
        None => { return Err(shape_error()); },
    };
    let output_file_filters = match read_optional_texts(json, "outputFileFilters") {
        Some(x) => x,
        None => { return Err(shape_error()); },
    };
    let default_output_file_name = match read_optional_text(json, "defaultOutputFileName") {
        Some(x) => x,
        None => { return Err(shape_error()); },
    };
    Ok(
        PluginInfo {
            name,
            id,
            display_name,
            version,
            description,
            main,
            author,
            requires_file_selection,
            file_filters,
            requires_output_file_selection,
            output_file_filters,
            default_output_file_name,
        },
    )
}

/// Checks the required fields of a manifest and gives it the name as its
/// identifier where it declares none.
pub fn resolve_manifest(info: PluginInfo) -> (checked: Result<PluginInfo, PluginError>)
    ensures
        match checked {
            Ok(r) => resolved(info@) == Some(r@),
            Err(e) => resolved(info@) is None && e@ == PluginErrorView::ManifestInvalid(
                empty_fault(),
            ),
        },
{
    if info.name.as_str().is_empty() || info.main.as_str().is_empty() {
        return Err(PluginError::ManifestInvalid(String::from_str("插件名称或主文件未指定")));
    }
    if info.id.as_str().is_empty() {
        let id = info.name.clone();
        Ok(PluginInfo { id, ..info })
    } else {
        Ok(info)
    }
}

/// The manifest that a document declares.
pub fn manifest_from_json(json: &Json) -> (read: Result<PluginInfo, PluginError>)
    ensures
        match read {
            Ok(info) => manifest_of(json@) == Some(info@),
            Err(e) => manifest_of(json@) is None && e@ == PluginErrorView::ManifestInvalid(
                manifest_fault(json@),
            ),
        },
{
    match manifest_fields_from_json(json) {
        Ok(fields) => resolve_manifest(fields),
        Err(e) => Err(e),
    }
}

/// How the reason begins where the descriptor is no JSON; the words of the
/// reader follow.
pub const UNREADABLE: &'static str = "解析 package.json 失败: ";

/// What [`load_manifest`] returns for a descriptor that reads as `parsed`: the
/// manifest that the document declares, or the reason why it declares none;
/// for a descriptor that is no JSON, a reason that begins with
/// [`UNREADABLE`].
pub open spec fn loaded(parsed: Option<JsonValue>, read: Result<PluginInfoView, PluginErrorView>)
    -> bool {
    match parsed {
        Some(v) => match read {
            Ok(info) => manifest_of(v) == Some(info),
            Err(e) => manifest_of(v) is None && e == PluginErrorView::ManifestInvalid(
                manifest_fault(v),
            ),
        },
        None => read matches Err(PluginErrorView::ManifestInvalid(reason)) && has_prefix(
            reason,
            UNREADABLE@,
        ),
    }
}

/// The value of an outcome that holds a manifest.
pub open spec fn manifest_outcome(read: Result<PluginInfo, PluginError>) -> Result<
    PluginInfoView,
    PluginErrorView,
> {
    match read {
        Ok(info) => Ok(info@),
        Err(e) => Err(e@),
    }
}

/// Reads a manifest from the text of a package descriptor.
pub fn load_manifest(text: &str) -> (read: Result<PluginInfo, PluginError>)
    ensures
        loaded(json_parse(text@), manifest_outcome(read)),
{
    match Json::parse(text) {
        Ok(json) => manifest_from_json(&json),
        Err(fault) => {
            let reason = join_two(UNREADABLE, fault.as_str());
            assert(reason@.subrange(0, UNREADABLE@.len() as int) =~= UNREADABLE@);
            Err(PluginError::ManifestInvalid(reason))
        },
    }
}

} // verus!
