//! Requests to the embedding store: where they go and what they carry.

use crate::json::{items_value, members_value, push_member, Json, JsonValue};
use crate::text::{decimal, decimal_string, join_three, join_two, texts};
use vstd::prelude::*;

verus! {

/// A collection of the embedding store.
#[derive(Debug, PartialEq, Eq)]
pub struct ChromaCollection {
    pub name: String,
    pub id: String,
}

/// The mathematical value of a [`ChromaCollection`].
pub struct ChromaCollectionView {
    pub name: Seq<char>,
    pub id: Seq<char>,
}

impl View for ChromaCollection {
    type V = ChromaCollectionView;

    open spec fn view(&self) -> ChromaCollectionView {
        ChromaCollectionView { name: self.name@, id: self.id@ }
    }
}

/// The address of the store where none is given.
pub const DEFAULT_BASE_URL: &'static str = "http://localhost:8000";

/// The address of the store: the one that the caller gives, else that of the
/// store which the host started itself, else the default.
pub open spec fn base_url_of(given: Option<Seq<char>>, embedded: Option<Seq<char>>) -> Seq<char> {
    match given {
        Some(url) => url,
        None => match embedded {
            Some(url) => url,
            None => DEFAULT_BASE_URL@,
        },
    }
}

/// Picks the address of the store.
pub fn resolve_base_url(given: Option<&str>, embedded: Option<&str>) -> (url: String)
    ensures
        url@ == base_url_of(
            match given {
                Some(u) => Some(u@),
                None => None,
            },
            match embedded {
                Some(u) => Some(u@),
                None => None,
            },
        ),
{
    match given {
        Some(url) => String::from_str(url),
        None => match embedded {
            Some(url) => String::from_str(url),
            None => String::from_str(DEFAULT_BASE_URL),
        },
    }
}

/// The address of a store that the host started on this machine.
pub open spec fn local_url(port: u16) -> Seq<char> {
    "http://localhost:"@ + decimal(port as nat)
}

/// The address of a store that listens on `port` of this machine.
pub fn server_base_url(port: u16) -> (url: String)
    ensures
        url@ == local_url(port),
{
    let digits = decimal_string(port as u64);
    join_two("http://localhost:", digits.as_str())
}

/// The address of the list of collections.
pub open spec fn collections_address(base: Seq<char>) -> Seq<char> {
    base + "/api/v1/collections"@
}

/// The address of a collection, or of one of its actions where `action` is
/// not empty.
pub open spec fn collection_address(base: Seq<char>, name: Seq<char>, action: Seq<char>) -> Seq<
    char,
> {
    if action.len() == 0 {
        base + "/api/v1/collections/"@ + name
    } else {
        base + "/api/v1/collections/"@ + name + "/"@ + action
    }
}

/// The address to which a new collection is posted.
pub fn collections_url(base: &str) -> (url: String)
    ensures
        url@ == collections_address(base@),
{
    join_two(base, "/api/v1/collections")
}

/// The address of the collection `name`, or of its action `action` (`add`,
/// `query`) where one is given.
pub fn collection_url(base: &str, name: &str, action: &str) -> (url: String)
    ensures
        url@ == collection_address(base@, name@, action@),
{
    let mut url = join_three(base, "/api/v1/collections/", name);
    if !action.is_empty() {
        url.append("/");
        url.append(action);
    }
    url
}

/// The body of the request that makes the collection `name`, or gets it
/// where it exists.
pub open spec fn creation_body(name: Seq<char>) -> JsonValue {
    JsonValue::Object(
        Seq::empty().push(("get_or_create"@, JsonValue::Bool(true))).push(
            ("name"@, JsonValue::Text(name)),
        ),
    )
}

/// Writes the body of the request that makes the collection `name`.
pub fn create_collection_body(name: &str) -> (body: Json)
    ensures
        body@ == creation_body(name@),
{
    let mut members: Vec<(String, Json)> = Vec::new();
    assert(members_value(members@) =~= Seq::empty());
    push_member(&mut members, "get_or_create", Json::Bool(true));
    push_member(&mut members, "name", Json::text(name));
    Json::object(members)
}

/// A collection as the document that is handed to the caller.
pub open spec fn collection_document(collection: ChromaCollectionView) -> JsonValue {
    JsonValue::Object(
        Seq::empty().push(("id"@, JsonValue::Text(collection.id))).push(
            ("name"@, JsonValue::Text(collection.name)),
        ),
    )
}

/// Writes a collection as a document.
pub fn collection_json(collection: &ChromaCollection) -> (json: Json)
    ensures
        json@ == collection_document(collection@),
{
    let mut members: Vec<(String, Json)> = Vec::new();
    assert(members_value(members@) =~= Seq::empty());
    push_member(&mut members, "id", Json::Text(collection.id.clone()));
    push_member(&mut members, "name", Json::Text(collection.name.clone()));
    Json::object(members)
}

/// The words for a request that the store refused: what was tried, the
/// status, and what the store answered.
pub open spec fn refusal(what: Seq<char>, status: Seq<char>, answer: Seq<char>) -> Seq<char> {
    what + ": "@ + status + " - "@ + answer
}

/// Writes the words for a request that the store refused.
pub fn refusal_message(what: &str, status: &str, answer: &str) -> (words: String)
    ensures
        words@ == refusal(what@, status@, answer@),
{
    let mut words = join_three(what, ": ", status);
    words.append(" - ");
    words.append(answer);
    words
}

/// A list of strings as a document.
pub open spec fn texts_document(list: Seq<String>) -> JsonValue {
    JsonValue::Array(Seq::new(list.len(), |i: int| JsonValue::Text(list[i]@)))
}

/// A document, or null where there is none.
pub open spec fn document_or_null(o: Option<Json>) -> JsonValue {
    match o {
        Some(json) => json@,
        None => JsonValue::Null,
    }
}

/// Writes a list of strings as a document.
pub fn texts_json(list: &Vec<String>) -> (json: Json)
    ensures
        json@ == texts_document(list@),
{
    let mut items: Vec<Json> = Vec::new();
    let mut i: usize = 0;
    while i < list.len()
        invariant
            i <= list.len(),
            items@.len() == i,
            forall|k: int| 0 <= k < i ==> (#[trigger] items@[k])@ == JsonValue::Text(list@[k]@),
        decreases list.len() - i,
    {
        items.push(Json::Text(list[i].clone()));
        i += 1;
    }
    assert(items_value(items@) =~= Seq::new(list@.len(), |i: int| JsonValue::Text(list@[i]@)));
    Json::array(items)
}

/// The body of the request that adds documents to a collection. Metadata and
/// embeddings that are not given are sent as null.
pub open spec fn addition_body(
    ids: Seq<String>,
    documents: Seq<String>,
    metadatas: Option<Json>,
    embeddings: Option<Json>,
) -> JsonValue {
    JsonValue::Object(
        Seq::empty().push(("documents"@, texts_document(documents))).push(
            ("embeddings"@, document_or_null(embeddings)),
        ).push(("ids"@, texts_document(ids))).push(("metadatas"@, document_or_null(metadatas))),
    )
}

/// Writes the body of the request that adds documents to a collection.
pub fn add_documents_body(
    ids: &Vec<String>,
    documents: &Vec<String>,
    metadatas: Option<Json>,
    embeddings: Option<Json>,
) -> (body: Json)
    ensures
        body@ == addition_body(ids@, documents@, metadatas, embeddings),
{
    let mut members: Vec<(String, Json)> = Vec::new();
    assert(members_value(members@) =~= Seq::empty());
    push_member(&mut members, "documents", texts_json(documents));
    push_member(
        &mut members,
        "embeddings",
        match embeddings {
            Some(json) => json,
            None => Json::Null,
        },
    );
    push_member(&mut members, "ids", texts_json(ids));
    push_member(
        &mut members,
        "metadatas",
        match metadatas {
            Some(json) => json,
            None => Json::Null,
        },
    );
    Json::object(members)
}

/// The members to which `value` is added under `key`, where there is one.
pub open spec fn with_optional(
    members: Seq<(Seq<char>, JsonValue)>,
    key: Seq<char>,
    value: Option<JsonValue>,
) -> Seq<(Seq<char>, JsonValue)> {
    match value {
        Some(v) => members.push((key, v)),
        None => members,
    }
}

/// The body of a query: of the texts, the embeddings, the number of results
/// and the filter, those that are given.
pub open spec fn query_document(
    query_texts: Option<JsonValue>,
    query_embeddings: Option<JsonValue>,
    n_results: Option<JsonValue>,
    filter: Option<JsonValue>,
) -> JsonValue {
    JsonValue::Object(
        with_optional(
            with_optional(
                with_optional(
                    with_optional(Seq::empty(), "n_results"@, n_results),
                    "query_embeddings"@,
                    query_embeddings,
                ),
                "query_texts"@,
                query_texts,
            ),
            "where"@,
            filter,
        ),
    )
}

/// Adds `value` under `key`, where there is one.
fn push_optional(members: &mut Vec<(String, Json)>, key: &str, value: Option<Json>)
    ensures
        members_value(final(members)@) == with_optional(
            members_value(old(members)@),
            key@,
            match value {
                Some(json) => Some(json@),
                None => None,
            },
        ),
{
    match value {
        Some(json) => {
            push_member(members, key, json);
        },
        None => {},
    }
}

/// Writes the body of a query.
pub fn query_body(
    query_texts: Option<&Vec<String>>,
    query_embeddings: Option<Json>,
    n_results: Option<u64>,
    where_metadata: Option<Json>,
) -> (body: Json)
    ensures
        body@ == query_document(
            match query_texts {
                Some(list) => Some(texts_document(list@)),
                None => None,
            },
            match query_embeddings {
                Some(json) => Some(json@),
                None => None,
            },
            match n_results {
                Some(n) => Some(JsonValue::Number(decimal(n as nat))),
                None => None,
            },
            match where_metadata {
                Some(json) => Some(json@),
                None => None,
            },
        ),
{
    let mut members: Vec<(String, Json)> = Vec::new();
    assert(members_value(members@) =~= Seq::empty());
    push_optional(
        &mut members,
        "n_results",
        match n_results {
            Some(n) => Some(Json::from_u64(n)),
            None => None,
        },
    );
    push_optional(&mut members, "query_embeddings", query_embeddings);
    push_optional(
        &mut members,
        "query_texts",
        match query_texts {
            Some(list) => Some(texts_json(list)),
            None => None,
        },
    );
    push_optional(&mut members, "where", where_metadata);
    Json::object(members)
}

/// The commands under which the interpreter of the store is looked for, in
/// the order in which they are tried.
pub open spec fn interpreters() -> Seq<Seq<char>> {
    seq!["python3"@, "python"@]
}

/// The first interpreter that runs, from position `from` on.
pub open spec fn first_running(runs: Seq<bool>, from: int) -> Option<Seq<char>>
    decreases interpreters().len() - from,
{
    if from < 0 || from >= interpreters().len() {
        None
    } else if from < runs.len() && runs[from] {
        Some(interpreters()[from])
    } else {
        first_running(runs, from + 1)
    }
}

/// The commands under which the interpreter is looked for.
pub fn python_candidates() -> (commands: Vec<String>)
    ensures
        texts(commands@) == interpreters(),
{
    let mut commands: Vec<String> = Vec::new();
    commands.push(String::from_str("python3"));
    commands.push(String::from_str("python"));
    assert(texts(commands@) =~= interpreters());
    commands
}

/// Picks the interpreter. `runs` says for each candidate whether it could be
/// started.
pub fn find_python(runs: &Vec<bool>) -> (command: Result<String, String>)
    ensures
        match command {
            Ok(c) => first_running(runs@, 0) == Some(c@),
            Err(why) => first_running(runs@, 0) is None && why@ == "未找到 Python。请安装 Python 3.7+"@,
        },
{
    let commands = python_candidates();
    let mut i: usize = 0;
    while i < commands.len()
        invariant
            i <= commands.len(),
            texts(commands@) == interpreters(),
            first_running(runs@, 0) == first_running(runs@, i as int),
        decreases commands.len() - i,
    {
        if i < runs.len() && runs[i] {
            assert(texts(commands@)[i as int] == commands@[i as int]@);
            return Ok(commands[i].clone());
        }
        i += 1;
    }
    Err(String::from_str("未找到 Python。请安装 Python 3.7+"))
}

/// The arguments with which the interpreter starts the store on `port`, with
/// its data under `data_path`.
pub open spec fn store_arguments(data_path: Seq<char>, port: u16) -> Seq<Seq<char>> {
    seq![
        "-m"@,
        "chromadb.cli"@,
        "run"@,
        "--path"@,
        data_path,
        "--port"@,
        decimal(port as nat),
    ]
}

/// Writes the arguments with which the interpreter starts the store.
pub fn server_arguments(data_path: &str, port: u16) -> (arguments: Vec<String>)
    ensures
        texts(arguments@) == store_arguments(data_path@, port),
{
    let mut arguments: Vec<String> = Vec::new();
    arguments.push(String::from_str("-m"));
    arguments.push(String::from_str("chromadb.cli"));
    arguments.push(String::from_str("run"));
    arguments.push(String::from_str("--path"));
    arguments.push(String::from_str(data_path));
    arguments.push(String::from_str("--port"));
    arguments.push(decimal_string(port as u64));
    assert(texts(arguments@) =~= store_arguments(data_path@, port));
    arguments
}

/// What came of installing the store: `Ok` holds whether the installer
/// succeeded and what it wrote to standard error, `Err` why it did not start.
pub open spec fn installed(attempt: Result<(bool, Seq<char>), Seq<char>>) -> Result<(), Seq<char>> {
    match attempt {
        Ok((true, _)) => Ok(()),
        Ok((false, stderr)) => Err("安装 chromadb 失败: "@ + stderr),
        Err(why) => Err("执行 pip install 失败: "@ + why),
    }
}

/// Reports what came of installing the store.
pub fn install_outcome(attempt: Result<(bool, String), String>) -> (outcome: Result<(), String>)
    ensures
        match attempt {
            Ok((done, stderr)) => installed(Ok((done, stderr@))) == match outcome {
                Ok(_) => Ok::<(), Seq<char>>(()),
                Err(why) => Err::<(), Seq<char>>(why@),
            },
            Err(reason) => installed(Err(reason@)) == match outcome {
                Ok(_) => Ok::<(), Seq<char>>(()),
                Err(why) => Err::<(), Seq<char>>(why@),
            },
        },
{
    match attempt {
        Ok((true, _)) => Ok(()),
        Ok((false, stderr)) => Err(join_two("安装 chromadb 失败: ", stderr.as_str())),
        Err(why) => Err(join_two("执行 pip install 失败: ", why.as_str())),
    }
}

} // verus!
