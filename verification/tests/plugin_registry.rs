use moro_host::error::PluginError;
use moro_host::json::Json;
use moro_host::manifest::{
    load_manifest, manifest_fields_from_json, manifest_from_json, resolve_manifest,
};
use moro_host::plugins::{
    admit_plugin, check_install, get_plugin, get_plugins, initialize_plugins, install_plugin,
    register_plugin, scan_manifest, scan_plugins, uninstall_plugin, PluginInfo, PluginRegistry,
    PluginStatus,
};

fn info(id: &str, name: &str, main: &str) -> PluginInfo {
    PluginInfo {
        name: name.to_string(),
        id: id.to_string(),
        display_name: None,
        version: "1.0.0".to_string(),
        description: "".to_string(),
        main: main.to_string(),
        author: None,
        requires_file_selection: None,
        file_filters: None,
        requires_output_file_selection: None,
        output_file_filters: None,
        default_output_file_name: None,
    }
}

fn loaded() -> PluginStatus {
    PluginStatus { loaded: true, error: None }
}

fn ready_registry() -> PluginRegistry {
    let mut registry = PluginRegistry::new();
    registry.set_plugin_dir("/data/plugins");
    registry
}

const FULL_MANIFEST: &str = "{
    \"name\": \"word-count\",
    \"id\": \"wc\",
    \"displayName\": \"Word Count\",
    \"version\": \"1.2.3\",
    \"description\": \"Counts words\",
    \"main\": \"index.js\",
    \"author\": \"someone\",
    \"requiresFileSelection\": true,
    \"fileFilters\": [\".txt\", \".md\"],
    \"requiresOutputFileSelection\": false,
    \"outputFileFilters\": [],
    \"defaultOutputFileName\": \"out.txt\",
    \"license\": \"MIT\"
}";

const SMALL_MANIFEST: &str =
    "{\"name\":\"doubler\",\"version\":\"0.1.0\",\"description\":\"\",\"main\":\"index.js\"}";

#[test]
fn load_manifest_reads_every_field() {
    let manifest = load_manifest(FULL_MANIFEST).unwrap();
    assert_eq!(
        manifest,
        PluginInfo {
            name: "word-count".to_string(),
            id: "wc".to_string(),
            display_name: Some("Word Count".to_string()),
            version: "1.2.3".to_string(),
            description: "Counts words".to_string(),
            main: "index.js".to_string(),
            author: Some("someone".to_string()),
            requires_file_selection: Some(true),
            file_filters: Some(vec![".txt".to_string(), ".md".to_string()]),
            requires_output_file_selection: Some(false),
            output_file_filters: Some(vec![]),
            default_output_file_name: Some("out.txt".to_string()),
        }
    );
}

#[test]
fn load_manifest_takes_the_name_for_a_missing_id() {
    let manifest = load_manifest(SMALL_MANIFEST).unwrap();
    assert_eq!(manifest, PluginInfo { version: "0.1.0".to_string(), ..info("doubler", "doubler", "index.js") });
}

#[test]
fn load_manifest_takes_the_name_for_an_empty_or_null_id() {
    let empty = "{\"name\":\"n\",\"id\":\"\",\"version\":\"1\",\"description\":\"\",\"main\":\"m.js\"}";
    assert_eq!(load_manifest(empty).unwrap().id, "n");
    let null = "{\"name\":\"n\",\"id\":null,\"version\":\"1\",\"description\":\"\",\"main\":\"m.js\"}";
    assert_eq!(load_manifest(null).unwrap().id, "n");
}

#[test]
fn load_manifest_refuses_an_empty_name_or_entry_module() {
    let no_name = "{\"name\":\"\",\"version\":\"1\",\"description\":\"\",\"main\":\"m.js\"}";
    assert_eq!(
        load_manifest(no_name),
        Err(PluginError::ManifestInvalid("插件名称或主文件未指定".to_string()))
    );
    let no_main = "{\"name\":\"n\",\"version\":\"1\",\"description\":\"\",\"main\":\"\"}";
    assert_eq!(
        load_manifest(no_main),
        Err(PluginError::ManifestInvalid("插件名称或主文件未指定".to_string()))
    );
}

#[test]
fn load_manifest_refuses_a_missing_required_field() {
    let shape = PluginError::ManifestInvalid("解析 package.json 失败: 字段缺失或类型不符".to_string());
    let no_version = "{\"name\":\"n\",\"description\":\"\",\"main\":\"m.js\"}";
    assert_eq!(load_manifest(no_version), Err(shape));
    let no_description = "{\"name\":\"n\",\"version\":\"1\",\"main\":\"m.js\"}";
    assert!(load_manifest(no_description).is_err());
    let no_main = "{\"name\":\"n\",\"version\":\"1\",\"description\":\"\"}";
    assert!(load_manifest(no_main).is_err());
    let no_name = "{\"version\":\"1\",\"description\":\"\",\"main\":\"m.js\"}";
    assert!(load_manifest(no_name).is_err());
}

#[test]
fn load_manifest_refuses_members_of_the_wrong_type() {
    let shape = PluginError::ManifestInvalid("解析 package.json 失败: 字段缺失或类型不符".to_string());
    let id = "{\"name\":\"n\",\"id\":7,\"version\":\"1\",\"description\":\"\",\"main\":\"m.js\"}";
    assert_eq!(load_manifest(id), Err(shape));
    let flag = "{\"name\":\"n\",\"version\":\"1\",\"description\":\"\",\"main\":\"m.js\",\"requiresFileSelection\":\"yes\"}";
    assert!(load_manifest(flag).is_err());
    let filters = "{\"name\":\"n\",\"version\":\"1\",\"description\":\"\",\"main\":\"m.js\",\"fileFilters\":[\".txt\",1]}";
    assert!(load_manifest(filters).is_err());
    assert!(load_manifest("[\"n\",\"1\",\"\",\"m.js\"]").is_err());
    assert!(load_manifest("\"name\"").is_err());
}

#[test]
fn load_manifest_reads_null_as_absent() {
    let text = "{\"name\":\"n\",\"version\":\"1\",\"description\":\"\",\"main\":\"m.js\",\"author\":null,\"fileFilters\":null,\"requiresFileSelection\":null}";
    let manifest = load_manifest(text).unwrap();
    assert_eq!(manifest.author, None);
    assert_eq!(manifest.file_filters, None);
    assert_eq!(manifest.requires_file_selection, None);
}

#[test]
fn load_manifest_says_what_the_reader_found_wrong() {
    assert_eq!(
        load_manifest("{ not json"),
        Err(PluginError::ManifestInvalid(
            "解析 package.json 失败: key must be a string at line 1 column 3".to_string()
        ))
    );
}

#[test]
fn manifest_from_json_works_on_a_document() {
    let doc = Json::parse(SMALL_MANIFEST).unwrap();
    assert_eq!(manifest_from_json(&doc).unwrap().id, "doubler");
    assert_eq!(manifest_fields_from_json(&doc).unwrap().id, "");
    assert!(manifest_from_json(&Json::Null).is_err());
}

#[test]
fn resolve_manifest_keeps_a_given_id() {
    assert_eq!(resolve_manifest(info("id", "name", "m.js")), Ok(info("id", "name", "m.js")));
    assert_eq!(resolve_manifest(info("", "name", "m.js")), Ok(info("name", "name", "m.js")));
    assert!(resolve_manifest(info("id", "", "m.js")).is_err());
    assert!(resolve_manifest(info("id", "name", "")).is_err());
}

#[test]
fn new_registry_is_empty() {
    let registry = PluginRegistry::new();
    assert_eq!(registry.len(), 0);
    assert_eq!(registry.plugin_dir(), None);
    assert_eq!(get_plugins(&registry), vec![]);
}

#[test]
fn install_then_get_gives_the_manifest_as_loaded() {
    let mut registry = ready_registry();
    let admitted = check_install(&registry, true, Some(FULL_MANIFEST)).unwrap();
    let installed = install_plugin(&mut registry, admitted, Ok(())).unwrap();
    assert_eq!(installed, load_manifest(FULL_MANIFEST).unwrap());
    let (found, status) = get_plugin(&registry, "wc").unwrap();
    assert_eq!(found, load_manifest(FULL_MANIFEST).unwrap());
    assert_eq!(status, loaded());
    assert!(status.loaded);
    assert_eq!(found.name, "word-count");
    assert_eq!(found.main, "index.js");
}

#[test]
fn second_install_is_refused_as_already_installed() {
    let mut registry = ready_registry();
    let admitted = check_install(&registry, true, Some(SMALL_MANIFEST)).unwrap();
    install_plugin(&mut registry, admitted, Ok(())).unwrap();
    let before = get_plugins(&registry);
    assert_eq!(
        check_install(&registry, true, Some(SMALL_MANIFEST)),
        Err(PluginError::AlreadyInstalled("doubler".to_string()))
    );
    let other = "{\"name\":\"other\",\"id\":\"doubler\",\"version\":\"9\",\"description\":\"x\",\"main\":\"o.js\"}";
    assert_eq!(
        check_install(&registry, true, Some(other)),
        Err(PluginError::AlreadyInstalled("doubler".to_string()))
    );
    assert_eq!(get_plugins(&registry), before);
}

#[test]
fn uninstall_after_install_removes_the_record() {
    let mut registry = ready_registry();
    let admitted = check_install(&registry, true, Some(SMALL_MANIFEST)).unwrap();
    install_plugin(&mut registry, admitted, Ok(())).unwrap();
    assert_eq!(uninstall_plugin(&mut registry, "doubler"), Ok(()));
    assert_eq!(
        get_plugin(&registry, "doubler"),
        Err(PluginError::PluginNotFound("doubler".to_string()))
    );
    assert_eq!(get_plugins(&registry), vec![]);
    assert_eq!(
        uninstall_plugin(&mut registry, "doubler"),
        Err(PluginError::PluginNotFound("doubler".to_string()))
    );
}

#[test]
fn uninstall_of_an_unknown_plugin_changes_nothing() {
    let mut registry = ready_registry();
    register_plugin(&mut registry, info("a", "a", "a.js"));
    assert_eq!(
        uninstall_plugin(&mut registry, "b"),
        Err(PluginError::PluginNotFound("b".to_string()))
    );
    assert_eq!(get_plugins(&registry), vec![(info("a", "a", "a.js"), loaded())]);
}

#[test]
fn uninstall_keeps_the_other_plugins_in_order() {
    let mut registry = ready_registry();
    register_plugin(&mut registry, info("a", "a", "a.js"));
    register_plugin(&mut registry, info("b", "b", "b.js"));
    register_plugin(&mut registry, info("c", "c", "c.js"));
    assert_eq!(uninstall_plugin(&mut registry, "b"), Ok(()));
    assert_eq!(
        get_plugins(&registry),
        vec![(info("a", "a", "a.js"), loaded()), (info("c", "c", "c.js"), loaded())]
    );
}

#[test]
fn register_replaces_the_record_of_the_same_id() {
    let mut registry = ready_registry();
    register_plugin(&mut registry, info("a", "first", "a.js"));
    register_plugin(&mut registry, info("b", "b", "b.js"));
    register_plugin(&mut registry, info("a", "second", "z.js"));
    assert_eq!(registry.len(), 2);
    assert_eq!(
        get_plugins(&registry),
        vec![(info("a", "second", "z.js"), loaded()), (info("b", "b", "b.js"), loaded())]
    );
    assert_eq!(get_plugin(&registry, "a").unwrap().0.name, "second");
}

#[test]
fn get_plugin_fails_for_an_unknown_id() {
    let registry = ready_registry();
    let failure = get_plugin(&registry, "ghost").unwrap_err();
    assert_eq!(failure, PluginError::PluginNotFound("ghost".to_string()));
    assert_eq!(failure.message(), "插件 ghost 不存在");
}

#[test]
fn check_install_needs_the_plugin_directory() {
    let registry = PluginRegistry::new();
    assert_eq!(
        check_install(&registry, true, Some(SMALL_MANIFEST)),
        Err(PluginError::NotInitialized)
    );
}

#[test]
fn check_install_needs_the_source_and_its_descriptor() {
    let registry = ready_registry();
    assert_eq!(
        check_install(&registry, false, None),
        Err(PluginError::IoError("插件路径不存在".to_string()))
    );
    assert_eq!(
        check_install(&registry, true, None),
        Err(PluginError::ManifestInvalid("插件缺少 package.json".to_string()))
    );
    assert!(check_install(&registry, true, Some("nonsense")).is_err());
    assert_eq!(
        check_install(&registry, true, Some("{\"name\":\"\",\"version\":\"1\",\"description\":\"\",\"main\":\"\"}")),
        Err(PluginError::ManifestInvalid("插件名称或主文件未指定".to_string()))
    );
}

#[test]
fn admit_plugin_refuses_a_registered_id_only() {
    let mut registry = ready_registry();
    register_plugin(&mut registry, info("a", "a", "a.js"));
    assert_eq!(
        admit_plugin(&registry, info("a", "x", "x.js")),
        Err(PluginError::AlreadyInstalled("a".to_string()))
    );
    assert_eq!(admit_plugin(&registry, info("b", "x", "x.js")), Ok(info("b", "x", "x.js")));
}

#[test]
fn failed_copy_registers_nothing() {
    let mut registry = ready_registry();
    let admitted = check_install(&registry, true, Some(SMALL_MANIFEST)).unwrap();
    assert_eq!(
        install_plugin(&mut registry, admitted, Err("复制插件文件失败: disk full".to_string())),
        Err(PluginError::IoError("复制插件文件失败: disk full".to_string()))
    );
    assert_eq!(registry.len(), 0);
    assert!(get_plugin(&registry, "doubler").is_err());
}

#[test]
fn scan_passes_over_what_declares_no_manifest() {
    let mut registry = ready_registry();
    let manifests = vec![
        SMALL_MANIFEST.to_string(),
        "broken".to_string(),
        "{\"name\":\"\",\"version\":\"1\",\"description\":\"\",\"main\":\"m.js\"}".to_string(),
        FULL_MANIFEST.to_string(),
    ];
    assert_eq!(scan_plugins(&mut registry, &manifests), 2);
    let ids: Vec<String> = get_plugins(&registry).into_iter().map(|r| r.0.id).collect();
    assert_eq!(ids, vec!["doubler".to_string(), "wc".to_string()]);
}

#[test]
fn scan_counts_every_package_that_declares_a_plugin() {
    let mut registry = ready_registry();
    assert_eq!(scan_plugins(&mut registry, &vec![]), 0);
    assert_eq!(scan_plugins(&mut registry, &vec!["{}".to_string(), "x".to_string()]), 0);
    let twice = vec![SMALL_MANIFEST.to_string(), SMALL_MANIFEST.to_string()];
    assert_eq!(scan_plugins(&mut registry, &twice), 2);
    assert_eq!(registry.len(), 1);
}

#[test]
fn scan_manifest_registers_over_an_earlier_record() {
    let mut registry = ready_registry();
    register_plugin(&mut registry, info("doubler", "old", "old.js"));
    assert!(scan_manifest(&mut registry, SMALL_MANIFEST));
    assert_eq!(get_plugin(&registry, "doubler").unwrap().0.main, "index.js");
    assert!(!scan_manifest(&mut registry, "[]"));
    assert_eq!(registry.len(), 1);
}

#[test]
fn initialize_plugins_sets_the_directory_and_scans() {
    let mut registry = PluginRegistry::new();
    let count = initialize_plugins(&mut registry, "/app/plugins", &vec![SMALL_MANIFEST.to_string()]);
    assert_eq!(count, 1);
    assert_eq!(registry.plugin_dir(), Some("/app/plugins"));
    assert!(get_plugin(&registry, "doubler").is_ok());
}

#[test]
fn clones_of_records_are_equal() {
    let manifest = load_manifest(FULL_MANIFEST).unwrap();
    assert_eq!(manifest.clone(), manifest);
    let status = PluginStatus { loaded: false, error: Some("x".to_string()) };
    assert_eq!(status.clone(), status);
}
