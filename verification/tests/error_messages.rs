use moro_host::error::PluginError;

#[test]
fn each_failure_has_its_words() {
    let s = |t: &str| t.to_string();
    assert_eq!(PluginError::ManifestInvalid(s("原因")).message(), "原因");
    assert_eq!(PluginError::AlreadyInstalled(s("wc")).message(), "插件 wc 已存在");
    assert_eq!(PluginError::PluginNotFound(s("wc")).message(), "插件 wc 不存在");
    assert_eq!(PluginError::NotInitialized.message(), "插件系统未初始化");
    assert_eq!(
        PluginError::EntryMissing(s("/p/wc/index.js")).message(),
        "插件主文件不存在: /p/wc/index.js"
    );
    assert_eq!(PluginError::FunctionNotFound(s("run")).message(), "方法 run 不存在或不是函数");
    assert_eq!(PluginError::RuntimeNotFound.message(), "找不到 Node.js 执行环境");
    assert_eq!(PluginError::ExecutionError(s("boom")).message(), "Node.js 执行错误: boom");
    assert_eq!(PluginError::ExecutionTimeout.message(), "Node.js 执行超时");
    assert_eq!(PluginError::OutputParseFailure(s("坏")).message(), "坏");
    assert_eq!(
        PluginError::CapabilityNotFound(s("readFile")).message(),
        "API 函数 'readFile' 未注册"
    );
    assert_eq!(PluginError::CapabilityFailed(s("未指定文件路径")).message(), "未指定文件路径");
    assert_eq!(PluginError::IoError(s("磁盘")).message(), "磁盘");
}

#[test]
fn clone_gives_an_equal_failure() {
    let failures = vec![
        PluginError::ManifestInvalid("a".to_string()),
        PluginError::NotInitialized,
        PluginError::ExecutionError("b".to_string()),
        PluginError::ExecutionTimeout,
        PluginError::IoError("c".to_string()),
    ];
    for failure in &failures {
        assert_eq!(&failure.clone(), failure);
    }
}
