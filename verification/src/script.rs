//! The scripts that the host writes for the external runtime. Each is a fixed
//! text with the names and arguments of the call put in.

use crate::error::{PluginError, PluginErrorView};
use crate::json::{json_text, Json};
use crate::text::escape_backslashes;
use crate::text::escape_path;
use vstd::prelude::*;

verus! {

/// The functions that read and write files from inside the script, so that
/// these two calls never go through the host. What they report of their work
/// goes to standard error.
pub const LOCAL_FILE_API: &'static str = "\n        // 这里实现常用的Node.js API函数\n        const fs = require('fs');\n        const path = require('path');\n        \n        // 实现基本的API函数\n        const nodeApiImpl = {\n            // 读取文件API\n            readFile: function(args) {\n                try {\n                    if (!args || !args.path) throw new Error('未指定文件路径');\n                    console.error('直接读取文件:', args.path);\n                    return fs.readFileSync(args.path, args.encoding || 'utf8');\n                } catch (err) {\n                    console.error('读取文件失败:', err.message);\n                    throw new Error(`读取文件失败: ${err.message}`);\n                }\n            },\n            \n            // 写入文件API\n            writeFile: function(args) {\n                try {\n                    if (!args || !args.path) throw new Error('未指定文件路径');\n                    if (args.content === undefined) throw new Error('未指定文件内容');\n                    \n                    // 规范化路径\n                    const filePath = path.normalize(args.path);\n                    console.error('写入文件路径:', filePath);\n                    console.error('内容长度:', args.content.length);\n                    \n                    // 创建父目录\n                    try {\n                        const dirPath = path.dirname(filePath);\n                        if (!fs.existsSync(dirPath)) {\n                            console.error('创建目录:', dirPath);\n                            fs.mkdirSync(dirPath, { recursive: true });\n                        }\n                    } catch (dirErr) {\n                        console.error('创建目录失败:', dirErr);\n                        // 继续尝试写入\n                    }\n                    \n                    // 添加.txt扩展名如果没有扩展名\n                    let targetPath = filePath;\n                    if (!path.extname(filePath)) {\n                        targetPath = `${filePath}.txt`;\n                        console.error('添加.txt扩展名:', targetPath);\n                    }\n                    \n                    // 写入文件\n                    fs.writeFileSync(targetPath, args.content);\n                    \n                    // 验证文件是否被成功创建\n                    if (fs.existsSync(targetPath)) {\n                        const stats = fs.statSync(targetPath);\n                        console.error('文件写入成功:', targetPath, '大小:', stats.size);\n                        \n                        return {\n                            success: true,\n                            outputPath: targetPath,\n                            size: stats.size\n                        };\n                    } else {\n                        throw new Error(`写入操作没有报错，但文件不存在: ${targetPath}`);\n                    }\n                } catch (err) {\n                    console.error('写入文件失败:', err);\n                    \n                    // 尝试备用路径\n                    try {\n                        const userHome = process.env.USERPROFILE || process.env.HOME;\n                        const backupPath = path.join(userHome, 'plugin_output.txt');\n                        console.error('尝试备用路径:', backupPath);\n                        \n                        fs.writeFileSync(backupPath, args.content);\n                        \n                        if (fs.existsSync(backupPath)) {\n                            console.error('备用路径写入成功:', backupPath);\n                            return {\n                                success: true,\n                                outputPath: backupPath,\n                                size: fs.statSync(backupPath).size,\n                                message: '原始路径失败，使用备用路径'\n                            };\n                        }\n                    } catch (backupErr) {\n                        console.error('备用路径也失败:', backupErr);\n                    }\n                    \n                    throw new Error(`写入文件失败: ${err.message}`);\n                }\n            },\n        };\n        ";

/// The opening of the script that calls a method of a plugin.
pub const METHOD_OPEN: &'static str = "\n        try {\n            ";

/// The bridge through which the code of a plugin calls capabilities of the host, up to the point where the entry module is loaded.
pub const METHOD_BRIDGE: &'static str = "\n            \n            // 定义插件API桥接函数\n            global.appApi = {\n                callApi: function(apiName, apiArgs) {\n                    console.error('调用API:', apiName, '参数:', JSON.stringify(apiArgs));\n                    \n                    // 先检查是否有原生实现\n                    if (apiName === 'readFile' || apiName === 'writeFile') {\n                        try {\n                            console.error('使用原生实现调用:', apiName);\n                            const result = nodeApiImpl[apiName](apiArgs);\n                            console.error('原生调用结果:', typeof result === 'string' ? `字符串(长度${result.length})` : result);\n                            return result;\n                        } catch (err) {\n                            console.error('原生调用失败:', err);\n                            return { success: false, error: err.message };\n                        }\n                    }\n                    \n                    // 检查环境变量中的API结果\n                    try {\n                        // 先检查是否有临时文件存储API结果\n                        const resultFilePath = process.env.APP_API_RESULT_FILE;\n                        if (resultFilePath) {\n                            console.error('从临时文件读取API结果:', resultFilePath);\n                            try {\n                                const fileContent = fs.readFileSync(resultFilePath, 'utf8');\n                                const parsedResult = JSON.parse(fileContent);\n                                console.error('从文件读取的API结果类型:', typeof parsedResult);\n                                return parsedResult;\n                            } catch (fileErr) {\n                                console.error('从文件读取API结果失败:', fileErr);\n                            }\n                        }\n                        \n                        // 回退到环境变量\n                        const apiResult = process.env.APP_API_RESULT;\n                        if (apiResult) {\n                            try {\n                                const parsedResult = JSON.parse(apiResult);\n                                return parsedResult;\n                            } catch (jsonErr) {\n                                console.error('API结果解析失败:', jsonErr);\n                                return { success: false, error: 'API结果解析失败' };\n                            }\n                        }\n                    } catch (err) {\n                        console.error('获取API结果失败:', err);\n                    }\n                    \n                    // 如果所有方法都失败，返回默认空对象\n                    console.error('未找到API结果或未实现的API:', apiName);\n                    return { success: false, error: '未找到API结果或API调用失败' };\n                }\n            };\n            \n            // 加载插件\n            const plugin = require('";

/// After the path of the entry module: the test that the method is a function.
pub const METHOD_CHECK: &'static str = "');\n            if (typeof plugin.";

/// After the name of the method: what is thrown where it is none.
pub const METHOD_THROW: &'static str = " !== 'function') {\n                throw new Error('方法 ";

/// After the name of the method: the call itself.
pub const METHOD_CALL: &'static str = " 不存在或不是函数');\n            }\n            \n            // 执行插件方法\n            const result = plugin.";

/// Between the name of the method and its arguments.
pub const METHOD_ARGS: &'static str = "(";

/// After the arguments: the result is printed as one line of JSON on
/// standard output, and so is anything that was thrown. Nothing else is
/// written to standard output; what the script reports of its work goes to
/// standard error.
pub const METHOD_CLOSE: &'static str = ");\n            \n            // 检查结果类型\n            if (result && typeof result === 'object' && 'success' in result) {\n                // 如果结果已经包含 success 字段，直接使用\n                console.error('插件返回了标准格式结果:', JSON.stringify(result));\n                console.log(JSON.stringify(result));\n            } else {\n                // 否则包装成标准格式\n                console.error('将插件结果包装为标准格式:', JSON.stringify(result));\n                console.log(JSON.stringify({ success: true, result }));\n            }\n        } catch (error) {\n            console.log(JSON.stringify({ success: false, error: error.toString() }));\n        }\n        ";

/// The script that loads the entry module at `entry_path`, tests that it
/// exports the function `method`, calls it with the arguments whose JSON text
/// is `args`, and prints the outcome. Backslashes of the path are doubled.
pub open spec fn method_script_text(entry_path: Seq<char>, method: Seq<char>, args: Seq<char>) -> Seq<
    char,
> {
    METHOD_OPEN@ + LOCAL_FILE_API@ + METHOD_BRIDGE@ + escape_backslashes(entry_path) + METHOD_CHECK@
        + method + METHOD_THROW@ + method + METHOD_CALL@ + method + METHOD_ARGS@ + args
        + METHOD_CLOSE@
}

/// Writes the script that calls `method` of the entry module at `entry_path`
/// with the arguments whose JSON text is `args`.
pub fn method_script_from_text(entry_path: &str, method: &str, args: &str) -> (script: String)
    ensures
        script@ == method_script_text(entry_path@, method@, args@),
{
    let path = escape_path(entry_path);
    let mut script = String::from_str(METHOD_OPEN);
    script.append(LOCAL_FILE_API);
    script.append(METHOD_BRIDGE);
    script.append(path.as_str());
    script.append(METHOD_CHECK);
    script.append(method);
    script.append(METHOD_THROW);
    script.append(method);
    script.append(METHOD_CALL);
    script.append(method);
    script.append(METHOD_ARGS);
    script.append(args);
    script.append(METHOD_CLOSE);
    script
}

/// Writes the script that calls `method` of the entry module at `entry_path`
/// with the arguments `args`.
pub fn method_script(entry_path: &str, method: &str, args: &Json) -> (script: String)
    ensures
        script@ == method_script_text(entry_path@, method@, json_text(args@)),
{
    let text = args.to_text();
    method_script_from_text(entry_path, method, text.as_str())
}

/// The body of a function that calls the function `function` of the module
/// `main`, which lies beside the script, with the arguments whose JSON text is
/// `args`, and returns what it gives.
pub open spec fn function_script_text(main: Seq<char>, function: Seq<char>, args: Seq<char>) -> Seq<
    char,
> {
    "const plugin = require('./"@ + main + "');if (typeof plugin."@ + function
        + " !== 'function') {throw new Error('Function "@ + function
        + " not found in plugin');}return plugin."@ + function + "("@ + args + ")"@
}

/// Writes the body of a function that calls `function` of the module `main`
/// with the arguments whose JSON text is `args`.
pub fn function_script_from_text(main: &str, function: &str, args: &str) -> (script: String)
    ensures
        script@ == function_script_text(main@, function@, args@),
{
    let mut script = String::from_str("const plugin = require('./");
    script.append(main);
    script.append("');if (typeof plugin.");
    script.append(function);
    script.append(" !== 'function') {throw new Error('Function ");
    script.append(function);
    script.append(" not found in plugin');}return plugin.");
    script.append(function);
    script.append("(");
    script.append(args);
    script.append(")");
    script
}

/// Writes the body of a function that calls `function` of the module `main`
/// with the arguments `args`.
pub fn function_script(main: &str, function: &str, args: &Json) -> (script: String)
    ensures
        script@ == function_script_text(main@, function@, json_text(args@)),
{
    let text = args.to_text();
    function_script_from_text(main, function, text.as_str())
}

/// The body of a function that returns the names of the functions that the
/// module `main` exports.
pub open spec fn exports_script_text(main: Seq<char>) -> Seq<char> {
    "const plugin = require('"@ + main
        + "');const exports = [];for (const key in plugin) {if (typeof plugin[key] === 'function') {exports.push(key);}}return exports;"@
}

/// Writes the body of a function that lists the functions that the module
/// `main` exports.
pub fn exports_script(main: &str) -> (script: String)
    ensures
        script@ == exports_script_text(main@),
{
    let mut script = String::from_str("const plugin = require('");
    script.append(main);
    script.append(
        "');const exports = [];for (const key in plugin) {if (typeof plugin[key] === 'function') {exports.push(key);}}return exports;",
    );
    script
}

/// The value of a script or the failure to write one.
pub open spec fn script_view(script: Result<String, PluginError>) -> Result<
    Seq<char>,
    PluginErrorView,
> {
    match script {
        Ok(s) => Ok(s@),
        Err(e) => Err(e@),
    }
}

} // verus!
