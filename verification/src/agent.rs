//! What the agent reports about code: file facts, code context, project
//! structure and dependencies.

use vstd::prelude::*;
use std::collections::HashMap;
use std::time::Duration;
use crate::text::{split_lines, str_lines, starts_with_str, ends_with_str, has_prefix, has_suffix};
use crate::image_processing::str_is;
use crate::gateway::byte_len;
use crate::error::concat_str;
use crate::fs::{Edit, EditType};
use crate::keyed::{unique_keys, key_map, lemma_key_at, lemma_key_update, lemma_key_push, find_key};
use crate::paths::{file_extension, file_name, path_extension, path_file_name, or_empty};

verus! {

/// Agent 状态
#[derive(Debug, Clone)]
pub enum AgentStatus {
    /// 未启动
    NotStarted,
    /// 初始化中
    Initializing,
    /// 运行中
    Running,
    /// 等待输入
    WaitingForInput,
    /// 执行工具
    ExecutingTool,
    /// 暂停
    Paused,
    /// 完成
    Completed,
    /// 错误
    Error(String),
}

/// What the agent answers. Tool inputs, tool results and metadata values
/// are JSON texts.
#[derive(Debug, Clone)]
pub enum AgentResponse {
    /// 流式请求开始
    StreamRequestStart,
    /// 文本内容
    TextContent { content: String, is_partial: bool },
    /// 工具调用
    ToolCall { tool_name: String, tool_input: String, call_id: String },
    /// 工具结果
    ToolResult { call_id: String, result: String, is_error: bool },
    /// 状态更新
    StatusUpdate { status: AgentStatus, message: Option<String> },
    /// 错误
    Error { error: String, error_code: Option<String> },
    /// 完成
    Completed { final_response: String, metadata: HashMap<String, String> },
}

/// The coding agent's handling of requests and edit instructions.
#[derive(Debug, Clone, Copy)]
pub struct Agent {}

impl Agent {
    /// An agent.
    pub fn new() -> (a: Agent) {
        Agent {}
    }

    /// The answer to a user's request: the complete text
    /// `Processing: {request}`.
    pub fn process_user_request(&self, request: &str) -> (res: crate::error::Result<AgentResponse>)
        ensures
            res matches Ok(AgentResponse::TextContent { content, is_partial })
                && content@ == "Processing: "@ + request@ && !is_partial,
    {
        Ok(AgentResponse::TextContent { content: concat_str("Processing: ", request), is_partial: false })
    }

    /// The edit proposed for `instruction` on the code in `context`: the
    /// whole file replaced by a comment naming the instruction, the two
    /// characters `\n`, and the code.
    pub fn generate_code_edit(&self, instruction: &str, context: &CodeContext) -> (res: crate::error::Result<Edit>)
        ensures
            res matches Ok(e) && e.file_path@ == context.file_path@ && e.edit_type is Replace
                && e.content@ == "// Generated edit for: "@ + instruction@ + "\\n"@ + context.content@
                && e.line_range is None,
    {
        let mut content = concat_str("// Generated edit for: ", instruction);
        content.append("\\n");
        content.append(context.content.as_str());
        Ok(Edit { file_path: context.file_path.clone(), edit_type: EditType::Replace, content, line_range: None })
    }
}

/// 代码上下文
#[derive(Debug, Clone)]
pub struct CodeContext {
    /// 文件路径
    pub file_path: String,
    /// 文件内容
    pub content: String,
    /// 语言类型
    pub language: String,
}

/// 文件信息
#[derive(Debug, Clone)]
pub struct FileInfo {
    /// 文件路径
    pub path: String,
    /// 文件名
    pub name: String,
    /// 文件扩展名
    pub extension: String,
    /// 编程语言
    pub language: String,
    /// 行数
    pub line_count: usize,
    /// 字符数
    pub char_count: usize,
    /// 文件大小（字节）
    pub size_bytes: usize,
}

/// 项目结构
#[derive(Debug, Clone)]
pub struct ProjectStructure {
    /// 项目类型
    pub project_type: String,
    /// 构建系统
    pub build_system: Option<String>,
    /// 主要目录
    pub main_directories: Vec<String>,
    /// 配置文件
    pub config_files: Vec<String>,
}

/// 依赖关系
#[derive(Debug, Clone)]
pub struct Dependency {
    /// 依赖名称
    pub name: String,
    /// 版本
    pub version: String,
    /// 依赖类型
    pub dependency_type: String,
}

/// The language a file extension stands for.
pub open spec fn language_of(ext: Seq<char>) -> Seq<char> {
    if ext == "rs"@ { "Rust"@ }
    else if ext == "py"@ { "Python"@ }
    else if ext == "js"@ { "JavaScript"@ }
    else if ext == "ts"@ { "TypeScript"@ }
    else if ext == "java"@ { "Java"@ }
    else if ext == "cpp"@ || ext == "cc"@ || ext == "cxx"@ { "C++"@ }
    else if ext == "c"@ { "C"@ }
    else if ext == "go"@ { "Go"@ }
    else if ext == "rb"@ { "Ruby"@ }
    else if ext == "php"@ { "PHP"@ }
    else if ext == "swift"@ { "Swift"@ }
    else if ext == "kt"@ { "Kotlin"@ }
    else if ext == "scala"@ { "Scala"@ }
    else if ext == "cs"@ { "C#"@ }
    else if ext == "html"@ { "HTML"@ }
    else if ext == "css"@ { "CSS"@ }
    else if ext == "json"@ { "JSON"@ }
    else if ext == "yaml"@ || ext == "yml"@ { "YAML"@ }
    else if ext == "toml"@ { "TOML"@ }
    else if ext == "md"@ { "Markdown"@ }
    else { "Unknown"@ }
}

/// The language of files with extension `ext`.
pub fn language_for_extension(ext: &str) -> (lang: &'static str)
    ensures
        lang@ == language_of(ext@),
{
    let e = String::from_str(ext);
    if str_is(&e, "rs") { "Rust" }
    else if str_is(&e, "py") { "Python" }
    else if str_is(&e, "js") { "JavaScript" }
    else if str_is(&e, "ts") { "TypeScript" }
    else if str_is(&e, "java") { "Java" }
    else if str_is(&e, "cpp") || str_is(&e, "cc") || str_is(&e, "cxx") { "C++" }
    else if str_is(&e, "c") { "C" }
    else if str_is(&e, "go") { "Go" }
    else if str_is(&e, "rb") { "Ruby" }
    else if str_is(&e, "php") { "PHP" }
    else if str_is(&e, "swift") { "Swift" }
    else if str_is(&e, "kt") { "Kotlin" }
    else if str_is(&e, "scala") { "Scala" }
    else if str_is(&e, "cs") { "C#" }
    else if str_is(&e, "html") { "HTML" }
    else if str_is(&e, "css") { "CSS" }
    else if str_is(&e, "json") { "JSON" }
    else if str_is(&e, "yaml") || str_is(&e, "yml") { "YAML" }
    else if str_is(&e, "toml") { "TOML" }
    else if str_is(&e, "md") { "Markdown" }
    else { "Unknown" }
}

/// The facts about a file at `path`, named `name`, with extension
/// `extension` (empty when it has none) and text `content`: its language,
/// its number of lines (as `str::lines` counts them), characters and bytes.
pub fn file_info(path: &str, name: &str, extension: &str, content: &str) -> (f: FileInfo)
    ensures
        f.path@ == path@,
        f.name@ == name@,
        f.extension@ == extension@,
        f.language@ == language_of(extension@),
        f.line_count == split_lines(content@).len(),
        f.char_count == content@.len(),
        f.size_bytes == byte_len(content@) as usize,
{
    let lines = str_lines(content);
    assert(lines@.len() == split_lines(content@).len());
    let chars = crate::text::chars_of(content);
    FileInfo {
        path: String::from_str(path),
        name: String::from_str(name),
        extension: String::from_str(extension),
        language: String::from_str(language_for_extension(extension)),
        line_count: lines.len(),
        char_count: chars.len(),
        size_bytes: content.len(),
    }
}

/// The facts about the file at `file_path` whose text is `content`: its name
/// and extension are read from the path (empty where there is none).
pub fn analyze_file_content(file_path: &str, content: &str) -> (f: FileInfo)
    ensures
        f.path@ == file_path@,
        f.name@ == or_empty(path_file_name(file_path@)),
        f.extension@ == or_empty(path_extension(file_path@)),
        f.language@ == language_of(or_empty(path_extension(file_path@))),
        f.line_count == split_lines(content@).len(),
        f.char_count == content@.len(),
        f.size_bytes == byte_len(content@) as usize,
{
    let extension = match file_extension(file_path) {
        Some(e) => e,
        None => String::new(),
    };
    let name = match file_name(file_path) {
        Some(n) => n,
        None => String::new(),
    };
    file_info(file_path, name.as_str(), extension.as_str(), content)
}

/// Whether directory analysis passes over a file named `name`: hidden
/// files, lock files and log files are passed over.
pub open spec fn skips_file(name: Seq<char>) -> bool {
    has_prefix(name, "."@) || has_suffix(name, ".lock"@) || has_suffix(name, ".log"@)
}

/// Whether directory analysis passes over the file `name`.
pub fn skip_file(name: &str) -> (b: bool)
    ensures
        b == skips_file(name@),
{
    starts_with_str(name, ".") || ends_with_str(name, ".lock") || ends_with_str(name, ".log")
}

/// Whether directory analysis descends into a directory named `name`:
/// hidden directories, build output and dependency caches are left out.
pub open spec fn descends_into(name: Seq<char>) -> bool {
    !has_prefix(name, "."@) && name != "target"@ && name != "node_modules"@ && name != "__pycache__"@
}

/// Whether directory analysis descends into the directory `name`.
pub fn descend_into(name: &str) -> (b: bool)
    ensures
        b == descends_into(name@),
{
    let n = String::from_str(name);
    !starts_with_str(name, ".") && !str_is(&n, "target") && !str_is(&n, "node_modules") && !str_is(&n, "__pycache__")
}

/// The structure found for a project: nothing is recognised yet.
pub fn analyze_project_structure(_path: &str) -> (s: ProjectStructure)
    ensures
        s.project_type@ == "Unknown"@,
        s.build_system is None,
        s.main_directories@.len() == 0,
        s.config_files@.len() == 0,
{
    ProjectStructure {
        project_type: String::from_str("Unknown"),
        build_system: None,
        main_directories: Vec::new(),
        config_files: Vec::new(),
    }
}

/// The lines counted over a list of files.
pub open spec fn lines_total(files: Seq<FileInfo>) -> nat
    decreases files.len(),
{
    if files.len() == 0 { 0 } else { lines_total(files.drop_last()) + files.last().line_count as nat }
}

/// How many of the files are in language `l`.
pub open spec fn language_count(fs: Seq<FileInfo>, l: Seq<char>) -> nat
    decreases fs.len(),
{
    if fs.len() == 0 {
        0
    } else {
        language_count(fs.drop_last(), l) + if fs.last().language@ == l { 1nat } else { 0nat }
    }
}

/// Whether some file is in language `l`.
pub open spec fn has_language(fs: Seq<FileInfo>, l: Seq<char>) -> bool {
    exists|i: int| 0 <= i < fs.len() && #[trigger] fs[i].language@ == l
}

proof fn lemma_language_count_le(fs: Seq<FileInfo>, l: Seq<char>)
    ensures
        language_count(fs, l) <= fs.len(),
    decreases fs.len(),
{
    if fs.len() > 0 {
        lemma_language_count_le(fs.drop_last(), l);
    }
}

proof fn lemma_language_absent(fs: Seq<FileInfo>, l: Seq<char>)
    requires
        !has_language(fs, l),
    ensures
        language_count(fs, l) == 0,
    decreases fs.len(),
{
    if fs.len() > 0 {
        let p = fs.drop_last();
        if has_language(p, l) {
            let j = choose|j: int| 0 <= j < p.len() && #[trigger] p[j].language@ == l;
            assert(fs[j].language@ == l);
        }
        assert(fs[fs.len() - 1].language@ != l);
        lemma_language_absent(p, l);
    }
}

/// The languages of the files with the number of files in each, each
/// language listed once.
pub fn language_counts(files: &[FileInfo]) -> (r: Vec<(String, usize)>)
    ensures
        unique_keys(r@),
        forall|l: Seq<char>| #[trigger] key_map(r@).contains_key(l) <==> has_language(files@, l),
        forall|l: Seq<char>| #[trigger] key_map(r@).contains_key(l) ==> key_map(r@)[l] == language_count(files@, l),
{
    let ghost fs = files@;
    let mut r: Vec<(String, usize)> = Vec::new();
    let mut i: usize = 0;
    while i < files.len()
        invariant
            i <= fs.len(),
            fs == files@,
            unique_keys(r@),
            forall|l: Seq<char>| #[trigger] key_map(r@).contains_key(l) <==> has_language(fs.take(i as int), l),
            forall|l: Seq<char>| #[trigger] key_map(r@).contains_key(l) ==> key_map(r@)[l] == language_count(fs.take(i as int), l),
        decreases files.len() - i,
    {
        let ghost pre = fs.take(i as int);
        let ghost post = fs.take(i + 1);
        let ghost lang = fs[i as int].language@;
        proof {
            assert(post.drop_last() =~= pre);
            assert(post.last() == fs[i as int]);
            assert forall|j: int| 0 <= j < i implies #[trigger] pre[j] == fs[j] by {}
            assert forall|j: int| 0 <= j <= i implies #[trigger] post[j] == fs[j] by {}
            lemma_language_count_le(post, lang);
        }
        let ghost before = r@;
        match find_key(&r, files[i].language.as_str()) {
            Some(k) => {
                proof { lemma_key_at(before, k as int); }
                let item = (files[i].language.clone(), r[k].1 + 1);
                proof { lemma_key_update(before, k as int, item); }
                r.set(k, item);
            },
            None => {
                proof {
                    if has_language(pre, lang) {
                        assert(key_map(before).contains_key(lang));
                    }
                    lemma_language_absent(pre, lang);
                }
                let item = (files[i].language.clone(), 1usize);
                proof { lemma_key_push(before, item); }
                r.push(item);
            },
        }
        proof {
            assert forall|l: Seq<char>| #[trigger] key_map(r@).contains_key(l) <==> has_language(post, l) by {
                if has_language(pre, l) {
                    let j = choose|j: int| 0 <= j < pre.len() && #[trigger] pre[j].language@ == l;
                    assert(post[j].language@ == l);
                }
                if has_language(post, l) {
                    let j = choose|j: int| 0 <= j < post.len() && #[trigger] post[j].language@ == l;
                    if j < i { assert(pre[j].language@ == l); }
                }
                if l == lang { assert(post[i as int].language@ == l); }
            }
        }
        i = i + 1;
    }
    assert(fs.take(fs.len() as int) =~= fs);
    r
}

/// The number of lines of all the files together.
pub fn total_lines(files: &[FileInfo]) -> (n: usize)
    requires
        lines_total(files@) <= usize::MAX,
    ensures
        n == lines_total(files@),
{
    let ghost fs = files@;
    let mut n: usize = 0;
    let mut i: usize = 0;
    while i < files.len()
        invariant
            i <= fs.len(),
            fs == files@,
            lines_total(fs) <= usize::MAX,
            n == lines_total(fs.take(i as int)),
        decreases files.len() - i,
    {
        proof {
            assert(fs.take(i + 1).drop_last() =~= fs.take(i as int));
            lemma_lines_prefix(fs, i + 1);
        }
        n = n + files[i].line_count;
        i = i + 1;
    }
    assert(fs.take(fs.len() as int) =~= fs);
    n
}

proof fn lemma_lines_prefix(fs: Seq<FileInfo>, k: int)
    requires
        0 <= k <= fs.len(),
    ensures
        lines_total(fs.take(k)) <= lines_total(fs),
    decreases fs.len() - k,
{
    if k < fs.len() {
        lemma_lines_prefix(fs, k + 1);
        assert(fs.take(k + 1).drop_last() =~= fs.take(k));
    } else {
        assert(fs.take(k) =~= fs);
    }
}

} // verus!
