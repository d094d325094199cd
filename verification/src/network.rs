//! Messages exchanged with the model API: messages, responses, usage,
//! errors, tool choice, image sources and model listings.

use vstd::prelude::*;
use std::collections::HashMap;
use std::time::Duration;
use crate::text::{has_substring, contains_str, seq_join, string_views, join_strings};
use crate::gateway::byte_len;
use crate::image_processing::str_is;
use base64::Engine;
use crate::paths::{file_extension, path_extension, opt_string_text};

verus! {

/// 消息结构
#[derive(Debug, Clone)]
pub struct Message {
    /// 角色 (user, assistant, system)
    pub role: String,
    /// 消息内容
    pub content: String,
}

/// 模型 API 响应结构
#[derive(Debug, Clone)]
pub struct ClaudeResponse {
    /// 响应 ID
    pub id: String,
    /// 响应类型
    pub response_type: String,
    /// 角色
    pub role: String,
    /// 响应内容
    pub content: String,
    /// 模型名称
    pub model: String,
    /// 停止原因
    pub stop_reason: Option<String>,
    /// 停止序列
    pub stop_sequence: Option<String>,
    /// 使用情况
    pub usage: Option<Usage>,
}

/// 使用情况统计
#[derive(Debug, Clone)]
pub struct Usage {
    /// 输入令牌数
    pub input_tokens: u32,
    /// 输出令牌数
    pub output_tokens: u32,
}

/// API 错误响应
#[derive(Debug, Clone)]
pub struct ApiError {
    /// 错误类型
    pub error_type: String,
    /// 错误消息
    pub message: String,
}

/// 工具选择
#[derive(Debug, Clone)]
pub enum ToolChoice {
    Auto,
    Any,
    Tool { name: String },
}

/// 请求元数据
#[derive(Debug, Clone)]
pub struct RequestMetadata {
    pub user_id: Option<String>,
    pub session_id: Option<String>,
    pub conversation_id: Option<String>,
    pub tags: Option<Vec<String>>,
}

/// 图像源
#[derive(Debug, Clone)]
pub struct ImageSource {
    pub source_type: String, // "base64"
    pub media_type: String,   // "image/jpeg", "image/png", etc.
    pub data: String,         // base64 encoded image data
}

/// 模型信息
#[derive(Debug, Clone)]
pub struct Model {
    pub id: String,
    /// The object's type tag.
    pub model_type: String,
    pub display_name: String,
}

/// 模型列表响应
#[derive(Debug, Clone)]
pub struct ModelsResponse {
    pub data: Vec<Model>,
}

/// 流式响应增量
#[derive(Debug, Clone)]
pub struct StreamDelta {
    pub delta_type: String,
    pub text: Option<String>,
}

/// One block of a message's content. A tool call's input is JSON text.
#[derive(Debug, Clone)]
pub enum ContentBlock {
    Text { text: String },
    Image { source: ImageSource },
    ToolUse { id: String, name: String, input: String },
    ToolResult { tool_use_id: String, content: String, is_error: Option<bool> },
}

/// A message's content: plain text, or blocks.
#[derive(Debug, Clone)]
pub enum MessageContent {
    Text(String),
    Blocks(Vec<ContentBlock>),
}

/// The text a block carries: a text block's text or a tool result's content.
pub open spec fn block_text(b: ContentBlock) -> Option<Seq<char>> {
    match b {
        ContentBlock::Text { text } => Some(text@),
        ContentBlock::ToolResult { content, .. } => Some(content@),
        _ => None,
    }
}

/// Whether the text a block carries contains `t`.
pub open spec fn block_has(b: ContentBlock, t: Seq<char>) -> bool {
    match block_text(b) {
        Some(x) => has_substring(x, t),
        None => false,
    }
}

/// How a block reads in a one-line rendering.
pub open spec fn block_display(b: ContentBlock) -> Seq<char> {
    match b {
        ContentBlock::Text { text } => text@,
        ContentBlock::ToolResult { content, .. } => content@,
        ContentBlock::ToolUse { name, .. } => "[Tool: "@ + name@ + "]"@,
        ContentBlock::Image { .. } => "[Image]"@,
    }
}

/// The bytes of text that a list of blocks carries.
pub open spec fn blocks_len(bs: Seq<ContentBlock>) -> nat
    decreases bs.len(),
{
    if bs.len() == 0 {
        0
    } else {
        blocks_len(bs.drop_last()) + match block_text(bs.last()) {
            Some(t) => byte_len(t),
            None => 0,
        }
    }
}

/// The bytes of text that the content carries.
pub open spec fn content_len(c: MessageContent) -> nat {
    match c {
        MessageContent::Text(s) => byte_len(s@),
        MessageContent::Blocks(bs) => blocks_len(bs@),
    }
}

/// Whether the content carries `t`: in its text, or in one of its text
/// blocks or tool results.
pub open spec fn content_contains(c: MessageContent, t: Seq<char>) -> bool {
    match c {
        MessageContent::Text(s) => has_substring(s@, t),
        MessageContent::Blocks(bs) => exists|i: int| 0 <= i < bs@.len() && #[trigger] block_has(bs@[i], t),
    }
}

/// The content on one line: the text, or the blocks' renderings joined by spaces.
pub open spec fn content_text(c: MessageContent) -> Seq<char> {
    match c {
        MessageContent::Text(s) => s@,
        MessageContent::Blocks(bs) => seq_join(bs@.map_values(|b: ContentBlock| block_display(b)), " "@),
    }
}

impl MessageContent {
    /// Whether the content carries `text`.
    pub fn contains(&self, text: &str) -> (b: bool)
        ensures
            b == content_contains(*self, text@),
    {
        match self {
            MessageContent::Text(s) => contains_str(s.as_str(), text),
            MessageContent::Blocks(blocks) => {
                let mut i: usize = 0;
                while i < blocks.len()
                    invariant
                        i <= blocks@.len(),
                        *self == MessageContent::Blocks(*blocks),
                        forall|j: int| 0 <= j < i ==> !#[trigger] block_has(blocks@[j], text@),
                    decreases blocks.len() - i,
                {
                    let found = match &blocks[i] {
                        ContentBlock::Text { text: t } => contains_str(t.as_str(), text),
                        ContentBlock::ToolResult { content, .. } => contains_str(content.as_str(), text),
                        _ => false,
                    };
                    if found {
                        assert(block_has(blocks@[i as int], text@));
                        proof { lemma_contains_witness(*blocks, text@, i as int); }
                        return true;
                    }
                    i = i + 1;
                }
                false
            },
        }
    }

    /// The bytes of text that the content carries.
    pub fn len(&self) -> (n: usize)
        requires
            content_len(*self) <= usize::MAX,
        ensures
            n == content_len(*self),
    {
        match self {
            MessageContent::Text(s) => s.as_str().len(),
            MessageContent::Blocks(blocks) => {
                let mut n: usize = 0;
                let mut i: usize = 0;
                while i < blocks.len()
                    invariant
                        i <= blocks@.len(),
                        blocks_len(blocks@) <= usize::MAX,
                        n == blocks_len(blocks@.take(i as int)),
                    decreases blocks.len() - i,
                {
                    proof {
                        assert(blocks@.take(i + 1).drop_last() =~= blocks@.take(i as int));
                        lemma_blocks_len_prefix(blocks@, i + 1);
                    }
                    let k = match &blocks[i] {
                        ContentBlock::Text { text } => text.as_str().len(),
                        ContentBlock::ToolResult { content, .. } => content.as_str().len(),
                        _ => 0,
                    };
                    n = n + k;
                    i = i + 1;
                }
                assert(blocks@.take(blocks@.len() as int) =~= blocks@);
                n
            },
        }
    }

    /// Whether the content carries no text.
    pub fn is_empty(&self) -> (b: bool)
        requires
            content_len(*self) <= usize::MAX,
        ensures
            b == (content_len(*self) == 0),
    {
        self.len() == 0
    }

    /// The content on one line.
    pub fn as_str(&self) -> (s: String)
        ensures
            s@ == content_text(*self),
    {
        match self {
            MessageContent::Text(s) => s.clone(),
            MessageContent::Blocks(blocks) => {
                let mut parts: Vec<String> = Vec::new();
                let mut i: usize = 0;
                while i < blocks.len()
                    invariant
                        i <= blocks@.len(),
                        string_views(parts@) == blocks@.take(i as int).map_values(|b: ContentBlock| block_display(b)),
                    decreases blocks.len() - i,
                {
                    let part = match &blocks[i] {
                        ContentBlock::Text { text } => text.clone(),
                        ContentBlock::ToolResult { content, .. } => content.clone(),
                        ContentBlock::ToolUse { name, .. } => {
                            let mut t = String::from_str("[Tool: ");
                            t.append(name.as_str());
                            t.append("]");
                            t
                        },
                        ContentBlock::Image { .. } => String::from_str("[Image]"),
                    };
                    let ghost before = string_views(parts@);
                    parts.push(part);
                    assert(string_views(parts@) =~= before.push(block_display(blocks@[i as int])));
                    assert(blocks@.take(i + 1).map_values(|b: ContentBlock| block_display(b))
                        =~= blocks@.take(i as int).map_values(|b: ContentBlock| block_display(b)).push(block_display(blocks@[i as int])));
                    i = i + 1;
                }
                assert(blocks@.take(blocks@.len() as int) =~= blocks@);
                join_strings(&parts, " ")
            },
        }
    }

    /// The content on one line (the same as `as_str`).
    pub fn to_string(&self) -> (s: String)
        ensures
            s@ == content_text(*self),
    {
        self.as_str()
    }
}

proof fn lemma_contains_witness(bs: Vec<ContentBlock>, t: Seq<char>, i: int)
    requires
        0 <= i < bs@.len(),
        block_has(bs@[i], t),
    ensures
        content_contains(MessageContent::Blocks(bs), t),
{
    let c = MessageContent::Blocks(bs);
    assert(c->Blocks_0 == bs);
    assert(block_has(c->Blocks_0@[i], t));
}

proof fn lemma_blocks_len_prefix(bs: Seq<ContentBlock>, k: int)
    requires
        0 <= k <= bs.len(),
    ensures
        blocks_len(bs.take(k)) <= blocks_len(bs),
    decreases bs.len() - k,
{
    if k < bs.len() {
        lemma_blocks_len_prefix(bs, k + 1);
        assert(bs.take(k + 1).drop_last() =~= bs.take(k));
    } else {
        assert(bs.take(k) =~= bs);
    }
}

/// The character of the standard base64 alphabet for a value below 64:
/// `A`-`Z`, `a`-`z`, `0`-`9`, `+`, `/`.
pub open spec fn base64_digit(v: nat) -> char {
    if v < 26 {
        ((v + 65) as u8) as char
    } else if v < 52 {
        ((v + 71) as u8) as char
    } else if v < 62 {
        ((v - 4) as u8) as char
    } else if v == 62 {
        '+'
    } else {
        '/'
    }
}

/// The standard base64 encoding (with padding) of a byte sequence: each
/// group of three bytes gives four characters of six bits each, and a last
/// group of one or two bytes is padded with `=`.
pub open spec fn base64_standard(data: Seq<u8>) -> Seq<char>
    decreases data.len(),
{
    if data.len() == 0 {
        Seq::empty()
    } else if data.len() == 1 {
        let a = data[0] as nat;
        seq![base64_digit(a / 4), base64_digit((a % 4) * 16), '=', '=']
    } else if data.len() == 2 {
        let a = data[0] as nat;
        let b = data[1] as nat;
        seq![base64_digit(a / 4), base64_digit((a % 4) * 16 + b / 16), base64_digit((b % 16) * 4), '=']
    } else {
        let a = data[0] as nat;
        let b = data[1] as nat;
        let c = data[2] as nat;
        seq![base64_digit(a / 4), base64_digit((a % 4) * 16 + b / 16), base64_digit((b % 16) * 4 + c / 64),
            base64_digit(c % 64)] + base64_standard(data.subrange(3, data.len() as int))
    }
}

/// `data` in the standard base64 alphabet with padding
/// (`base64::engine::general_purpose::STANDARD.encode`), as `base64_standard`
/// states it.
#[verifier::external_body]
fn encode_base64(data: &[u8]) -> (s: String)
    ensures
        s@ == base64_standard(data@),
{
    base64::engine::general_purpose::STANDARD.encode(data)
}

/// The media type of an image file by its extension; JPEG where the
/// extension is missing or unknown.
pub open spec fn media_type_for(ext: Option<Seq<char>>) -> Seq<char> {
    match ext {
        Some(e) => if e == "jpg"@ || e == "jpeg"@ {
            "image/jpeg"@
        } else if e == "png"@ {
            "image/png"@
        } else if e == "gif"@ {
            "image/gif"@
        } else if e == "webp"@ {
            "image/webp"@
        } else {
            "image/jpeg"@
        },
        None => "image/jpeg"@,
    }
}

/// The media type for the extension `ext`.
pub fn media_type_for_extension(ext: Option<String>) -> (m: String)
    ensures
        m@ == media_type_for(opt_string_text(ext)),
{
    match ext {
        Some(e) => if str_is(&e, "jpg") || str_is(&e, "jpeg") {
            String::from_str("image/jpeg")
        } else if str_is(&e, "png") {
            String::from_str("image/png")
        } else if str_is(&e, "gif") {
            String::from_str("image/gif")
        } else if str_is(&e, "webp") {
            String::from_str("image/webp")
        } else {
            String::from_str("image/jpeg")
        },
        None => String::from_str("image/jpeg"),
    }
}

/// Whether `b` is an image block holding `data` of media type `media_type`,
/// given as base64.
pub open spec fn is_base64_image(b: ContentBlock, data: Seq<char>, media_type: Seq<char>) -> bool {
    &&& b is Image
    &&& b->source.source_type@ == "base64"@
    &&& b->source.media_type@ == media_type
    &&& b->source.data@ == data
}

/// An image block for base64 data of the given media type.
pub fn create_image_block_from_base64(base64_data: String, media_type: String) -> (b: ContentBlock)
    ensures
        is_base64_image(b, base64_data@, media_type@),
{
    ContentBlock::Image {
        source: ImageSource { source_type: String::from_str("base64"), media_type, data: base64_data },
    }
}

/// The image block for the file at `file_path` whose bytes are `data`: the
/// bytes in base64, with the media type that the file's extension names.
pub fn create_image_block_from_data(file_path: &str, data: &[u8]) -> (b: ContentBlock)
    ensures
        is_base64_image(b, base64_standard(data@), media_type_for(path_extension(file_path@))),
{
    let encoded = encode_base64(data);
    let media_type = media_type_for_extension(file_extension(file_path));
    create_image_block_from_base64(encoded, media_type)
}

} // verus!
