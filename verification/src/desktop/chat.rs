//! The conversation sent to the model: the stored history, the system
//! prompt that introduces the assistant, and the requests for titles.

use vstd::prelude::*;
use crate::native::ai::provider::ChatMessage;
use crate::text::{owned, push_str, str_eq, trim, trimmed};

verus! {

/// A stored message of a conversation, as far as the history needs it.
#[derive(Debug, Clone)]
pub struct StoredMessage {
    pub id: String,
    pub role: String,
    pub content: String,
    pub status: String,
}

/// The system prompt that introduces the assistant to a user.
pub open spec fn system_prompt_text(user_name: Seq<char>) -> Seq<char> {
    "你是 CoSurf 智能助手，一个真诚、乐于助人的 AI 思考伙伴。\n\n## CoSurf 功能特性\n1. **智能浏览**：帮助用户浏览网页、提取关键信息、生成摘要\n2. **AI 对话**：支持流式响应、思考过程展示、多轮对话记忆\n3. **会话管理**：自动保存对话历史到 SQLite，重启后可查看\n4. **截图工具**：快速截图，支持区域选择和复制/保存\n5. **标签页管理**：多标签页浏览，状态保持不丢失\n6. **隐私保护**：支持隐私模式，启用后不保存浏览历史\n\n## 你的能力\n- 解答各种问题、提供创意灵感\n- 编写和调试代码、分析逻辑\n- 结合当前浏览的网页内容进行智能回答\n- 记住用户的行为偏好和关键信息\n- 陪你聊天、提供情感支持\n\n## 可用工具\n你拥有以下工具来帮助用户完成任务，当用户请求涉及网页操作时，请主动使用这些工具：\n\n1. **open_url** - 打开新的网页\n   - 用途：当用户要求打开某个网站或URL时使用\n   - 参数：url (字符串，必须以 http:// 或 https:// 开头)\n   - 示例：用户说\"打开百度\" → 调用 open_url(url=\"https://www.baidu.com\")\n\n2. **summarize_page** - 总结当前页面内容\n   - 用途：当用户要求总结、概括页面内容时使用\n   - 参数：max_length (可选，整数，默认500)\n\n3. **web_agent** - 在网页上执行自动化操作\n   - 用途：点击按钮、填写表单、滚动页面等\n   - 参数：action (click/fill/select/scroll/wait), selector (CSS选择器), value (可选)\n\n4. **screenshot** - 截取当前页面\n   - 用途：当用户需要了解页面视觉布局时使用\n   - 参数：full_page (可选，布尔值)\n\n5. **translate** - 翻译页面内容\n   - 用途：将页面翻译成指定语言\n   - 参数：target_language (如 'zh', 'en', 'ja')\n\n6. **web_search** - 联网搜索（使用阿里云 IQS）\n   - 用途：获取最新信息、实时数据、新闻热点\n   - 参数：query (搜索词), engine_type (Generic/News/Academic), time_range (OneDay/OneWeek/OneMonth), max_results (1-20)\n   - 注意：需要在设置中配置 ALIYUN_IQS_API_KEY 才能使用\n\n7. **run_command** - 执行 shell 命令\n   - 用途：在系统终端执行命令，运行脚本、调用 CLI 工具等\n   - 参数：command (要执行的命令), working_dir (可选，工作目录), timeout (可选，超时秒数，默认 30)\n   - 注意：Windows 上通过 cmd /C 执行，Linux/macOS 上通过 sh -c 执行\n   - 示例：用户说\"运行 python --version\" → 调用 run_command(command=\"python --version\")\n\n## 交互风格\n- 真诚、友好、乐于助人\n- 回答清晰、结构化、易于理解\n- 在需要时展示思考过程，让用户了解推理路径\n- 根据上下文提供个性化建议\n- **当用户请求涉及网页操作时，优先使用工具而不是仅口头回复**\n\n请始终保持专业、友好的态度，为用户提供有价值的帮助。\n\n## 重要提示\n- 当前用户的名称是："@ + user_name + "\n- 在对话中请使用这个名称称呼用户"@
}

/// The system prompt for a user.
pub fn system_prompt(user_name: &str) -> (r: String)
    ensures
        r@ == system_prompt_text(user_name@),
{
    let mut r = owned("你是 CoSurf 智能助手，一个真诚、乐于助人的 AI 思考伙伴。\n\n## CoSurf 功能特性\n1. **智能浏览**：帮助用户浏览网页、提取关键信息、生成摘要\n2. **AI 对话**：支持流式响应、思考过程展示、多轮对话记忆\n3. **会话管理**：自动保存对话历史到 SQLite，重启后可查看\n4. **截图工具**：快速截图，支持区域选择和复制/保存\n5. **标签页管理**：多标签页浏览，状态保持不丢失\n6. **隐私保护**：支持隐私模式，启用后不保存浏览历史\n\n## 你的能力\n- 解答各种问题、提供创意灵感\n- 编写和调试代码、分析逻辑\n- 结合当前浏览的网页内容进行智能回答\n- 记住用户的行为偏好和关键信息\n- 陪你聊天、提供情感支持\n\n## 可用工具\n你拥有以下工具来帮助用户完成任务，当用户请求涉及网页操作时，请主动使用这些工具：\n\n1. **open_url** - 打开新的网页\n   - 用途：当用户要求打开某个网站或URL时使用\n   - 参数：url (字符串，必须以 http:// 或 https:// 开头)\n   - 示例：用户说\"打开百度\" → 调用 open_url(url=\"https://www.baidu.com\")\n\n2. **summarize_page** - 总结当前页面内容\n   - 用途：当用户要求总结、概括页面内容时使用\n   - 参数：max_length (可选，整数，默认500)\n\n3. **web_agent** - 在网页上执行自动化操作\n   - 用途：点击按钮、填写表单、滚动页面等\n   - 参数：action (click/fill/select/scroll/wait), selector (CSS选择器), value (可选)\n\n4. **screenshot** - 截取当前页面\n   - 用途：当用户需要了解页面视觉布局时使用\n   - 参数：full_page (可选，布尔值)\n\n5. **translate** - 翻译页面内容\n   - 用途：将页面翻译成指定语言\n   - 参数：target_language (如 'zh', 'en', 'ja')\n\n6. **web_search** - 联网搜索（使用阿里云 IQS）\n   - 用途：获取最新信息、实时数据、新闻热点\n   - 参数：query (搜索词), engine_type (Generic/News/Academic), time_range (OneDay/OneWeek/OneMonth), max_results (1-20)\n   - 注意：需要在设置中配置 ALIYUN_IQS_API_KEY 才能使用\n\n7. **run_command** - 执行 shell 命令\n   - 用途：在系统终端执行命令，运行脚本、调用 CLI 工具等\n   - 参数：command (要执行的命令), working_dir (可选，工作目录), timeout (可选，超时秒数，默认 30)\n   - 注意：Windows 上通过 cmd /C 执行，Linux/macOS 上通过 sh -c 执行\n   - 示例：用户说\"运行 python --version\" → 调用 run_command(command=\"python --version\")\n\n## 交互风格\n- 真诚、友好、乐于助人\n- 回答清晰、结构化、易于理解\n- 在需要时展示思考过程，让用户了解推理路径\n- 根据上下文提供个性化建议\n- **当用户请求涉及网页操作时，优先使用工具而不是仅口头回复**\n\n请始终保持专业、友好的态度，为用户提供有价值的帮助。\n\n## 重要提示\n- 当前用户的名称是：");
    push_str(&mut r, user_name);
    push_str(&mut r, "\n- 在对话中请使用这个名称称呼用户");
    r
}

/// The name used for the user where none is set.
pub fn user_name_or_default(name: Option<String>) -> (r: String)
    ensures
        r@ == match name {
            Some(n) => n@,
            None => "CoCo"@,
        },
{
    match name {
        Some(n) => n,
        None => owned("CoCo"),
    }
}

/// The stored messages that go to the model: the complete ones other than
/// the reply being written.
pub open spec fn sent_history(h: Seq<StoredMessage>, reply_id: Seq<char>) -> Seq<StoredMessage> {
    h.filter(|m: StoredMessage| m.id@ != reply_id && m.status@ == "complete"@)
}

/// The conversation sent to the model: the system prompt, the history
/// (roles and contents), and the new user message unless the last of these
/// (the system prompt where the history is empty) has the same content.
pub fn conversation_messages(history: Vec<StoredMessage>, reply_id: &str, user_name: &str, content: String) -> (r: Vec<ChatMessage>)
    ensures
        ({
            let sent = sent_history(history@, reply_id@);
            let last = if sent.len() == 0 { system_prompt_text(user_name@) } else { sent.last().content@ };
            let appended = last != content@;
            &&& r.len() == 1 + sent.len() + if appended { 1int } else { 0int }
            &&& r@[0].role@ == "system"@ && r@[0].content@ == system_prompt_text(user_name@)
            &&& forall|i: int| 0 <= i < sent.len() ==> (#[trigger] r@[i + 1]).role == sent[i].role && r@[i + 1].content == sent[i].content
                && r@[i + 1].name is None && r@[i + 1].tool_call_id is None
            &&& appended ==> r@[r.len() - 1].role@ == "user"@ && r@[r.len() - 1].content == content
        }),
{
    let ghost all = history@;
    let ghost pred = |m: StoredMessage| m.id@ != reply_id@ && m.status@ == "complete"@;
    let ghost sent = sent_history(all, reply_id@);
    let mut r: Vec<ChatMessage> = Vec::new();
    r.push(ChatMessage::plain("system", system_prompt(user_name)));
    let mut kept: Vec<StoredMessage> = Vec::new();
    let mut i: usize = 0;
    while i < history.len()
        invariant
            0 <= i <= history.len(),
            all == history@,
            pred == (|m: StoredMessage| m.id@ != reply_id@ && m.status@ == "complete"@),
            kept@ == all.take(i as int).filter(pred),
            r.len() == 1 + kept.len(),
            r@[0].role@ == "system"@ && r@[0].content@ == system_prompt_text(user_name@),
            forall|j: int| 0 <= j < kept.len() ==> (#[trigger] r@[j + 1]).role == kept@[j].role && r@[j + 1].content == kept@[j].content
                && r@[j + 1].name is None && r@[j + 1].tool_call_id is None,
        decreases history.len() - i,
    {
        proof {
            assert(all.take(i as int + 1) =~= all.take(i as int).push(all[i as int]));
            all.take(i as int).lemma_filter_push(all[i as int], pred);
        }
        let m = &history[i];
        if !str_eq(m.id.as_str(), reply_id) && str_eq(m.status.as_str(), "complete") {
            kept.push(StoredMessage { id: m.id.clone(), role: m.role.clone(), content: m.content.clone(), status: m.status.clone() });
            r.push(ChatMessage { role: m.role.clone(), content: m.content.clone(), name: None, tool_call_id: None });
        }
        i = i + 1;
    }
    assert(all.take(history.len() as int) =~= all);
    assert(kept@ == sent);
    proof {
        if kept.len() > 0 {
            let j = kept.len() - 1;
            assert(r@[j + 1].content == kept@[j].content);
        }
    }
    let append = !str_eq(r[r.len() - 1].content.as_str(), content.as_str());
    if append {
        r.push(ChatMessage::plain("user", content));
    }
    r
}

/// The system prompt of a title request of the desktop application.
pub open spec fn title_prompt_text() -> Seq<char> {
    "你是一个专业的对话标题生成器。请根据提供的对话内容，生成一个简洁、准确的标题（不超过15个字）。\n\n要求：\n- 只返回标题文本，不要包含任何解释或额外内容\n- 标题应该概括对话的核心主题\n- 使用中文\n- 保持简洁明了"@
}

/// The messages that ask the model for the title of a conversation.
pub fn title_request(context: &str) -> (r: Vec<ChatMessage>)
    ensures
        r.len() == 2,
        r@[0].role@ == "system"@ && r@[0].content@ == title_prompt_text(),
        r@[1].role@ == "user"@ && r@[1].content@ == "请为以下对话生成一个标题：\n\n"@ + context@,
{
    let mut u = owned("请为以下对话生成一个标题：\n\n");
    push_str(&mut u, context);
    let mut r: Vec<ChatMessage> = Vec::new();
    r.push(ChatMessage::plain("system", owned("你是一个专业的对话标题生成器。请根据提供的对话内容，生成一个简洁、准确的标题（不超过15个字）。\n\n要求：\n- 只返回标题文本，不要包含任何解释或额外内容\n- 标题应该概括对话的核心主题\n- 使用中文\n- 保持简洁明了")));
    r.push(ChatMessage::plain("user", u));
    r
}

/// The title from the model's answer: the first choice's content, trimmed,
/// else the given default ("新对话" on the desktop, "New Conversation" in
/// the native module).
pub fn title_from_answer(first_choice_content: Option<&str>, default: &str) -> (r: String)
    ensures
        r@ == match first_choice_content {
            Some(c) => trimmed(c@),
            None => default@,
        },
{
    match first_choice_content {
        Some(c) => trim(c),
        None => owned(default),
    }
}

} // verus!
