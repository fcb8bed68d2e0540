//! Messages the desktop agent loop adds to the conversation: the nudge
//! against repeated calls and the note of a failed tool.

use vstd::prelude::*;
use crate::desktop::tools::ToolCall;
use crate::native::ai::provider::ChatMessage;
use crate::text::{owned, push_str};

verus! {

/// Text of the message that answers a repeated call in place of its result.
pub open spec fn nudge_text(name: Seq<char>) -> Seq<char> {
    "[系统提示] 工具 '"@ + name + "' 已在之前的迭代中成功执行过，结果已包含在对话历史中。请勿重复调用相同工具，直接根据已有结果回答用户的问题。"@
}

/// Text of the user message that closes a nudge.
pub open spec fn closing_nudge_text() -> Seq<char> {
    "[系统] 你已经拥有足够的工具执行结果，请直接回答用户的问题，不要再次调用工具。"@
}

/// The messages added when the model repeats its calls: one tool message per
/// call, then a user message asking for the answer.
pub fn nudge_messages(calls: &Vec<ToolCall>) -> (r: Vec<ChatMessage>)
    ensures
        r.len() == calls.len() + 1,
        forall|i: int|
            0 <= i < calls.len() ==> {
                &&& (#[trigger] r@[i]).role@ == "tool"@
                &&& r@[i].content@ == nudge_text(calls@[i].name@)
                &&& r@[i].name == Some(calls@[i].name)
                &&& r@[i].tool_call_id == Some(calls@[i].id)
            },
        r@[calls.len() as int].role@ == "user"@,
        r@[calls.len() as int].content@ == closing_nudge_text(),
        r@[calls.len() as int].name is None,
        r@[calls.len() as int].tool_call_id is None,
{
    let mut r: Vec<ChatMessage> = Vec::new();
    let mut i: usize = 0;
    while i < calls.len()
        invariant
            0 <= i <= calls.len(),
            r.len() == i,
            forall|j: int|
                0 <= j < i ==> {
                    &&& (#[trigger] r@[j]).role@ == "tool"@
                    &&& r@[j].content@ == nudge_text(calls@[j].name@)
                    &&& r@[j].name == Some(calls@[j].name)
                    &&& r@[j].tool_call_id == Some(calls@[j].id)
                },
        decreases calls.len() - i,
    {
        let mut content = owned("[系统提示] 工具 '");
        push_str(&mut content, calls[i].name.as_str());
        push_str(&mut content, "' 已在之前的迭代中成功执行过，结果已包含在对话历史中。请勿重复调用相同工具，直接根据已有结果回答用户的问题。");
        r.push(ChatMessage {
            role: owned("tool"),
            content,
            name: Some(calls[i].name.clone()),
            tool_call_id: Some(calls[i].id.clone()),
        });
        i = i + 1;
    }
    r.push(ChatMessage::plain("user", owned("[系统] 你已经拥有足够的工具执行结果，请直接回答用户的问题，不要再次调用工具。")));
    r
}

/// The message that records a tool that failed unexpectedly.
pub fn tool_failure_message(error_text: &str) -> (r: ChatMessage)
    ensures
        r.role@ == "tool"@,
        r.content@ == "工具执行异常: "@ + error_text@,
        r.name matches Some(n) && n@ == "system_error"@,
        r.tool_call_id is None,
{
    let mut content = owned("工具执行异常: ");
    push_str(&mut content, error_text);
    ChatMessage { role: owned("tool"), content, name: Some(owned("system_error")), tool_call_id: None }
}

/// The tool message that carries a tool's result.
pub fn tool_result_message(call: &ToolCall, output: &str) -> (r: ChatMessage)
    ensures
        r.role@ == "tool"@,
        r.content@ == output@,
        r.name == Some(call.name),
        r.tool_call_id == Some(call.id),
{
    ChatMessage { role: owned("tool"), content: owned(output), name: Some(call.name.clone()), tool_call_id: Some(call.id.clone()) }
}

} // verus!
