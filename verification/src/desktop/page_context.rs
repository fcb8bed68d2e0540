//! Page context for the assistant: what is known of the current page, the
//! prompt that passes it on, the summary text taken from the page, and the
//! scripts of simple page actions.

use vstd::prelude::*;
use crate::desktop::browser_nav::{escape_single_quotes, parsed_host, url_host};
use crate::error::{AppError, AppResult};
use crate::text::{chars_of, has_prefix, owned, push_str, replace, starts_with, str_eq, string_of_chars};

verus! {

/// What the assistant is told about the current page.
#[derive(Debug, Clone)]
pub struct PageContext {
    pub url: String,
    pub title: String,
    pub domain: String,
    pub content_summary: String,
    pub is_secure: bool,
}

/// The host of a URL, or nothing where the text is no URL or has no host.
pub open spec fn domain_of(url: Seq<char>) -> Seq<char> {
    match parsed_host(url) {
        Some(Some(h)) => h,
        _ => Seq::empty(),
    }
}

/// The summary line of a page: a note while it loads, another for a new
/// tab, else its title and domain.
pub open spec fn summary_text(url: Seq<char>, title: Seq<char>, domain: Seq<char>, is_loading: bool) -> Seq<char> {
    if is_loading {
        "页面正在加载中..."@
    } else if url == "about:blank"@ {
        "新标签页，尚未导航到任何页面"@
    } else {
        "当前页面: "@ + title + " ("@ + domain + ")"@
    }
}

/// The context of a page from what the interface reported: its URL (the
/// blank page where none came), its title ("未知页面" where none came) and
/// whether it is loading; the domain and the summary follow from them.
pub fn page_context_of(url: Option<String>, title: Option<String>, is_loading: Option<bool>) -> (r: PageContext)
    ensures
        r.url@ == match url {
            Some(u) => u@,
            None => "about:blank"@,
        },
        r.title@ == match title {
            Some(t) => t@,
            None => "未知页面"@,
        },
        r.domain@ == domain_of(r.url@),
        r.is_secure == has_prefix(r.url@, "https://"@),
        r.content_summary@ == summary_text(
            r.url@,
            r.title@,
            r.domain@,
            match is_loading {
                Some(b) => b,
                None => false,
            },
        ),
{
    let url = match url {
        Some(u) => u,
        None => owned("about:blank"),
    };
    let title = match title {
        Some(t) => t,
        None => owned("未知页面"),
    };
    let loading = match is_loading {
        Some(b) => b,
        None => false,
    };
    let domain = match url_host(url.as_str()) {
        Some(Some(h)) => h,
        _ => String::new(),
    };
    let is_secure = starts_with(url.as_str(), "https://");
    let content_summary = if loading {
        owned("页面正在加载中...")
    } else if str_eq(url.as_str(), "about:blank") {
        owned("新标签页，尚未导航到任何页面")
    } else {
        let mut s = owned("当前页面: ");
        push_str(&mut s, title.as_str());
        push_str(&mut s, " (");
        push_str(&mut s, domain.as_str());
        push_str(&mut s, ")");
        s
    };
    PageContext { url, title, domain, content_summary, is_secure }
}

/// The prompt that gives the assistant the context of the current page.
pub open spec fn context_prompt_text(c: PageContext) -> Seq<char> {
    "以下是用户当前正在浏览的页面信息，请在后续回答中参考：\n\n页面标题: "@ + c.title@ + "\nURL: "@ + c.url@
        + "\n域名: "@ + c.domain@ + "\n安全连接: "@ + (if c.is_secure { "是"@ } else { "否"@ })
        + "\n\n页面内容摘要:\n"@ + c.content_summary@ + "\n\n用户可能会询问关于此页面的问题，请基于以上信息回答。"@
}

/// The prompt for a page context.
pub fn inject_page_context(c: &PageContext) -> (r: String)
    ensures
        r@ == context_prompt_text(*c),
{
    let mut r = owned("以下是用户当前正在浏览的页面信息，请在后续回答中参考：\n\n页面标题: ");
    push_str(&mut r, c.title.as_str());
    push_str(&mut r, "\nURL: ");
    push_str(&mut r, c.url.as_str());
    push_str(&mut r, "\n域名: ");
    push_str(&mut r, c.domain.as_str());
    push_str(&mut r, "\n安全连接: ");
    push_str(&mut r, if c.is_secure { "是" } else { "否" });
    push_str(&mut r, "\n\n页面内容摘要:\n");
    push_str(&mut r, c.content_summary.as_str());
    push_str(&mut r, "\n\n用户可能会询问关于此页面的问题，请基于以上信息回答。");
    r
}

/// Characters of page content given to the summary where the caller names
/// no limit.
pub open spec fn default_summary_len() -> nat {
    500
}

/// The message when no content could be taken from the page.
pub open spec fn no_content_text() -> Seq<char> {
    "无法提取页面内容。可能的原因：\n1. 页面跨域限制\n2. 页面加载未完成\n3. 请求超时\n\n请尝试手动复制页面内容后发送给 AI 进行总结。"@
}

/// The page content handed to the summary: cut to the limit (500 where none
/// is named) with `...` appended where it is longer; an error where no
/// content or empty content came.
pub fn summary_content(content: Option<String>, max_length: Option<usize>) -> (r: AppResult<String>)
    ensures
        match content {
            Some(c) => if c@.len() > 0 {
                let m = match max_length {
                    Some(m) => m as nat,
                    None => default_summary_len(),
                };
                r matches Ok(s) && s@ == if c@.len() > m {
                    c@.take(m as int) + "..."@
                } else {
                    c@
                }
            } else {
                r matches Err(AppError::Internal(e)) && e@ == no_content_text()
            },
            None => r matches Err(AppError::Internal(e)) && e@ == no_content_text(),
        },
{
    let max_len = match max_length {
        Some(m) => m,
        None => 500,
    };
    match content {
        Some(c) => {
            let v = chars_of(c.as_str());
            if v.len() == 0 {
                return Err(AppError::Internal(owned("无法提取页面内容。可能的原因：\n1. 页面跨域限制\n2. 页面加载未完成\n3. 请求超时\n\n请尝试手动复制页面内容后发送给 AI 进行总结。")));
            }
            if v.len() > max_len {
                let mut s = string_of_chars(&v.as_slice()[0..max_len]);
                assert(v@.subrange(0, max_len as int) =~= c@.take(max_len as int));
                push_str(&mut s, "...");
                Ok(s)
            } else {
                Ok(c)
            }
        },
        None => Err(AppError::Internal(owned("无法提取页面内容。可能的原因：\n1. 页面跨域限制\n2. 页面加载未完成\n3. 请求超时\n\n请尝试手动复制页面内容后发送给 AI 进行总结。"))),
    }
}

/// The script of a page action: clicking an element, filling a field, or
/// dismissing a pop-up (`close_popup` or `dismiss`); other actions are
/// refused.
pub open spec fn web_action_script_text(action: Seq<char>, selector: Seq<char>, value: Seq<char>) -> Result<Seq<char>, Seq<char>> {
    if action == "click"@ {
        Ok("\n                (function() {\n                    const el = document.querySelector('"@ + escape_single_quotes(selector) + "');\n                    if (el) {\n                        el.click();\n                        return '成功点击元素';\n                    }\n                    return '未找到元素: "@ + selector + "';\n                })()\n                "@)
    } else if action == "fill"@ {
        Ok("\n                (function() {\n                    const el = document.querySelector('"@ + escape_single_quotes(selector) + "');\n                    if (el) {\n                        el.value = '"@ + escape_single_quotes(value) + "';\n                        el.dispatchEvent(new Event('input', { bubbles: true }));\n                        el.dispatchEvent(new Event('change', { bubbles: true }));\n                        return '成功填写表单';\n                    }\n                    return '未找到输入框: "@ + selector + "';\n                })()\n                "@)
    } else if action == "close_popup"@ || action == "dismiss"@ {
        Ok("\n                (function() {\n                    // 尝试关闭弹窗\n                    const modal = document.querySelector('.modal, .popup, [role=\"dialog\"]');\n                    if (modal) {\n                        modal.remove();\n                        return '已关闭弹窗';\n                    }\n                    \n                    // 尝试点击关闭按钮\n                    const closeBtn = document.querySelector('.close, [aria-label=\"Close\"], button.close');\n                    if (closeBtn) {\n                        closeBtn.click();\n                        return '已点击关闭按钮';\n                    }\n                    \n                    // 按 ESC 键\n                    document.dispatchEvent(new KeyboardEvent('keydown', { key: 'Escape' }));\n                    return '已发送ESC键';\n                })()\n                "@)
    } else {
        Err("不支持的操作类型: "@ + action)
    }
}

/// The script of a page action; `value` is used by `fill` only (empty where
/// none is given).
pub fn web_action_script(action: &str, selector: &str, value: Option<String>) -> (r: AppResult<String>)
    ensures
        match web_action_script_text(action@, selector@, match value {
            Some(v) => v@,
            None => Seq::<char>::empty(),
        }) {
            Ok(t) => r matches Ok(s) && s@ == t,
            Err(m) => r matches Err(AppError::Internal(e)) && e@ == m,
        },
{
    proof {
        reveal_strlit("'");
    }
    if str_eq(action, "click") {
        let mut s = owned("\n                (function() {\n                    const el = document.querySelector('");
        let esc = replace(selector, "'", "\\'");
        push_str(&mut s, esc.as_str());
        push_str(&mut s, "');\n                    if (el) {\n                        el.click();\n                        return '成功点击元素';\n                    }\n                    return '未找到元素: ");
        push_str(&mut s, selector);
        push_str(&mut s, "';\n                })()\n                ");
        Ok(s)
    } else if str_eq(action, "fill") {
        let val = match value {
            Some(v) => v,
            None => String::new(),
        };
        let mut s = owned("\n                (function() {\n                    const el = document.querySelector('");
        let esc = replace(selector, "'", "\\'");
        push_str(&mut s, esc.as_str());
        push_str(&mut s, "');\n                    if (el) {\n                        el.value = '");
        let vesc = replace(val.as_str(), "'", "\\'");
        push_str(&mut s, vesc.as_str());
        push_str(&mut s, "';\n                        el.dispatchEvent(new Event('input', { bubbles: true }));\n                        el.dispatchEvent(new Event('change', { bubbles: true }));\n                        return '成功填写表单';\n                    }\n                    return '未找到输入框: ");
        push_str(&mut s, selector);
        push_str(&mut s, "';\n                })()\n                ");
        Ok(s)
    } else if str_eq(action, "close_popup") || str_eq(action, "dismiss") {
        Ok(owned("\n                (function() {\n                    // 尝试关闭弹窗\n                    const modal = document.querySelector('.modal, .popup, [role=\"dialog\"]');\n                    if (modal) {\n                        modal.remove();\n                        return '已关闭弹窗';\n                    }\n                    \n                    // 尝试点击关闭按钮\n                    const closeBtn = document.querySelector('.close, [aria-label=\"Close\"], button.close');\n                    if (closeBtn) {\n                        closeBtn.click();\n                        return '已点击关闭按钮';\n                    }\n                    \n                    // 按 ESC 键\n                    document.dispatchEvent(new KeyboardEvent('keydown', { key: 'Escape' }));\n                    return '已发送ESC键';\n                })()\n                "))
    } else {
        let mut m = owned("不支持的操作类型: ");
        push_str(&mut m, action);
        Err(AppError::Internal(m))
    }
}

} // verus!
