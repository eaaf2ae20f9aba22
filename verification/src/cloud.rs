//! HTTP backends (an OpenAI-compatible cloud API, a local Ollama daemon): where requests go
//! and how they are authorized. Sending them and reading replies happen outside.

use vstd::prelude::*;
use vstd::string::*;

use crate::error::{msg_error, AppError};
use crate::text::to_owned_string;

verus! {

/// `s` without its trailing `/` characters.
pub open spec fn trim_trailing_slashes(s: Seq<char>) -> Seq<char>
    decreases s.len(),
{
    if s.len() > 0 && s.last() == '/' {
        trim_trailing_slashes(s.drop_last())
    } else {
        s
    }
}

proof fn lemma_trim_trailing_slashes(s: Seq<char>, k: int)
    requires
        0 <= k <= s.len(),
        forall|i: int| k <= i < s.len() ==> s[i] == '/',
        k == 0 || s[k - 1] != '/',
    ensures
        trim_trailing_slashes(s) == s.subrange(0, k),
    decreases s.len() - k,
{
    if k == s.len() {
        assert(s.subrange(0, k) =~= s);
    } else {
        let t = s.drop_last();
        assert(s.last() == '/');
        if k > 0 {
            assert(t[k - 1] == s[k - 1]);
        }
        lemma_trim_trailing_slashes(t, k);
        assert(t.subrange(0, k) =~= s.subrange(0, k));
    }
}

/// An API endpoint under a base URL: the base without its trailing slashes, then `path`.
pub fn endpoint_url(base_url: &str, path: &str) -> (r: String)
    ensures
        r@ == trim_trailing_slashes(base_url@) + path@,
{
    let n = base_url.unicode_len();
    let mut k: usize = n;
    while k > 0 && base_url.get_char(k - 1) == '/'
        invariant
            n == base_url@.len(),
            k <= n,
            forall|i: int| k <= i < n ==> base_url@[i] == '/',
        decreases k,
    {
        k = k - 1;
    }
    proof {
        lemma_trim_trailing_slashes(base_url@, k as int);
    }
    let mut s = base_url.substring_char(0, k).to_string();
    s.append(path);
    s
}

/// The chat-completions endpoint of an OpenAI-compatible API.
pub fn chat_completions_url(base_url: &str) -> (r: String)
    ensures
        r@ == trim_trailing_slashes(base_url@) + "/chat/completions"@,
{
    endpoint_url(base_url, "/chat/completions")
}

/// The `Authorization` header value for an API key: `Bearer <key>`; none without a key.
pub fn authorization_header(api_key: Option<&str>) -> (r: Option<String>)
    ensures
        match api_key {
            Some(k) => r is Some && r->0@ == "Bearer "@ + k@,
            None => r is None,
        },
{
    match api_key {
        Some(k) => {
            let mut s = to_owned_string("Bearer ");
            s.append(k);
            Some(s)
        },
        None => None,
    }
}

/// One choice of a chat-completions reply: its `message.content`, when that is a string.
#[derive(Debug, Clone)]
pub struct ChatChoice {
    pub content: Option<String>,
}

/// A chat-completions reply: its `choices`, in order (none when the reply has no such array).
#[derive(Debug, Clone)]
pub struct ChatReply {
    pub choices: Vec<ChatChoice>,
}

/// Message when a reply carries no text in its first choice.
pub const MISSING_CONTENT_MSG: &'static str = "cloud: missing choices[0].message.content";

/// The model's text in a chat-completions reply: the content of the first choice, or an error
/// when there is no first choice or it has no text.
pub fn reply_content(reply: &ChatReply) -> (r: Result<String, AppError>)
    ensures
        reply.choices@.len() > 0 && reply.choices@[0].content is Some ==> r == Ok::<String, AppError>(
            reply.choices@[0].content->0,
        ),
        !(reply.choices@.len() > 0 && reply.choices@[0].content is Some) ==> r is Err && msg_error(
            r->Err_0,
            MISSING_CONTENT_MSG@,
        ),
{
    if reply.choices.len() > 0 {
        match &reply.choices[0].content {
            Some(t) => return Ok(t.clone()),
            None => {},
        }
    }
    Err(AppError::Msg(to_owned_string(MISSING_CONTENT_MSG)))
}

} // verus!
