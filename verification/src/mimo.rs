//! Requests to the model endpoint (an OpenAI-compatible chat-completions API):
//! the endpoint address, the request, the retry policy and the reply.

use vstd::prelude::*;
use vstd::arithmetic::power2::{pow2, lemma_pow2_unfold, lemma2_to64};

verus! {

/// One chat message.
#[derive(Clone, Copy, Debug)]
pub struct ChatMessage<'a> {
    pub role: &'a str,
    pub content: &'a str,
}

/// Token accounting reported by the endpoint.
#[derive(Clone, Copy, Debug)]
pub struct Usage {
    pub prompt_tokens: u32,
    pub completion_tokens: u32,
    pub total_tokens: u32,
}

/// The model's answer.
#[derive(Debug)]
pub struct Reply {
    pub content: String,
    pub reasoning: String,
    pub usage: Usage,
}

/// The message of one choice in a chat-completions response.
pub struct ResponseMessage {
    pub content: Option<String>,
    pub reasoning_content: Option<String>,
}

/// One choice in a chat-completions response.
pub struct Choice {
    pub message: ResponseMessage,
}

/// A decoded chat-completions response.
pub struct ChatResponse {
    pub choices: Vec<Choice>,
    pub usage: Usage,
}

/// The `response_format` type that asks the endpoint for a JSON object.
pub const JSON_OBJECT_FORMAT: &'static str = "json_object";

/// A chat-completions request, all but its sampling temperature.
#[derive(Debug)]
pub struct ChatRequest<'a> {
    pub model: &'a str,
    pub messages: Vec<ChatMessage<'a>>,
    pub max_tokens: u32,
    /// `Some("json_object")` when the reply must be a JSON object.
    pub response_format: Option<&'static str>,
}

impl<'a> ChatRequest<'a> {
    /// A request for `model` with `messages`; `json_mode` asks for a JSON-object reply.
    pub fn new(model: &'a str, messages: Vec<ChatMessage<'a>>, max_tokens: u32, json_mode: bool) -> (r: ChatRequest<'a>)
        ensures
            r.model == model,
            r.messages@ == messages@,
            r.max_tokens == max_tokens,
            json_mode ==> r.response_format == Some(JSON_OBJECT_FORMAT),
            !json_mode ==> r.response_format is None,
    {
        ChatRequest {
            model,
            messages,
            max_tokens,
            response_format: if json_mode {
                Some(JSON_OBJECT_FORMAT)
            } else {
                None
            },
        }
    }
}

/// `s` with every trailing '/' removed.
pub open spec fn without_trailing_slashes(s: Seq<char>) -> Seq<char>
    decreases s.len(),
{
    if s.len() > 0 && s.last() == '/' {
        without_trailing_slashes(s.drop_last())
    } else {
        s
    }
}

/// The path of the chat-completions endpoint below the base address.
pub open spec fn chat_path() -> Seq<char> {
    "/chat/completions"@
}

/// Where the model endpoint lives and how to authenticate to it.
#[derive(Clone, Debug)]
pub struct MimoClient {
    base_url: String,
    api_key: String,
}

impl MimoClient {
    pub closed spec fn spec_base_url(&self) -> Seq<char> {
        self.base_url@
    }

    pub closed spec fn spec_api_key(&self) -> Seq<char> {
        self.api_key@
    }

    pub fn new(api_key: &str, base_url: &str) -> (c: MimoClient)
        ensures
            c.spec_base_url() == base_url@,
            c.spec_api_key() == api_key@,
    {
        MimoClient { base_url: String::from_str(base_url), api_key: String::from_str(api_key) }
    }

    pub fn base_url(&self) -> (r: &str)
        ensures
            r@ == self.spec_base_url(),
    {
        self.base_url.as_str()
    }

    pub fn api_key(&self) -> (r: &str)
        ensures
            r@ == self.spec_api_key(),
    {
        self.api_key.as_str()
    }

    /// The chat-completions address: the base address without its trailing
    /// slashes, followed by "/chat/completions".
    pub fn chat_url(&self) -> (r: String)
        ensures
            r@ == without_trailing_slashes(self.spec_base_url()) + chat_path(),
    {
        let base = self.base_url.as_str();
        let mut n: usize = base.unicode_len();
        assert(base@.subrange(0, n as int) =~= base@);
        loop
            invariant
                n <= base@.len(),
                without_trailing_slashes(base@.subrange(0, n as int)) == without_trailing_slashes(base@),
                base@ == self.spec_base_url(),
            ensures
                n <= base@.len(),
                without_trailing_slashes(base@.subrange(0, n as int)) == without_trailing_slashes(base@),
                n == 0 || base@[n - 1] != '/',
            decreases n,
        {
            if n == 0 {
                break;
            }
            let c = base.get_char(n - 1);
            if c != '/' {
                break;
            }
            assert(base@.subrange(0, n as int).drop_last() =~= base@.subrange(0, n - 1));
            n = n - 1;
        }
        assert(without_trailing_slashes(base@.subrange(0, n as int)) == base@.subrange(0, n as int));
        let trimmed = base.substring_char(0, n);
        let mut url = String::from_str(trimmed);
        url.append("/chat/completions");
        url
    }
}

// ---- answering a chat request, with retries -------------------------------

/// Attempts made at most for one chat request.
pub const MAX_ATTEMPTS: u32 = 4;

/// Whether an HTTP status code reports success (2xx).
pub open spec fn is_success_status(status: u16) -> bool {
    200 <= status <= 299
}

/// Whether an HTTP status code reports a server error (5xx).
pub open spec fn is_server_error_status(status: u16) -> bool {
    500 <= status <= 599
}

/// Whether an HTTP status code reports success (2xx).
pub fn status_is_success(status: u16) -> (r: bool)
    ensures
        r == is_success_status(status),
{
    200 <= status && status <= 299
}

/// Whether an HTTP status code reports a server error (5xx).
pub fn status_is_server_error(status: u16) -> (r: bool)
    ensures
        r == is_server_error_status(status),
{
    500 <= status && status <= 599
}

/// What came back from one attempt at a chat request.
pub enum ChatOutcome {
    /// The endpoint answered with a success status; the body, decoded, or
    /// why it could not be decoded.
    Completed(Result<ChatResponse, String>),
    /// The endpoint answered with another status; the body as text.
    Rejected { status: u16, body: String },
    /// The request did not get an answer.
    Failed(String),
}

/// Why a chat request gave no reply.
#[derive(Debug)]
pub enum MimoError {
    /// The success body could not be decoded.
    Decode(String),
    /// The response held no choice.
    NoChoices,
    /// The endpoint refused the request, or kept failing with server errors.
    Status { status: u16, body: String },
    /// The request kept failing to reach the endpoint.
    Transport(String),
}

/// What to do after an attempt.
#[derive(Debug)]
pub enum ChatStep {
    /// The request is over, with this result.
    Finished(Result<Reply, MimoError>),
    /// Wait this many milliseconds, then attempt again.
    RetryAfter(u64),
}

/// The wait after the given attempt, in milliseconds: 500 * 2^attempts.
pub open spec fn backoff_ms(attempts: nat) -> nat {
    500 * pow2(attempts)
}

/// The characters of an optional string, or none.
pub open spec fn chars_or_empty(o: Option<String>) -> Seq<char> {
    match o {
        Some(s) => s@,
        None => Seq::empty(),
    }
}

/// `res` is the reply that `resp` gives: its first choice's content and
/// reasoning (empty where absent) and its usage; no choice is an error.
pub open spec fn is_reply_of(res: Result<Reply, MimoError>, resp: ChatResponse) -> bool {
    if resp.choices@.len() == 0 {
        res matches Err(MimoError::NoChoices)
    } else {
        &&& res matches Ok(r)
        &&& r.content@ == chars_or_empty(resp.choices@[0].message.content)
        &&& r.reasoning@ == chars_or_empty(resp.choices@[0].message.reasoning_content)
        &&& r.usage == resp.usage
    }
}

/// What follows attempt number `attempts` with `outcome`.
pub open spec fn is_step_after(attempts: u32, outcome: ChatOutcome, step: ChatStep) -> bool {
    match outcome {
        ChatOutcome::Completed(Ok(resp)) => step matches ChatStep::Finished(res) && is_reply_of(res, resp),
        ChatOutcome::Completed(Err(e)) => step == ChatStep::Finished(Err(MimoError::Decode(e))),
        ChatOutcome::Rejected { status, body } => if attempts >= MAX_ATTEMPTS || !is_server_error_status(status) {
            step == ChatStep::Finished(Err(MimoError::Status { status, body }))
        } else {
            step == ChatStep::RetryAfter(backoff_ms(attempts as nat) as u64)
        },
        ChatOutcome::Failed(e) => if attempts >= MAX_ATTEMPTS {
            step == ChatStep::Finished(Err(MimoError::Transport(e)))
        } else {
            step == ChatStep::RetryAfter(backoff_ms(attempts as nat) as u64)
        },
    }
}

/// The reply that a decoded response gives: its first choice, with an absent
/// content or reasoning read as empty.
pub fn reply_from_response(resp: ChatResponse) -> (res: Result<Reply, MimoError>)
    ensures
        is_reply_of(res, resp),
{
    let ChatResponse { mut choices, usage } = resp;
    if choices.len() == 0 {
        return Err(MimoError::NoChoices);
    }
    let first = choices.swap_remove(0);
    let content = match first.message.content {
        Some(c) => c,
        None => String::new(),
    };
    let reasoning = match first.message.reasoning_content {
        Some(r) => r,
        None => String::new(),
    };
    Ok(Reply { content, reasoning, usage })
}

/// The wait after attempt number `attempts`, in milliseconds.
pub fn backoff_after(attempts: u32) -> (ms: u64)
    requires
        attempts < MAX_ATTEMPTS,
    ensures
        ms == backoff_ms(attempts as nat),
{
    let mut ms: u64 = 500;
    let mut i: u32 = 0;
    proof {
        lemma2_to64();
    }
    while i < attempts
        invariant
            i <= attempts < MAX_ATTEMPTS,
            ms == backoff_ms(i as nat),
            pow2(3) == 8,
        decreases attempts - i,
    {
        proof {
            lemma_pow2_unfold((i + 1) as nat);
            assert(pow2(i as nat) <= pow2(3)) by {
                vstd::arithmetic::power2::lemma_pow2_strictly_increases(i as nat, 3);
            }
        }
        ms = ms * 2;
        i = i + 1;
    }
    ms
}

/// Decides what follows attempt number `attempts` (counted from 1) of a chat
/// request: a decoded success gives the reply; an undecodable success body
/// fails at once; a server error (5xx) or a failure to reach the endpoint is
/// attempted again after 500 * 2^attempts ms, up to four attempts in all;
/// any other status fails at once.
pub fn next_step(attempts: u32, outcome: ChatOutcome) -> (step: ChatStep)
    requires
        1 <= attempts <= MAX_ATTEMPTS,
    ensures
        is_step_after(attempts, outcome, step),
{
    match outcome {
        ChatOutcome::Completed(Ok(resp)) => ChatStep::Finished(reply_from_response(resp)),
        ChatOutcome::Completed(Err(e)) => ChatStep::Finished(Err(MimoError::Decode(e))),
        ChatOutcome::Rejected { status, body } => {
            if attempts >= MAX_ATTEMPTS || !status_is_server_error(status) {
                ChatStep::Finished(Err(MimoError::Status { status, body }))
            } else {
                ChatStep::RetryAfter(backoff_after(attempts))
            }
        },
        ChatOutcome::Failed(e) => {
            if attempts >= MAX_ATTEMPTS {
                ChatStep::Finished(Err(MimoError::Transport(e)))
            } else {
                ChatStep::RetryAfter(backoff_after(attempts))
            }
        },
    }
}

// ---- laws -----------------------------------------------------------------

/// A chat request is attempted at most four times: after the fourth attempt,
/// whatever its outcome, the request is over.
pub proof fn lemma_no_retry_after_last_attempt(outcome: ChatOutcome, step: ChatStep)
    requires
        is_step_after(MAX_ATTEMPTS, outcome, step),
    ensures
        step is Finished,
{
}

/// Only server errors and failures to reach the endpoint are retried: a
/// success, or a status other than 5xx, ends the request at once.
pub proof fn lemma_retry_only_transient(attempts: u32, outcome: ChatOutcome, step: ChatStep)
    requires
        1 <= attempts <= MAX_ATTEMPTS,
        is_step_after(attempts, outcome, step),
        step is RetryAfter,
    ensures
        attempts < MAX_ATTEMPTS,
        outcome is Failed || (outcome matches ChatOutcome::Rejected { status, .. } && is_server_error_status(status)),
{
}

/// The wait before each new attempt doubles, starting from one second:
/// 1000 ms after the first attempt, 2000 ms after the second, 4000 ms after the third.
pub proof fn lemma_backoff_doubles(attempts: nat)
    ensures
        backoff_ms(attempts + 1) == 2 * backoff_ms(attempts),
        backoff_ms(1) == 1000,
        backoff_ms(2) == 2000,
        backoff_ms(3) == 4000,
{
    lemma_pow2_unfold(attempts + 1);
    lemma2_to64();
}

/// Once its trailing slashes are gone, an address ends in no slash.
pub proof fn lemma_trimmed_has_no_trailing_slash(s: Seq<char>)
    ensures
        without_trailing_slashes(s).len() == 0 || without_trailing_slashes(s).last() != '/',
        without_trailing_slashes(without_trailing_slashes(s)) == without_trailing_slashes(s),
    decreases s.len(),
{
    if s.len() > 0 && s.last() == '/' {
        lemma_trimmed_has_no_trailing_slash(s.drop_last());
    }
}

/// Trailing slashes on the base address do not change the chat-completions address.
pub proof fn lemma_trailing_slash_ignored(base: Seq<char>)
    ensures
        without_trailing_slashes(base.push('/')) + chat_path() == without_trailing_slashes(base) + chat_path(),
{
    assert(base.push('/').drop_last() =~= base);
}

/// The retry policy, outcome by outcome: a 5xx status or a failure to reach
/// the endpoint on any of the first three attempts is retried after
/// 500 * 2^attempts ms; on the fourth it ends the request with that error; any
/// other status ends the request at once with that status and body; an
/// undecodable success body ends it with the decoding error.
pub proof fn lemma_retry_policy(attempts: u32, outcome: ChatOutcome, step: ChatStep)
    requires
        1 <= attempts <= 4,
        is_step_after(attempts, outcome, step),
    ensures
        outcome matches ChatOutcome::Rejected { status, .. } ==> (500 <= status <= 599 && attempts < 4
            ==> step == ChatStep::RetryAfter((500 * pow2(attempts as nat)) as u64)),
        outcome matches ChatOutcome::Rejected { status, body } ==> (!(500 <= status <= 599) || attempts
            == 4 ==> step == ChatStep::Finished(Err(MimoError::Status { status, body }))),
        outcome is Failed && attempts < 4 ==> step == ChatStep::RetryAfter(
            (500 * pow2(attempts as nat)) as u64,
        ),
        outcome matches ChatOutcome::Failed(e) ==> (attempts == 4 ==> step == ChatStep::Finished(
            Err(MimoError::Transport(e)),
        )),
        outcome matches ChatOutcome::Completed(Err(e)) ==> step == ChatStep::Finished(
            Err(MimoError::Decode(e)),
        ),
        outcome is Completed ==> step is Finished,
{
}

/// A decoded response gives the reply of its first choice, with the
/// response's usage unchanged; absent content or reasoning reads as empty; a
/// response without choices gives the no-choices error.
pub proof fn lemma_reply_of_response(res: Result<Reply, MimoError>, resp: ChatResponse)
    requires
        is_reply_of(res, resp),
    ensures
        resp.choices@.len() == 0 ==> res matches Err(MimoError::NoChoices),
        resp.choices@.len() > 0 ==> res is Ok,
        res matches Ok(r) ==> {
            &&& resp.choices@.len() > 0
            &&& r.usage.prompt_tokens == resp.usage.prompt_tokens
            &&& r.usage.completion_tokens == resp.usage.completion_tokens
            &&& r.usage.total_tokens == resp.usage.total_tokens
            &&& (resp.choices@[0].message.content matches Some(c) ==> r.content@ == c@)
            &&& (resp.choices@[0].message.content is None ==> r.content@.len() == 0)
            &&& (resp.choices@[0].message.reasoning_content matches Some(c) ==> r.reasoning@ == c@)
            &&& (resp.choices@[0].message.reasoning_content is None ==> r.reasoning@.len() == 0)
        },
{
}

/// A success after any attempt gives the reply of the response.
pub proof fn lemma_success_gives_reply(attempts: u32, resp: ChatResponse, step: ChatStep)
    requires
        1 <= attempts <= 4,
        is_step_after(attempts, ChatOutcome::Completed(Ok(resp)), step),
    ensures
        step matches ChatStep::Finished(res) && is_reply_of(res, resp),
{
}

/// Status classes and constants of the endpoint.
pub proof fn lemma_endpoint_constants(status: u16)
    ensures
        is_success_status(status) <==> 200 <= status <= 299,
        is_server_error_status(status) <==> 500 <= status <= 599,
        MAX_ATTEMPTS == 4,
        JSON_OBJECT_FORMAT@ == "json_object"@,
        chat_path() == "/chat/completions"@,
{
}

/// Removing trailing slashes keeps a prefix of the address and removes only
/// slashes, up to the last character that is not one.
pub proof fn lemma_trimmed_is_prefix(s: Seq<char>)
    ensures
        without_trailing_slashes(s).len() <= s.len(),
        without_trailing_slashes(s) == s.subrange(0, without_trailing_slashes(s).len() as int),
        forall|k: int| without_trailing_slashes(s).len() <= k < s.len() ==> #[trigger] s[k] == '/',
        without_trailing_slashes(s).len() == 0 || without_trailing_slashes(s).last() != '/',
    decreases s.len(),
{
    if s.len() > 0 && s.last() == '/' {
        let t = s.drop_last();
        lemma_trimmed_is_prefix(t);
        let n = without_trailing_slashes(t).len() as int;
        assert(t.subrange(0, n) =~= s.subrange(0, n));
        assert forall|k: int| n <= k < s.len() implies #[trigger] s[k] == '/' by {
            if k < s.len() - 1 {
                assert(s[k] == t[k]);
            }
        }
    } else {
        assert(s.subrange(0, s.len() as int) =~= s);
    }
}

} // verus!
