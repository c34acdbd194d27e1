//! The boundary of the OpenAI-compatible HTTP collaborators: endpoint URL
//! construction and the shape of a chat-completions response. The HTTP
//! requests themselves are the embedding layer's concern; what is verified
//! here is everything the requests are built from and how a response is
//! picked apart.

use vstd::prelude::*;

verus! {

/// `s` with every trailing '/' removed.
pub open spec fn trim_trailing_slashes(s: Seq<char>) -> Seq<char>
    decreases s.len(),
{
    if s.len() > 0 && s.last() == '/' {
        trim_trailing_slashes(s.drop_last())
    } else {
        s
    }
}

/// Strips trailing slashes off a base URL, so that joining a path onto it
/// never doubles the separator.
fn strip_trailing_slashes(base_url: &str) -> (r: String)
    ensures
        r@ == trim_trailing_slashes(base_url@),
{
    let n: usize = base_url.unicode_len();
    let mut end: usize = n;
    proof {
        assert(base_url@.subrange(0, n as int) =~= base_url@);
    }
    while end > 0 && base_url.get_char(end - 1) == '/'
        invariant
            end <= n,
            n == base_url@.len(),
            trim_trailing_slashes(base_url@) == trim_trailing_slashes(
                base_url@.subrange(0, end as int),
            ),
        decreases end,
    {
        proof {
            let pre = base_url@.subrange(0, end as int);
            assert(pre.last() == base_url@[end as int - 1]);
            assert(pre.drop_last() =~= base_url@.subrange(0, end as int - 1));
        }
        end = end - 1;
    }
    let prefix: &str = base_url.substring_char(0, end);
    proof {
        let pre = base_url@.subrange(0, end as int);
        if end > 0 {
            assert(pre.last() == base_url@[end as int - 1]);
        }
        assert(trim_trailing_slashes(pre) == pre);
    }
    prefix.to_owned()
}

/// The full chat-completions endpoint for a base URL: the base with trailing
/// slashes removed, then the standard path.
pub fn chat_completions_url(base_url: &str) -> (r: String)
    ensures
        r@ == trim_trailing_slashes(base_url@) + "/v1/chat/completions"@,
{
    strip_trailing_slashes(base_url).concat("/v1/chat/completions")
}

/// The full audio-speech endpoint for a base URL: the base with trailing
/// slashes removed, then the standard path.
pub fn audio_speech_url(base_url: &str) -> (r: String)
    ensures
        r@ == trim_trailing_slashes(base_url@) + "/v1/audio/speech"@,
{
    strip_trailing_slashes(base_url).concat("/v1/audio/speech")
}

/// One message of a chat-completions response.
pub struct ChatMessage {
    pub content: String,
}

/// One choice of a chat-completions response.
pub struct ChatChoice {
    pub message: ChatMessage,
}

/// The body of a chat-completions response: the list of choices.
pub struct ChatResponse {
    pub choices: Vec<ChatChoice>,
}

/// What str::trim leaves of a character sequence.
pub uninterp spec fn trim_of(s: Seq<char>) -> Seq<char>;

/// Relies on str::trim: removes leading and trailing whitespace; the result
/// depends on the characters alone.
#[verifier::external_body]
fn trim_str(s: &str) -> (r: String)
    ensures
        r@ == trim_of(s@),
{
    s.trim().to_string()
}

/// The first choice's message content, trimmed of surrounding whitespace —
/// what every chat-based collaborator hands onward. There is some content
/// exactly when the response holds at least one choice.
pub fn first_choice_content(resp: &ChatResponse) -> (r: Option<String>)
    ensures
        resp.choices@.len() == 0 ==> r is None,
        resp.choices@.len() > 0 ==> (r matches Some(c) && c@ == trim_of(
            resp.choices@[0].message.content@,
        )),
{
    if resp.choices.len() > 0 {
        Some(trim_str(resp.choices[0].message.content.as_str()))
    } else {
        None
    }
}

} // verus!
