//! The JSON document of a batch of messages and the upload request that
//! delivers it.
use vstd::prelude::*;
use vstd::string::StringExecFns;
use crate::date::Date;
use crate::message::{Message, MessageView, views};

verus! {

/// The one upload provider that is supported.
pub const SUPPORTED_PROVIDER: &'static str = "gofile";

/// Where the document is posted.
pub const UPLOAD_ENDPOINT: &'static str = "https://store1.gofile.io/contents/uploadfile";

/// The folder that receives the document.
pub const UPLOAD_FOLDER_ID: &'static str = "cf71f5f5-d849-4c80-94c7-eb73e5253c86";

/// The content type of the document.
pub const JSON_CONTENT_TYPE: &'static str = "application/json";

/// The JSON string literal, quoted and escaped, that stands for a text.
pub uninterp spec fn json_string_of(s: Seq<char>) -> Seq<char>;

/// Relies on `serde_json::to_string` on a `str`, which writes the text as a
/// JSON string literal and does not fail on a `str`.
#[verifier::external_body]
fn json_string(s: &str) -> (r: String)
    ensures
        r@ == json_string_of(s@),
{
    serde_json::to_string(s).unwrap()
}

/// The JSON object of one message, its fields in the order sender, text, date.
pub open spec fn message_json(m: MessageView) -> Seq<char> {
    "{\"sender\":"@ + json_string_of(m.sender) + ",\"text\":"@ + json_string_of(m.text)
        + ",\"date\":"@ + json_string_of(m.date) + "}"@
}

/// The JSON objects of the messages, separated by commas.
pub open spec fn messages_json(s: Seq<MessageView>) -> Seq<char>
    decreases s.len(),
{
    if s.len() == 0 {
        Seq::empty()
    } else if s.len() == 1 {
        message_json(s[0])
    } else {
        messages_json(s.drop_last()) + ","@ + message_json(s.last())
    }
}

/// The JSON array of the messages, in their order.
pub open spec fn batch_json(s: Seq<MessageView>) -> Seq<char> {
    "["@ + messages_json(s) + "]"@
}

/// The JSON object of one message.
pub fn message_to_json(m: &Message) -> (r: String)
    ensures
        r@ == message_json(m@),
{
    let mut out = String::from_str("{\"sender\":");
    let sender = json_string(m.sender.as_str());
    out.append(sender.as_str());
    out.append(",\"text\":");
    let text = json_string(m.text.as_str());
    out.append(text.as_str());
    out.append(",\"date\":");
    let date = json_string(m.date.as_str());
    out.append(date.as_str());
    out.append("}");
    out
}

/// The JSON array of the messages, in their order.
pub fn batch_to_json(messages: &Vec<Message>) -> (r: String)
    ensures
        r@ == batch_json(views(messages@)),
{
    let n = messages.len();
    let mut body = String::new();
    let mut i: usize = 0;
    while i < n
        invariant
            n == messages@.len(),
            i <= n,
            body@ == messages_json(views(messages@.subrange(0, i as int))),
        decreases n - i,
    {
        let ghost pre = views(messages@.subrange(0, i as int));
        let ghost cur = views(messages@.subrange(0, i + 1));
        proof {
            assert(cur.drop_last() =~= pre);
            assert(cur.last() == messages@[i as int]@);
        }
        if i > 0 {
            body.append(",");
        }
        let obj = message_to_json(&messages[i]);
        body.append(obj.as_str());
        proof {
            if i == 0 {
                assert(cur.len() == 1);
                assert(cur[0] == cur.last());
                assert(body@ =~= message_json(cur[0]));
            }
        }
        i = i + 1;
    }
    assert(messages@.subrange(0, n as int) =~= messages@);
    let mut out = String::from_str("[");
    out.append(body.as_str());
    out.append("]");
    out
}

/// Why a batch cannot be delivered.
#[derive(Debug, Clone, Copy, PartialEq, Eq, Structural)]
pub enum UploadError {
    UnsupportedProvider,
}

/// Everything the upload request is made of.
pub struct UploadPlan {
    pub endpoint: String,
    pub bearer_token: String,
    pub file_name: String,
    pub content_type: String,
    pub payload: String,
    pub folder_id: String,
}

/// Whether `provider` names the supported upload provider.
pub fn provider_supported(provider: &str) -> (r: bool)
    ensures
        r == (provider@ == SUPPORTED_PROVIDER@),
{
    let given = String::from_str(provider);
    let supported = String::from_str(SUPPORTED_PROVIDER);
    given == supported
}

/// The upload request for a batch, made on `today`: the document is the batch's
/// JSON array, named after today's date. An unsupported provider is refused
/// before anything is prepared.
pub fn plan_upload(provider: &str, token: &str, messages: &Vec<Message>, today: &Date) -> (r: Result<
    UploadPlan,
    UploadError,
>)
    ensures
        r is Err <==> provider@ != SUPPORTED_PROVIDER@,
        r matches Err(e) ==> e == UploadError::UnsupportedProvider,
        r matches Ok(p) ==> {
            &&& p.endpoint@ == UPLOAD_ENDPOINT@
            &&& p.bearer_token@ == token@
            &&& p.file_name@ == today.text() + ".json"@
            &&& p.content_type@ == JSON_CONTENT_TYPE@
            &&& p.payload@ == batch_json(views(messages@))
            &&& p.folder_id@ == UPLOAD_FOLDER_ID@
        },
{
    if !provider_supported(provider) {
        return Err(UploadError::UnsupportedProvider);
    }
    let payload = batch_to_json(messages);
    let mut file_name = today.to_iso();
    file_name.append(".json");
    Ok(
        UploadPlan {
            endpoint: String::from_str(UPLOAD_ENDPOINT),
            bearer_token: String::from_str(token),
            file_name,
            content_type: String::from_str(JSON_CONTENT_TYPE),
            payload,
            folder_id: String::from_str(UPLOAD_FOLDER_ID),
        },
    )
}

/// An empty batch is the empty JSON array.
pub proof fn lemma_empty_batch_json()
    ensures
        batch_json(Seq::empty()) == "[]"@,
{
    reveal_strlit("[");
    reveal_strlit("]");
    reveal_strlit("[]");
    assert(batch_json(Seq::empty()) =~= "[]"@);
}

} // verus!
