use vstd::prelude::*;
use crate::error::RenderError;
use crate::json::{
    base64_decoded, decode_base64, json_member, json_parsed, json_quoted, json_text,
    json_unsigned, member, parse, quote, text_of, unsigned_of,
};

verus! {

/// One decimal digit as text.
pub open spec fn spec_digit(d: nat) -> Seq<char> {
    if d == 0 {
        "0"@
    } else if d == 1 {
        "1"@
    } else if d == 2 {
        "2"@
    } else if d == 3 {
        "3"@
    } else if d == 4 {
        "4"@
    } else if d == 5 {
        "5"@
    } else if d == 6 {
        "6"@
    } else if d == 7 {
        "7"@
    } else if d == 8 {
        "8"@
    } else {
        "9"@
    }
}

/// A number in decimal, without leading zeros.
pub open spec fn spec_decimal(n: nat) -> Seq<char>
    decreases n,
{
    if n < 10 {
        spec_digit(n)
    } else {
        spec_decimal(n / 10) + spec_digit(n % 10)
    }
}

/// The text frame of a command: an object with `id`, `method` and `params`.
pub open spec fn spec_frame(id: nat, method: Seq<char>, params: Seq<char>) -> Seq<char> {
    "{\"id\":"@ + spec_decimal(id) + ",\"method\":"@ + json_quoted(method) + ",\"params\":"@
        + params + "}"@
}

/// The parameters of the command that sets a tab's document content.
pub open spec fn spec_set_content_params(frame_id: Seq<char>, html: Seq<char>) -> Seq<char> {
    "{\"frameId\":"@ + json_quoted(frame_id) + ",\"html\":"@ + json_quoted(html) + "}"@
}

/// The parameters of the print command: the orientation as asked, background
/// graphics on, a page of 8.27 by 11.7 inches, no margins.
pub open spec fn spec_print_params(landscape: bool) -> Seq<char> {
    "{\"landscape\":"@ + (if landscape {
        "true"@
    } else {
        "false"@
    })
        + ",\"marginBottom\":0.0,\"marginLeft\":0.0,\"marginRight\":0.0,\"marginTop\":0.0,\"paperHeight\":11.7,\"paperWidth\":8.27,\"printBackground\":true}"@
}

pub open spec fn spec_set_content_method() -> Seq<char> {
    "Page.setDocumentContent"@
}

pub open spec fn spec_print_method() -> Seq<char> {
    "Page.printToPDF"@
}

/// The `id` of a frame: the unsigned integer under `id`, where the frame is
/// JSON and has one.
pub open spec fn spec_frame_id(frame: Seq<char>) -> Option<u64> {
    match json_parsed(frame) {
        Some(v) => json_unsigned(json_member(v, "id"@)),
        None => None,
    }
}

/// Whether a frame answers the command `id`.
pub open spec fn spec_answers(frame: Seq<char>, id: nat) -> bool {
    match spec_frame_id(frame) {
        Some(found) => found == id,
        None => false,
    }
}

/// The encoded document of a print response: the string under `result.data`.
pub open spec fn spec_payload(frame: Seq<char>) -> Option<Seq<char>> {
    match json_parsed(frame) {
        Some(v) => json_text(json_member(json_member(v, "result"@), "data"@)),
        None => None,
    }
}

/// The document of a payload: a payload that is missing or empty is the
/// browser's failure, one that does not decode is a decode failure.
pub open spec fn spec_document(payload: Option<Seq<char>>) -> Result<Seq<u8>, RenderError> {
    match payload {
        None => Err(RenderError::BrowserRenderError),
        Some(p) => if p.len() == 0 {
            Err(RenderError::BrowserRenderError)
        } else {
            match base64_decoded(p) {
                Some(bytes) => Ok(bytes),
                None => Err(RenderError::DecodeError),
            }
        },
    }
}

/// Whether an exec result is the given spec result.
pub open spec fn document_is(r: Result<Vec<u8>, RenderError>, v: Result<Seq<u8>, RenderError>) -> bool {
    match r {
        Ok(bytes) => v == Ok::<Seq<u8>, RenderError>(bytes@),
        Err(e) => v == Err::<Seq<u8>, RenderError>(e),
    }
}

fn digit(d: u64) -> (r: &'static str)
    requires
        d < 10,
    ensures
        r@ == spec_digit(d as nat),
{
    if d == 0 {
        "0"
    } else if d == 1 {
        "1"
    } else if d == 2 {
        "2"
    } else if d == 3 {
        "3"
    } else if d == 4 {
        "4"
    } else if d == 5 {
        "5"
    } else if d == 6 {
        "6"
    } else if d == 7 {
        "7"
    } else if d == 8 {
        "8"
    } else {
        "9"
    }
}

/// Writes a number in decimal.
pub fn decimal(n: u64) -> (r: String)
    ensures
        r@ == spec_decimal(n as nat),
    decreases n,
{
    if n < 10 {
        String::from_str(digit(n))
    } else {
        let mut text = decimal(n / 10);
        text.append(digit(n % 10));
        text
    }
}

/// Writes the text frame of a command. `params` is the text of a JSON object.
pub fn frame(id: u64, method: &str, params: &str) -> (r: String)
    ensures
        r@ == spec_frame(id as nat, method@, params@),
{
    let mut text = String::from_str("{\"id\":");
    text.append(decimal(id).as_str());
    text.append(",\"method\":");
    text.append(quote(method).as_str());
    text.append(",\"params\":");
    text.append(params);
    text.append("}");
    text
}

/// Writes the parameters of the command that sets a tab's document content.
pub fn set_content_params(frame_id: &str, html: &str) -> (r: String)
    ensures
        r@ == spec_set_content_params(frame_id@, html@),
{
    let mut text = String::from_str("{\"frameId\":");
    text.append(quote(frame_id).as_str());
    text.append(",\"html\":");
    text.append(quote(html).as_str());
    text.append("}");
    text
}

/// Writes the parameters of the print command.
pub fn print_params(landscape: bool) -> (r: String)
    ensures
        r@ == spec_print_params(landscape),
{
    let mut text = String::from_str("{\"landscape\":");
    text.append(if landscape { "true" } else { "false" });
    text.append(
        ",\"marginBottom\":0.0,\"marginLeft\":0.0,\"marginRight\":0.0,\"marginTop\":0.0,\"paperHeight\":11.7,\"paperWidth\":8.27,\"printBackground\":true}",
    );
    text
}

/// The sending side of one tab's command channel: it numbers the commands.
#[derive(Debug)]
pub struct CommandChannel {
    last_id: u64,
}

impl CommandChannel {
    /// The id of the command sent last, 0 before the first.
    pub closed spec fn last_id(&self) -> nat {
        self.last_id as nat
    }

    /// A channel on which nothing was sent yet.
    pub fn new() -> (c: CommandChannel)
        ensures
            c.last_id() == 0,
    {
        CommandChannel { last_id: 0 }
    }

    /// The id of the command sent last, 0 before the first.
    pub fn last_sent(&self) -> (r: u64)
        ensures
            r == self.last_id(),
    {
        self.last_id
    }

    /// Numbers a command with the next id and writes its frame. Each id is
    /// one more than the one before.
    pub fn send(&mut self, method: &str, params: &str) -> (r: (u64, String))
        requires
            old(self).last_id() < u64::MAX,
        ensures
            final(self).last_id() == old(self).last_id() + 1,
            r.0 == final(self).last_id(),
            r.1@ == spec_frame(r.0 as nat, method@, params@),
    {
        self.last_id = self.last_id + 1;
        (self.last_id, frame(self.last_id, method, params))
    }
}

/// Whether the id read from a frame is that of the command `id`.
pub fn id_matches(found: Option<u64>, id: u64) -> (r: bool)
    ensures
        r == (found == Some(id)),
{
    match found {
        Some(f) => f == id,
        None => false,
    }
}

/// Reads the `id` of a frame.
pub fn frame_id(frame: &str) -> (r: Option<u64>)
    ensures
        r == spec_frame_id(frame@),
{
    match parse(frame) {
        Ok(v) => unsigned_of(member(&v, "id")),
        Err(_) => None,
    }
}

/// Whether a frame answers the command `id`. A frame that is no JSON, or has
/// no `id`, or another one, does not.
pub fn answers(frame: &str, id: u64) -> (r: bool)
    ensures
        r == spec_answers(frame@, id as nat),
{
    id_matches(frame_id(frame), id)
}

/// Among ids read from frames in their order of arrival, the place of the
/// first that is `id`.
pub fn first_match(ids: &Vec<Option<u64>>, id: u64) -> (r: Option<usize>)
    ensures
        match r {
            Some(i) => i < ids@.len() && ids@[i as int] == Some(id) && forall|j: int|
                0 <= j < i ==> ids@[j] != Some(id),
            None => forall|j: int| 0 <= j < ids@.len() ==> ids@[j] != Some(id),
        },
{
    let mut i: usize = 0;
    while i < ids.len()
        invariant
            i <= ids@.len(),
            forall|j: int| 0 <= j < i ==> ids@[j] != Some(id),
        decreases ids@.len() - i,
    {
        if id_matches(ids[i], id) {
            return Some(i);
        }
        i = i + 1;
    }
    None
}

/// Awaits the response to the command `id` among the frames that arrived
/// before the channel closed: the place of the first frame that answers it,
/// every frame before it being skipped, or a protocol error where none does.
pub fn await_response(frames: &Vec<String>, id: u64) -> (r: Result<usize, RenderError>)
    ensures
        match r {
            Ok(i) => i < frames@.len() && spec_answers(frames@[i as int]@, id as nat) && forall|j: int|
                0 <= j < i ==> !spec_answers(#[trigger] frames@[j]@, id as nat),
            Err(e) => e == RenderError::ProtocolError && forall|j: int|
                0 <= j < frames@.len() ==> !spec_answers(#[trigger] frames@[j]@, id as nat),
        },
{
    let mut i: usize = 0;
    while i < frames.len()
        invariant
            i <= frames@.len(),
            forall|j: int| 0 <= j < i ==> !spec_answers(#[trigger] frames@[j]@, id as nat),
        decreases frames@.len() - i,
    {
        if answers(frames[i].as_str(), id) {
            return Ok(i);
        }
        i = i + 1;
    }
    Err(RenderError::ProtocolError)
}

/// Reads the encoded document out of a print response.
pub fn payload(frame: &str) -> (r: Option<String>)
    ensures
        match r {
            Some(p) => spec_payload(frame@) == Some(p@),
            None => spec_payload(frame@) is None,
        },
{
    match parse(frame) {
        Ok(v) => match text_of(member(member(&v, "result"), "data")) {
            Some(p) => Some(p.to_owned()),
            None => None,
        },
        Err(_) => None,
    }
}

/// Turns the outcome of decoding a payload into the outcome of the render.
pub fn decoded_document(decoded: Result<Vec<u8>, base64::DecodeError>) -> (r: Result<
    Vec<u8>,
    RenderError,
>)
    ensures
        match decoded {
            Ok(bytes) => r == Ok::<Vec<u8>, RenderError>(bytes),
            Err(_) => r == Err::<Vec<u8>, RenderError>(RenderError::DecodeError),
        },
{
    match decoded {
        Ok(bytes) => Ok(bytes),
        Err(_) => Err(RenderError::DecodeError),
    }
}

/// The document of a payload, decoded.
pub fn document(payload: Option<&str>) -> (r: Result<Vec<u8>, RenderError>)
    ensures
        document_is(
            r,
            spec_document(
                match payload {
                    Some(p) => Some(p@),
                    None => None,
                },
            ),
        ),
{
    match payload {
        None => Err(RenderError::BrowserRenderError),
        Some(p) => {
            if p.is_empty() {
                Err(RenderError::BrowserRenderError)
            } else {
                decoded_document(decode_base64(p))
            }
        },
    }
}

} // verus!
