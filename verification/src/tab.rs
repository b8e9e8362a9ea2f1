use vstd::prelude::*;
use crate::error::RenderError;
use crate::json::{json_member, json_parsed, json_text, member, parse, text_of};

verus! {

/// An isolated browsing context, owned by one render session.
#[derive(Debug, PartialEq, Eq)]
pub struct Tab {
    /// The browser's opaque identifier of the tab.
    pub id: String,
    /// The URL of the tab's command channel.
    pub channel_address: String,
}

/// A tab as two texts.
pub struct TabView {
    pub id: Seq<char>,
    pub channel_address: Seq<char>,
}

impl View for Tab {
    type V = TabView;

    open spec fn view(&self) -> TabView {
        TabView { id: self.id@, channel_address: self.channel_address@ }
    }
}

/// The tab that a creation response describes: both the channel address and
/// the identifier must be there.
pub open spec fn spec_tab_from_fields(
    address: Option<Seq<char>>,
    id: Option<Seq<char>>,
) -> Result<TabView, RenderError> {
    match (address, id) {
        (Some(a), Some(i)) => Ok(TabView { id: i, channel_address: a }),
        _ => Err(RenderError::ConnectionError),
    }
}

/// The tab that the body of a creation response describes: the body must be
/// JSON with a string under `webSocketDebuggerUrl` and one under `id`.
pub open spec fn spec_parse_tab(body: Seq<char>) -> Result<TabView, RenderError> {
    match json_parsed(body) {
        Some(v) => spec_tab_from_fields(
            json_text(json_member(v, "webSocketDebuggerUrl"@)),
            json_text(json_member(v, "id"@)),
        ),
        None => Err(RenderError::ConnectionError),
    }
}

/// Where the browser's control endpoint creates a tab.
pub open spec fn spec_create_url() -> Seq<char> {
    "http://127.0.0.1:9222/json/new"@
}

/// Where the browser's control endpoint closes the tab `id`.
pub open spec fn spec_close_url(id: Seq<char>) -> Seq<char> {
    "http://127.0.0.1:9222/json/close/"@ + id
}

/// Whether an exec result is the given spec result.
pub open spec fn tab_result_is(r: Result<Tab, RenderError>, v: Result<TabView, RenderError>) -> bool {
    match r {
        Ok(t) => v == Ok::<TabView, RenderError>(t@),
        Err(e) => v == Err::<TabView, RenderError>(e),
    }
}

/// Builds the tab from the two fields read out of a creation response.
pub fn tab_from_fields(address: Option<&str>, id: Option<&str>) -> (r: Result<Tab, RenderError>)
    ensures
        tab_result_is(
            r,
            spec_tab_from_fields(
                match address {
                    Some(a) => Some(a@),
                    None => None,
                },
                match id {
                    Some(i) => Some(i@),
                    None => None,
                },
            ),
        ),
{
    match address {
        Some(a) => match id {
            Some(i) => Ok(Tab { id: i.to_owned(), channel_address: a.to_owned() }),
            None => Err(RenderError::ConnectionError),
        },
        None => Err(RenderError::ConnectionError),
    }
}

/// Reads the body of a tab-creation response.
pub fn parse_tab(body: &str) -> (r: Result<Tab, RenderError>)
    ensures
        tab_result_is(r, spec_parse_tab(body@)),
{
    match parse(body) {
        Ok(v) => {
            let address = text_of(member(&v, "webSocketDebuggerUrl"));
            let id = text_of(member(&v, "id"));
            tab_from_fields(address, id)
        },
        Err(_) => Err(RenderError::ConnectionError),
    }
}

/// The URL that creates a tab.
pub fn create_url() -> (r: String)
    ensures
        r@ == spec_create_url(),
{
    String::from_str("http://127.0.0.1:9222/json/new")
}

/// The URL that closes the tab `id`.
pub fn close_url(id: &str) -> (r: String)
    ensures
        r@ == spec_close_url(id@),
{
    let mut url = String::from_str("http://127.0.0.1:9222/json/close/");
    url.append(id);
    url
}

} // verus!
