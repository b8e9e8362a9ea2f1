use render_session::channel::{
    answers, await_response, decimal, decoded_document, document, first_match, frame, frame_id,
    id_matches, payload, print_params, set_content_params, CommandChannel,
};
use render_session::error::RenderError;
use render_session::gate::ConcurrencyGate;
use render_session::tab::{close_url, create_url, parse_tab, tab_from_fields, Tab};

#[test]
fn decimal_writes_numbers() {
    assert_eq!(decimal(0), "0");
    assert_eq!(decimal(7), "7");
    assert_eq!(decimal(10), "10");
    assert_eq!(decimal(1234567890), "1234567890");
    assert_eq!(decimal(u64::MAX), "18446744073709551615");
}

#[test]
fn frame_is_an_object_of_id_method_params() {
    assert_eq!(
        frame(3, "Page.enable", "{}"),
        "{\"id\":3,\"method\":\"Page.enable\",\"params\":{}}"
    );
    assert_eq!(frame(1, "a\"b", "{}"), "{\"id\":1,\"method\":\"a\\\"b\",\"params\":{}}");
}

#[test]
fn set_content_params_quote_both_texts() {
    assert_eq!(
        set_content_params("F1", "<b>\"x\"</b>"),
        "{\"frameId\":\"F1\",\"html\":\"<b>\\\"x\\\"</b>\"}"
    );
}

#[test]
fn print_params_carry_the_orientation() {
    assert!(print_params(true).starts_with("{\"landscape\":true,"));
    assert!(print_params(false).starts_with("{\"landscape\":false,"));
}

#[test]
fn command_ids_increase_by_one() {
    let mut c = CommandChannel::new();
    assert_eq!(c.last_sent(), 0);
    let (first, text) = c.send("A", "{}");
    assert_eq!(first, 1);
    assert_eq!(text, "{\"id\":1,\"method\":\"A\",\"params\":{}}");
    let (second, _) = c.send("B", "{}");
    let (third, text) = c.send("C", "{\"k\":1}");
    assert_eq!((second, third), (2, 3));
    assert_eq!(c.last_sent(), 3);
    assert_eq!(frame_id(&text), Some(3));
}

#[test]
fn frame_id_reads_the_id() {
    assert_eq!(frame_id("{\"id\":5,\"result\":{}}"), Some(5));
    assert_eq!(frame_id("{\"method\":\"Page.loaded\"}"), None);
    assert_eq!(frame_id("{\"id\":\"5\"}"), None);
    assert_eq!(frame_id("{\"id\":-1}"), None);
    assert_eq!(frame_id("{\"result\":{\"id\":5}}"), None);
    assert_eq!(frame_id("garbage"), None);
    assert_eq!(frame_id(""), None);
}

#[test]
fn answers_compares_the_whole_id() {
    assert!(answers("{\"id\":1,\"result\":{}}", 1));
    assert!(!answers("{\"id\":12,\"result\":{}}", 1));
    assert!(!answers("{\"id\":1}", 12));
    assert!(!answers("{\"params\":{\"text\":\"\\\"id\\\":1\"}}", 1));
    assert!(id_matches(Some(4), 4));
    assert!(!id_matches(Some(4), 5));
    assert!(!id_matches(None, 0));
}

#[test]
fn first_match_skips_other_ids() {
    assert_eq!(first_match(&vec![None, Some(1), Some(2), Some(2)], 2), Some(2));
    assert_eq!(first_match(&vec![Some(2)], 2), Some(0));
    assert_eq!(first_match(&vec![None, Some(1)], 2), None);
    assert_eq!(first_match(&vec![], 2), None);
}

#[test]
fn await_response_skips_unsolicited_frames() {
    let frames = vec![
        "{\"method\":\"Page.event\"}".to_string(),
        "{\"id\":1,\"result\":{}}".to_string(),
        "oops".to_string(),
        "{\"id\":2,\"result\":{\"data\":\"UERG\"}}".to_string(),
        "{\"id\":2,\"result\":{}}".to_string(),
    ];
    assert_eq!(await_response(&frames, 2), Ok(3));
    assert_eq!(await_response(&frames, 1), Ok(1));
    assert_eq!(await_response(&frames, 3), Err(RenderError::ProtocolError));
    assert_eq!(await_response(&Vec::new(), 1), Err(RenderError::ProtocolError));
}

#[test]
fn payload_is_the_data_of_the_result() {
    assert_eq!(payload("{\"id\":2,\"result\":{\"data\":\"UERG\"}}"), Some("UERG".to_string()));
    assert_eq!(payload("{\"id\":2,\"result\":{\"data\":\"\"}}"), Some(String::new()));
    assert_eq!(payload("{\"id\":2,\"result\":{}}"), None);
    assert_eq!(payload("{\"id\":2,\"data\":\"UERG\"}"), None);
    assert_eq!(payload("{\"id\":2,\"result\":{\"data\":7}}"), None);
    assert_eq!(payload("nothing"), None);
}

#[test]
fn document_decodes_the_payload() {
    assert_eq!(document(Some("UERG")), Ok(b"PDF".to_vec()));
    assert_eq!(document(Some("aGVsbG8=")), Ok(b"hello".to_vec()));
    assert_eq!(document(Some("")), Err(RenderError::BrowserRenderError));
    assert_eq!(document(None), Err(RenderError::BrowserRenderError));
    assert_eq!(document(Some("UERG!")), Err(RenderError::DecodeError));
    assert_eq!(document(Some("UER")), Err(RenderError::DecodeError));
}

#[test]
fn decoded_document_maps_the_decode_error() {
    assert_eq!(decoded_document(Ok(vec![1, 2, 3])), Ok(vec![1, 2, 3]));
    assert_eq!(
        decoded_document(Err(base64::DecodeError::InvalidLength)),
        Err(RenderError::DecodeError)
    );
}

#[test]
fn parse_tab_needs_both_fields() {
    let body = "{\"id\":\"T9\",\"title\":\"about:blank\",\"webSocketDebuggerUrl\":\"ws://h/p/T9\"}";
    assert_eq!(
        parse_tab(body),
        Ok(Tab { id: "T9".to_string(), channel_address: "ws://h/p/T9".to_string() })
    );
    assert_eq!(parse_tab("{\"id\":\"T9\"}"), Err(RenderError::ConnectionError));
    assert_eq!(
        parse_tab("{\"webSocketDebuggerUrl\":\"ws://h/p/T9\"}"),
        Err(RenderError::ConnectionError)
    );
    assert_eq!(
        parse_tab("{\"id\":9,\"webSocketDebuggerUrl\":\"ws://h/p/T9\"}"),
        Err(RenderError::ConnectionError)
    );
    assert_eq!(parse_tab("{}"), Err(RenderError::ConnectionError));
    assert_eq!(parse_tab("{\"id\":"), Err(RenderError::ConnectionError));
}

#[test]
fn tab_from_fields_needs_both_fields() {
    assert_eq!(
        tab_from_fields(Some("ws://a"), Some("i")),
        Ok(Tab { id: "i".to_string(), channel_address: "ws://a".to_string() })
    );
    assert_eq!(tab_from_fields(None, Some("i")), Err(RenderError::ConnectionError));
    assert_eq!(tab_from_fields(Some("ws://a"), None), Err(RenderError::ConnectionError));
    assert_eq!(tab_from_fields(None, None), Err(RenderError::ConnectionError));
}

#[test]
fn control_plane_urls() {
    assert_eq!(create_url(), "http://127.0.0.1:9222/json/new");
    assert_eq!(close_url("AB12"), "http://127.0.0.1:9222/json/close/AB12");
}

#[test]
fn gate_grants_up_to_its_capacity() {
    let mut g = ConcurrencyGate::new(2);
    assert_eq!(g.capacity(), 2);
    assert!(g.try_acquire());
    assert!(g.try_acquire());
    assert_eq!(g.active(), 2);
    assert_eq!(g.available(), 0);
    assert!(!g.try_acquire());
    assert_eq!(g.active(), 2);
    assert!(g.release());
    assert_eq!(g.available(), 1);
    assert!(g.try_acquire());
    assert!(!g.try_acquire());
}

#[test]
fn gate_release_without_holder_does_nothing() {
    let mut g = ConcurrencyGate::with_default_capacity();
    assert_eq!(g.capacity(), 4);
    assert_eq!(ConcurrencyGate::DEFAULT_CAPACITY, 4);
    assert!(!g.release());
    assert_eq!(g.active(), 0);
    let mut none = ConcurrencyGate::new(0);
    assert!(!none.try_acquire());
}

#[test]
fn errors_have_a_status_and_a_cause() {
    let all = [
        RenderError::ConnectionError,
        RenderError::TransportError,
        RenderError::ProtocolError,
        RenderError::BrowserRenderError,
        RenderError::DecodeError,
        RenderError::ResourceError,
    ];
    for e in all {
        assert_eq!(e.status(), 500);
        assert!(!e.is_timeout());
        assert!(!e.cause().is_empty());
    }
    assert_eq!(RenderError::TimeoutError.status(), 408);
    assert!(RenderError::TimeoutError.is_timeout());
    assert_eq!(RenderError::TimeoutError.cause(), "request timed out");
    assert_eq!(RenderError::BrowserRenderError.cause(), "browser returned no data");
}
