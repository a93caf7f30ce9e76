use yctrl::codec::classify_response;
use yctrl::codec::encode_command;
use yctrl::codec::execute_reply_ok;
use yctrl::codec::classify_request;
use yctrl::codec::tokenize;
use yctrl::codec::RequestKind;
use yctrl::codec::NulArgument;

fn strings(parts: &[&str]) -> Vec<String> {
    parts.iter().map(|p| p.to_string()).collect()
}

#[test]
fn tokenize_splits_on_ascii_whitespace_and_strips_one_newline() {
    let toks = tokenize(b"event  window_created\t42\n");
    assert_eq!(toks, vec![b"event".to_vec(), b"window_created".to_vec(), b"42".to_vec()]);
}

#[test]
fn tokenize_strips_only_one_trailing_newline() {
    let toks = tokenize(b"config\n\n");
    assert_eq!(toks, vec![b"config".to_vec()]);
    assert_eq!(tokenize(b""), Vec::<Vec<u8>>::new());
    assert_eq!(tokenize(b"\n"), Vec::<Vec<u8>>::new());
    assert_eq!(tokenize(b"   "), Vec::<Vec<u8>>::new());
}

#[test]
fn commands_are_nul_delimited_with_a_closing_nul() {
    let frame = encode_command(&strings(&["window", "--focus", "42"])).unwrap();
    assert_eq!(frame, b"window\0--focus\042\0\0".to_vec());
    let empty = encode_command(&strings(&[])).unwrap();
    assert_eq!(empty, b"\0".to_vec());
}

#[test]
fn an_embedded_nul_byte_is_rejected_before_framing() {
    let args = vec!["window".to_string(), String::from_utf8(b"a\0b".to_vec()).unwrap()];
    assert_eq!(encode_command(&args), Err(NulArgument { index: 1 }));
}

#[test]
fn bel_reply_is_an_error_with_the_trimmed_message() {
    match classify_response(b"\x07invalid selector ") {
        Err(e) => assert_eq!(e.message, b"invalid selector".to_vec()),
        Ok(_) => panic!("a BEL reply must be an error"),
    }
}

#[test]
fn non_bel_replies_are_payloads() {
    assert_eq!(classify_response(b"[]").unwrap(), b"[]".to_vec());
    assert_eq!(classify_response(b"").unwrap(), Vec::<u8>::new());
}

#[test]
fn request_kinds_are_selected_by_the_first_token() {
    assert_eq!(classify_request(b"event"), Some(RequestKind::Event));
    assert_eq!(classify_request(b"config"), Some(RequestKind::Config));
    assert_eq!(classify_request(b"scratchpad"), Some(RequestKind::Scratchpad));
    assert_eq!(classify_request(b"query"), None);
}

#[test]
fn single_byte_replies_succeed_unless_bel() {
    assert!(execute_reply_ok(None));
    assert!(execute_reply_ok(Some(0)));
    assert!(!execute_reply_ok(Some(7)));
}
