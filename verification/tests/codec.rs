use adventure_client::codec::{
    codes_from_symbols, frame_inventory, symbols_from_codes, unframe_inventory, ClientGameState,
    DecodeError, MAX_TOKEN_LEN,
};

fn state(items: &[&str]) -> ClientGameState {
    ClientGameState { inventory: items.iter().map(|s| s.to_string()).collect() }
}

const EMPTY_TOKEN: &str = "N4IglgdgbgphAuB7ATgTxALgNoF0C+QA";
const LAMP_TOKEN: &str = "N4IglgdgbgphAuB7ATgTxALgNogDYEMBbABxAF0BfIA";

#[test]
fn empty_state_has_its_token() {
    assert_eq!(state(&[]).to_state_string(), EMPTY_TOKEN);
}

#[test]
fn lamp_state_has_its_token() {
    assert_eq!(state(&["lamp"]).to_state_string(), LAMP_TOKEN);
}

#[test]
fn two_items_have_their_token() {
    assert_eq!(
        state(&["lamp", "key"]).to_state_string(),
        "N4IglgdgbgphAuB7ATgTxALgNogDYEMBbABxABoQBrGdAXQF8g"
    );
}

#[test]
fn escaped_item_has_its_token() {
    assert_eq!(
        state(&["a\"b"]).to_state_string(),
        "N4IglgdgbgphAuB7ATgTxALgNogIYB0QAjEAXQF8g"
    );
    assert_eq!(
        state(&["a\nb"]).to_state_string(),
        "N4IglgdgbgphAuB7ATgTxALgNogIYB0IAjEAXQF8g"
    );
}

#[test]
fn empty_token_decodes_to_empty_state() {
    assert_eq!(ClientGameState::from_state_string(EMPTY_TOKEN), Ok(state(&[])));
}

#[test]
fn lamp_token_decodes_to_lamp() {
    assert_eq!(ClientGameState::from_state_string(LAMP_TOKEN), Ok(state(&["lamp"])));
}

#[test]
fn states_round_trip() {
    let samples: Vec<ClientGameState> = vec![
        state(&[]),
        state(&[""]),
        state(&["lamp"]),
        state(&["lamp", "key", "lamp"]),
        state(&["a\"b", "back\\slash", "tab\there", "line\nbreak"]),
        state(&["caf\u{e9}", "\u{4e2d}\u{6587}", "rope (50 ft)"]),
        state(&["aaaaaaaaaaaaaaaaaaaaaaaaaaaaaaaaaaaaaaaaaaaaaaaaaaaaaaaaaaaaaaaa"]),
    ];
    for s in samples {
        let token = s.to_state_string();
        assert_eq!(ClientGameState::from_state_string(&token), Ok(s));
    }
}

#[test]
fn decoded_state_encodes_to_the_same_token() {
    let decoded = ClientGameState::from_state_string(LAMP_TOKEN).unwrap();
    assert_eq!(decoded.to_state_string(), LAMP_TOKEN);
    assert_eq!(ClientGameState::from_state_string(&decoded.to_state_string()), Ok(decoded));
}

#[test]
fn token_is_uri_safe() {
    let token = state(&["lamp", "a b&c=d/e?f#g%", "caf\u{e9}"]).to_state_string();
    assert!(!token.is_empty());
    assert!(token.chars().all(|c| c.is_ascii_alphanumeric() || c == '+' || c == '-'));
}

#[test]
fn foreign_character_is_refused() {
    assert_eq!(
        ClientGameState::from_state_string("N4IglgdgbgphAuB7ATgTxALgNoF0C+Q!"),
        Err(DecodeError::InvalidSymbol)
    );
    assert_eq!(
        ClientGameState::from_state_string("N4IglgdgbgphAuB7ATgTxALgNoF0C+Q$"),
        Err(DecodeError::InvalidSymbol)
    );
    assert_eq!(
        ClientGameState::from_state_string("N4IglgdgbgphAuB7 ATgTxALgNoF0C+QA"),
        Err(DecodeError::InvalidSymbol)
    );
    assert_eq!(
        ClientGameState::from_state_string("N4Iglgdgbgph\u{e9}"),
        Err(DecodeError::InvalidSymbol)
    );
}

#[test]
fn truncated_token_is_refused() {
    assert_eq!(
        ClientGameState::from_state_string("N4IglgdgbgphAuB7ATgTxALg"),
        Err(DecodeError::BadStream)
    );
    assert_eq!(
        ClientGameState::from_state_string(&LAMP_TOKEN[..LAMP_TOKEN.len() - 3]),
        Err(DecodeError::BadStream)
    );
}

#[test]
fn token_of_other_text_is_refused() {
    // the tokens of `hello`, of `[]` and of `{"inventory":5}`
    assert_eq!(ClientGameState::from_state_string("BYUwNmD2Q"), Err(DecodeError::BadText));
    assert_eq!(ClientGameState::from_state_string("NoXSA"), Err(DecodeError::BadText));
    assert_eq!(
        ClientGameState::from_state_string("N4IglgdgbgphAuB7ATgTxALgKwF8g"),
        Err(DecodeError::BadText)
    );
    assert_eq!(ClientGameState::from_state_string(""), Err(DecodeError::BadText));
}

#[test]
fn token_with_another_field_is_refused() {
    // the token of `{"inventory":["lamp"],"extra":1}`
    assert_eq!(
        ClientGameState::from_state_string(
            "N4IglgdgbgphAuB7ATgTxALgNogDYEMBbABxAF0AaEGAD3mX0wEYBfIA"
        ),
        Err(DecodeError::BadText)
    );
}

#[test]
fn token_of_spaced_text_is_refused() {
    // the token of `{"inventory": []}`: it reads as the empty state, whose token is another
    assert_eq!(
        ClientGameState::from_state_string("N4IglgdgbgphAuB7ATgTxALgAQG0C6AvkA"),
        Err(DecodeError::NotCanonical)
    );
}

#[test]
fn flipped_padding_bit_is_refused() {
    // the last symbol of the lamp token holds one bit of the stream and five of padding
    let flipped = "N4IglgdgbgphAuB7ATgTxALgNogDYEMBbABxAF0BfIB";
    assert_eq!(ClientGameState::from_state_string(flipped), Err(DecodeError::NotCanonical));
    let flipped = "N4IglgdgbgphAuB7ATgTxALgNogDYEMBbABxAF0BfIQ";
    assert_eq!(ClientGameState::from_state_string(flipped), Err(DecodeError::NotCanonical));
    // the last symbol of the empty token is all padding
    let flipped = "N4IglgdgbgphAuB7ATgTxALgNoF0C+QB";
    assert_eq!(ClientGameState::from_state_string(flipped), Err(DecodeError::NotCanonical));
}

#[test]
fn appended_symbol_is_refused() {
    let longer = format!("{}A", LAMP_TOKEN);
    assert_eq!(ClientGameState::from_state_string(&longer), Err(DecodeError::NotCanonical));
}

#[test]
fn overlong_token_is_refused() {
    let long = "A".repeat(MAX_TOKEN_LEN + 1);
    assert_eq!(ClientGameState::from_state_string(&long), Err(DecodeError::TooLong));
}

#[test]
fn character_beyond_the_basic_plane_is_not_kept() {
    // the compressor writes sixteen bits of each character
    let s = state(&["\u{1F600}"]);
    let token = s.to_state_string();
    assert_eq!(token, state(&["\u{F600}"]).to_state_string());
    assert_eq!(ClientGameState::from_state_string(&token), Ok(state(&["\u{F600}"])));
}

#[test]
fn inventory_text_is_framed() {
    assert_eq!(frame_inventory("[]"), "{\"inventory\":[]}");
    assert_eq!(frame_inventory("[\"lamp\"]"), "{\"inventory\":[\"lamp\"]}");
    assert_eq!(frame_inventory(""), "{\"inventory\":}");
}

#[test]
fn framed_text_is_unframed() {
    assert_eq!(unframe_inventory("{\"inventory\":[]}"), Some("[]".to_string()));
    assert_eq!(
        unframe_inventory("{\"inventory\":[\"caf\u{e9}\"]}"),
        Some("[\"caf\u{e9}\"]".to_string())
    );
    assert_eq!(unframe_inventory("{\"inventory\":}"), Some(String::new()));
    assert_eq!(unframe_inventory("{\"inventory\":"), None);
    assert_eq!(unframe_inventory("{\"inventory\":[]"), None);
    assert_eq!(unframe_inventory("{\"Inventory\":[]}"), None);
    assert_eq!(unframe_inventory(" {\"inventory\":[]}"), None);
    assert_eq!(unframe_inventory("{\"inventory\":[]} "), None);
    assert_eq!(unframe_inventory("}"), None);
    assert_eq!(unframe_inventory(""), None);
}

#[test]
fn symbols_and_codes_correspond() {
    assert_eq!(codes_from_symbols("Az09+-"), Some(vec![0x41, 0x7a, 0x30, 0x39, 0x2b, 0x2d]));
    assert_eq!(codes_from_symbols(""), Some(vec![]));
    assert_eq!(codes_from_symbols("AB$"), None);
    assert_eq!(codes_from_symbols("A/B"), None);
    assert_eq!(codes_from_symbols("A=B"), None);
    assert_eq!(codes_from_symbols("@"), None);
    assert_eq!(codes_from_symbols("["), None);
    assert_eq!(codes_from_symbols("`"), None);
    assert_eq!(codes_from_symbols("{"), None);
    assert_eq!(symbols_from_codes(&vec![0x41, 0x7a, 0x30, 0x39, 0x2b, 0x2d]), "Az09+-");
    assert_eq!(symbols_from_codes(&vec![]), "");
}
