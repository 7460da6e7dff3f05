//! The state token codec: a game state is written as canonical JSON text,
//! compressed into a stream of URI-safe symbols, and read back strictly.

use crate::text::{chars_of, starts_with, string_of};
use vstd::prelude::*;

verus! {

/// The game state that the client holds between commands.
#[derive(Debug, Clone, PartialEq, Eq)]
pub struct ClientGameState {
    pub inventory: Vec<String>,
}

impl View for ClientGameState {
    type V = Seq<Seq<char>>;

    /// A state is its inventory: the item names, in order.
    open spec fn view(&self) -> Seq<Seq<char>> {
        self.inventory.deep_view()
    }
}

/// Why a token was not accepted as a state.
#[derive(Debug, Clone, Copy, PartialEq, Eq, Structural)]
pub enum DecodeError {
    /// The token is longer than `MAX_TOKEN_LEN`.
    TooLong,
    /// The token holds a character outside the 64 token symbols.
    InvalidSymbol,
    /// The symbols do not form a complete compressed stream.
    BadStream,
    /// The decompressed text is not the JSON form of a state.
    BadText,
    /// The token decodes to a state, but is not the token of that state.
    NotCanonical,
}

/// What `lz_str::compress_uri` returns for a text, as code points.
pub uninterp spec fn lz_compress_uri(text: Seq<char>) -> Seq<u32>;

/// What `lz_str::decompress_uri` returns for a stream of code points.
pub uninterp spec fn lz_decompress_uri(codes: Seq<u32>) -> Option<Seq<char>>;

/// The text that `serde_json::to_string` writes for a list of strings.
pub uninterp spec fn json_array_text(items: Seq<Seq<char>>) -> Seq<char>;

/// The list of strings that `serde_json::from_str` reads from a text, if any.
pub uninterp spec fn json_array_items(text: Seq<char>) -> Option<Seq<Seq<char>>>;

/// The longest token that is handed to the decompressor.
pub const MAX_TOKEN_LEN: usize = 0x0fff_ffff;

/// The 64 symbols a token is made of: letters, digits, `+` and `-`.
pub open spec fn is_token_symbol(code: u32) -> bool {
    ||| 0x41 <= code <= 0x5a
    ||| 0x61 <= code <= 0x7a
    ||| 0x30 <= code <= 0x39
    ||| code == 0x2b
    ||| code == 0x2d
}

/// Whether every character of `token` is a token symbol.
pub open spec fn is_token_text(token: Seq<char>) -> bool {
    forall|i: int| 0 <= i < token.len() ==> is_token_symbol(#[trigger] token[i] as u32)
}

/// The characters whose code points are `codes`.
pub open spec fn symbols_of(codes: Seq<u32>) -> Seq<char> {
    Seq::new(codes.len(), |i: int| codes[i] as char)
}

/// The code points of the characters of `token`.
pub open spec fn codes_of(token: Seq<char>) -> Seq<u32> {
    Seq::new(token.len(), |i: int| token[i] as u32)
}

/// The opening of a state's JSON text, up to the inventory array.
pub open spec fn state_json_head() -> Seq<char> {
    seq!['{', '"', 'i', 'n', 'v', 'e', 'n', 't', 'o', 'r', 'y', '"', ':']
}

/// The canonical JSON text of a state: one object with the single field
/// `inventory`, no whitespace.
pub open spec fn state_json(state: Seq<Seq<char>>) -> Seq<char> {
    state_json_head() + json_array_text(state) + seq!['}']
}

/// Whether a text is framed as `state_json` frames it: the opening, then
/// anything, then a closing brace.
pub open spec fn is_framed(text: Seq<char>) -> bool {
    &&& text.len() > state_json_head().len()
    &&& text.subrange(0, state_json_head().len() as int) == state_json_head()
    &&& text.last() == '}'
}

/// What stands between the opening and the closing brace of a framed text.
pub open spec fn framed_part(text: Seq<char>) -> Seq<char> {
    text.subrange(state_json_head().len() as int, text.len() - 1)
}

/// The state that a JSON text stands for: the text must be framed exactly as
/// `state_json` frames it, around an array of strings.
pub open spec fn state_of_json(text: Seq<char>) -> Option<Seq<Seq<char>>> {
    if is_framed(text) {
        json_array_items(framed_part(text))
    } else {
        None
    }
}

/// The token of a state.
pub open spec fn encode_spec(state: Seq<Seq<char>>) -> Seq<char> {
    symbols_of(lz_compress_uri(state_json(state)))
}

/// The state of a token, or why it has none. A token is accepted only if it
/// is, symbol for symbol, the token of the state it decodes to.
pub open spec fn decode_spec(token: Seq<char>) -> Result<Seq<Seq<char>>, DecodeError> {
    if token.len() > MAX_TOKEN_LEN {
        Err(DecodeError::TooLong)
    } else if !is_token_text(token) {
        Err(DecodeError::InvalidSymbol)
    } else {
        match lz_decompress_uri(codes_of(token)) {
            None => Err(DecodeError::BadStream),
            Some(text) => match state_of_json(text) {
                None => Err(DecodeError::BadText),
                Some(state) => if encode_spec(state) == token {
                    Ok(state)
                } else {
                    Err(DecodeError::NotCanonical)
                },
            },
        }
    }
}

/// Whether a state is one that decoding gives: some token decodes to it.
/// These are the states that a session comes to hold by its commands.
pub open spec fn is_decoded_state(state: Seq<Seq<char>>) -> bool {
    exists|token: Seq<char>| decode_spec(token) == Ok::<Seq<Seq<char>>, DecodeError>(state)
}

/// A token that decodes is the token of the state it decodes to: no other
/// spelling of a state is accepted.
pub proof fn law_decoded_token_is_canonical(token: Seq<char>)
    ensures
        decode_spec(token) matches Ok(state) ==> encode_spec(state) == token,
{
}

/// The round trip: decoding the token of a state gives that state back, for
/// every state that decoding gives.
pub proof fn law_round_trip(state: Seq<Seq<char>>)
    requires
        is_decoded_state(state),
    ensures
        decode_spec(encode_spec(state)) == Ok::<Seq<Seq<char>>, DecodeError>(state),
{
    let token = choose|token: Seq<char>|
        decode_spec(token) == Ok::<Seq<Seq<char>>, DecodeError>(state);
    law_decoded_token_is_canonical(token);
}

/// `serde_json::Error`, the error of that crate's reading and writing. It is
/// carried through unread.
#[verifier::external_type_specification]
#[verifier::external_body]
pub struct ExJsonError(serde_json::Error);

/// Calls `lz_str::compress_uri`. The result is named by `lz_compress_uri`;
/// every element of it is one of the first 64 characters of that crate's URI
/// key string, which are exactly the token symbols.
#[verifier::external_body]
fn compress_uri(text: &str) -> (codes: Vec<u32>)
    ensures
        codes@ == lz_compress_uri(text@),
        forall|i: int| 0 <= i < codes@.len() ==> is_token_symbol(#[trigger] codes@[i]),
{
    lz_str::compress_uri(text)
}

/// Calls `lz_str::decompress_uri`. The result is named by
/// `lz_decompress_uri`. The bound on the length keeps the decompressor's
/// code width, which grows by one each time its table doubles, below the 32
/// bits in which it computes powers of two.
#[verifier::external_body]
fn decompress_uri(codes: &Vec<u32>) -> (text: Option<String>)
    requires
        codes@.len() <= MAX_TOKEN_LEN,
    ensures
        match text {
            Some(t) => lz_decompress_uri(codes@) == Some(t@),
            None => lz_decompress_uri(codes@) is None,
        },
{
    lz_str::decompress_uri(codes)
}

/// Calls `serde_json::to_string` on a list of strings. Writing strings into
/// memory cannot fail, so the result is `Ok`; its text is named by
/// `json_array_text`.
#[verifier::external_body]
fn json_array_to_string(items: &Vec<String>) -> (text: Result<String, serde_json::Error>)
    ensures
        match text {
            Ok(t) => t@ == json_array_text(items.deep_view()),
            Err(_) => false,
        },
{
    serde_json::to_string(items)
}

/// Calls `serde_json::from_str` for a list of strings. The outcome is named
/// by `json_array_items`: the list on success, `None` on any error.
#[verifier::external_body]
fn json_array_from_str(text: &str) -> (items: Result<Vec<String>, serde_json::Error>)
    ensures
        match items {
            Ok(v) => json_array_items(text@) == Some(v.deep_view()),
            Err(_) => json_array_items(text@) is None,
        },
{
    serde_json::from_str::<Vec<String>>(text)
}

/// `char::from_u32` of std: the character with the given code point, or
/// `None` for a surrogate or a number above `0x10FFFF`.
pub assume_specification[ char::from_u32 ](code: u32) -> (c: Option<char>)
    ensures
        match c {
            Some(ch) => ch as u32 == code,
            None => 0xd800 <= code <= 0xdfff || code > 0x10ffff,
        },
;

fn is_symbol_code(code: u32) -> (yes: bool)
    ensures
        yes == is_token_symbol(code),
{
    (0x41 <= code && code <= 0x5a) || (0x61 <= code && code <= 0x7a) || (0x30 <= code && code
        <= 0x39) || code == 0x2b || code == 0x2d
}

/// The token whose characters have the code points `codes`, each of them a
/// token symbol.
pub fn symbols_from_codes(codes: &Vec<u32>) -> (token: String)
    requires
        forall|i: int| 0 <= i < codes@.len() ==> is_token_symbol(#[trigger] codes@[i]),
    ensures
        token@ == symbols_of(codes@),
        is_token_text(token@),
{
    let mut token = String::new();
    let mut i: usize = 0;
    while i < codes.len()
        invariant
            i <= codes@.len(),
            forall|j: int| 0 <= j < codes@.len() ==> is_token_symbol(#[trigger] codes@[j]),
            token@ == symbols_of(codes@).subrange(0, i as int),
        decreases codes@.len() - i,
    {
        let code: u32 = codes[i];
        assert(is_token_symbol(codes@[i as int]));
        match char::from_u32(code) {
            Some(c) => {
                token.push(c);
                proof {
                    vstd::utf8::char_u32_cast(c, code);
                }
            },
            None => {
                assert(false);
            },
        }
        i += 1;
        assert(token@ =~= symbols_of(codes@).subrange(0, i as int));
    }
    assert(token@ =~= symbols_of(codes@));
    assert forall|j: int| 0 <= j < token@.len() implies is_token_symbol(
        #[trigger] token@[j] as u32,
    ) by {
        assert(is_token_symbol(codes@[j]));
        assert(token@[j] == codes@[j] as char);
    }
    token
}

/// The code points of a token's characters; `None` where one of them is no
/// token symbol.
pub fn codes_from_symbols(token: &str) -> (codes: Option<Vec<u32>>)
    ensures
        match codes {
            Some(c) => is_token_text(token@) && c@ == codes_of(token@),
            None => !is_token_text(token@),
        },
{
    let symbols = chars_of(token);
    let mut codes: Vec<u32> = Vec::new();
    let mut i: usize = 0;
    while i < symbols.len()
        invariant
            i <= symbols@.len(),
            symbols@ == token@,
            codes@ == codes_of(symbols@).subrange(0, i as int),
            forall|j: int| 0 <= j < i ==> is_token_symbol(#[trigger] symbols@[j] as u32),
        decreases symbols@.len() - i,
    {
        let code: u32 = symbols[i] as u32;
        if !is_symbol_code(code) {
            return None;
        }
        codes.push(code);
        i += 1;
        assert(codes@ =~= codes_of(symbols@).subrange(0, i as int));
    }
    assert(codes@ =~= codes_of(symbols@));
    Some(codes)
}

/// The JSON text of a state whose inventory array has the text `array`.
pub fn frame_inventory(array: &str) -> (json: String)
    ensures
        json@ == state_json_head() + array@ + seq!['}'],
{
    let mut json = String::from_str("{\"inventory\":");
    proof {
        reveal_strlit("{\"inventory\":");
        reveal_strlit("}");
        assert(json@ =~= state_json_head());
    }
    json.append(array);
    json.append("}");
    assert(json@ =~= state_json_head() + array@ + seq!['}']);
    json
}

/// The text of the inventory array in a state's JSON text; `None` where the
/// text is not framed as a state's.
pub fn unframe_inventory(json: &str) -> (array: Option<String>)
    ensures
        match array {
            Some(a) => is_framed(json@) && a@ == framed_part(json@),
            None => !is_framed(json@),
        },
{
    let chars = chars_of(json);
    let head = chars_of("{\"inventory\":");
    proof {
        reveal_strlit("{\"inventory\":");
        assert(head@ =~= state_json_head());
    }
    let n = chars.len();
    if n <= head.len() || !starts_with(&chars, &head) || chars[n - 1] != '}' {
        return None;
    }
    Some(string_of(&chars, head.len(), n - 1))
}

impl ClientGameState {
    /// The token of this state: its canonical JSON text, compressed into
    /// token symbols.
    pub fn to_state_string(&self) -> (token: String)
        ensures
            token@ == encode_spec(self@),
            is_token_text(token@),
    {
        let json = match json_array_to_string(&self.inventory) {
            Ok(array) => frame_inventory(array.as_str()),
            Err(_) => {
                assert(false);
                String::new()
            },
        };
        let codes = compress_uri(json.as_str());
        symbols_from_codes(&codes)
    }

    /// The state of a token. A token that is too long, holds a foreign
    /// character, does not decompress, does not hold a state's JSON text, or
    /// is not the token of the state it holds, is refused with the matching
    /// error. The JSON text is read strictly: one object with the single
    /// field `inventory`; a text with any other field is refused.
    pub fn from_state_string(state_string: &str) -> (state: Result<ClientGameState, DecodeError>)
        ensures
            match state {
                Ok(s) => decode_spec(state_string@) == Ok::<Seq<Seq<char>>, DecodeError>(s@),
                Err(e) => decode_spec(state_string@) == Err::<Seq<Seq<char>>, DecodeError>(e),
            },
            state matches Ok(s) ==> encode_spec(s@) == state_string@ && is_decoded_state(s@),
    {
        if state_string.unicode_len() > MAX_TOKEN_LEN {
            return Err(DecodeError::TooLong);
        }
        let codes = match codes_from_symbols(state_string) {
            Some(codes) => codes,
            None => {
                return Err(DecodeError::InvalidSymbol);
            },
        };
        let text = match decompress_uri(&codes) {
            Some(text) => text,
            None => {
                return Err(DecodeError::BadStream);
            },
        };
        let array = match unframe_inventory(text.as_str()) {
            Some(array) => array,
            None => {
                return Err(DecodeError::BadText);
            },
        };
        let state = match json_array_from_str(array.as_str()) {
            Ok(inventory) => ClientGameState { inventory },
            Err(_) => {
                return Err(DecodeError::BadText);
            },
        };
        let again = state.to_state_string();
        if *again.as_str() == *state_string {
            assert(decode_spec(state_string@) == Ok::<Seq<Seq<char>>, DecodeError>(state@));
            proof {
                law_round_trip(state@);
            }
            Ok(state)
        } else {
            Err(DecodeError::NotCanonical)
        }
    }
}

} // verus!
