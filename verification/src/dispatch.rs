//! The response dispatcher: an undiscriminated, JSON-shaped server response
//! is matched against the three outcome shapes in a fixed order.

use vstd::prelude::*;

verus! {

/// A JSON-shaped value, as a response arrives before it is classified. A
/// number is kept as its text.
#[derive(Debug, PartialEq, Eq)]
pub enum Json {
    Null,
    Bool(bool),
    Number(String),
    Text(String),
    Array(Vec<Json>),
    Object(Vec<(String, Json)>),
}

/// A narrative unit of the game: its identifier and its display lines.
#[derive(Debug, Clone, PartialEq, Eq)]
pub struct GameScreen {
    pub id: String,
    pub body: Vec<String>,
}

/// What a screen is: its identifier and its lines, as sequences of characters.
pub struct ScreenView {
    pub id: Seq<char>,
    pub body: Seq<Seq<char>>,
}

impl View for GameScreen {
    type V = ScreenView;

    open spec fn view(&self) -> ScreenView {
        ScreenView { id: self.id@, body: self.body.deep_view() }
    }
}

/// The value of the field `name` among `entries`; where a name occurs more
/// than once, its last entry counts.
pub open spec fn field(entries: Seq<(String, Json)>, name: Seq<char>) -> Option<Json>
    decreases entries.len(),
{
    if entries.len() == 0 {
        None
    } else if entries.last().0@ == name {
        Some(entries.last().1)
    } else {
        field(entries.drop_last(), name)
    }
}

/// The field `name` of a response, if the response is an object that has it.
pub open spec fn member(raw: Json, name: Seq<char>) -> Option<Json> {
    match raw {
        Json::Object(entries) => field(entries@, name),
        _ => None,
    }
}

/// The flag that a field holds, if it is there and is a boolean.
pub open spec fn flag_of(value: Option<Json>) -> Option<bool> {
    match value {
        Some(Json::Bool(b)) => Some(b),
        _ => None,
    }
}

/// The text that a field holds, if it is there and is a string.
pub open spec fn text_of(value: Option<Json>) -> Option<Seq<char>> {
    match value {
        Some(Json::Text(s)) => Some(s@),
        _ => None,
    }
}

/// Whether every element is a string.
pub open spec fn all_text(items: Seq<Json>) -> bool {
    forall|i: int| 0 <= i < items.len() ==> (#[trigger] items[i]) is Text
}

/// The strings of a sequence of string values.
pub open spec fn texts(items: Seq<Json>) -> Seq<Seq<char>> {
    Seq::new(items.len(), |i: int| items[i]->Text_0@)
}

/// The lines that a field holds, if it is there and is an array of strings.
pub open spec fn lines_of(value: Option<Json>) -> Option<Seq<Seq<char>>> {
    match value {
        Some(Json::Array(items)) => if all_text(items@) {
            Some(texts(items@))
        } else {
            None
        },
        _ => None,
    }
}

/// The screen that a field holds, if it is there and is an object with a
/// string `id` and an array of strings `body`.
pub open spec fn screen_of(value: Option<Json>) -> Option<ScreenView> {
    match value {
        Some(Json::Object(entries)) => {
            let id = text_of(field(entries@, "id"@));
            let body = lines_of(field(entries@, "body"@));
            if id is Some && body is Some {
                Some(ScreenView { id: id->0, body: body->0 })
            } else {
                None
            }
        },
        _ => None,
    }
}

/// The classified result of a command submission.
#[derive(Debug, Clone, PartialEq, Eq)]
pub enum CommandOutcome {
    /// The command printed a message; the screen stays.
    Message {
        success: bool,
        action_type: String,
        print_message: Vec<String>,
        state: String,
        items_added: Vec<String>,
        items_removed: Vec<String>,
    },
    /// The command led to another screen.
    Navigation {
        success: bool,
        action_type: String,
        screen: GameScreen,
        state: String,
        items_added: Vec<String>,
        items_removed: Vec<String>,
    },
    /// The command was not understood or not allowed.
    Failure { success: bool, message: String },
}

/// What an outcome is, over sequences of characters.
pub enum OutcomeView {
    Message {
        success: bool,
        action_type: Seq<char>,
        print_message: Seq<Seq<char>>,
        state: Seq<char>,
        items_added: Seq<Seq<char>>,
        items_removed: Seq<Seq<char>>,
    },
    Navigation {
        success: bool,
        action_type: Seq<char>,
        screen: ScreenView,
        state: Seq<char>,
        items_added: Seq<Seq<char>>,
        items_removed: Seq<Seq<char>>,
    },
    Failure { success: bool, message: Seq<char> },
}

impl View for CommandOutcome {
    type V = OutcomeView;

    open spec fn view(&self) -> OutcomeView {
        match *self {
            CommandOutcome::Message {
                success,
                action_type,
                print_message,
                state,
                items_added,
                items_removed,
            } => OutcomeView::Message {
                success,
                action_type: action_type@,
                print_message: print_message.deep_view(),
                state: state@,
                items_added: items_added.deep_view(),
                items_removed: items_removed.deep_view(),
            },
            CommandOutcome::Navigation {
                success,
                action_type,
                screen,
                state,
                items_added,
                items_removed,
            } => OutcomeView::Navigation {
                success,
                action_type: action_type@,
                screen: screen@,
                state: state@,
                items_added: items_added.deep_view(),
                items_removed: items_removed.deep_view(),
            },
            CommandOutcome::Failure { success, message } => OutcomeView::Failure {
                success,
                message: message@,
            },
        }
    }
}

/// A response that has none of the three outcome shapes.
#[derive(Debug, Clone, Copy, PartialEq, Eq, Structural)]
pub struct ProtocolError;

/// Whether a response has the fields that both successful shapes share: a
/// boolean `success`, strings `type` and `state`, and arrays of strings
/// `itemsAdded` and `itemsRemoved`.
pub open spec fn has_success_fields(raw: Json) -> bool {
    &&& flag_of(member(raw, "success"@)) is Some
    &&& text_of(member(raw, "type"@)) is Some
    &&& text_of(member(raw, "state"@)) is Some
    &&& lines_of(member(raw, "itemsAdded"@)) is Some
    &&& lines_of(member(raw, "itemsRemoved"@)) is Some
}

/// The message shape: the shared fields, an array of strings `printMessage`,
/// and no field `screen` at all.
pub open spec fn matches_message(raw: Json) -> bool {
    &&& has_success_fields(raw)
    &&& lines_of(member(raw, "printMessage"@)) is Some
    &&& member(raw, "screen"@) is None
}

/// The navigation shape: the shared fields and a well-formed `screen`.
pub open spec fn matches_navigation(raw: Json) -> bool {
    &&& has_success_fields(raw)
    &&& screen_of(member(raw, "screen"@)) is Some
}

/// The failure shape: a boolean `success` and a string `message`.
pub open spec fn matches_failure(raw: Json) -> bool {
    &&& flag_of(member(raw, "success"@)) is Some
    &&& text_of(member(raw, "message"@)) is Some
}

/// The outcome of a response: the first of message, navigation and failure
/// whose shape the response has, with the fields of that shape; a protocol
/// error where it has none of them.
pub open spec fn classify_spec(raw: Json) -> Result<OutcomeView, ProtocolError> {
    if matches_message(raw) {
        Ok(
            OutcomeView::Message {
                success: flag_of(member(raw, "success"@))->0,
                action_type: text_of(member(raw, "type"@))->0,
                print_message: lines_of(member(raw, "printMessage"@))->0,
                state: text_of(member(raw, "state"@))->0,
                items_added: lines_of(member(raw, "itemsAdded"@))->0,
                items_removed: lines_of(member(raw, "itemsRemoved"@))->0,
            },
        )
    } else if matches_navigation(raw) {
        Ok(
            OutcomeView::Navigation {
                success: flag_of(member(raw, "success"@))->0,
                action_type: text_of(member(raw, "type"@))->0,
                screen: screen_of(member(raw, "screen"@))->0,
                state: text_of(member(raw, "state"@))->0,
                items_added: lines_of(member(raw, "itemsAdded"@))->0,
                items_removed: lines_of(member(raw, "itemsRemoved"@))->0,
            },
        )
    } else if matches_failure(raw) {
        Ok(
            OutcomeView::Failure {
                success: flag_of(member(raw, "success"@))->0,
                message: text_of(member(raw, "message"@))->0,
            },
        )
    } else {
        Err(ProtocolError)
    }
}

fn get_field<'a>(entries: &'a Vec<(String, Json)>, name: &str) -> (value: Option<&'a Json>)
    ensures
        match value {
            Some(v) => field(entries@, name@) == Some(*v),
            None => field(entries@, name@) is None,
        },
{
    let mut i: usize = entries.len();
    assert(entries@.subrange(0, i as int) =~= entries@);
    while i > 0
        invariant
            i <= entries@.len(),
            field(entries@, name@) == field(entries@.subrange(0, i as int), name@),
        decreases i,
    {
        let ghost prefix = entries@.subrange(0, i as int);
        assert(prefix.last() == entries@[i as int - 1]);
        assert(prefix.drop_last() =~= entries@.subrange(0, i as int - 1));
        i -= 1;
        if *entries[i].0.as_str() == *name {
            return Some(&entries[i].1);
        }
    }
    None
}

fn read_flag(entries: &Vec<(String, Json)>, name: &str) -> (flag: Option<bool>)
    ensures
        flag == flag_of(field(entries@, name@)),
{
    match get_field(entries, name) {
        Some(Json::Bool(b)) => Some(*b),
        _ => None,
    }
}

fn read_text(entries: &Vec<(String, Json)>, name: &str) -> (text: Option<String>)
    ensures
        match text {
            Some(t) => text_of(field(entries@, name@)) == Some(t@),
            None => text_of(field(entries@, name@)) is None,
        },
{
    match get_field(entries, name) {
        Some(Json::Text(s)) => Some(s.clone()),
        _ => None,
    }
}

fn read_items(items: &Vec<Json>) -> (lines: Option<Vec<String>>)
    ensures
        match lines {
            Some(l) => all_text(items@) && l.deep_view() == texts(items@),
            None => !all_text(items@),
        },
{
    let mut lines: Vec<String> = Vec::new();
    let mut i: usize = 0;
    while i < items.len()
        invariant
            i <= items@.len(),
            lines@.len() == i,
            forall|j: int| 0 <= j < i ==> (#[trigger] items@[j]) is Text,
            forall|j: int| 0 <= j < i ==> (#[trigger] lines@[j])@ == items@[j]->Text_0@,
        decreases items@.len() - i,
    {
        match &items[i] {
            Json::Text(s) => {
                lines.push(s.clone());
            },
            _ => {
                assert(!(items@[i as int] is Text));
                return None;
            },
        }
        i += 1;
    }
    assert(lines.deep_view() =~= texts(items@));
    Some(lines)
}

fn read_lines(entries: &Vec<(String, Json)>, name: &str) -> (lines: Option<Vec<String>>)
    ensures
        match lines {
            Some(l) => lines_of(field(entries@, name@)) == Some(l.deep_view()),
            None => lines_of(field(entries@, name@)) is None,
        },
{
    match get_field(entries, name) {
        Some(Json::Array(items)) => read_items(items),
        _ => None,
    }
}

fn read_screen(entries: &Vec<(String, Json)>, name: &str) -> (screen: Option<GameScreen>)
    ensures
        match screen {
            Some(s) => screen_of(field(entries@, name@)) == Some(s@),
            None => screen_of(field(entries@, name@)) is None,
        },
{
    match get_field(entries, name) {
        Some(Json::Object(inner)) => {
            let id = read_text(inner, "id");
            let body = read_lines(inner, "body");
            match (id, body) {
                (Some(id), Some(body)) => Some(GameScreen { id, body }),
                _ => None,
            }
        },
        _ => None,
    }
}

/// Classifies a response: it is a message if it has the message shape, else
/// a navigation if it has that shape, else a failure if it has that one, and
/// a protocol error otherwise.
pub fn classify(raw: &Json) -> (outcome: Result<CommandOutcome, ProtocolError>)
    ensures
        match outcome {
            Ok(o) => classify_spec(*raw) == Ok::<OutcomeView, ProtocolError>(o@),
            Err(e) => classify_spec(*raw) == Err::<OutcomeView, ProtocolError>(e),
        },
{
    let entries = match raw {
        Json::Object(entries) => entries,
        _ => {
            return Err(ProtocolError);
        },
    };
    let success = read_flag(entries, "success");
    let action_type = read_text(entries, "type");
    let state = read_text(entries, "state");
    let items_added = read_lines(entries, "itemsAdded");
    let items_removed = read_lines(entries, "itemsRemoved");
    let message = read_text(entries, "message");
    match (success, action_type, state, items_added, items_removed) {
        (Some(success), Some(action_type), Some(state), Some(items_added), Some(items_removed)) => {
            let print_message = read_lines(entries, "printMessage");
            let no_screen = get_field(entries, "screen").is_none();
            match (print_message, no_screen) {
                (Some(print_message), true) => {
                    return Ok(
                        CommandOutcome::Message {
                            success,
                            action_type,
                            print_message,
                            state,
                            items_added,
                            items_removed,
                        },
                    );
                },
                _ => {},
            }
            match read_screen(entries, "screen") {
                Some(screen) => {
                    return Ok(
                        CommandOutcome::Navigation {
                            success,
                            action_type,
                            screen,
                            state,
                            items_added,
                            items_removed,
                        },
                    );
                },
                None => {},
            }
            match message {
                Some(message) => Ok(CommandOutcome::Failure { success, message }),
                None => Err(ProtocolError),
            }
        },
        (Some(success), _, _, _, _) => match message {
            Some(message) => Ok(CommandOutcome::Failure { success, message }),
            None => Err(ProtocolError),
        },
        _ => Err(ProtocolError),
    }
}

/// Classification is exclusive: no response has both the message and the
/// navigation shape; a response is classified exactly when it has one of the
/// three shapes; the outcome is a message exactly for the message shape, a
/// navigation exactly for the navigation shape, and a failure only where
/// neither matches. A response that carries `printMessage` beside a
/// well-formed `screen` is a navigation.
pub proof fn law_classification_exclusive(raw: Json)
    ensures
        !(matches_message(raw) && matches_navigation(raw)),
        classify_spec(raw) is Ok <==> matches_message(raw) || matches_navigation(raw)
            || matches_failure(raw),
        classify_spec(raw) matches Ok(o) ==> {
            &&& o is Message <==> matches_message(raw)
            &&& o is Navigation <==> matches_navigation(raw)
            &&& o is Failure <==> !matches_message(raw) && !matches_navigation(raw)
        },
        matches_navigation(raw) && member(raw, "printMessage"@) is Some ==> (classify_spec(raw)
            matches Ok(o) && o is Navigation),
{
}

} // verus!
