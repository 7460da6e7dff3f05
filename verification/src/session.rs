//! The game session: the current screen and state, and the transition that
//! each outcome of a command implies.

use crate::codec::{
    decode_spec, encode_spec, is_decoded_state, is_token_text, ClientGameState, DecodeError,
};
use crate::dispatch::{
    classify, classify_spec, CommandOutcome, GameScreen, Json, OutcomeView, ProtocolError,
    ScreenView,
};
use crate::text::clone_lines;
use vstd::prelude::*;

verus! {

/// The session: the screen the player is on and the state the client holds.
#[derive(Debug, Clone, PartialEq, Eq)]
pub struct Game {
    pub current_screen: GameScreen,
    pub current_state: ClientGameState,
}

/// What a session is: its screen and its inventory.
pub struct GameView {
    pub screen: ScreenView,
    pub inventory: Seq<Seq<char>>,
}

impl View for Game {
    type V = GameView;

    open spec fn view(&self) -> GameView {
        GameView { screen: self.current_screen@, inventory: self.current_state@ }
    }
}

/// The payload of a command submission.
#[derive(Debug, Clone, PartialEq, Eq)]
pub struct CommandRequest {
    /// The screen the player is on.
    pub context_screen_id: String,
    /// The command, as the player gave it.
    pub command: String,
    /// The token of the state the client holds.
    pub state: String,
}

/// The starting screen could not be had.
#[derive(Debug, Clone, Copy, PartialEq, Eq, Structural)]
pub struct TransportError;

/// Why a response changed nothing.
#[derive(Debug, Clone, Copy, PartialEq, Eq, Structural)]
pub enum CommandError {
    /// The response has none of the three outcome shapes.
    Protocol(ProtocolError),
    /// The state token of the outcome was refused.
    Decode(DecodeError),
}

/// What happens to a session, beside the player's asking to leave.
#[derive(Debug, PartialEq, Eq)]
pub enum SessionEvent {
    /// The player asks for the inventory.
    ShowInventory,
    /// The player asks for the current screen's identifier.
    ShowScreenId,
    /// The player asks to see the current screen again.
    ShowScreen,
    /// The server's response to a submitted command has arrived.
    Response(Json),
}

/// What a line of input asks for.
#[derive(Debug, Clone, Copy, PartialEq, Eq, Structural)]
pub enum UserInput {
    Inventory,
    ScreenId,
    Look,
    Help,
    Quit,
    /// Anything else is a command for the server.
    Command,
}

/// The identifier of the screen on which every session starts.
pub const INITIAL_SCREEN_ID: &'static str = "0290922a-59ce-458b-8dbc-1c33f646580a";

/// What a line of input, already trimmed, asks for.
pub open spec fn interpret_spec(line: Seq<char>) -> UserInput {
    if line == "/inventory"@ {
        UserInput::Inventory
    } else if line == "/screen-id"@ || line == "/screen"@ {
        UserInput::ScreenId
    } else if line == "/look"@ || line == "/whereami"@ || line == "/where"@ || line
        == "/repeat"@ || line == "/again"@ {
        UserInput::Look
    } else if line == "/help"@ || line == "/?"@ {
        UserInput::Help
    } else if line == "/exit"@ || line == "/quit"@ {
        UserInput::Quit
    } else {
        UserInput::Command
    }
}

/// The lines that show an inventory.
pub open spec fn inventory_lines(inventory: Seq<Seq<char>>) -> Seq<Seq<char>> {
    seq!["Current inventory:"@] + marked("  "@, inventory)
}

/// The session after a response, or why the response changes nothing.
pub open spec fn respond_spec(session: GameView, raw: Json) -> Result<GameView, CommandError> {
    match classify_spec(raw) {
        Err(e) => Err(CommandError::Protocol(e)),
        Ok(outcome) => match apply_spec(session, outcome) {
            Ok(next) => Ok(next),
            Err(e) => Err(CommandError::Decode(e)),
        },
    }
}

/// Each item behind a mark.
pub open spec fn marked(mark: Seq<char>, items: Seq<Seq<char>>) -> Seq<Seq<char>> {
    Seq::new(items.len(), |i: int| mark + items[i])
}

/// A titled list of marked items; nothing at all for no items.
pub open spec fn section(title: Seq<char>, mark: Seq<char>, items: Seq<Seq<char>>) -> Seq<
    Seq<char>,
> {
    if items.len() == 0 {
        Seq::empty()
    } else {
        seq![title] + marked(mark, items)
    }
}

/// The lines that tell which items came and went.
pub open spec fn diff_lines(added: Seq<Seq<char>>, removed: Seq<Seq<char>>) -> Seq<Seq<char>> {
    section("Items added:"@, "+ "@, added) + section("Items removed:"@, "- "@, removed)
}

/// The lines to show for an outcome: the message or the new screen's body,
/// then the item changes; for a failure its message alone.
pub open spec fn rendered(outcome: OutcomeView) -> Seq<Seq<char>> {
    match outcome {
        OutcomeView::Message { print_message, items_added, items_removed, .. } => print_message
            + diff_lines(items_added, items_removed),
        OutcomeView::Navigation { screen, items_added, items_removed, .. } => screen.body
            + diff_lines(items_added, items_removed),
        OutcomeView::Failure { message, .. } => seq![message],
    }
}

/// The session after an outcome. A message replaces the state, a navigation
/// the screen and the state, a failure nothing; where the outcome's state
/// token is refused there is no next session.
pub open spec fn apply_spec(session: GameView, outcome: OutcomeView) -> Result<
    GameView,
    DecodeError,
> {
    match outcome {
        OutcomeView::Message { state, .. } => match decode_spec(state) {
            Ok(inventory) => Ok(GameView { screen: session.screen, inventory }),
            Err(e) => Err(e),
        },
        OutcomeView::Navigation { screen, state, .. } => match decode_spec(state) {
            Ok(inventory) => Ok(GameView { screen, inventory }),
            Err(e) => Err(e),
        },
        OutcomeView::Failure { .. } => Ok(session),
    }
}

/// Appends a titled list of marked items to `lines`.
fn push_section(lines: &mut Vec<String>, title: &str, mark: &str, items: &Vec<String>)
    ensures
        final(lines).deep_view() == old(lines).deep_view() + section(
            title@,
            mark@,
            items.deep_view(),
        ),
{
    if items.len() == 0 {
        assert(lines.deep_view() =~= old(lines).deep_view() + section(
            title@,
            mark@,
            items.deep_view(),
        ));
        return ;
    }
    lines.push(String::from_str(title));
    let ghost base = lines.deep_view();
    assert(base =~= old(lines).deep_view() + seq![title@]);
    let mut i: usize = 0;
    while i < items.len()
        invariant
            i <= items@.len(),
            lines.deep_view() == base + marked(mark@, items.deep_view()).subrange(0, i as int),
        decreases items@.len() - i,
    {
        let line = String::from_str(mark).concat(items[i].as_str());
        let ghost before = lines.deep_view();
        assert(line@ == marked(mark@, items.deep_view())[i as int]);
        lines.push(line);
        assert(lines.deep_view() =~= before.push(line@));
        i += 1;
        assert(lines.deep_view() =~= base + marked(mark@, items.deep_view()).subrange(
            0,
            i as int,
        ));
    }
    assert(lines.deep_view() =~= old(lines).deep_view() + section(
        title@,
        mark@,
        items.deep_view(),
    ));
}

/// The lines that tell which items came and went, appended to `lines`.
fn push_diff(lines: &mut Vec<String>, added: &Vec<String>, removed: &Vec<String>)
    ensures
        final(lines).deep_view() == old(lines).deep_view() + diff_lines(
            added.deep_view(),
            removed.deep_view(),
        ),
{
    push_section(lines, "Items added:", "+ ", added);
    push_section(lines, "Items removed:", "- ", removed);
    assert(lines.deep_view() =~= old(lines).deep_view() + diff_lines(
        added.deep_view(),
        removed.deep_view(),
    ));
}

/// The lines to show for an outcome.
pub fn render_outcome(outcome: &CommandOutcome) -> (lines: Vec<String>)
    ensures
        lines.deep_view() == rendered(outcome@),
{
    match outcome {
        CommandOutcome::Message { print_message, items_added, items_removed, .. } => {
            let mut lines = clone_lines(print_message);
            assert(lines.deep_view() =~= print_message.deep_view());
            push_diff(&mut lines, items_added, items_removed);
            lines
        },
        CommandOutcome::Navigation { screen, items_added, items_removed, .. } => {
            let mut lines = clone_lines(&screen.body);
            assert(lines.deep_view() =~= screen.body.deep_view());
            push_diff(&mut lines, items_added, items_removed);
            lines
        },
        CommandOutcome::Failure { message, .. } => {
            let mut lines: Vec<String> = Vec::new();
            lines.push(message.clone());
            assert(lines.deep_view() =~= seq![message@]);
            lines
        },
    }
}

/// What a line of input, already trimmed, asks for.
pub fn interpret(line: &str) -> (input: UserInput)
    ensures
        input == interpret_spec(line@),
{
    if *line == *"/inventory" {
        UserInput::Inventory
    } else if *line == *"/screen-id" || *line == *"/screen" {
        UserInput::ScreenId
    } else if *line == *"/look" || *line == *"/whereami" || *line == *"/where" || *line
        == *"/repeat" || *line == *"/again" {
        UserInput::Look
    } else if *line == *"/help" || *line == *"/?" {
        UserInput::Help
    } else if *line == *"/exit" || *line == *"/quit" {
        UserInput::Quit
    } else {
        UserInput::Command
    }
}

impl Game {
    /// A session before its start: an empty screen and an empty inventory.
    pub fn new() -> (game: Game)
        ensures
            game@.screen.id == Seq::<char>::empty(),
            game@.screen.body == Seq::<Seq<char>>::empty(),
            game@.inventory == Seq::<Seq<char>>::empty(),
    {
        let game = Game {
            current_screen: GameScreen { id: String::new(), body: Vec::new() },
            current_state: ClientGameState { inventory: Vec::new() },
        };
        assert(game@.screen.body =~= Seq::<Seq<char>>::empty());
        assert(game@.inventory =~= Seq::<Seq<char>>::empty());
        game
    }

    /// The request that submits `command` now: it carries the current
    /// screen's identifier, the command as given, and the token of the
    /// current state.
    pub fn command_request(&self, command: &str) -> (request: CommandRequest)
        ensures
            request.context_screen_id@ == self@.screen.id,
            request.command@ == command@,
            request.state@ == encode_spec(self@.inventory),
            is_token_text(request.state@),
    {
        CommandRequest {
            context_screen_id: self.current_screen.id.clone(),
            command: String::from_str(command),
            state: self.current_state.to_state_string(),
        }
    }

    /// Starts the session on the screen that was fetched for
    /// `INITIAL_SCREEN_ID`. Without that screen the session cannot start, and
    /// stays as it was.
    pub fn start(&mut self, fetched: Option<GameScreen>) -> (started: Result<(), TransportError>)
        ensures
            match fetched {
                Some(screen) => started is Ok && final(self).current_screen == screen
                    && final(self).current_state == old(self).current_state,
                None => started is Err && *final(self) == *old(self),
            },
    {
        match fetched {
            Some(screen) => {
                self.current_screen = screen;
                Ok(())
            },
            None => Err(TransportError),
        }
    }

    /// The names of the items held, in order.
    pub fn current_inventory(&self) -> (items: &Vec<String>)
        ensures
            items.deep_view() == self@.inventory,
            *items == self.current_state.inventory,
    {
        &self.current_state.inventory
    }

    /// The identifier of the current screen.
    pub fn current_screen_id(&self) -> (id: &str)
        ensures
            id@ == self@.screen.id,
    {
        self.current_screen.id.as_str()
    }

    /// The display lines of the current screen.
    pub fn current_screen_body(&self) -> (body: &Vec<String>)
        ensures
            body.deep_view() == self@.screen.body,
            *body == self.current_screen.body,
    {
        &self.current_screen.body
    }

    /// The lines that show the inventory: a title, then each item indented.
    pub fn render_inventory(&self) -> (lines: Vec<String>)
        ensures
            lines.deep_view() == inventory_lines(self@.inventory),
    {
        let mut lines: Vec<String> = Vec::new();
        lines.push(String::from_str("Current inventory:"));
        let items = &self.current_state.inventory;
        let ghost base = lines.deep_view();
        assert(base =~= seq!["Current inventory:"@]);
        let mut i: usize = 0;
        while i < items.len()
            invariant
                i <= items@.len(),
                lines.deep_view() == base + marked("  "@, items.deep_view()).subrange(0, i as int),
            decreases items@.len() - i,
        {
            let line = String::from_str("  ").concat(items[i].as_str());
            let ghost before = lines.deep_view();
            assert(line@ == marked("  "@, items.deep_view())[i as int]);
            lines.push(line);
            assert(lines.deep_view() =~= before.push(line@));
            i += 1;
            assert(lines.deep_view() =~= base + marked("  "@, items.deep_view()).subrange(
                0,
                i as int,
            ));
        }
        assert(lines.deep_view() =~= inventory_lines(self@.inventory));
        lines
    }

    /// Applies an outcome and returns the lines to show for it. The state
    /// token is decoded before anything changes: where it is refused, the
    /// session is left exactly as it was.
    pub fn apply_outcome(&mut self, outcome: CommandOutcome) -> (shown: Result<
        Vec<String>,
        DecodeError,
    >)
        ensures
            match shown {
                Ok(lines) => apply_spec(old(self)@, outcome@) == Ok::<GameView, DecodeError>(
                    final(self)@,
                ) && lines.deep_view() == rendered(outcome@),
                Err(e) => apply_spec(old(self)@, outcome@) == Err::<GameView, DecodeError>(e)
                    && *final(self) == *old(self),
            },
            outcome is Message ==> final(self).current_screen == old(self).current_screen,
            outcome matches CommandOutcome::Navigation { screen, .. } ==> shown is Ok
                ==> final(self).current_screen == screen,
            outcome is Failure ==> *final(self) == *old(self),
            shown is Ok && !(outcome is Failure) ==> is_decoded_state(final(self)@.inventory),
    {
        let lines = render_outcome(&outcome);
        match outcome {
            CommandOutcome::Message { state, .. } => {
                match ClientGameState::from_state_string(state.as_str()) {
                    Ok(next) => {
                        self.current_state = next;
                        Ok(lines)
                    },
                    Err(e) => Err(e),
                }
            },
            CommandOutcome::Navigation { screen, state, .. } => {
                match ClientGameState::from_state_string(state.as_str()) {
                    Ok(next) => {
                        self.current_state = next;
                        self.current_screen = screen;
                        Ok(lines)
                    },
                    Err(e) => Err(e),
                }
            },
            CommandOutcome::Failure { .. } => Ok(lines),
        }
    }

    /// Classifies a response and applies its outcome. Where the response has
    /// no outcome shape, or its state token is refused, the session is left
    /// exactly as it was.
    pub fn apply_response(&mut self, raw: &Json) -> (shown: Result<Vec<String>, CommandError>)
        ensures
            match shown {
                Ok(lines) => respond_spec(old(self)@, *raw) == Ok::<GameView, CommandError>(
                    final(self)@,
                ) && classify_spec(*raw) is Ok && lines.deep_view() == rendered(
                    classify_spec(*raw)->Ok_0,
                ),
                Err(e) => respond_spec(old(self)@, *raw) == Err::<GameView, CommandError>(e)
                    && *final(self) == *old(self),
            },
    {
        match classify(raw) {
            Err(e) => Err(CommandError::Protocol(e)),
            Ok(outcome) => match self.apply_outcome(outcome) {
                Ok(lines) => Ok(lines),
                Err(e) => Err(CommandError::Decode(e)),
            },
        }
    }

    /// Takes one event and returns the lines to show for it. Showing the
    /// inventory, the screen's identifier or the screen again never changes
    /// the session; a response changes it as `apply_response` says.
    pub fn handle(&mut self, event: SessionEvent) -> (shown: Result<Vec<String>, CommandError>)
        ensures
            !(event is Response) ==> *final(self) == *old(self) && shown is Ok,
            event is ShowInventory ==> shown->Ok_0.deep_view() == inventory_lines(
                old(self)@.inventory,
            ),
            event is ShowScreenId ==> shown->Ok_0.deep_view() == seq![old(self)@.screen.id],
            event is ShowScreen ==> shown->Ok_0.deep_view() == old(self)@.screen.body,
            event matches SessionEvent::Response(raw) ==> match shown {
                Ok(lines) => respond_spec(old(self)@, raw) == Ok::<GameView, CommandError>(
                    final(self)@,
                ) && classify_spec(raw) is Ok && lines.deep_view() == rendered(
                    classify_spec(raw)->Ok_0,
                ),
                Err(e) => respond_spec(old(self)@, raw) == Err::<GameView, CommandError>(e)
                    && *final(self) == *old(self),
            },
    {
        match event {
            SessionEvent::ShowInventory => Ok(self.render_inventory()),
            SessionEvent::ShowScreenId => {
                let mut lines: Vec<String> = Vec::new();
                lines.push(self.current_screen.id.clone());
                assert(lines.deep_view() =~= seq![self@.screen.id]);
                Ok(lines)
            },
            SessionEvent::ShowScreen => {
                let lines = clone_lines(&self.current_screen.body);
                assert(lines.deep_view() =~= self@.screen.body);
                Ok(lines)
            },
            SessionEvent::Response(raw) => self.apply_response(&raw),
        }
    }
}

} // verus!
