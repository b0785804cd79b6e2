//! What the terminal is told: styled text, the spinner, and the state in which a
//! session leaves the terminal.

use vstd::prelude::*;

verus! {

/// The foreground colour of a piece of text.
#[derive(Debug, Clone, Copy, PartialEq, Eq, Structural)]
pub enum TextColor {
    Reset,
    Yellow,
    Green,
    Cyan,
}

/// A piece of text, printed after its colour has been set.
#[derive(Debug)]
pub struct StyledText {
    pub color: TextColor,
    pub text: String,
}

impl View for StyledText {
    type V = (TextColor, Seq<char>);

    open spec fn view(&self) -> (TextColor, Seq<char>) {
        (self.color, self.text@)
    }
}

/// The colours and characters of a list of pieces.
pub open spec fn styled_view(pieces: Seq<StyledText>) -> Seq<(TextColor, Seq<char>)> {
    pieces.map_values(|piece: StyledText| piece@)
}

/// A piece of text in the given colour.
pub fn styled(color: TextColor, text: &str) -> (piece: StyledText)
    ensures
        piece@ == (color, text@),
{
    StyledText { color, text: text.to_string() }
}

/// A command to the terminal.
#[derive(Debug)]
pub enum TerminalCommand {
    HideCursor,
    ShowCursor,
    /// Show a spinner of dots with a text beside it.
    StartSpinner(String),
    StopSpinner,
    ClearCurrentLine,
    MoveToColumn(u16),
    ResetAttributes,
    ResetColor,
}

/// What a command changes on the terminal.
pub struct Screen {
    pub cursor_visible: bool,
    pub spinning: bool,
    pub attributes_set: bool,
    pub color_set: bool,
    pub at_column_zero: bool,
}

/// The terminal after one command.
pub open spec fn after_command(screen: Screen, command: TerminalCommand) -> Screen {
    match command {
        TerminalCommand::HideCursor => Screen { cursor_visible: false, ..screen },
        TerminalCommand::ShowCursor => Screen { cursor_visible: true, ..screen },
        TerminalCommand::StartSpinner(_) => Screen {
            spinning: true,
            at_column_zero: false,
            ..screen
        },
        TerminalCommand::StopSpinner => Screen { spinning: false, ..screen },
        TerminalCommand::ClearCurrentLine => screen,
        TerminalCommand::MoveToColumn(column) => Screen { at_column_zero: column == 0, ..screen },
        TerminalCommand::ResetAttributes => Screen {
            attributes_set: false,
            color_set: false,
            ..screen
        },
        TerminalCommand::ResetColor => Screen { color_set: false, ..screen },
    }
}

/// The terminal after a list of commands.
pub open spec fn after_commands(screen: Screen, commands: Seq<TerminalCommand>) -> Screen
    decreases commands.len(),
{
    if commands.len() == 0 {
        screen
    } else {
        after_command(after_commands(screen, commands.drop_last()), commands.last())
    }
}

/// The commands around a piece of work during which a spinner turns.
#[derive(Debug)]
pub struct SpinnerPlan {
    /// Before the work.
    pub before: Vec<TerminalCommand>,
    /// After the work, whether or not it went well.
    pub after: Vec<TerminalCommand>,
}

impl SpinnerPlan {
    /// The cursor is hidden and a spinner with `text` started before the work; the
    /// spinner is stopped and its line cleared after it.
    pub open spec fn shows(self, text: Seq<char>) -> bool {
        &&& self.before@.len() == 2
        &&& self.before@[0] == TerminalCommand::HideCursor
        &&& self.before@[1] matches TerminalCommand::StartSpinner(shown)
        &&& shown@ == text
        &&& self.after@ == seq![
            TerminalCommand::StopSpinner,
            TerminalCommand::ClearCurrentLine,
            TerminalCommand::MoveToColumn(0),
        ]
    }
}

/// The commands around work that is done under a spinner.
pub fn with_spinner(spinner_text: &str) -> (plan: SpinnerPlan)
    ensures
        plan.shows(spinner_text@),
{
    SpinnerPlan {
        before: vec![
            TerminalCommand::HideCursor,
            TerminalCommand::StartSpinner(spinner_text.to_string()),
        ],
        after: vec![
            TerminalCommand::StopSpinner,
            TerminalCommand::ClearCurrentLine,
            TerminalCommand::MoveToColumn(0),
        ],
    }
}

/// The commands that end a session: a spinner that turns is stopped, then cursor
/// and style are reset.
pub open spec fn teardown_commands(spinner_active: bool) -> Seq<TerminalCommand> {
    let reset = seq![
        TerminalCommand::MoveToColumn(0),
        TerminalCommand::ResetAttributes,
        TerminalCommand::ResetColor,
        TerminalCommand::ShowCursor,
    ];
    if spinner_active {
        seq![TerminalCommand::StopSpinner] + reset
    } else {
        reset
    }
}

/// What a session tells the terminal when it is dropped.
pub fn session_teardown(spinner_active: bool) -> (commands: Vec<TerminalCommand>)
    ensures
        commands@ == teardown_commands(spinner_active),
{
    let mut commands: Vec<TerminalCommand> = Vec::new();
    if spinner_active {
        commands.push(TerminalCommand::StopSpinner);
    }
    commands.push(TerminalCommand::MoveToColumn(0));
    commands.push(TerminalCommand::ResetAttributes);
    commands.push(TerminalCommand::ResetColor);
    commands.push(TerminalCommand::ShowCursor);
    commands
}

/// The commands of a first list and then those of a second do what the commands of
/// both lists do in a row.
proof fn lemma_after_concatenation(
    screen: Screen,
    first: Seq<TerminalCommand>,
    second: Seq<TerminalCommand>,
)
    ensures
        after_commands(screen, first + second) == after_commands(
            after_commands(screen, first),
            second,
        ),
    decreases second.len(),
{
    if second.len() == 0 {
        assert(first + second == first);
    } else {
        assert((first + second).drop_last() == first + second.drop_last());
        lemma_after_concatenation(screen, first, second.drop_last());
    }
}

/// A spinner turns while the work is done and no longer afterwards, and the cursor
/// stays hidden until the session ends.
pub proof fn law_spinner_turns_only_during_the_work(
    plan: SpinnerPlan,
    text: Seq<char>,
    screen: Screen,
)
    requires
        plan.shows(text),
    ensures
        ({
            let working = after_commands(screen, plan.before@);
            let finished = after_commands(working, plan.after@);
            &&& working.spinning
            &&& !working.cursor_visible
            &&& !finished.spinning
            &&& !finished.cursor_visible
            &&& finished.at_column_zero
        }),
{
    reveal_with_fuel(after_commands, 4);
    let before = plan.before@;
    let after = plan.after@;
    assert(before.drop_last().drop_last() == Seq::<TerminalCommand>::empty());
    assert(after.drop_last().drop_last().drop_last() == Seq::<TerminalCommand>::empty());
}

/// Whatever a session did, its end leaves no spinner, no styling and a visible
/// cursor at the start of a line.
pub proof fn law_teardown_restores_the_terminal(screen: Screen, spinner_active: bool)
    requires
        screen.spinning ==> spinner_active,
    ensures
        after_commands(screen, teardown_commands(spinner_active)) == (Screen {
            cursor_visible: true,
            spinning: false,
            attributes_set: false,
            color_set: false,
            at_column_zero: true,
        }),
{
    reveal_with_fuel(after_commands, 5);
    let reset = teardown_commands(false);
    let stop = seq![TerminalCommand::StopSpinner];
    assert(reset.drop_last().drop_last().drop_last().drop_last() == Seq::<
        TerminalCommand,
    >::empty());
    assert(stop.drop_last() == Seq::<TerminalCommand>::empty());
    lemma_after_concatenation(screen, stop, reset);
}

/// A piece of text has the colour and the characters that were asked for, and so has each
/// piece of a list.
pub proof fn law_text_keeps_its_colour_and_characters(
    color: TextColor,
    text: &str,
    piece: StyledText,
    pieces: Seq<StyledText>,
)
    requires
        call_ensures(styled, (color, text), piece),
    ensures
        piece.color == color,
        piece.text@ == text@,
        styled_view(pieces).len() == pieces.len(),
        forall|i: int|
            0 <= i < pieces.len() ==> #[trigger] styled_view(pieces)[i] == (
                pieces[i].color,
                pieces[i].text@,
            ),
{
}

/// A spinner shows the whole text that it was given: the cursor is hidden and the spinner
/// started before the work, and after it the spinner is stopped, its line cleared and the
/// cursor brought to the start of the line.
pub proof fn law_spinner_shows_its_text(text: &str, plan: SpinnerPlan)
    requires
        call_ensures(with_spinner, (text,), plan),
    ensures
        plan.before@.len() == 2,
        plan.before@[0] is HideCursor,
        plan.before@[1] is StartSpinner,
        plan.before@[1]->StartSpinner_0@ == text@,
        plan.after@ == seq![
            TerminalCommand::StopSpinner,
            TerminalCommand::ClearCurrentLine,
            TerminalCommand::MoveToColumn(0),
        ],
{
}

/// A spinner that turns makes no other difference to the end of a session than that it is
/// stopped first; then the cursor goes to the start of the line, the style is reset, and
/// the cursor is shown last.
pub proof fn law_teardown_stops_a_spinner_first(
    quiet: Vec<TerminalCommand>,
    spinning: Vec<TerminalCommand>,
)
    requires
        call_ensures(session_teardown, (false,), quiet),
        call_ensures(session_teardown, (true,), spinning),
    ensures
        spinning@ == seq![TerminalCommand::StopSpinner] + quiet@,
        quiet@ == seq![
            TerminalCommand::MoveToColumn(0),
            TerminalCommand::ResetAttributes,
            TerminalCommand::ResetColor,
            TerminalCommand::ShowCursor,
        ],
{
}

} // verus!
