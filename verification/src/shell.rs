//! The decisions of an interactive front end: what it keeps, what it shows after
//! each event, and what it asks its surroundings to do. Windows, widgets and the
//! clipboard themselves are not here: a caller feeds [`State::update`] one
//! [`Message`] at a time and carries out the [`Action`] that comes back.

use crate::{backward, backward_outcome, forward, forward_outcome, outcome_view};
use crate::{ShiftError, ShiftFault, MAGIC};
use std::borrow::Cow;
use vstd::prelude::*;
use vstd::utf8::{encode_utf8, is_ascii_chars, is_ascii_chars_encode_utf8};

verus! {

/// The direction in which the text is shifted.
#[derive(Debug, Clone, Copy, PartialEq, Eq, Structural)]
pub enum Direction {
    Forward,
    Backward,
}

impl Direction {
    /// The other direction.
    pub open spec fn opposite(self) -> Direction {
        match self {
            Direction::Backward => Direction::Forward,
            Direction::Forward => Direction::Backward,
        }
    }

    /// The name under which the direction is shown.
    pub open spec fn label(self) -> Seq<char> {
        match self {
            Direction::Forward => "Forward"@,
            Direction::Backward => "Backward"@,
        }
    }

    /// The other direction.
    pub fn switched(&self) -> (other: Self)
        ensures
            other == self.opposite(),
            other != *self,
    {
        match self {
            Self::Backward => Self::Forward,
            Self::Forward => Self::Backward,
        }
    }

    /// The name under which the direction is shown: "Forward" or "Backward".
    pub fn to_string(&self) -> (name: String)
        ensures
            name@ == self.label(),
    {
        match self {
            Direction::Forward => String::from_str("Forward"),
            Direction::Backward => String::from_str("Backward"),
        }
    }
}

impl Default for Direction {
    fn default() -> (direction: Self)
        ensures
            direction == Direction::Forward,
    {
        Direction::Forward
    }
}

/// What can happen to the front end.
#[derive(Debug, Clone)]
pub enum Message {
    /// The tabulator key was pressed, with or without the shift key.
    TabPressed { shift: bool },
    /// The key field was edited; with its new content.
    CypherChanged(String),
    /// The text field was edited; with its new content.
    InputChanged(String),
    /// The shifted bytes are wanted on the clipboard.
    BinaryToClipboard,
    /// The shifted text is wanted on the clipboard.
    TextToClipboard,
    /// The direction is to be switched.
    SwitchDirection,
    /// A field was submitted.
    ProcessText,
}

/// A [`Message`] as plain values.
pub enum MessageView {
    TabPressed { shift: bool },
    CypherChanged(Seq<char>),
    InputChanged(Seq<char>),
    BinaryToClipboard,
    TextToClipboard,
    SwitchDirection,
    ProcessText,
}

impl View for Message {
    type V = MessageView;

    open spec fn view(&self) -> MessageView {
        match *self {
            Message::TabPressed { shift } => MessageView::TabPressed { shift },
            Message::CypherChanged(value) => MessageView::CypherChanged(value@),
            Message::InputChanged(value) => MessageView::InputChanged(value@),
            Message::BinaryToClipboard => MessageView::BinaryToClipboard,
            Message::TextToClipboard => MessageView::TextToClipboard,
            Message::SwitchDirection => MessageView::SwitchDirection,
            Message::ProcessText => MessageView::ProcessText,
        }
    }
}

/// What the front end asks its surroundings to do after an event.
#[derive(Debug)]
pub enum Action {
    /// Nothing.
    Nothing,
    /// Move the keyboard focus to the field before the current one.
    FocusPrevious,
    /// Move the keyboard focus to the field after the current one.
    FocusNext,
    /// Put this text on the clipboard.
    Copy(String),
}

/// An [`Action`] as plain values.
pub enum ActionView {
    Nothing,
    FocusPrevious,
    FocusNext,
    Copy(Seq<char>),
}

impl View for Action {
    type V = ActionView;

    open spec fn view(&self) -> ActionView {
        match *self {
            Action::Nothing => ActionView::Nothing,
            Action::FocusPrevious => ActionView::FocusPrevious,
            Action::FocusNext => ActionView::FocusNext,
            Action::Copy(text) => ActionView::Copy(text@),
        }
    }
}

/// What `Debug` formatting makes of a byte slice.
pub uninterp spec fn debug_text(bytes: Seq<u8>) -> Seq<char>;

/// Formats a byte slice with std's `format!` and the `{:?}` placeholder.
///
/// Trusted: the text depends on the bytes alone, so it has a name.
#[verifier::external_body]
pub(crate) fn debug_string(bytes: &[u8]) -> (text: String)
    ensures
        text@ == debug_text(bytes@),
{
    format!("{:?}", bytes)
}

/// What the front end keeps between events.
#[derive(Debug, Clone)]
pub struct State {
    /// The text field.
    pub input_value: String,
    /// The shifted text, if the last transform gave one.
    pub output_tvalue: Option<String>,
    /// The complaint, if the last transform gave none.
    pub output_message: Option<String>,
    /// The bytes that go with the output: those of the shifted text, or the
    /// shifted bytes that have no text.
    pub output_bvalue: Option<Vec<u8>>,
    /// The key field. Its UTF-8 bytes are the key.
    pub cypher: String,
    /// The direction.
    pub direction: Direction,
}

/// A [`State`] as plain values.
pub struct Model {
    pub input_value: Seq<char>,
    pub output_tvalue: Option<Seq<char>>,
    pub output_message: Option<Seq<char>>,
    pub output_bvalue: Option<Seq<u8>>,
    pub cypher: Seq<char>,
    pub direction: Direction,
}

impl View for State {
    type V = Model;

    open spec fn view(&self) -> Model {
        Model {
            input_value: self.input_value@,
            output_tvalue: match self.output_tvalue {
                Some(text) => Some(text@),
                None => None,
            },
            output_message: match self.output_message {
                Some(text) => Some(text@),
                None => None,
            },
            output_bvalue: match self.output_bvalue {
                Some(bytes) => Some(bytes@),
                None => None,
            },
            cypher: self.cypher@,
            direction: self.direction,
        }
    }
}

impl Model {
    /// The state in which the front end starts: nothing entered, nothing shown,
    /// an empty byte buffer, the default key and the forward direction.
    pub open spec fn initial() -> Model {
        Model {
            input_value: Seq::empty(),
            output_tvalue: None,
            output_message: None,
            output_bvalue: Some(Seq::empty()),
            cypher: "SIAC-UNJB"@,
            direction: Direction::Forward,
        }
    }

    /// What the transform makes of the two fields in the current direction. The
    /// key is the UTF-8 form of the key field.
    pub open spec fn outcome(self) -> Result<Seq<char>, ShiftFault> {
        match self.direction {
            Direction::Forward => forward_outcome(self.input_value, encode_utf8(self.cypher)),
            Direction::Backward => backward_outcome(self.input_value, encode_utf8(self.cypher)),
        }
    }

    /// The state once `outcome` is on show. A text is shown with its UTF-8 bytes
    /// and no complaint. A fault is shown as a complaint and no text: with no
    /// bytes where the fault lies with an input, with the shifted bytes where
    /// they have no text.
    pub open spec fn showing(self, outcome: Result<Seq<char>, ShiftFault>) -> Model {
        match outcome {
            Ok(text) => Model {
                output_message: None,
                output_bvalue: Some(encode_utf8(text)),
                output_tvalue: Some(text),
                ..self
            },
            Err(ShiftFault::NonRepresentableInput(cause)) => Model {
                output_message: Some("Input Error: "@ + cause),
                output_bvalue: None,
                output_tvalue: None,
                ..self
            },
            Err(ShiftFault::InvalidCypher(cause)) => Model {
                output_message: Some("Cypher Error: "@ + cause),
                output_bvalue: None,
                output_tvalue: None,
                ..self
            },
            Err(ShiftFault::NonRepresentableOutput(raw, cause)) => Model {
                output_message: Some(
                    "Output Error: "@ + cause + " Raw output: "@ + debug_text(raw),
                ),
                output_bvalue: Some(raw),
                output_tvalue: None,
                ..self
            },
        }
    }

    /// The state with its output brought up to date with its fields.
    pub open spec fn refreshed(self) -> Model {
        self.showing(self.outcome())
    }

    /// The state after `message`. An edit, a submit and a switch of direction
    /// bring the output up to date; the tabulator key and the clipboard requests
    /// change nothing.
    pub open spec fn after(self, message: MessageView) -> Model {
        match message {
            MessageView::InputChanged(value) => (Model { input_value: value, ..self }).refreshed(),
            MessageView::CypherChanged(value) => (Model { cypher: value, ..self }).refreshed(),
            MessageView::ProcessText => self.refreshed(),
            MessageView::SwitchDirection => (Model {
                direction: self.direction.opposite(),
                ..self
            }).refreshed(),
            MessageView::TabPressed { .. } => self,
            MessageView::TextToClipboard => self,
            MessageView::BinaryToClipboard => self,
        }
    }

    /// What `message` asks of the surroundings. The tabulator key moves the focus,
    /// backwards with the shift key. A clipboard request copies what is there to
    /// copy: the shifted text, or the bytes in `Debug` form.
    pub open spec fn action(self, message: MessageView) -> ActionView {
        match message {
            MessageView::TabPressed { shift } => if shift {
                ActionView::FocusPrevious
            } else {
                ActionView::FocusNext
            },
            MessageView::TextToClipboard => match self.output_tvalue {
                Some(text) => ActionView::Copy(text),
                None => ActionView::Nothing,
            },
            MessageView::BinaryToClipboard => match self.output_bvalue {
                Some(bytes) => ActionView::Copy(debug_text(bytes)),
                None => ActionView::Nothing,
            },
            _ => ActionView::Nothing,
        }
    }
}

/// The description inside a fault, as a string slice.
fn cause_text<'a>(cause: &'a Cow<'static, str>) -> (text: &'a str)
    ensures
        text@ == cause@,
{
    match cause {
        Cow::Borrowed(text) => text,
        Cow::Owned(text) => text.as_str(),
    }
}

/// The key with which the front end starts is the default key: the UTF-8 form of
/// the initial key field is `MAGIC`, byte for byte.
pub proof fn lemma_initial_key_is_magic()
    ensures
        encode_utf8(Model::initial().cypher) == MAGIC@,
{
    let text = "SIAC-UNJB"@;
    reveal_strlit("SIAC-UNJB");
    assert(is_ascii_chars(text));
    is_ascii_chars_encode_utf8(text);
    assert(encode_utf8(text) =~= MAGIC@);
}

impl Default for State {
    fn default() -> (state: Self)
        ensures
            state@ == Model::initial(),
    {
        State {
            input_value: String::new(),
            output_tvalue: None,
            output_message: None,
            output_bvalue: Some(Vec::new()),
            cypher: String::from_str("SIAC-UNJB"),
            direction: Direction::Forward,
        }
    }
}

impl State {
    /// Puts the outcome of a transform on show.
    pub fn show(&mut self, outcome: Result<String, ShiftError>)
        ensures
            final(self)@ == old(self)@.showing(outcome_view(outcome)),
    {
        match outcome {
            Ok(text) => {
                self.output_message = None;
                self.output_bvalue = Some(text.as_str().as_bytes_vec());
                self.output_tvalue = Some(text);
            },
            Err(ShiftError::NonRepresentableInput(cause)) => {
                let message = String::from_str("Input Error: ").concat(cause_text(&cause));
                self.output_message = Some(message);
                self.output_bvalue = None;
                self.output_tvalue = None;
            },
            Err(ShiftError::InvalidCypher(cause)) => {
                let message = String::from_str("Cypher Error: ").concat(cause_text(&cause));
                self.output_message = Some(message);
                self.output_bvalue = None;
                self.output_tvalue = None;
            },
            Err(ShiftError::NonRepresentableOutput((raw, cause))) => {
                let rendered = debug_string(raw.as_slice());
                let message = String::from_str("Output Error: ").concat(cause_text(&cause)).concat(
                    " Raw output: ",
                ).concat(rendered.as_str());
                self.output_message = Some(message);
                self.output_bvalue = Some(raw);
                self.output_tvalue = None;
            },
        }
    }

    /// Runs the transform on the two fields in the current direction and puts its
    /// outcome on show.
    pub fn shift_update(&mut self)
        ensures
            final(self)@ == old(self)@.refreshed(),
    {
        let outcome = match self.direction {
            Direction::Forward => forward(self.input_value.as_str(), self.cypher.as_str().as_bytes()),
            Direction::Backward => backward(
                self.input_value.as_str(),
                self.cypher.as_str().as_bytes(),
            ),
        };
        self.show(outcome);
    }

    /// Takes one event: changes the state as the event asks, and says what the
    /// surroundings are to do.
    pub fn update(&mut self, message: Message) -> (action: Action)
        ensures
            final(self)@ == old(self)@.after(message@),
            action@ == old(self)@.action(message@),
    {
        match message {
            Message::InputChanged(value) => {
                self.input_value = value;
                self.shift_update();
                Action::Nothing
            },
            Message::CypherChanged(value) => {
                self.cypher = value;
                self.shift_update();
                Action::Nothing
            },
            Message::ProcessText => {
                self.shift_update();
                Action::Nothing
            },
            Message::TabPressed { shift } => {
                if shift {
                    Action::FocusPrevious
                } else {
                    Action::FocusNext
                }
            },
            Message::SwitchDirection => {
                self.direction = self.direction.switched();
                self.shift_update();
                Action::Nothing
            },
            Message::TextToClipboard => {
                match &self.output_tvalue {
                    Some(text) => Action::Copy(text.clone()),
                    None => Action::Nothing,
                }
            },
            Message::BinaryToClipboard => {
                match &self.output_bvalue {
                    Some(bytes) => Action::Copy(debug_string(bytes.as_slice())),
                    None => Action::Nothing,
                }
            },
        }
    }

    /// Whether there is a shifted text to copy.
    pub fn can_copy_text(&self) -> (yes: bool)
        ensures
            yes == self@.output_tvalue is Some,
    {
        self.output_tvalue.is_some()
    }

    /// Whether the request to copy the bytes is on offer: whenever a text or a
    /// complaint is on show.
    pub fn can_copy_binary(&self) -> (yes: bool)
        ensures
            yes == (self@.output_tvalue is Some || self@.output_message is Some),
    {
        self.output_tvalue.is_some() || self.output_message.is_some()
    }
}

} // verus!
