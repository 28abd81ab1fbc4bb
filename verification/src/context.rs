//! The context window: the bounded, ordered prompt that is sent to the
//! inference endpoint.
//!
//! The prompt opens with the fixed instructions, goes on with the last
//! messages of the history and ends with the pending input, unless the
//! history already ends with it. It depends on nothing but the history and
//! the pending input.

use crate::profile::{Message, MessageView, Role};
use vstd::prelude::*;

verus! {

/// The instructions that open every prompt. They make the model start its
/// reply with a mood tag.
pub const SYSTEM_PROMPT: &'static str = "
Tu es Numa, psychologue expert.
Règles strictes :
1. Analyse l'humeur de l'utilisateur sur une échelle de 1 (Détresse extrême) à 10 (Bonheur total).
2. COMMENCE TA RÉPONSE par ce tag : [MOOD:note] (exemple: [MOOD:4] si l'utilisateur est triste).
3. Ensuite, écris ta réponse empathique et courte.
4. Si suicide/danger : Mets [MOOD:1] et dis 'Urgence détectée'.
";

/// How many messages of the history a prompt holds at most.
pub const WINDOW: usize = 6;

/// The part that a turn of the prompt plays for the endpoint.
#[derive(Clone, Copy, Debug, PartialEq, Eq, Structural)]
pub enum PromptRole {
    System,
    User,
    Assistant,
}

impl PromptRole {
    /// The name of the role on the wire.
    pub open spec fn label_of(self) -> Seq<char> {
        match self {
            PromptRole::System => "system"@,
            PromptRole::User => "user"@,
            PromptRole::Assistant => "assistant"@,
        }
    }

    /// The name of the role on the wire.
    pub fn label(&self) -> (name: &'static str)
        ensures
            name@ == self.label_of(),
    {
        match self {
            PromptRole::System => "system",
            PromptRole::User => "user",
            PromptRole::Assistant => "assistant",
        }
    }
}

/// One turn of the prompt.
#[derive(Debug, PartialEq, Eq)]
pub struct PromptTurn {
    pub role: PromptRole,
    pub content: String,
}

/// The mathematical value of a [`PromptTurn`].
pub struct PromptTurnView {
    pub role: PromptRole,
    pub content: Seq<char>,
}

impl View for PromptTurn {
    type V = PromptTurnView;

    open spec fn view(&self) -> PromptTurnView {
        PromptTurnView { role: self.role, content: self.content@ }
    }
}

impl DeepView for PromptTurn {
    type V = PromptTurnView;

    open spec fn deep_view(&self) -> PromptTurnView {
        self.view()
    }
}

impl Clone for PromptTurn {
    fn clone(&self) -> (copy: Self)
        ensures
            copy@ == self@,
    {
        PromptTurn { role: self.role, content: self.content.clone() }
    }
}

/// The turn that opens every prompt.
pub open spec fn system_turn() -> PromptTurnView {
    PromptTurnView { role: PromptRole::System, content: SYSTEM_PROMPT@ }
}

/// The turn that carries the pending input.
pub open spec fn user_turn(input: Seq<char>) -> PromptTurnView {
    PromptTurnView { role: PromptRole::User, content: input }
}

/// The turn that a stored message becomes: what the assistant wrote is its
/// own, everything else is the user's. The text is taken over as it is.
pub open spec fn turn_of(message: MessageView) -> PromptTurnView {
    PromptTurnView {
        role: if message.role == Role::Assistant {
            PromptRole::Assistant
        } else {
            PromptRole::User
        },
        content: message.content,
    }
}

/// Where the window starts in a history of `len` messages.
pub open spec fn window_start(len: nat) -> int {
    if len > WINDOW {
        len - WINDOW
    } else {
        0
    }
}

/// The last messages of `history`, at most [`WINDOW`] of them, in their
/// order.
pub open spec fn window(history: Seq<MessageView>) -> Seq<MessageView> {
    history.subrange(window_start(history.len()), history.len() as int)
}

/// Whether `input` is already the text of the last stored message.
pub open spec fn ends_with_input(history: Seq<MessageView>, input: Seq<char>) -> bool {
    history.len() > 0 && history.last().content == input
}

/// The turns that the pending input adds: one, unless there is no input or
/// the history already ends with it.
pub open spec fn pending_turns(history: Seq<MessageView>, pending: Option<Seq<char>>) -> Seq<
    PromptTurnView,
> {
    match pending {
        Some(input) => if ends_with_input(history, input) {
            Seq::empty()
        } else {
            seq![user_turn(input)]
        },
        None => Seq::empty(),
    }
}

/// The prompt for `history` and `pending`.
pub open spec fn context_window(history: Seq<MessageView>, pending: Option<Seq<char>>) -> Seq<
    PromptTurnView,
> {
    seq![system_turn()] + window(history).map_values(|m: MessageView| turn_of(m)) + pending_turns(
        history,
        pending,
    )
}

/// Builds the prompt for `history` and the pending input.
pub fn build_context(history: &Vec<Message>, pending_input: Option<String>) -> (turns: Vec<
    PromptTurn,
>)
    ensures
        turns.deep_view() == context_window(history.deep_view(), pending_input.deep_view()),
        1 <= turns@.len() <= WINDOW + 2,
{
    let ghost stored = history.deep_view();
    let len = history.len();
    let start = if len > WINDOW {
        len - WINDOW
    } else {
        0
    };
    let mut turns: Vec<PromptTurn> = Vec::new();
    turns.push(PromptTurn { role: PromptRole::System, content: SYSTEM_PROMPT.to_owned() });
    let mut i = start;
    while i < len
        invariant
            stored == history.deep_view(),
            len == history@.len(),
            start == window_start(len as nat),
            start <= i <= len,
            turns@.len() == 1 + (i - start),
            turns.deep_view() == seq![system_turn()] + stored.subrange(
                start as int,
                i as int,
            ).map_values(|m: MessageView| turn_of(m)),
        decreases len - i,
    {
        let message = &history[i];
        let role = match message.role {
            Role::Assistant => PromptRole::Assistant,
            Role::User => PromptRole::User,
        };
        let ghost built = turns.deep_view();
        let turn = PromptTurn { role, content: message.content.clone() };
        turns.push(turn);
        assert(turns.deep_view() =~= built.push(turn@));
        assert(turns.deep_view() =~= seq![system_turn()] + stored.subrange(
            start as int,
            i + 1,
        ).map_values(|m: MessageView| turn_of(m)));
        i += 1;
    }
    match pending_input {
        Some(input) => {
            let repeated = len > 0 && history[len - 1].content == input;
            if !repeated {
                let turn = PromptTurn { role: PromptRole::User, content: input };
                turns.push(turn);
            }
        },
        None => {},
    }
    turns
}

/// A prompt opens with the instructions and holds at most [`WINDOW`] stored
/// messages and one pending input: never more than `WINDOW + 2` turns,
/// however long the history is.
pub proof fn lemma_window_is_bounded(history: Seq<MessageView>, pending: Option<Seq<char>>)
    ensures
        context_window(history, pending)[0] == system_turn(),
        window(history).len() == if history.len() > WINDOW {
            WINDOW as nat
        } else {
            history.len()
        },
        pending_turns(history, pending).len() <= 1,
        context_window(history, pending).len() == 1 + window(history).len() + pending_turns(
            history,
            pending,
        ).len(),
        context_window(history, pending).len() <= WINDOW + 2,
{
}

/// The stored messages stand in the prompt in their order, each with its
/// text as it is stored: the turn at place `1 + i` is that of the `i`-th
/// message of the window.
pub proof fn lemma_window_keeps_order(
    history: Seq<MessageView>,
    pending: Option<Seq<char>>,
    i: int,
)
    requires
        0 <= i < window(history).len(),
    ensures
        context_window(history, pending)[1 + i] == turn_of(
            history[window_start(history.len()) + i],
        ),
        context_window(history, pending)[1 + i].content == history[window_start(history.len())
            + i].content,
{
}

/// An input that the history does not end with is the last turn of the
/// prompt, as a turn of the user.
pub proof fn lemma_new_input_comes_last(history: Seq<MessageView>, input: Seq<char>)
    requires
        !ends_with_input(history, input),
    ensures
        context_window(history, Some(input)).last() == user_turn(input),
        context_window(history, Some(input)).drop_last() == context_window(history, None),
{
}

/// An input that the history already ends with adds no turn: the prompt is
/// the one without a pending input, and its last turn is that of the last
/// stored message.
pub proof fn lemma_repeated_input_adds_nothing(history: Seq<MessageView>, input: Seq<char>)
    requires
        ends_with_input(history, input),
    ensures
        context_window(history, Some(input)) == context_window(history, None),
        context_window(history, Some(input)).last() == turn_of(history.last()),
        context_window(history, Some(input)).last().content == input,
{
}

/// An input that the history already ends with stands in the prompt exactly
/// once, at its end, where no other message of the window and not the
/// instructions hold the same text.
pub proof fn lemma_repeated_input_stands_once(history: Seq<MessageView>, input: Seq<char>)
    requires
        ends_with_input(history, input),
        input != SYSTEM_PROMPT@,
        forall|k: int|
            window_start(history.len()) <= k < history.len() - 1 ==> (
            #[trigger] history[k]).content != input,
    ensures
        forall|i: int|
            0 <= i < context_window(history, Some(input)).len() ==> ((
            #[trigger] context_window(history, Some(input))[i]).content == input <==> i
                == context_window(history, Some(input)).len() - 1),
{
}

} // verus!
