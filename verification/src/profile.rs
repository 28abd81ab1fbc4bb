//! The persisted conversation state of one user: the message history and the
//! sticky crisis flag, with the operations that create and change it.
//!
//! Every operation takes the profile it works on and hands back the profile
//! to store; nothing is kept between calls.
//!
//! The history only grows: a message is appended at its end and is never
//! changed, moved or dropped afterwards.
//!
//! The crisis flag is a machine of two states, normal and crisis. A profile
//! starts in the normal state. A risk-bearing message of the user moves it to
//! the crisis state, where it stays whatever is said next; only the explicit
//! reset moves it back. There is no other transition, and none by the
//! passing of time.

use crate::mood::{MOOD_MAX, MOOD_MIN};
use crate::risk::{analyze_risk, is_risky, Lexicon};
use crate::text::same_text;
use vstd::prelude::*;

verus! {

/// Who wrote a stored message.
#[derive(Clone, Copy, Debug, PartialEq, Eq, Structural)]
pub enum Role {
    User,
    Assistant,
}

impl Role {
    /// The name under which the role is stored.
    pub open spec fn label_of(self) -> Seq<char> {
        match self {
            Role::User => "user"@,
            Role::Assistant => "ai"@,
        }
    }

    /// The role that is stored under `label`, if there is one.
    pub open spec fn labelled(label: Seq<char>) -> Option<Role> {
        if label == "user"@ {
            Some(Role::User)
        } else if label == "ai"@ {
            Some(Role::Assistant)
        } else {
            None
        }
    }

    /// The name under which the role is stored.
    pub fn label(&self) -> (name: &'static str)
        ensures
            name@ == self.label_of(),
    {
        match self {
            Role::User => "user",
            Role::Assistant => "ai",
        }
    }

    /// The role that is stored under `label`: `user` or `ai`, and nothing
    /// else.
    pub fn from_label(label: &str) -> (role: Option<Role>)
        ensures
            role == Role::labelled(label@),
    {
        if same_text(label, "user") {
            Some(Role::User)
        } else if same_text(label, "ai") {
            Some(Role::Assistant)
        } else {
            None
        }
    }
}

/// Reading back the name of a role gives the role.
pub proof fn lemma_label_round_trip(role: Role)
    ensures
        Role::labelled(role.label_of()) == Some(role),
{
    reveal_strlit("user");
    reveal_strlit("ai");
    assert("user"@.len() != "ai"@.len());
}

/// One turn of the conversation, as it is stored.
#[derive(Debug, PartialEq, Eq)]
pub struct Message {
    pub role: Role,
    /// The text as it was written; it is never normalised.
    pub content: String,
    /// Unix seconds at which the message was recorded.
    pub timestamp: u64,
    /// Set when the message was analysed and found risk-bearing.
    pub is_alert: bool,
    /// The mood read from an assistant reply, from 1 to 10.
    pub mood_score: Option<i32>,
}

/// The mathematical value of a [`Message`].
pub struct MessageView {
    pub role: Role,
    pub content: Seq<char>,
    pub timestamp: u64,
    pub is_alert: bool,
    pub mood_score: Option<i32>,
}

impl View for Message {
    type V = MessageView;

    open spec fn view(&self) -> MessageView {
        MessageView {
            role: self.role,
            content: self.content@,
            timestamp: self.timestamp,
            is_alert: self.is_alert,
            mood_score: self.mood_score,
        }
    }
}

impl DeepView for Message {
    type V = MessageView;

    open spec fn deep_view(&self) -> MessageView {
        self.view()
    }
}

impl Clone for Message {
    fn clone(&self) -> (copy: Self)
        ensures
            copy@ == self@,
    {
        Message {
            role: self.role,
            content: self.content.clone(),
            timestamp: self.timestamp,
            is_alert: self.is_alert,
            mood_score: self.mood_score,
        }
    }
}

/// A mood, where there is one, lies between 1 and 10.
pub open spec fn mood_in_range(mood: Option<i32>) -> bool {
    mood matches Some(score) ==> MOOD_MIN <= score <= MOOD_MAX
}

impl MessageView {
    /// Only a message of the user can be an alert, and the mood is in range.
    pub open spec fn well_formed(self) -> bool {
        &&& self.is_alert ==> self.role == Role::User
        &&& mood_in_range(self.mood_score)
    }
}

/// The whole conversation of one user.
#[derive(Debug, PartialEq, Eq)]
pub struct Profile {
    /// Unix seconds at which the profile was created.
    pub last_login: u64,
    /// The history, oldest message first.
    pub messages: Vec<Message>,
    /// Set by a risk-bearing user message, cleared only by an explicit reset.
    pub crisis_mode: bool,
}

/// The mathematical value of a [`Profile`].
pub struct ProfileView {
    pub last_login: u64,
    pub messages: Seq<MessageView>,
    pub crisis_mode: bool,
}

impl View for Profile {
    type V = ProfileView;

    open spec fn view(&self) -> ProfileView {
        ProfileView {
            last_login: self.last_login,
            messages: self.messages.deep_view(),
            crisis_mode: self.crisis_mode,
        }
    }
}

impl Clone for Profile {
    fn clone(&self) -> (copy: Self)
        ensures
            copy@ == self@,
    {
        let mut messages: Vec<Message> = Vec::new();
        let mut i: usize = 0;
        while i < self.messages.len()
            invariant
                i <= self.messages.len(),
                messages@.len() == i,
                messages.deep_view() == self.messages.deep_view().take(i as int),
            decreases self.messages.len() - i,
        {
            let message = self.messages[i].clone();
            messages.push(message);
            assert(messages.deep_view() =~= self.messages.deep_view().take(i + 1));
            i += 1;
        }
        assert(messages.deep_view() =~= self.messages.deep_view());
        Profile { last_login: self.last_login, messages, crisis_mode: self.crisis_mode }
    }
}

/// One call that appends a message: what was said, by whom, with which mood
/// and when, and what the analyser makes of the text.
pub struct Entry {
    pub content: Seq<char>,
    pub role: Role,
    pub mood: Option<i32>,
    pub now: u64,
    /// The analyser's verdict on `content`.
    pub risk: bool,
}

impl Entry {
    /// Whether the entry raises an alert: the verdict counts only for what
    /// the user wrote.
    pub open spec fn raises_alert(self) -> bool {
        self.role == Role::User && self.risk
    }

    /// The message that the entry is stored as.
    pub open spec fn message(self) -> MessageView {
        MessageView {
            role: self.role,
            content: self.content,
            timestamp: self.now,
            is_alert: self.raises_alert(),
            mood_score: self.mood,
        }
    }
}

impl ProfileView {
    /// The profile of a first access at time `now`.
    pub open spec fn fresh(now: u64) -> ProfileView {
        ProfileView { last_login: now, messages: Seq::empty(), crisis_mode: false }
    }

    /// Every stored message is well formed.
    pub open spec fn well_formed(self) -> bool {
        forall|i: int| 0 <= i < self.messages.len() ==> (#[trigger] self.messages[i]).well_formed()
    }

    /// The profile after `message` was appended: the history grows at its
    /// end, and an alert switches the crisis flag on.
    pub open spec fn with_message(self, message: MessageView) -> ProfileView {
        ProfileView {
            last_login: self.last_login,
            messages: self.messages.push(message),
            crisis_mode: self.crisis_mode || message.is_alert,
        }
    }

    /// The profile after the explicit reset of the crisis flag.
    pub open spec fn reset(self) -> ProfileView {
        ProfileView { last_login: self.last_login, messages: self.messages, crisis_mode: false }
    }

    /// The profile after each of `entries` was appended in turn.
    pub open spec fn with_entries(self, entries: Seq<Entry>) -> ProfileView
        decreases entries.len(),
    {
        if entries.len() == 0 {
            self
        } else {
            self.with_entries(entries.drop_last()).with_message(entries.last().message())
        }
    }
}

/// What the store found where the profile document is kept.
#[derive(Debug, PartialEq, Eq)]
pub enum LoadOutcome {
    /// No document exists yet.
    Absent,
    /// A document exists but could not be read or decoded.
    Corrupt,
    /// The document, decoded.
    Found(Profile),
}

impl Profile {
    /// The empty profile of a first access at time `now`.
    pub fn fresh(now: u64) -> (profile: Profile)
        ensures
            profile@ == ProfileView::fresh(now),
            profile@.well_formed(),
    {
        let profile = Profile { last_login: now, messages: Vec::new(), crisis_mode: false };
        assert(profile.messages.deep_view() =~= Seq::empty());
        profile
    }
}

/// The profile to work on, given what the store found: the stored one, or a
/// fresh one where none exists. A document that cannot be decoded is masked
/// in the same way and is not reported.
pub fn load_profile(outcome: LoadOutcome, now: u64) -> (profile: Profile)
    ensures
        outcome matches LoadOutcome::Found(stored) ==> profile@ == stored@,
        !(outcome is Found) ==> profile@ == ProfileView::fresh(now),
{
    match outcome {
        LoadOutcome::Found(stored) => stored,
        LoadOutcome::Absent => Profile::fresh(now),
        LoadOutcome::Corrupt => Profile::fresh(now),
    }
}

/// Appends one message to `data`, given the analyser's verdict `risk` on its
/// text. The verdict counts only for a message of the user: it marks the
/// message as an alert and switches the crisis flag on. Nothing else in the
/// profile changes.
pub fn record_message(
    data: Profile,
    content: String,
    role: Role,
    mood: Option<i32>,
    now: u64,
    risk: bool,
) -> (updated: Profile)
    ensures
        updated@ == data@.with_message(
            (Entry { content: content@, role, mood, now, risk }).message(),
        ),
        data@.well_formed() && mood_in_range(mood) ==> updated@.well_formed(),
{
    let is_alert = role == Role::User && risk;
    let ghost before = data@;
    let mut data = data;
    if is_alert {
        data.crisis_mode = true;
    }
    let message = Message { role, content, timestamp: now, is_alert, mood_score: mood };
    data.messages.push(message);
    assert(data.messages.deep_view() =~= before.messages.push(message@));
    proof {
        if before.well_formed() && mood_in_range(mood) {
            lemma_message_keeps_well_formed(before, message@);
        }
    }
    data
}

/// Appends one message to `data`: a message of the user is analysed against
/// `lexicon` first, a message of the assistant is stored as it is.
pub fn save_message_local(
    data: Profile,
    content: String,
    role: Role,
    mood: Option<i32>,
    now: u64,
    lexicon: &Lexicon,
) -> (updated: Profile)
    ensures
        updated@ == data@.with_message(
            (Entry {
                content: content@,
                role,
                mood,
                now,
                risk: is_risky(content@, lexicon@),
            }).message(),
        ),
        data@.well_formed() && mood_in_range(mood) ==> updated@.well_formed(),
{
    let risk = match role {
        Role::User => analyze_risk(content.as_str(), lexicon),
        Role::Assistant => false,
    };
    record_message(data, content, role, mood, now, risk)
}

/// Clears the crisis flag. This is the only way back to the normal state, and
/// it is meant for a supervising person, not for the conversation itself.
pub fn disable_crisis_mode(data: Profile) -> (updated: Profile)
    ensures
        updated@ == data@.reset(),
        !updated.crisis_mode,
        data@.well_formed() ==> updated@.well_formed(),
{
    let mut data = data;
    data.crisis_mode = false;
    data
}

/// A well-formed profile stays well formed when a well-formed message is
/// appended.
pub proof fn lemma_message_keeps_well_formed(profile: ProfileView, message: MessageView)
    requires
        profile.well_formed(),
        message.well_formed(),
    ensures
        profile.with_message(message).well_formed(),
{
}

/// The history keeps what is appended to it. After any number of appends the
/// messages are those that were there before, unchanged, followed by one
/// message for each append, in the order of the appends, each with the
/// content, role, time and mood that it was appended with and the alert that
/// its analysis gave. A store that hands back the document it was given
/// therefore hands back this history.
pub proof fn lemma_history_is_kept(start: ProfileView, entries: Seq<Entry>)
    ensures
        start.with_entries(entries).messages == start.messages + entries.map_values(
            |entry: Entry| entry.message(),
        ),
        start.with_entries(entries).last_login == start.last_login,
    decreases entries.len(),
{
    if entries.len() > 0 {
        lemma_history_is_kept(start, entries.drop_last());
        assert(start.with_entries(entries).messages =~= start.messages + entries.map_values(
            |entry: Entry| entry.message(),
        ));
    }
}

/// Appending messages can switch the crisis flag on and never off: after any
/// number of appends the flag is on exactly if it was on before or one of
/// the appended messages raised an alert.
pub proof fn lemma_crisis_comes_from_alerts(start: ProfileView, entries: Seq<Entry>)
    ensures
        start.with_entries(entries).crisis_mode <==> start.crisis_mode || exists|i: int|
            0 <= i < entries.len() && (#[trigger] entries[i]).raises_alert(),
    decreases entries.len(),
{
    if entries.len() > 0 {
        let earlier = entries.drop_last();
        lemma_crisis_comes_from_alerts(start, earlier);
        if exists|i: int| 0 <= i < entries.len() && (#[trigger] entries[i]).raises_alert() {
            let i = choose|i: int| 0 <= i < entries.len() && (#[trigger] entries[i]).raises_alert();
            if i < earlier.len() {
                assert(earlier[i].raises_alert());
            }
        }
    }
}

/// Once a message has raised an alert, the crisis flag stays on through every
/// later message, whatever it holds, and the explicit reset switches it off.
pub proof fn lemma_crisis_lasts_until_reset(start: ProfileView, trigger: Entry, later: Seq<Entry>)
    requires
        trigger.raises_alert(),
    ensures
        trigger.message().is_alert,
        start.with_message(trigger.message()).with_entries(later).crisis_mode,
        !start.with_message(trigger.message()).with_entries(later).reset().crisis_mode,
{
    lemma_crisis_comes_from_alerts(start.with_message(trigger.message()), later);
}

/// Risk counts for the user only. The same text, with the same verdict of
/// the analyser, raises the alert and the crisis flag where the user wrote
/// it, and neither where the assistant did.
pub proof fn lemma_risk_counts_for_the_user_only(start: ProfileView, entry: Entry)
    ensures
        entry.message().is_alert <==> entry.role == Role::User && entry.risk,
        entry.role == Role::User && entry.risk ==> start.with_message(entry.message()).crisis_mode,
        entry.role == Role::Assistant ==> start.with_message(entry.message()).crisis_mode
            == start.crisis_mode,
{
}

/// The reset changes the crisis flag and nothing else.
pub proof fn lemma_reset_keeps_history(profile: ProfileView)
    ensures
        !profile.reset().crisis_mode,
        profile.reset().messages == profile.messages,
        profile.reset().last_login == profile.last_login,
{
}

} // verus!
