use vstd::prelude::*;

verus! {

/// Where a websocket client's session stands.
#[derive(Debug, Clone, Copy, PartialEq, Eq, Structural)]
pub enum Phase {
    /// Waiting for the first frame, which names the user.
    Greeting,
    /// Forwarding broadcast messages to the client.
    Streaming,
    /// Over: nothing more is done.
    Finished,
}

/// What the service does in answer to a step of the session.
#[derive(Debug, Clone, Copy, PartialEq, Eq, Structural)]
pub enum ActionKind {
    /// Record the user (the text) as connected.
    Register,
    /// Send the text to the client and end the session, recording nothing.
    Reply,
    /// Send the text to the client.
    Send,
    /// Forget the user (the text) and end the session.
    Unregister,
    /// Nothing.
    Wait,
}

/// An action and the text it carries (empty where it carries none).
pub struct Action {
    pub kind: ActionKind,
    pub text: String,
}

impl View for Action {
    type V = (ActionKind, Seq<char>);

    open spec fn view(&self) -> (ActionKind, Seq<char>) {
        (self.kind, self.text@)
    }
}

/// What happens to a streaming session.
pub enum Event {
    /// A message arrived on the broadcast channel.
    Broadcast(String),
    /// Sending to the client failed.
    SendFailed,
    /// The client sent a close frame.
    CloseFrame,
    /// The client sent another frame, or the broadcast channel had nothing to give.
    OtherFrame,
}

/// A session as the decisions see it: the user's name and the phase.
pub type SessionView = (Seq<char>, Phase);

/// The text sent to a client whose name is refused.
pub open spec fn wrong_username() -> Seq<char> {
    "Wrong username"@
}

/// Whether a user may connect under `name`: it is neither empty nor a lone newline.
pub open spec fn name_accepted(name: Seq<char>) -> bool {
    name.len() > 0 && name != "\n"@
}

/// The step for the first frame: `first` is the text of the first frame where
/// that frame is a text frame, and `None` otherwise.
pub open spec fn greet_step(s: SessionView, first: Option<Seq<char>>) -> (
    SessionView,
    (ActionKind, Seq<char>),
) {
    if s.1 != Phase::Greeting {
        (s, (ActionKind::Wait, Seq::empty()))
    } else {
        match first {
            Some(name) => if name_accepted(name) {
                ((name, Phase::Streaming), (ActionKind::Register, name))
            } else {
                ((s.0, Phase::Finished), (ActionKind::Reply, wrong_username()))
            },
            None => ((s.0, Phase::Streaming), (ActionKind::Wait, Seq::empty())),
        }
    }
}

/// The step for an event of a session.
pub open spec fn event_step(s: SessionView, e: Event) -> (SessionView, (ActionKind, Seq<char>)) {
    if s.1 != Phase::Streaming {
        (s, (ActionKind::Wait, Seq::empty()))
    } else {
        match e {
            Event::Broadcast(text) => (s, (ActionKind::Send, text@)),
            Event::SendFailed => ((s.0, Phase::Finished), (ActionKind::Unregister, s.0)),
            Event::CloseFrame => ((s.0, Phase::Finished), (ActionKind::Unregister, s.0)),
            Event::OtherFrame => (s, (ActionKind::Wait, Seq::empty())),
        }
    }
}

/// The session after the events `events`, and the actions taken on the way.
pub open spec fn run(s: SessionView, events: Seq<Event>) -> (SessionView, Seq<(ActionKind, Seq<char>)>)
    decreases events.len(),
{
    if events.len() == 0 {
        (s, Seq::empty())
    } else {
        let (next, action) = event_step(s, events[0]);
        let (last, rest) = run(next, events.drop_first());
        (last, seq![action] + rest)
    }
}

/// The session of one websocket client.
pub struct Session {
    user_name: String,
    phase: Phase,
}

impl View for Session {
    type V = SessionView;

    closed spec fn view(&self) -> SessionView {
        (self.user_name@, self.phase)
    }
}

/// An action that carries no text.
fn wait() -> (a: Action)
    ensures
        a@ == (ActionKind::Wait, Seq::<char>::empty()),
{
    Action { kind: ActionKind::Wait, text: String::new() }
}

/// Whether a user may connect under `name`.
pub fn accepts_name(name: &String) -> (ok: bool)
    ensures
        ok == name_accepted(name@),
{
    let newline = String::from_str("\n");
    !name.as_str().is_empty() && !(*name == newline)
}

impl Session {
    /// A session that waits for its first frame, with no user named yet.
    pub fn new() -> (s: Session)
        ensures
            s@ == (Seq::<char>::empty(), Phase::Greeting),
    {
        Session { user_name: String::new(), phase: Phase::Greeting }
    }

    /// The name of the session's user (empty where none was given).
    pub fn user_name(&self) -> (name: &String)
        ensures
            name@ == self@.0,
    {
        &self.user_name
    }

    /// The phase of the session.
    pub fn phase(&self) -> (p: Phase)
        ensures
            p == self@.1,
    {
        self.phase
    }

    /// Takes the first frame: `first` holds its text where it is a text frame.
    pub fn greet(&mut self, first: Option<String>) -> (a: Action)
        ensures
            (final(self)@, a@) == greet_step(
                old(self)@,
                match first {
                    Some(t) => Some(t@),
                    None => None,
                },
            ),
    {
        if self.phase != Phase::Greeting {
            return wait();
        }
        match first {
            Some(name) => {
                if accepts_name(&name) {
                    let text = name.clone();
                    self.user_name = name;
                    self.phase = Phase::Streaming;
                    Action { kind: ActionKind::Register, text }
                } else {
                    self.phase = Phase::Finished;
                    Action { kind: ActionKind::Reply, text: String::from_str("Wrong username") }
                }
            },
            None => {
                self.phase = Phase::Streaming;
                wait()
            },
        }
    }

    /// Takes an event of a streaming session.
    pub fn on_event(&mut self, event: Event) -> (a: Action)
        ensures
            (final(self)@, a@) == event_step(old(self)@, event),
    {
        if self.phase != Phase::Streaming {
            return wait();
        }
        match event {
            Event::Broadcast(text) => Action { kind: ActionKind::Send, text },
            Event::SendFailed | Event::CloseFrame => {
                self.phase = Phase::Finished;
                Action { kind: ActionKind::Unregister, text: self.user_name.clone() }
            },
            Event::OtherFrame => wait(),
        }
    }
}

/// A finished session stays finished and takes no action, whatever happens.
pub proof fn lemma_finished_is_final(s: SessionView, events: Seq<Event>)
    requires
        s.1 == Phase::Finished,
    ensures
        run(s, events).0 == s,
        forall|i: int|
            0 <= i < events.len() ==> (#[trigger] run(s, events).1[i]).0 == ActionKind::Wait,
    decreases events.len(),
{
    if events.len() > 0 {
        lemma_finished_is_final(s, events.drop_first());
        lemma_run_length(s, events.drop_first());
        let rest = run(s, events.drop_first()).1;
        assert forall|i: int| 0 <= i < events.len() implies (#[trigger] run(s, events).1[i]).0
            == ActionKind::Wait by {
            if i > 0 {
                assert(run(s, events).1[i] == rest[i - 1]);
            }
        }
    }
}

/// A streaming session never registers anyone, forgets only its own user,
/// and forgets it at most once; its user never changes.
pub proof fn lemma_streaming_unregisters_own_user_once(s: SessionView, events: Seq<Event>)
    requires
        s.1 == Phase::Streaming,
    ensures
        run(s, events).1.len() == events.len(),
        run(s, events).0.0 == s.0,
        forall|i: int|
            0 <= i < events.len() ==> (#[trigger] run(s, events).1[i]).0 != ActionKind::Register,
        forall|i: int|
            0 <= i < events.len() && (#[trigger] run(s, events).1[i]).0 == ActionKind::Unregister
                ==> run(s, events).1[i].1 == s.0,
        forall|i: int, j: int|
            0 <= i < j < events.len() && (#[trigger] run(s, events).1[i]).0 == ActionKind::Unregister
                ==> (#[trigger] run(s, events).1[j]).0 == ActionKind::Wait,
    decreases events.len(),
{
    if events.len() > 0 {
        let (next, action) = event_step(s, events[0]);
        let tail = events.drop_first();
        let whole = run(s, events).1;
        let rest = run(next, tail).1;
        if next.1 == Phase::Finished {
            lemma_finished_is_final(next, tail);
            assert(rest.len() == tail.len()) by {
                lemma_run_length(next, tail);
            }
        } else {
            lemma_streaming_unregisters_own_user_once(next, tail);
        }
        assert forall|i: int| 0 < i < events.len() implies #[trigger] whole[i] == rest[i - 1] by {}
        assert forall|i: int, j: int|
            0 <= i < j < events.len() && (#[trigger] whole[i]).0 == ActionKind::Unregister implies (
            #[trigger] whole[j]).0 == ActionKind::Wait by {
            assert(whole[j] == rest[j - 1]);
            if i > 0 {
                assert(whole[i] == rest[i - 1]);
            }
        }
    }
}

/// A run takes one action per event.
pub proof fn lemma_run_length(s: SessionView, events: Seq<Event>)
    ensures
        run(s, events).1.len() == events.len(),
    decreases events.len(),
{
    if events.len() > 0 {
        let (next, action) = event_step(s, events[0]);
        lemma_run_length(next, events.drop_first());
    }
}

/// A streaming session forwards every broadcast text, whatever its length or
/// content, to its client unchanged, and stays as it was.
pub proof fn lemma_broadcast_is_forwarded(user: Seq<char>, text: String)
    ensures
        event_step((user, Phase::Streaming), Event::Broadcast(text)) == (
            (user, Phase::Streaming),
            (ActionKind::Send, text@),
        ),
{
}

/// A streaming session whose client closes, or to whose client a send fails,
/// finishes and unregisters its own user.
pub proof fn lemma_close_or_failure_unregisters(user: Seq<char>)
    ensures
        event_step((user, Phase::Streaming), Event::CloseFrame) == (
            (user, Phase::Finished),
            (ActionKind::Unregister, user),
        ),
        event_step((user, Phase::Streaming), Event::SendFailed) == (
            (user, Phase::Finished),
            (ActionKind::Unregister, user),
        ),
{
}

/// A new session greeted with any name that is neither empty nor the lone
/// newline, whatever characters it holds, registers that name and streams;
/// greeted with the empty name or the lone newline, it answers
/// "Wrong username" and finishes.
pub proof fn lemma_greeting_decides_on_name(name: Seq<char>)
    ensures
        name.len() > 0 && name != seq!['\n'] ==> greet_step(
            (Seq::empty(), Phase::Greeting),
            Some(name),
        ) == ((name, Phase::Streaming), (ActionKind::Register, name)),
        name.len() == 0 || name == seq!['\n'] ==> greet_step(
            (Seq::empty(), Phase::Greeting),
            Some(name),
        ) == ((Seq::<char>::empty(), Phase::Finished), (ActionKind::Reply, seq![
            'W', 'r', 'o', 'n', 'g', ' ', 'u', 's', 'e', 'r', 'n', 'a', 'm', 'e',
        ])),
{
    reveal_strlit("\n");
    reveal_strlit("Wrong username");
    assert("\n"@ =~= seq!['\n']);
    assert(wrong_username() =~= seq![
        'W', 'r', 'o', 'n', 'g', ' ', 'u', 's', 'e', 'r', 'n', 'a', 'm', 'e',
    ]);
}

/// A client whose name is refused is answered "Wrong username", and its
/// session is over: it is never registered nor unregistered afterwards.
pub proof fn lemma_refused_name_ends_session(name: Seq<char>, events: Seq<Event>)
    requires
        !name_accepted(name),
    ensures
        ({
            let (s, a) = greet_step((Seq::empty(), Phase::Greeting), Some(name));
            &&& a == (ActionKind::Reply, wrong_username())
            &&& s.1 == Phase::Finished
            &&& forall|i: int|
                0 <= i < events.len() ==> (#[trigger] run(s, events).1[i]).0 == ActionKind::Wait
        }),
{
    let (s, a) = greet_step((Seq::empty(), Phase::Greeting), Some(name));
    lemma_finished_is_final(s, events);
}

} // verus!
