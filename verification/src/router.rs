//! The notification router: classifies each monitor notification, keeps the
//! presence tracker current, and turns every event of an update batch into
//! the output it owes, in arrival order.
//!
//! The router only decides; it performs no output itself. Each decision is an
//! `Action` the caller carries out, so a failure while carrying one out can
//! never keep the rest of the batch from being produced.

use vstd::prelude::*;
use vstd::string::*;

use crate::monitor::{BroadcastEvent, ChatEvent, EmailEvent, Event, MonitorNotification};
use crate::presence::{presence_text, PresenceState};
use crate::request::{
    approval_controls, approval_controls_spec, render_text, Control, ControlSpec, NameRequest,
};

verus! {

/// Which optional output channels are bound. An unset channel is a valid
/// configuration: events that target it are silently dropped.
#[derive(Clone, Copy, Debug)]
pub struct ChannelConfig {
    /// Channel for relayed chat, broadcast and email lines.
    pub log_channel: Option<u64>,
    /// Channel for actionable name-request messages.
    pub name_approvals_channel: Option<u64>,
}

/// A chat line as posted to the log channel: tagged by kind, naming the
/// recipient when the message was a whisper.
pub open spec fn chat_text(c: ChatEvent) -> Seq<char> {
    match c.to {
        Some(to) => "["@ + c.kind@ + "] "@ + c.from@ + " (to "@ + to@ + "): "@ + c.message@,
        None => "["@ + c.kind@ + "] "@ + c.from@ + ": "@ + c.message@,
    }
}

/// A broadcast as posted to the log channel: bold, tagged by scope.
pub open spec fn broadcast_text(b: BroadcastEvent) -> Seq<char> {
    "**[Broadcast] ("@ + b.scope@ + ") "@ + b.from@ + ": "@ + b.message@ + "**"@
}

/// Lines joined by newlines.
pub open spec fn join_lines(lines: Seq<Seq<char>>) -> Seq<char>
    decreases lines.len(),
{
    if lines.len() == 0 {
        Seq::empty()
    } else if lines.len() == 1 {
        lines[0]
    } else {
        join_lines(lines.drop_last()) + "\n"@ + lines.last()
    }
}

/// The subject line shown for an email: a fixed placeholder when absent.
pub open spec fn email_subject(subject: Option<String>) -> Seq<char> {
    match subject {
        Some(s) => s@,
        None => "no subject"@,
    }
}

/// An email as posted to the log channel: sender, recipient, subject, and
/// the body lines joined into one quoted block.
pub open spec fn email_text(e: EmailEvent) -> Seq<char> {
    "[Email] "@ + e.from@ + " (to "@ + e.to@ + "): <"@ + email_subject(e.subject) + ">\n```"@
        + join_lines(e.body@.map_values(|l: String| l@)) + "```"@
}

/// The ghost shape of an `Action`.
pub enum ActionSpec {
    SetPresence { text: Seq<char> },
    Post { channel: u64, text: Seq<char> },
    PostNameRequest { channel: u64, text: Seq<char>, controls: Seq<ControlSpec> },
}

/// One output the router asks its caller to perform.
pub enum Action {
    /// Set the platform's visible presence text.
    SetPresence { text: String },
    /// Post a plain message to the given channel.
    Post { channel: u64, text: String },
    /// Post an actionable name-request message to the given channel.
    PostNameRequest { channel: u64, text: String, controls: Vec<Control> },
}

impl View for Action {
    type V = ActionSpec;

    open spec fn view(&self) -> ActionSpec {
        match self {
            Action::SetPresence { text } => ActionSpec::SetPresence { text: text@ },
            Action::Post { channel, text } => ActionSpec::Post { channel: *channel, text: text@ },
            Action::PostNameRequest { channel, text, controls } => ActionSpec::PostNameRequest {
                channel: *channel,
                text: text@,
                controls: controls@.map_values(|c: Control| c@),
            },
        }
    }
}

/// The ghost shapes of a sequence of actions.
pub open spec fn actions_view(s: Seq<Action>) -> Seq<ActionSpec> {
    s.map_values(|a: Action| a@)
}

/// What one event contributes: its formatted message to its target channel,
/// or nothing when that channel is unset or the kind is ignored.
pub open spec fn event_actions(cfg: ChannelConfig, e: Event) -> Seq<ActionSpec> {
    match e {
        Event::Chat(c) => match cfg.log_channel {
            Some(ch) => seq![ActionSpec::Post { channel: ch, text: chat_text(c) }],
            None => Seq::empty(),
        },
        Event::Email(m) => match cfg.log_channel {
            Some(ch) => seq![ActionSpec::Post { channel: ch, text: email_text(m) }],
            None => Seq::empty(),
        },
        Event::Broadcast(b) => match cfg.log_channel {
            Some(ch) => seq![ActionSpec::Post { channel: ch, text: broadcast_text(b) }],
            None => Seq::empty(),
        },
        Event::NameRequest(nr) => match cfg.name_approvals_channel {
            Some(ch) => seq![
                ActionSpec::PostNameRequest {
                    channel: ch,
                    text: render_text(nr.player_uid, nr.requested_name@),
                    controls: approval_controls_spec(),
                },
            ],
            None => Seq::empty(),
        },
        Event::Other => Seq::empty(),
    }
}

/// The outputs of a whole batch, each event's in arrival order.
pub open spec fn batch_actions(cfg: ChannelConfig, events: Seq<Event>) -> Seq<ActionSpec>
    decreases events.len(),
{
    if events.len() == 0 {
        Seq::empty()
    } else {
        batch_actions(cfg, events.drop_last()) + event_actions(cfg, events.last())
    }
}

/// The count a notification leaves in the tracker: a disconnect clears it,
/// an update overwrites it, a connect alone changes nothing.
pub open spec fn notified_count(n: MonitorNotification, prior: Option<usize>) -> Option<usize> {
    match n {
        MonitorNotification::Connected => prior,
        MonitorNotification::Disconnected => None,
        MonitorNotification::Updated(u) => Some(u.player_count),
    }
}

/// Everything a notification makes the router do, in order: the presence
/// write first, then each event's output.
pub open spec fn notification_actions(cfg: ChannelConfig, n: MonitorNotification) -> Seq<
    ActionSpec,
> {
    match n {
        MonitorNotification::Connected => Seq::empty(),
        MonitorNotification::Disconnected => seq![
            ActionSpec::SetPresence { text: presence_text(None) },
        ],
        MonitorNotification::Updated(u) => seq![
            ActionSpec::SetPresence { text: presence_text(Some(u.player_count)) },
        ] + batch_actions(cfg, u.events@),
    }
}

/// Batches compose: the outputs of consecutive event runs concatenate, so
/// each event's contribution stands in arrival order and is independent of
/// its neighbours.
pub proof fn lemma_batch_actions_concat(cfg: ChannelConfig, s1: Seq<Event>, s2: Seq<Event>)
    ensures
        batch_actions(cfg, s1 + s2) == batch_actions(cfg, s1) + batch_actions(cfg, s2),
    decreases s2.len(),
{
    if s2.len() == 0 {
        assert(s1 + s2 =~= s1);
        assert(batch_actions(cfg, s1) + batch_actions(cfg, s2) =~= batch_actions(cfg, s1));
    } else {
        lemma_batch_actions_concat(cfg, s1, s2.drop_last());
        assert((s1 + s2).drop_last() =~= s1 + s2.drop_last());
        assert((s1 + s2).last() == s2.last());
        assert(batch_actions(cfg, s1) + (batch_actions(cfg, s2.drop_last()) + event_actions(
            cfg,
            s2.last(),
        )) =~= (batch_actions(cfg, s1) + batch_actions(cfg, s2.drop_last())) + event_actions(
            cfg,
            s2.last(),
        ));
    }
}

/// A disconnect resets the tracked count to absent, whatever it was.
pub proof fn lemma_disconnect_resets(prior: Option<usize>)
    ensures
        notified_count(MonitorNotification::Disconnected, prior) is None,
{
}

/// A chat line as posted to the log channel.
pub fn chat_message(c: &ChatEvent) -> (s: String)
    ensures
        s@ == chat_text(*c),
{
    let mut s = String::from_str("[");
    s.append(c.kind.as_str());
    s.append("] ");
    s.append(c.from.as_str());
    match &c.to {
        Some(to) => {
            s.append(" (to ");
            s.append(to.as_str());
            s.append("): ");
        },
        None => {
            s.append(": ");
        },
    }
    s.append(c.message.as_str());
    proof {
        assert(s@ =~= chat_text(*c));
    }
    s
}

/// A broadcast as posted to the log channel.
pub fn broadcast_message(b: &BroadcastEvent) -> (s: String)
    ensures
        s@ == broadcast_text(*b),
{
    let mut s = String::from_str("**[Broadcast] (");
    s.append(b.scope.as_str());
    s.append(") ");
    s.append(b.from.as_str());
    s.append(": ");
    s.append(b.message.as_str());
    s.append("**");
    proof {
        assert(s@ =~= broadcast_text(*b));
    }
    s
}

/// Joins lines with newlines.
fn join_body(lines: &Vec<String>) -> (s: String)
    ensures
        s@ == join_lines(lines@.map_values(|l: String| l@)),
{
    let mut s = String::new();
    let mut i: usize = 0;
    while i < lines.len()
        invariant
            i <= lines.len(),
            s@ == join_lines(lines@.subrange(0, i as int).map_values(|l: String| l@)),
        decreases lines.len() - i,
    {
        if i > 0 {
            s.append("\n");
        }
        s.append(lines[i].as_str());
        proof {
            let prev = lines@.subrange(0, i as int).map_values(|l: String| l@);
            let cur = lines@.subrange(0, i + 1 as int).map_values(|l: String| l@);
            assert(cur.drop_last() =~= prev);
            assert(cur.last() == lines@[i as int]@);
            if i == 0 {
                assert(s@ =~= join_lines(cur));
            } else {
                assert(s@ =~= join_lines(cur));
            }
        }
        i = i + 1;
    }
    proof {
        assert(lines@.subrange(0, lines@.len() as int) =~= lines@);
    }
    s
}

/// An email as posted to the log channel.
pub fn email_message(e: &EmailEvent) -> (s: String)
    ensures
        s@ == email_text(*e),
{
    let mut s = String::from_str("[Email] ");
    s.append(e.from.as_str());
    s.append(" (to ");
    s.append(e.to.as_str());
    s.append("): <");
    match &e.subject {
        Some(subject) => {
            s.append(subject.as_str());
        },
        None => {
            s.append("no subject");
        },
    }
    s.append(">\n```");
    let body = join_body(&e.body);
    s.append(body.as_str());
    s.append("```");
    proof {
        assert(s@ =~= email_text(*e));
    }
    s
}

/// Routes one notification: updates the presence tracker and returns every
/// output the notification owes, in order. Carrying the actions out is the
/// caller's part; a failure there cannot affect this computation.
pub fn route_notification(
    cfg: &ChannelConfig,
    state: &mut PresenceState,
    n: &MonitorNotification,
) -> (acts: Vec<Action>)
    ensures
        final(state).last_player_count == notified_count(*n, old(state).last_player_count),
        actions_view(acts@) == notification_actions(*cfg, *n),
{
    match n {
        MonitorNotification::Connected => {
            let acts: Vec<Action> = Vec::new();
            proof {
                assert(actions_view(acts@) =~~= notification_actions(*cfg, *n));
            }
            acts
        },
        MonitorNotification::Disconnected => {
            let text = state.update(None);
            let mut acts: Vec<Action> = Vec::new();
            acts.push(Action::SetPresence { text });
            proof {
                assert(actions_view(acts@) =~~= notification_actions(*cfg, *n));
            }
            acts
        },
        MonitorNotification::Updated(u) => {
            let text = state.update(Some(u.player_count));
            let mut acts: Vec<Action> = Vec::new();
            acts.push(Action::SetPresence { text });
            let ghost head = seq![
                ActionSpec::SetPresence { text: presence_text(Some(u.player_count)) },
            ];
            proof {
                assert(actions_view(acts@) =~~= head + batch_actions(
                    *cfg,
                    u.events@.subrange(0, 0),
                ));
            }
            let mut i: usize = 0;
            while i < u.events.len()
                invariant
                    i <= u.events.len(),
                    actions_view(acts@) == head + batch_actions(
                        *cfg,
                        u.events@.subrange(0, i as int),
                    ),
                decreases u.events.len() - i,
            {
                let ghost before = actions_view(acts@);
                match &u.events[i] {
                    Event::Chat(c) => {
                        match cfg.log_channel {
                            Some(ch) => {
                                let text = chat_message(c);
                                acts.push(Action::Post { channel: ch, text });
                            },
                            None => {},
                        }
                    },
                    Event::Email(m) => {
                        match cfg.log_channel {
                            Some(ch) => {
                                let text = email_message(m);
                                acts.push(Action::Post { channel: ch, text });
                            },
                            None => {},
                        }
                    },
                    Event::Broadcast(b) => {
                        match cfg.log_channel {
                            Some(ch) => {
                                let text = broadcast_message(b);
                                acts.push(Action::Post { channel: ch, text });
                            },
                            None => {},
                        }
                    },
                    Event::NameRequest(nr) => {
                        match cfg.name_approvals_channel {
                            Some(ch) => {
                                let req = NameRequest {
                                    player_uid: nr.player_uid,
                                    requested_name: nr.requested_name.clone(),
                                };
                                let text = req.render_message();
                                let controls = approval_controls();
                                acts.push(
                                    Action::PostNameRequest { channel: ch, text, controls },
                                );
                            },
                            None => {},
                        }
                    },
                    Event::Other => {},
                }
                proof {
                    let prev = u.events@.subrange(0, i as int);
                    let cur = u.events@.subrange(0, i + 1 as int);
                    assert(cur.drop_last() =~= prev);
                    assert(cur.last() == u.events@[i as int]);
                    assert(actions_view(acts@) =~~= before + event_actions(
                        *cfg,
                        u.events@[i as int],
                    ));
                    assert(actions_view(acts@) =~~= head + batch_actions(*cfg, cur));
                }
                i = i + 1;
            }
            proof {
                assert(u.events@.subrange(0, u.events@.len() as int) =~= u.events@);
                assert(actions_view(acts@) =~~= notification_actions(*cfg, *n));
            }
            acts
        },
    }
}

} // verus!
