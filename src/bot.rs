//! The reminder bot's decisions: its write-once identities, what each inbound
//! event leads to, and the two phases of the reminder schedule.
use crate::time_helper::{DateTime, TimeHelpers};
use vstd::prelude::*;

verus! {

/// Seconds between two liveness pings of the keep-alive loop.
pub const KEEP_ALIVE_INTERVAL_SECS: u64 = 300;

/// Why a handler refused to act.
#[derive(Clone, Copy, Debug, PartialEq, Eq, Structural)]
pub enum BotError {
    /// The identities were written before: the ready handshake ran twice.
    AlreadyInitialized,
    /// An identity was read before the ready handshake wrote it.
    NotReady,
}

/// An inbound event, with what the gateway told about it.
#[derive(Clone, Copy, Debug, PartialEq, Eq, Structural)]
pub enum Event {
    /// The connection is up: the bot's own account and the account of its owner.
    Ready { self_identity: u64, owner_identity: u64 },
    /// Someone reacted to a message written by `message_author` in `channel`.
    ReactionAdded { message_author: u64, reactor: u64, channel: u64 },
}

/// What the surrounding program is to do next.
#[derive(Clone, Copy, Debug, PartialEq, Eq, Structural)]
pub enum Action {
    /// Tell the owner that the bot has started.
    GreetOwner { owner: u64 },
    /// Start the weekly reminder loop.
    StartScheduler,
    /// Start the keep-alive loop.
    StartKeepAlive,
    /// Tell the owner that `reactor` reacted to one of the bot's messages in `channel`.
    NotifyReaction { owner: u64, reactor: u64, channel: u64 },
}

/// The bot's process-wide record: the channel to post in, fixed at start, and
/// two identities that the ready handshake writes once.
#[derive(Clone, Copy, Debug, PartialEq, Eq, Structural)]
pub struct BotState {
    channel_id: u64,
    keep_alive: bool,
    self_identity: Option<u64>,
    owner_identity: Option<u64>,
}

impl BotState {
    pub closed spec fn channel_spec(&self) -> u64 {
        self.channel_id
    }

    pub closed spec fn keep_alive_spec(&self) -> bool {
        self.keep_alive
    }

    pub closed spec fn self_identity_spec(&self) -> Option<u64> {
        self.self_identity
    }

    pub closed spec fn owner_identity_spec(&self) -> Option<u64> {
        self.owner_identity
    }

    /// The actions that follow a successful ready handshake.
    pub open spec fn ready_actions(owner: u64, keep_alive: bool) -> Seq<Action> {
        if keep_alive {
            seq![Action::GreetOwner { owner }, Action::StartScheduler, Action::StartKeepAlive]
        } else {
            seq![Action::GreetOwner { owner }, Action::StartScheduler]
        }
    }

    /// A record for `channel_id` with neither identity written yet.
    pub fn new(channel_id: u64, keep_alive: bool) -> (r: BotState)
        ensures
            r.channel_spec() == channel_id,
            r.keep_alive_spec() == keep_alive,
            r.self_identity_spec() is None,
            r.owner_identity_spec() is None,
    {
        BotState { channel_id, keep_alive, self_identity: None, owner_identity: None }
    }

    /// The channel that reminders go to.
    pub fn channel_id(&self) -> (r: u64)
        ensures
            r == self.channel_spec(),
    {
        self.channel_id
    }

    /// Whether the keep-alive loop runs.
    pub fn keep_alive(&self) -> (r: bool)
        ensures
            r == self.keep_alive_spec(),
    {
        self.keep_alive
    }

    /// The bot's own account, once the ready handshake has written it.
    pub fn self_identity(&self) -> (r: Result<u64, BotError>)
        ensures
            r == (match self.self_identity_spec() {
                Some(id) => Ok::<u64, BotError>(id),
                None => Err(BotError::NotReady),
            }),
    {
        match self.self_identity {
            Some(id) => Ok(id),
            None => Err(BotError::NotReady),
        }
    }

    /// The owner's account, once the ready handshake has written it.
    pub fn owner_identity(&self) -> (r: Result<u64, BotError>)
        ensures
            r == (match self.owner_identity_spec() {
                Some(id) => Ok::<u64, BotError>(id),
                None => Err(BotError::NotReady),
            }),
    {
        match self.owner_identity {
            Some(id) => Ok(id),
            None => Err(BotError::NotReady),
        }
    }

    /// Writes both identities. Fails, and changes nothing, where either of
    /// them was written before.
    pub fn set_identities(&mut self, self_identity: u64, owner_identity: u64) -> (r: Result<
        (),
        BotError,
    >)
        ensures
            old(self).self_identity_spec() is Some || old(self).owner_identity_spec() is Some ==> r
                == Err::<(), BotError>(BotError::AlreadyInitialized) && *final(self) == *old(self),
            old(self).self_identity_spec() is None && old(self).owner_identity_spec() is None ==> r
                == Ok::<(), BotError>(()) && final(self).self_identity_spec() == Some(self_identity)
                && final(self).owner_identity_spec() == Some(owner_identity),
            final(self).channel_spec() == old(self).channel_spec(),
            final(self).keep_alive_spec() == old(self).keep_alive_spec(),
    {
        if self.self_identity.is_some() || self.owner_identity.is_some() {
            return Err(BotError::AlreadyInitialized);
        }
        self.self_identity = Some(self_identity);
        self.owner_identity = Some(owner_identity);
        Ok(())
    }

    /// The ready handshake: writes both identities, then asks to greet the
    /// owner and to start the reminder loop, and the keep-alive loop where it
    /// is enabled. A second handshake fails and changes nothing.
    pub fn on_ready(&mut self, self_identity: u64, owner_identity: u64) -> (r: Result<
        Vec<Action>,
        BotError,
    >)
        ensures
            old(self).self_identity_spec() is Some || old(self).owner_identity_spec() is Some ==> r
                == Err::<Vec<Action>, BotError>(BotError::AlreadyInitialized) && *final(self)
                == *old(self),
            old(self).self_identity_spec() is None && old(self).owner_identity_spec() is None ==> r
                is Ok && r->Ok_0@ == BotState::ready_actions(owner_identity, old(self).keep_alive_spec())
                && final(self).self_identity_spec() == Some(self_identity)
                && final(self).owner_identity_spec() == Some(owner_identity),
            final(self).channel_spec() == old(self).channel_spec(),
            final(self).keep_alive_spec() == old(self).keep_alive_spec(),
    {
        match self.set_identities(self_identity, owner_identity) {
            Err(e) => Err(e),
            Ok(()) => {
                let mut actions: Vec<Action> = Vec::new();
                actions.push(Action::GreetOwner { owner: owner_identity });
                actions.push(Action::StartScheduler);
                if self.keep_alive {
                    actions.push(Action::StartKeepAlive);
                }
                proof {
                    assert(actions@ =~= BotState::ready_actions(owner_identity, self.keep_alive));
                }
                Ok(actions)
            },
        }
    }

    /// A reaction to a message by `message_author` in `channel`: where the bot
    /// wrote that message, the owner hears who reacted and where; any other
    /// message is left alone. Reading the bot's own identity before the ready
    /// handshake is an error, and so is reading the owner's where it is needed.
    pub fn on_reaction_added(&self, message_author: u64, reactor: u64, channel: u64) -> (r: Result<
        Vec<Action>,
        BotError,
    >)
        ensures
            self.self_identity_spec() is None ==> r == Err::<Vec<Action>, BotError>(
                BotError::NotReady,
            ),
            self.self_identity_spec() is Some && self.self_identity_spec()->Some_0 != message_author
                ==> r is Ok && r->Ok_0@ == Seq::<Action>::empty(),
            self.self_identity_spec() == Some(message_author) && self.owner_identity_spec() is None
                ==> r == Err::<Vec<Action>, BotError>(BotError::NotReady),
            self.self_identity_spec() == Some(message_author) && self.owner_identity_spec() is Some
                ==> r is Ok && r->Ok_0@ == seq![
                Action::NotifyReaction {
                    owner: self.owner_identity_spec()->Some_0,
                    reactor,
                    channel,
                },
            ],
    {
        let me = match self.self_identity() {
            Ok(id) => id,
            Err(e) => return Err(e),
        };
        let mut actions: Vec<Action> = Vec::new();
        if message_author == me {
            let owner = match self.owner_identity() {
                Ok(id) => id,
                Err(e) => return Err(e),
            };
            actions.push(Action::NotifyReaction { owner, reactor, channel });
            proof {
                assert(actions@ =~= seq![Action::NotifyReaction { owner, reactor, channel }]);
            }
        } else {
            proof {
                assert(actions@ =~= Seq::<Action>::empty());
            }
        }
        Ok(actions)
    }

    /// Routes an event to its handler.
    pub fn dispatch(&mut self, event: Event) -> (r: Result<Vec<Action>, BotError>)
        ensures
            match event {
                Event::Ready { self_identity, owner_identity } => {
                    &&& (old(self).self_identity_spec() is Some
                        || old(self).owner_identity_spec() is Some) ==> r == Err::<
                        Vec<Action>,
                        BotError,
                    >(BotError::AlreadyInitialized) && *final(self) == *old(self)
                    &&& (old(self).self_identity_spec() is None
                        && old(self).owner_identity_spec() is None) ==> r is Ok && r->Ok_0@
                        == BotState::ready_actions(owner_identity, old(self).keep_alive_spec())
                        && final(self).self_identity_spec() == Some(self_identity)
                        && final(self).owner_identity_spec() == Some(owner_identity)
                        && final(self).channel_spec() == old(self).channel_spec()
                        && final(self).keep_alive_spec() == old(self).keep_alive_spec()
                },
                Event::ReactionAdded { message_author, reactor, channel } => {
                    &&& *final(self) == *old(self)
                    &&& old(self).self_identity_spec() is None ==> r == Err::<Vec<Action>, BotError>(
                        BotError::NotReady,
                    )
                    &&& (old(self).self_identity_spec() is Some
                        && old(self).self_identity_spec()->Some_0 != message_author) ==> r is Ok
                        && r->Ok_0@ == Seq::<Action>::empty()
                    &&& (old(self).self_identity_spec() == Some(message_author)
                        && old(self).owner_identity_spec() is None) ==> r == Err::<
                        Vec<Action>,
                        BotError,
                    >(BotError::NotReady)
                    &&& (old(self).self_identity_spec() == Some(message_author)
                        && old(self).owner_identity_spec() is Some) ==> r is Ok && r->Ok_0@
                        == seq![
                        Action::NotifyReaction {
                            owner: old(self).owner_identity_spec()->Some_0,
                            reactor,
                            channel,
                        },
                    ]
                },
            },
    {
        match event {
            Event::Ready { self_identity, owner_identity } => self.on_ready(
                self_identity,
                owner_identity,
            ),
            Event::ReactionAdded { message_author, reactor, channel } => self.on_reaction_added(
                message_author,
                reactor,
                channel,
            ),
        }
    }
}

/// The two phases of the reminder loop.
#[derive(Clone, Copy, Debug, PartialEq, Eq, Structural)]
pub enum SchedulerPhase {
    /// The next reminder time is to be computed and waited for.
    Waiting,
    /// The reminder time has come: the reminder is to be sent.
    Firing,
}

/// What the reminder loop is to do in its current phase.
#[derive(Clone, Copy, Debug, PartialEq, Eq, Structural)]
pub enum SchedulerAction {
    /// Sleep until this reading.
    SleepUntil(DateTime),
    /// Send the reminder that announces this session date.
    SendReminder(DateTime),
}

/// One step of the reminder loop at reading `now`: while waiting, sleep until
/// the next reminder time and then fire; when firing, announce the next
/// session date and go back to waiting.
pub fn scheduler_step(phase: SchedulerPhase, now: DateTime) -> (r: (SchedulerPhase, SchedulerAction))
    requires
        now.wf(),
        now.day + 21 <= i32::MAX,
    ensures
        phase == SchedulerPhase::Waiting ==> r == (
            SchedulerPhase::Firing,
            SchedulerAction::SleepUntil(now.next_invitation_spec()),
        ),
        phase == SchedulerPhase::Firing ==> r == (
            SchedulerPhase::Waiting,
            SchedulerAction::SendReminder(now.next_session_spec()),
        ),
{
    match phase {
        SchedulerPhase::Waiting => (
            SchedulerPhase::Firing,
            SchedulerAction::SleepUntil(now.next_invitation_time()),
        ),
        SchedulerPhase::Firing => (
            SchedulerPhase::Waiting,
            SchedulerAction::SendReminder(now.next_session_date()),
        ),
    }
}

} // verus!
