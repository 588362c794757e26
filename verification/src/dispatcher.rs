//! The command dispatcher: one high-level operation mapped onto one or
//! two channel exchanges.
//!
//! Stopping and building are a single exchange. Playing and refreshing
//! may restart the peer before it can acknowledge, so they are followed
//! by a liveness check; on those operations an ambiguous outcome of the
//! first exchange is tolerated — the channel is re-synchronized and the
//! liveness check decides. Every other failure of the first exchange is
//! terminal, as is any failure of the liveness check.

use vstd::prelude::*;

use crate::channel::ChannelError;
use crate::protocol::Command;

verus! {

/// The one-shot operations an operator can request.
#[derive(Clone, Copy, PartialEq, Eq, Structural, Debug)]
pub enum Operation {
    Play,
    Stop,
    Refresh,
    Build,
}

/// Whether an operation must poll liveness after its command, because
/// the command itself may restart the peer.
pub open spec fn needs_liveness_spec(op: Operation) -> bool {
    op is Play || op is Refresh
}

/// The command an operation sends first.
pub open spec fn first_command_spec(op: Operation) -> Command {
    match op {
        Operation::Play => Command::Play,
        Operation::Stop => Command::Stop,
        Operation::Refresh => Command::Refresh,
        Operation::Build => Command::Build,
    }
}

/// The full command sequence of an operation.
pub open spec fn plan_spec(op: Operation) -> Seq<Command> {
    if needs_liveness_spec(op) {
        seq![first_command_spec(op), Command::CheckAlive]
    } else {
        seq![first_command_spec(op)]
    }
}

/// The commands an operation issues, in order.
pub fn plan(op: Operation) -> (cmds: Vec<Command>)
    ensures
        cmds@ == plan_spec(op),
{
    let mut cmds: Vec<Command> = Vec::new();
    match op {
        Operation::Play => {
            cmds.push(Command::Play);
            cmds.push(Command::CheckAlive);
        },
        Operation::Stop => {
            cmds.push(Command::Stop);
        },
        Operation::Refresh => {
            cmds.push(Command::Refresh);
            cmds.push(Command::CheckAlive);
        },
        Operation::Build => {
            cmds.push(Command::Build);
        },
    }
    proof {
        assert(cmds@ =~= plan_spec(op));
    }
    cmds
}

/// Where a dispatched operation stands.
#[derive(Clone, Copy, PartialEq, Eq, Structural, Debug)]
pub enum DispatchStage {
    /// The operation's own command is in flight.
    First,
    /// The trailing liveness check is in flight.
    Liveness,
    /// A result has been reported; nothing more may be fed in.
    Finished,
}

/// What the caller must do next with the channel.
#[derive(PartialEq, Eq, Debug)]
pub enum DispatchAction {
    /// Mint a fresh correlation id and run an exchange for this command.
    Send(Command),
    /// Re-synchronize the channel (backoff, then reconnect until it
    /// succeeds), then run an exchange for this command.
    ResyncThenSend(Command),
    /// The operation is over: report this result to the operator, zero
    /// exit on success and non-zero with the error otherwise.
    Report(Result<(), ChannelError>),
}

/// One in-flight operation.
pub struct Dispatch {
    pub op: Operation,
    pub stage: DispatchStage,
}

impl Dispatch {
    /// Begin an operation; the returned command is sent first.
    pub fn start(op: Operation) -> (r: (Dispatch, Command))
        ensures
            r.0.op == op,
            r.0.stage == DispatchStage::First,
            r.1 == first_command_spec(op),
    {
        let cmd = match op {
            Operation::Play => Command::Play,
            Operation::Stop => Command::Stop,
            Operation::Refresh => Command::Refresh,
            Operation::Build => Command::Build,
        };
        (Dispatch { op, stage: DispatchStage::First }, cmd)
    }

    /// Feed the outcome of the exchange most recently asked for and get
    /// the next action. An ambiguous outcome of the first command is
    /// terminal unless the operation polls liveness, in which case the
    /// liveness check decides after a re-synchronization; a success of
    /// the first command proceeds straight to the liveness check where
    /// one is owed.
    pub fn on_result(&mut self, res: Result<(), ChannelError>) -> (a: DispatchAction)
        requires
            !(old(self).stage is Finished),
        ensures
            final(self).op == old(self).op,
            (old(self).stage is First && res is Ok && needs_liveness_spec(old(self).op)) ==> (
            final(self).stage is Liveness && a == DispatchAction::Send(Command::CheckAlive)),
            (old(self).stage is First && res is Ok && !needs_liveness_spec(old(self).op)) ==> (
            final(self).stage is Finished && a == DispatchAction::Report(
                Ok::<(), ChannelError>(()),
            )),
            (old(self).stage is First && (res matches Err(ChannelError::ProbablyRestarted))
                && needs_liveness_spec(old(self).op)) ==> (final(self).stage is Liveness && a
                == DispatchAction::ResyncThenSend(Command::CheckAlive)),
            (old(self).stage is First && res is Err && !((res matches Err(
                ChannelError::ProbablyRestarted,
            )) && needs_liveness_spec(old(self).op))) ==> (final(self).stage is Finished && (
            res matches Err(e) && a == DispatchAction::Report(Err::<(), ChannelError>(e)))),
            old(self).stage is Liveness ==> (final(self).stage is Finished && a
                == DispatchAction::Report(res)),
    {
        match self.stage {
            DispatchStage::First => {
                match res {
                    Ok(()) => {
                        if matches!(self.op, Operation::Play | Operation::Refresh) {
                            self.stage = DispatchStage::Liveness;
                            DispatchAction::Send(Command::CheckAlive)
                        } else {
                            self.stage = DispatchStage::Finished;
                            DispatchAction::Report(Ok(()))
                        }
                    },
                    Err(e) => {
                        if matches!(e, ChannelError::ProbablyRestarted) && matches!(
                            self.op,
                            Operation::Play | Operation::Refresh,
                        ) {
                            self.stage = DispatchStage::Liveness;
                            DispatchAction::ResyncThenSend(Command::CheckAlive)
                        } else {
                            self.stage = DispatchStage::Finished;
                            DispatchAction::Report(Err(e))
                        }
                    },
                }
            },
            DispatchStage::Liveness => {
                self.stage = DispatchStage::Finished;
                DispatchAction::Report(res)
            },
            DispatchStage::Finished => {
                self.stage = DispatchStage::Finished;
                DispatchAction::Report(res)
            },
        }
    }
}

} // verus!
