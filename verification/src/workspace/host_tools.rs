//! Results that come back from hosts: samples, of which only the latest counts, and answers to what
//! the user did, of which none may be lost.

use vstd::prelude::*;

use crate::text;

verus! {

/// A sample of a host's graphics processors.
pub struct GpuUpdate<S> {
    pub connection_id: String,
    pub snapshot: S,
}

/// What an answer is about.
#[derive(Clone, Copy, PartialEq, Eq, Structural, Debug)]
pub enum HostToolsAnswer {
    ProcessAction,
    DockerAction,
    DockerLogs,
    ServiceSnapshot,
    ServiceAction,
    ServiceLogs,
    TmuxSnapshot,
    TmuxAction,
    LogSnapshot,
    PortSnapshot,
    FilesystemSnapshot,
    PackageSnapshot,
    ScheduleSnapshot,
    ScheduleLogs,
    ScheduleAction,
}

pub struct HostToolsReliableDelivery<T> {
    pub answer: HostToolsAnswer,
    pub payload: T,
}

#[derive(Clone, Copy, PartialEq, Eq, Structural, Debug)]
pub enum HostToolsVisibility {
    Visible,
    Hidden,
    Dropped,
}

pub struct HostToolsEntity<S, T> {
    pub visibility: HostToolsVisibility,
    /// The connection whose graphics processors are sampled.
    pub sampled_connection: Option<String>,
    pub snapshot_connection_id: Option<String>,
    pub snapshot: Option<S>,
    pub sampler_queue: Vec<GpuUpdate<S>>,
    pub reliable_queue: Vec<HostToolsReliableDelivery<T>>,
}

/// How much of a queue is taken at once.
pub open spec fn batch_len(len: nat, budget: usize) -> int {
    if len <= budget {
        len as int
    } else {
        budget as int
    }
}

/// The latest of some samples that came from a connection.
pub open spec fn latest<S>(updates: Seq<GpuUpdate<S>>, connection: Option<Seq<char>>) -> Option<GpuUpdate<S>>
    decreases updates.len(),
{
    if updates.len() == 0 {
        None
    } else if connection == Some(updates.last().connection_id@) {
        Some(updates.last())
    } else {
        latest(updates.drop_last(), connection)
    }
}

fn take_batch<A>(queue: &mut Vec<A>, budget: usize) -> (res: Vec<A>)
    ensures
        res@ == old(queue)@.take(batch_len(old(queue)@.len(), budget)),
        final(queue)@ == old(queue)@.skip(batch_len(old(queue)@.len(), budget)),
{
    let mut res: Vec<A> = Vec::new();
    let ghost all = queue@;
    while res.len() < budget && queue.len() > 0
        invariant
            res@.len() <= budget,
            res@ == all.take(res@.len() as int),
            queue@ == all.skip(res@.len() as int),
            res@.len() <= all.len(),
        decreases queue@.len(),
    {
        let ghost taken = res@.len() as int;
        let item = queue.remove(0);
        res.push(item);
        assert(res@ =~= all.take(taken + 1));
        assert(queue@ =~= all.skip(taken + 1));
    }
    res
}

/// What the loop that waits for results does next.
#[derive(Clone, Copy, PartialEq, Eq, Structural, Debug)]
pub enum WakeStep {
    Wait,
    Drain,
    /// Results are left: wake up again without waiting.
    WakeAgain,
    Stop,
}

/// What follows a wake-up: a loop that is stopped still takes what has arrived.
pub fn on_wake(arrived: bool, stopped: bool) -> (res: WakeStep)
    ensures
        res == if arrived {
            WakeStep::Drain
        } else if stopped {
            WakeStep::Stop
        } else {
            WakeStep::Wait
        },
{
    if arrived {
        WakeStep::Drain
    } else if stopped {
        WakeStep::Stop
    } else {
        WakeStep::Wait
    }
}

/// What follows a batch.
pub fn on_drained(backlog_remaining: bool, stopped: bool) -> (res: WakeStep)
    ensures
        res == if backlog_remaining {
            WakeStep::WakeAgain
        } else if stopped {
            WakeStep::Stop
        } else {
            WakeStep::Wait
        },
{
    if backlog_remaining {
        WakeStep::WakeAgain
    } else if stopped {
        WakeStep::Stop
    } else {
        WakeStep::Wait
    }
}

pub struct SamplerDrain {
    pub updated: bool,
    pub backlog_remaining: bool,
}

impl<S, T> HostToolsEntity<S, T> {
    /// Takes a batch of samples. Only the latest one from the sampled connection is shown.
    pub fn drain_sampler_deliveries(&mut self, budget: usize) -> (res: SamplerDrain)
        ensures
            ({
                let taken = batch_len(old(self).sampler_queue@.len(), budget);
                let newest = latest(
                    old(self).sampler_queue@.take(taken),
                    text::opt_view(old(self).sampled_connection),
                );
                &&& *final(self) == (HostToolsEntity {
                    sampler_queue: final(self).sampler_queue,
                    snapshot_connection_id: final(self).snapshot_connection_id,
                    snapshot: final(self).snapshot,
                    ..*old(self)
                })
                &&& final(self).sampler_queue@ == old(self).sampler_queue@.skip(taken)
                &&& res.updated == newest is Some
                &&& res.backlog_remaining == (taken < old(self).sampler_queue@.len())
                &&& match newest {
                    Some(update) => final(self).snapshot_connection_id == Some(update.connection_id)
                        && final(self).snapshot == Some(update.snapshot),
                    None => final(self).snapshot_connection_id == old(self).snapshot_connection_id
                        && final(self).snapshot == old(self).snapshot,
                }
            }),
    {
        let mut batch = take_batch(&mut self.sampler_queue, budget);
        let backlog_remaining = self.sampler_queue.len() > 0;
        let ghost all = batch@;
        let ghost active = text::opt_view(self.sampled_connection);
        let mut newest: Option<GpuUpdate<S>> = None;
        while batch.len() > 0 && newest.is_none()
            invariant
                active == text::opt_view(self.sampled_connection),
                batch@.len() <= all.len(),
                newest is None ==> latest(all, active) == latest(batch@, active),
                newest is Some ==> latest(all, active) == newest,
            decreases batch@.len(),
        {
            let ghost prior = batch@;
            let last: usize = batch.len() - 1;
            let update = batch.remove(last);
            assert(batch@ =~= prior.drop_last());
            let wanted = match &self.sampled_connection {
                Some(active) => text::same(active.as_str(), update.connection_id.as_str()),
                None => false,
            };
            if wanted {
                newest = Some(update);
            }
        }
        match newest {
            Some(update) => {
                self.snapshot_connection_id = Some(update.connection_id);
                self.snapshot = Some(update.snapshot);
                SamplerDrain { updated: true, backlog_remaining }
            },
            None => SamplerDrain { updated: false, backlog_remaining },
        }
    }

    /// Takes a batch of answers, in the order of their arrival. Says whether some are left.
    pub fn drain_reliable_deliveries(&mut self, budget: usize) -> (res: (Vec<HostToolsReliableDelivery<T>>, bool))
        ensures
            *final(self) == (HostToolsEntity { reliable_queue: final(self).reliable_queue, ..*old(self) }),
            res.0@ == old(self).reliable_queue@.take(
                batch_len(old(self).reliable_queue@.len(), budget),
            ),
            final(self).reliable_queue@ == old(self).reliable_queue@.skip(
                batch_len(old(self).reliable_queue@.len(), budget),
            ),
            res.1 == (final(self).reliable_queue@.len() > 0),
    {
        let batch = take_batch(&mut self.reliable_queue, budget);
        let backlog_remaining = self.reliable_queue.len() > 0;
        (batch, backlog_remaining)
    }

    /// The page is gone: sampling stops. Connections that it shares with others stay.
    pub fn release(&mut self) -> (res: Option<String>)
        ensures
            res == old(self).sampled_connection,
            *final(self) == (HostToolsEntity {
                visibility: HostToolsVisibility::Dropped,
                sampled_connection: None,
                ..*old(self)
            }),
    {
        self.visibility = HostToolsVisibility::Dropped;
        let mut stopped: Option<String> = None;
        std::mem::swap(&mut stopped, &mut self.sampled_connection);
        stopped
    }
}

/// No answer is lost or overtaken: what is taken, followed by what is left, is what was there.
pub proof fn law_answers_are_taken_in_order<A>(queue: Seq<A>, budget: usize)
    ensures
        queue.take(batch_len(queue.len(), budget)) + queue.skip(batch_len(queue.len(), budget)) == queue,
        queue.take(batch_len(queue.len(), budget)).len() <= budget,
{
    let at = batch_len(queue.len(), budget);
    assert(queue.take(at) + queue.skip(at) =~= queue);
}

/// A sample of a connection that is no longer sampled is never shown.
pub proof fn law_only_the_sampled_connection_is_shown<S>(updates: Seq<GpuUpdate<S>>, connection: Option<Seq<char>>)
    ensures
        latest(updates, connection) matches Some(update) ==> connection == Some(update.connection_id@)
            && updates.contains(update),
    decreases updates.len(),
{
    if updates.len() > 0 {
        law_only_the_sampled_connection_is_shown(updates.drop_last(), connection);
        if connection == Some(updates.last().connection_id@) {
            assert(updates[updates.len() - 1] == updates.last());
        } else if latest(updates, connection) is Some {
            let update = latest(updates, connection)->0;
            let i = choose|i: int| 0 <= i < updates.drop_last().len() && updates.drop_last()[i] == update;
            assert(updates[i] == update);
        }
    }
}

} // verus!
