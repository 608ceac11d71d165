use crate::reactor::broker::{
    cmd_args, code_of, command, decimal, error_code, group_read_options, into_batches,
    push_number, push_text, read_options_args, reply_entries,
};
use crate::reactor::claim_mode::ClaimMode;
use crate::reactor::clock::{duration_nanos, new_duration, no_time, whole_millis};
use crate::reactor::context::{Context, Identity};
use crate::reactor::text::same_text;
use redis::streams::{StreamId, StreamReadOptions, StreamReadReply};
use redis::{Cmd, RedisError};
use std::sync::Arc;
use std::time::Duration;
use tokio_util::sync::CancellationToken;
use vstd::prelude::*;
use vstd::utf8::encode_utf8;

verus! {

/// The current state of the consumer group.
#[derive(Clone, Copy, Debug, PartialEq, Eq, Structural)]
pub enum ConsumerGroupState {
    /// The group has not been looked for yet.
    Uninitialized,
    /// This run created the group: it has no backlog.
    NewlyCreated,
    /// The group was there before this run.
    PreviouslyCreated,
}

/// How an entry reached the consumer.
#[derive(Clone, Copy, Debug, PartialEq, Eq, Structural)]
pub enum DeliveryStatus {
    /// Stream entry newly delivered to the consumer group.
    NewDelivery,
    /// Stream entry was claimed via XAUTOCLAIM.
    MinIdleElapsed,
}

/// The bounds of a reclaim loop.
#[derive(Clone, Copy, Debug, PartialEq, Eq)]
pub struct ReclaimBounds {
    /// Entries pending for at least this long are taken over.
    pub min_idle: Duration,
    /// Once this long has passed since the loop began, empty scans are no
    /// longer followed by a pause. Without it they always are.
    pub max_idle: Option<Duration>,
}

/// The loops that a reactor runs side by side.
#[derive(Clone, Copy, Debug, PartialEq, Eq)]
pub struct LoopPlan {
    /// The reclaim loop's bounds, where it runs.
    pub reclaim: Option<ReclaimBounds>,
    /// Whether the new-delivery loop runs.
    pub new_deliveries: bool,
}

/// The creation of the consumer group at the stream's origin, the stream
/// itself being created where it is missing.
#[derive(Clone, Copy, Debug, PartialEq, Eq)]
pub struct GroupCreate<'a> {
    pub stream_key: &'a str,
    pub group_name: &'a str,
    /// The id from which the group reads.
    pub start_id: &'static str,
}

/// What the reactor asks of its driver next.
#[derive(Clone, Copy, Debug, PartialEq, Eq)]
pub enum Step<'a> {
    /// Create the consumer group, hand the broker's reply to
    /// `initialize_consumer_group`, and ask again.
    CreateGroup(GroupCreate<'a>),
    /// Run these loops until they end.
    Run(LoopPlan),
}

/// A blocking read of new entries on behalf of this consumer.
#[derive(Debug)]
pub struct GroupRead<'a> {
    pub stream_key: &'a str,
    /// The id that asks for entries never delivered to the group.
    pub id: &'static str,
    pub options: StreamReadOptions,
}

/// Entries to hand to the consumer, with the way they came.
#[derive(Debug)]
pub struct Dispatch {
    pub entries: Vec<StreamId>,
    pub status: DeliveryStatus,
}

/// Whether an error code is the one by which the broker says that the group
/// exists already.
pub open spec fn busy_group(code: Option<Seq<char>>) -> bool {
    code == Some("BUSYGROUP"@)
}

/// The state of the group after an attempt to create it: a state once reached
/// stays.
pub open spec fn after_create(before: ConsumerGroupState, created: bool) -> ConsumerGroupState {
    match before {
        ConsumerGroupState::Uninitialized => if created {
            ConsumerGroupState::NewlyCreated
        } else {
            ConsumerGroupState::PreviouslyCreated
        },
        _ => before,
    }
}

/// The bounds under which a backlog is cleared: without a `max_idle` no time
/// is spent waiting for further idle entries.
pub open spec fn backlog_bounds(min_idle: Duration, max_idle: Option<Duration>) -> ReclaimBounds {
    ReclaimBounds {
        min_idle,
        max_idle: Some(
            match max_idle {
                Some(limit) => limit,
                None => no_time(),
            },
        ),
    }
}

/// The loops of `start`: new deliveries always; reclaiming always under
/// `Autoclaim`, never under `NewOnly`, and under the two other modes only where
/// the group was there before.
pub open spec fn start_plan(status: ConsumerGroupState, mode: ClaimMode) -> LoopPlan {
    LoopPlan {
        reclaim: match mode {
            ClaimMode::ClaimAllPending => if status is PreviouslyCreated {
                Some(backlog_bounds(no_time(), None))
            } else {
                None
            },
            ClaimMode::ClearBacklog { min_idle, max_idle } => if status is PreviouslyCreated {
                Some(backlog_bounds(min_idle, max_idle))
            } else {
                None
            },
            ClaimMode::Autoclaim(min_idle) => Some(ReclaimBounds { min_idle, max_idle: None }),
            ClaimMode::NewOnly => None,
        },
        new_deliveries: true,
    }
}

/// The loops of `clear_idle_backlog`: reclaiming alone, and only where the
/// group was there before.
pub open spec fn backlog_plan(
    status: ConsumerGroupState,
    min_idle: Duration,
    max_idle: Option<Duration>,
) -> LoopPlan {
    LoopPlan {
        reclaim: if status is PreviouslyCreated {
            Some(backlog_bounds(min_idle, max_idle))
        } else {
            None
        },
        new_deliveries: false,
    }
}

/// Whether `step` asks for the group of `id` to be created from the stream's
/// origin.
pub open spec fn creates_group(step: Step, id: Identity) -> bool {
    &&& step matches Step::CreateGroup(create)
    &&& create.stream_key@ == id.stream_key
    &&& create.group_name@ == id.group_name
    &&& create.start_id@ == "0"@
}

/// A duration in whole milliseconds, cut to the machine's word as the broker
/// commands take it.
pub open spec fn millis(d: Duration) -> usize {
    (duration_nanos(d) / 1_000_000) as usize
}

/// The arguments of `XAUTOCLAIM stream group consumer min-idle cursor COUNT n`.
pub open spec fn autoclaim_args(
    id: Identity,
    min_idle: Duration,
    cursor: Seq<char>,
    batch_size: usize,
) -> Seq<Seq<u8>> {
    seq![
        encode_utf8("XAUTOCLAIM"@),
        encode_utf8(id.stream_key),
        encode_utf8(id.group_name),
        encode_utf8(id.consumer_id),
        decimal(millis(min_idle) as nat),
        encode_utf8(cursor),
        encode_utf8("COUNT"@),
        decimal(batch_size as nat),
    ]
}

/// The arguments `GROUP group consumer BLOCK ms COUNT n` of a group read.
pub open spec fn group_read_args(id: Identity, block_time: Duration, batch_size: usize) -> Seq<
    Seq<u8>,
> {
    seq![
        encode_utf8("GROUP"@),
        encode_utf8(id.group_name),
        encode_utf8(id.consumer_id),
        encode_utf8("BLOCK"@),
        decimal(millis(block_time) as nat),
        encode_utf8("COUNT"@),
        decimal(batch_size as nat),
    ]
}

/// The first attempt to create the group settles its state for good: a group
/// that could be created is new, one that could not was there before, and no
/// later attempt changes either.
pub proof fn lemma_group_state_settles(before: ConsumerGroupState, first: bool, second: bool)
    ensures
        after_create(ConsumerGroupState::Uninitialized, true) == ConsumerGroupState::NewlyCreated,
        after_create(ConsumerGroupState::Uninitialized, false)
            == ConsumerGroupState::PreviouslyCreated,
        !(after_create(before, first) is Uninitialized),
        after_create(after_create(before, first), second) == after_create(before, first),
{
}

/// The loops that `start` runs, mode by mode. New entries are always read.
/// `NewOnly` never reclaims and `Autoclaim` always does, without a limit on
/// its waiting. `ClaimAllPending` and `ClearBacklog` reclaim exactly where the
/// group was there before, and then always with a limit, which is zero where
/// `ClearBacklog` names none. `ClearBacklog` with both durations zero runs what
/// `ClaimAllPending` runs. Clearing the backlog on its own reclaims as
/// `ClearBacklog` does and reads no new entries.
pub proof fn lemma_claim_modes(
    status: ConsumerGroupState,
    mode: ClaimMode,
    min_idle: Duration,
    max_idle: Option<Duration>,
)
    ensures
        start_plan(status, mode).new_deliveries,
        start_plan(status, ClaimMode::NewOnly).reclaim is None,
        start_plan(status, ClaimMode::Autoclaim(min_idle)).reclaim == Some(
            ReclaimBounds { min_idle, max_idle: None },
        ),
        start_plan(status, ClaimMode::ClaimAllPending).reclaim is Some <==> status
            is PreviouslyCreated,
        start_plan(status, ClaimMode::ClearBacklog { min_idle, max_idle }).reclaim is Some
            <==> status is PreviouslyCreated,
        start_plan(status, mode).reclaim is Some && !(mode is Autoclaim) ==> start_plan(
            status,
            mode,
        ).reclaim->Some_0.max_idle is Some,
        start_plan(status, ClaimMode::ClearBacklog { min_idle, max_idle: Some(no_time()) })
            == start_plan(status, ClaimMode::ClearBacklog { min_idle, max_idle: None }),
        start_plan(
            status,
            ClaimMode::ClearBacklog { min_idle: no_time(), max_idle: Some(no_time()) },
        ) == start_plan(status, ClaimMode::ClaimAllPending),
        backlog_plan(status, min_idle, max_idle).reclaim == start_plan(
            status,
            ClaimMode::ClearBacklog { min_idle, max_idle },
        ).reclaim,
        !backlog_plan(status, min_idle, max_idle).new_deliveries,
{
}

/// Whether `read` is the blocking read of new entries for the consumer `id`:
/// on its stream, from the id `>` that asks for entries never delivered to the
/// group, with the arguments of `group_read_args`.
pub open spec fn is_group_read(
    read: GroupRead,
    id: Identity,
    block_time: Duration,
    batch_size: usize,
) -> bool {
    &&& read.stream_key@ == id.stream_key
    &&& read.id@ == ">"@
    &&& read_options_args(read.options) == group_read_args(id, block_time, batch_size)
}

/// Batches laid end to end, in order.
pub open spec fn joined<T>(batches: Seq<Vec<T>>) -> Seq<T> {
    batches.map_values(|b: Vec<T>| b@).flatten()
}

/// Whether an error code is the one by which the broker says that the group
/// exists already.
pub fn is_busy_group(code: Option<&str>) -> (busy: bool)
    ensures
        busy == busy_group(
            match code {
                Some(c) => Some(c@),
                None => None,
            },
        ),
{
    match code {
        Some(c) => same_text(c, "BUSYGROUP"),
        None => false,
    }
}

/// Lays batches end to end, in order.
pub fn flatten<T>(batches: Vec<Vec<T>>) -> (all: Vec<T>)
    ensures
        all@ == joined(batches@),
{
    let mut all: Vec<T> = Vec::new();
    let ghost views = batches@.map_values(|b: Vec<T>| b@);
    for batch in it: batches
        invariant
            it.seq() == batches@,
            views == batches@.map_values(|b: Vec<T>| b@),
            all@ == views.take(it.index() as int).flatten_alt(),
    {
        let mut batch = batch;
        proof {
            let before = views.take(it.index() as int);
            let after = views.take(it.index() + 1);
            assert(after.drop_last() =~= before);
            assert(after.last() == batch@);
        }
        all.append(&mut batch);
    }
    proof {
        assert(views.take(views.len() as int) =~= views);
        views.lemma_flatten_and_flatten_alt_are_equivalent();
    }
    all
}

/// The decisions of one reactor: which group state it is in, and from that and
/// the claim mode what its driver does next.
pub struct EventProcessor<'a> {
    group_status: ConsumerGroupState,
    ctx: Context<'a>,
}

impl<'a> EventProcessor<'a> {
    /// The state of the consumer group as far as this reactor knows it.
    pub closed spec fn status(&self) -> ConsumerGroupState {
        self.group_status
    }

    /// The context that the reactor runs under.
    pub closed spec fn context(&self) -> Context<'a> {
        self.ctx
    }

    /// A reactor that has not looked for its group yet.
    pub fn new(ctx: Context<'a>) -> (processor: Self)
        ensures
            processor.status() is Uninitialized,
            processor.context() == ctx,
    {
        EventProcessor { group_status: ConsumerGroupState::Uninitialized, ctx }
    }

    pub fn group_status(&self) -> (status: ConsumerGroupState)
        ensures
            status == self.status(),
    {
        self.group_status
    }

    pub fn ctx(&self) -> (ctx: &Context<'a>)
        ensures
            *ctx == self.context(),
    {
        &self.ctx
    }

    /// The request by which the group is created.
    fn group_create(&self) -> (step: Step<'a>)
        ensures
            creates_group(step, self.context()@),
    {
        Step::CreateGroup(
            GroupCreate {
                stream_key: self.ctx.stream_key(),
                group_name: self.ctx.group_name(),
                start_id: "0",
            },
        )
    }

    /// Takes in the broker's reply to the creation of the group. A success
    /// means that the group is new; the code `BUSYGROUP` means that it was there
    /// before and is no failure; any other error is handed back. A state once
    /// reached stays: later replies do not change it.
    pub fn initialize_consumer_group(&mut self, reply: Result<(), RedisError>) -> (outcome: Result<
        ConsumerGroupState,
        RedisError,
    >)
        ensures
            final(self).context() == old(self).context(),
            (match reply {
                Ok(_) => {
                    &&& final(self).status() == after_create(old(self).status(), true)
                    &&& outcome is Ok
                    &&& outcome->Ok_0 == final(self).status()
                },
                Err(e) => if busy_group(error_code(e)) {
                    &&& final(self).status() == after_create(old(self).status(), false)
                    &&& outcome is Ok
                    &&& outcome->Ok_0 == final(self).status()
                } else {
                    &&& final(self).status() == old(self).status()
                    &&& outcome is Err
                    &&& outcome->Err_0 == e
                },
            }),
    {
        let created = match reply {
            Ok(_) => true,
            Err(e) => {
                if !is_busy_group(code_of(&e)) {
                    return Err(e);
                }
                false
            },
        };
        if let ConsumerGroupState::Uninitialized = self.group_status {
            self.group_status = if created {
                ConsumerGroupState::NewlyCreated
            } else {
                ConsumerGroupState::PreviouslyCreated
            };
        }
        Ok(self.group_status)
    }

    /// What `start` does under `claim_mode`: first the group is created, where
    /// this reactor has not looked for it yet; then the loops of `start_plan`
    /// run. The bounds that the plan fills in last no time.
    pub fn start(&self, claim_mode: ClaimMode) -> (step: Step<'a>)
        ensures
            self.status() is Uninitialized ==> creates_group(step, self.context()@),
            !(self.status() is Uninitialized) ==> step == Step::Run(
                start_plan(self.status(), claim_mode),
            ),
            step is Run ==> duration_nanos(no_time()) == 0,
    {
        if let ConsumerGroupState::Uninitialized = self.group_status {
            return self.group_create();
        }
        let none = new_duration(0, 0);
        let previously = match self.group_status {
            ConsumerGroupState::PreviouslyCreated => true,
            _ => false,
        };
        let reclaim = match claim_mode {
            ClaimMode::ClaimAllPending => if previously {
                Some(ReclaimBounds { min_idle: none, max_idle: Some(none) })
            } else {
                None
            },
            ClaimMode::ClearBacklog { min_idle, max_idle } => if previously {
                Some(Self::bounds(min_idle, max_idle))
            } else {
                None
            },
            ClaimMode::Autoclaim(min_idle) => Some(ReclaimBounds { min_idle, max_idle: None }),
            ClaimMode::NewOnly => None,
        };
        Step::Run(LoopPlan { reclaim, new_deliveries: true })
    }

    /// The bounds under which a backlog is cleared.
    fn bounds(min_idle: Duration, max_idle: Option<Duration>) -> (bounds: ReclaimBounds)
        ensures
            bounds == backlog_bounds(min_idle, max_idle),
            duration_nanos(no_time()) == 0,
    {
        let none = new_duration(0, 0);
        let limit = match max_idle {
            Some(limit) => limit,
            None => none,
        };
        ReclaimBounds { min_idle, max_idle: Some(limit) }
    }

    /// What clearing the idle-pending backlog takes: first the group is
    /// created, where this reactor has not looked for it yet; then the reclaim
    /// loop runs alone, and only for a group that was there before. The limit
    /// that the plan fills in lasts no time.
    pub fn clear_idle_backlog(&self, min_idle: &Duration, max_idle: &Option<Duration>) -> (step:
        Step<'a>)
        ensures
            self.status() is Uninitialized ==> creates_group(step, self.context()@),
            !(self.status() is Uninitialized) ==> step == Step::Run(
                backlog_plan(self.status(), *min_idle, *max_idle),
            ),
            step is Run && step->Run_0.reclaim is Some ==> duration_nanos(no_time()) == 0,
    {
        match self.group_status {
            ConsumerGroupState::Uninitialized => self.group_create(),
            ConsumerGroupState::PreviouslyCreated => Step::Run(
                LoopPlan { reclaim: Some(Self::bounds(*min_idle, *max_idle)), new_deliveries: false },
            ),
            ConsumerGroupState::NewlyCreated => Step::Run(
                LoopPlan { reclaim: None, new_deliveries: false },
            ),
        }
    }

    /// A handle on the shutdown signal of the reactor's context.
    pub fn shutdown_token(&self) -> (token: Arc<CancellationToken>)
        ensures
            token == self.context().token(),
    {
        self.ctx.cancel_token()
    }

    /// The command that claims the next batch of idle entries from `cursor`
    /// on, for `cancelled` as the shutdown signal was found: none once it was
    /// raised.
    pub fn autoclaim_request(
        &self,
        cancelled: bool,
        min_idle: &Duration,
        cursor: &str,
        batch_size: usize,
    ) -> (request: Option<Cmd>)
        ensures
            request is None <==> cancelled,
            request matches Some(cmd) ==> cmd_args(cmd) == autoclaim_args(
                self.context()@,
                *min_idle,
                cursor@,
                batch_size,
            ),
    {
        if cancelled {
            return None;
        }
        let idle_ms = #[verifier::truncate] (whole_millis(min_idle) as usize);
        let mut cmd = command("XAUTOCLAIM");
        push_text(&mut cmd, self.ctx.stream_key());
        push_text(&mut cmd, self.ctx.group_name());
        push_text(&mut cmd, self.ctx.consumer_id());
        push_number(&mut cmd, idle_ms);
        push_text(&mut cmd, cursor);
        push_text(&mut cmd, "COUNT");
        push_number(&mut cmd, batch_size);
        proof {
            assert(cmd_args(cmd) =~= autoclaim_args(
                self.context()@,
                *min_idle,
                cursor@,
                batch_size,
            ));
        }
        Some(cmd)
    }

    /// The command that claims the next batch of idle entries from `cursor`
    /// on, or none where the shutdown signal was found raised.
    pub fn autoclaim_batch(&self, min_idle: &Duration, cursor: &str, batch_size: usize) -> (request:
        Option<Cmd>)
        ensures
            request matches Some(cmd) ==> cmd_args(cmd) == autoclaim_args(
                self.context()@,
                *min_idle,
                cursor@,
                batch_size,
            ),
    {
        let cancelled = self.ctx.is_cancelled();
        self.autoclaim_request(cancelled, min_idle, cursor, batch_size)
    }

    /// The read that waits for the next batch of new entries, for `cancelled`
    /// as the shutdown signal was found: none once it was raised.
    pub fn read_request(&self, cancelled: bool, block_time: &Duration, batch_size: usize) -> (request:
        Option<GroupRead<'a>>)
        ensures
            request is None <==> cancelled,
            request matches Some(read) ==> is_group_read(
                read,
                self.context()@,
                *block_time,
                batch_size,
            ),
    {
        if cancelled {
            return None;
        }
        let block_ms = #[verifier::truncate] (whole_millis(block_time) as usize);
        let options = group_read_options(
            self.ctx.group_name(),
            self.ctx.consumer_id(),
            block_ms,
            batch_size,
        );
        Some(GroupRead { stream_key: self.ctx.stream_key(), id: ">", options })
    }

    /// The read that waits for the next batch of new entries, or none where
    /// the shutdown signal was found raised.
    pub fn next_batch(&self, block_time: &Duration, batch_size: usize) -> (request: Option<
        GroupRead<'a>,
    >)
        ensures
            request matches Some(read) ==> is_group_read(
                read,
                self.context()@,
                *block_time,
                batch_size,
            ),
    {
        let cancelled = self.ctx.is_cancelled();
        self.read_request(cancelled, block_time, batch_size)
    }

    /// What one reply of the new-delivery loop leads to: a reply without
    /// stream keys to nothing; any other to the dispatch of its entries, those
    /// of all its keys in order, as new deliveries.
    pub fn process_stream(reply: StreamReadReply) -> (dispatch: Option<Dispatch>)
        ensures
            dispatch is None <==> reply_entries(reply).len() == 0,
            dispatch matches Some(d) ==> d.status == DeliveryStatus::NewDelivery,
            dispatch matches Some(d) ==> d.entries@ == reply_entries(reply).flatten(),
    {
        let batches = into_batches(reply);
        if batches.len() == 0 {
            return None;
        }
        proof {
            assert(batches@.map_values(|b: Vec<StreamId>| b@) =~= reply_entries(reply));
        }
        Some(Dispatch { entries: flatten(batches), status: DeliveryStatus::NewDelivery })
    }
}

} // verus!
