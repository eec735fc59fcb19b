//! Whole playbacks: what a session does, from its first fetch to the end,
//! when a stream gives it blocks and a device answers.
//!
//! Nothing here runs. These are statements about [`step_spec`], which is what
//! [`crate::session::Session::step`] is proved to compute.

use vstd::prelude::*;
use crate::block::{interleaved, BlockView};
use crate::device::DeviceState;
use crate::error::PlayError;
use crate::format::Source;
use crate::session::{step_spec, ActionView, EventView, Phase, SessionView};

verus! {

/// Feeds `events` to `session` one after the other: the session at the end
/// and the actions it took on the way. An event that is refused leaves no
/// trace.
pub open spec fn run(session: SessionView, events: Seq<EventView>) -> (
    SessionView,
    Seq<ActionView>,
)
    decreases events.len(),
{
    if events.len() == 0 {
        (session, Seq::empty())
    } else {
        match step_spec(session, events.first()) {
            Some((next, action)) => {
                let rest = run(next, events.drop_first());
                (rest.0, seq![action] + rest.1)
            },
            None => run(session, events.drop_first()),
        }
    }
}

/// The buffers of the writes among `actions`, in order.
pub open spec fn writes(actions: Seq<ActionView>) -> Seq<Seq<u8>>
    decreases actions.len(),
{
    if actions.len() == 0 {
        Seq::empty()
    } else {
        match actions.first() {
            ActionView::Write(bytes) => seq![bytes] + writes(actions.drop_first()),
            _ => writes(actions.drop_first()),
        }
    }
}

/// The number of starts among `actions`.
pub open spec fn starts(actions: Seq<ActionView>) -> nat
    decreases actions.len(),
{
    if actions.len() == 0 {
        0
    } else {
        match actions.first() {
            ActionView::Start => 1 + starts(actions.drop_first()),
            _ => starts(actions.drop_first()),
        }
    }
}

/// How a device answers while one buffer is played: the frames it accepted
/// of the buffer, and the state it reported afterwards.
pub struct Reply {
    pub accepted: usize,
    pub state: DeviceState,
}

/// The events of one block: the stream gives it, the device takes its buffer
/// and reports its state, and, asked to start because it was not running,
/// starts.
pub open spec fn block_events(block: BlockView, reply: Reply) -> Seq<EventView> {
    let taken = seq![
        EventView::Block(block),
        EventView::Written(reply.accepted),
        EventView::State(reply.state),
    ];
    if reply.state == DeviceState::Running {
        taken
    } else {
        taken.push(EventView::Started)
    }
}

/// The events of a whole stream: those of each block in turn, then the end of
/// the stream and the end of the drain.
pub open spec fn stream_events(blocks: Seq<BlockView>, replies: Seq<Reply>) -> Seq<EventView>
    decreases blocks.len(),
{
    if blocks.len() == 0 {
        seq![EventView::EndOfStream, EventView::Drained]
    } else {
        block_events(blocks.first(), replies.first()) + stream_events(
            blocks.drop_first(),
            replies.drop_first(),
        )
    }
}

/// The replies among the first `n` that report a device not running.
pub open spec fn idle_reports(replies: Seq<Reply>, n: nat) -> nat
    decreases n,
{
    if n == 0 {
        0
    } else {
        idle_reports(replies, (n - 1) as nat) + if replies[n - 1].state == DeviceState::Running {
            0nat
        } else {
            1nat
        }
    }
}

/// The session after it played `block` and the device answered `reply`.
pub open spec fn after_block(session: SessionView, block: BlockView, reply: Reply) -> SessionView {
    SessionView {
        phase: Phase::Fetching,
        pending: block.frames,
        underrun: session.underrun || reply.accepted < block.frames,
        storage: block.samples,
        ..session
    }
}

/// Running over two stretches of events is running over the first and going
/// on over the second.
pub proof fn lemma_run_append(session: SessionView, head: Seq<EventView>, tail: Seq<EventView>)
    ensures
        run(session, head + tail).0 == run(run(session, head).0, tail).0,
        run(session, head + tail).1 == run(session, head).1 + run(run(session, head).0, tail).1,
    decreases head.len(),
{
    if head.len() == 0 {
        assert(head + tail =~= tail);
        assert(Seq::<ActionView>::empty() + run(session, tail).1 =~= run(session, tail).1);
    } else {
        let all = head + tail;
        assert(all.first() == head.first());
        assert(all.drop_first() =~= head.drop_first() + tail);
        match step_spec(session, head.first()) {
            Some((next, action)) => {
                lemma_run_append(next, head.drop_first(), tail);
                let first = run(next, head.drop_first());
                let second = run(first.0, tail);
                assert(seq![action] + (first.1 + second.1) =~= (seq![action] + first.1)
                    + second.1);
            },
            None => {
                lemma_run_append(session, head.drop_first(), tail);
            },
        }
    }
}

/// The writes of two stretches of actions are those of the first, then those
/// of the second; and their starts add up.
pub proof fn lemma_actions_append(head: Seq<ActionView>, tail: Seq<ActionView>)
    ensures
        writes(head + tail) == writes(head) + writes(tail),
        starts(head + tail) == starts(head) + starts(tail),
    decreases head.len(),
{
    if head.len() == 0 {
        assert(head + tail =~= tail);
        assert(Seq::<Seq<u8>>::empty() + writes(tail) =~= writes(tail));
    } else {
        let all = head + tail;
        assert(all.first() == head.first());
        assert(all.drop_first() =~= head.drop_first() + tail);
        lemma_actions_append(head.drop_first(), tail);
        match head.first() {
            ActionView::Write(bytes) => {
                assert(seq![bytes] + (writes(head.drop_first()) + writes(tail)) =~= (seq![bytes]
                    + writes(head.drop_first())) + writes(tail));
            },
            _ => {},
        }
    }
}

/// One block, one write: a session that is fetching from a decoder writes the
/// block's buffer, asks the device for its state, starts the device if it is
/// not running, and fetches again.
pub proof fn law_one_block_one_write(session: SessionView, block: BlockView, reply: Reply)
    requires
        session.phase == Phase::Fetching,
        session.source == Source::Decoder,
        block.channels == session.channels,
    ensures
        run(session, block_events(block, reply)).0 == after_block(session, block, reply),
        run(session, block_events(block, reply)).1 == if reply.state == DeviceState::Running {
            seq![
                ActionView::Write(interleaved(block, session.format.width())),
                ActionView::QueryState,
                ActionView::Fetch,
            ]
        } else {
            seq![
                ActionView::Write(interleaved(block, session.format.width())),
                ActionView::QueryState,
                ActionView::Start,
                ActionView::Fetch,
            ]
        },
        writes(run(session, block_events(block, reply)).1) == seq![
            interleaved(block, session.format.width()),
        ],
        starts(run(session, block_events(block, reply)).1) == if reply.state
            == DeviceState::Running {
            0nat
        } else {
            1nat
        },
{
    let events = block_events(block, reply);
    let bytes = interleaved(block, session.format.width());
    let e1 = events.drop_first();
    let e2 = e1.drop_first();
    let e3 = e2.drop_first();
    let s1 = SessionView { storage: block.samples, ..session.writing(block.frames) };
    let s2 = SessionView {
        phase: Phase::Checking,
        underrun: session.underrun || reply.accepted < block.frames,
        ..s1
    };
    assert(step_spec(session, events[0]) == Some((s1, ActionView::Write(bytes))));
    assert(step_spec(s1, e1[0]) == Some((s2, ActionView::QueryState)));
    reveal_with_fuel(run, 6);
    reveal_with_fuel(writes, 6);
    reveal_with_fuel(starts, 6);
    if reply.state == DeviceState::Running {
        let s3 = s2.at(Phase::Fetching);
        assert(step_spec(s2, e2[0]) == Some((s3, ActionView::Fetch)));
        assert(e3.len() == 0);
        let actions = seq![ActionView::Write(bytes), ActionView::QueryState, ActionView::Fetch];
        assert(run(s3, e3).1 =~= Seq::<ActionView>::empty());
        assert(run(s2, e2).1 =~= seq![ActionView::Fetch]);
        assert(run(s1, e1).1 =~= seq![ActionView::QueryState, ActionView::Fetch]);
        assert(run(session, events).1 =~= actions);
        assert(s3 == after_block(session, block, reply));
        let a1 = actions.drop_first();
        let a2 = a1.drop_first();
        let a3 = a2.drop_first();
        assert(a3.len() == 0);
        assert(writes(a2) =~= Seq::<Seq<u8>>::empty());
        assert(writes(a1) =~= Seq::<Seq<u8>>::empty());
        assert(writes(actions) =~= seq![bytes]);
        assert(starts(actions) == 0);
    } else {
        let e4 = e3.drop_first();
        let s3 = s2.at(Phase::Starting);
        let s4 = s3.at(Phase::Fetching);
        assert(step_spec(s2, e2[0]) == Some((s3, ActionView::Start)));
        assert(step_spec(s3, e3[0]) == Some((s4, ActionView::Fetch)));
        assert(e4.len() == 0);
        let actions = seq![
            ActionView::Write(bytes),
            ActionView::QueryState,
            ActionView::Start,
            ActionView::Fetch,
        ];
        assert(run(s4, e4).1 =~= Seq::<ActionView>::empty());
        assert(run(s3, e3).1 =~= seq![ActionView::Fetch]);
        assert(run(s2, e2).1 =~= seq![ActionView::Start, ActionView::Fetch]);
        assert(run(s1, e1).1 =~= seq![
            ActionView::QueryState,
            ActionView::Start,
            ActionView::Fetch,
        ]);
        assert(run(session, events).1 =~= actions);
        assert(s4 == after_block(session, block, reply));
        let a1 = actions.drop_first();
        let a2 = a1.drop_first();
        let a3 = a2.drop_first();
        let a4 = a3.drop_first();
        assert(a4.len() == 0);
        assert(writes(a3) =~= Seq::<Seq<u8>>::empty());
        assert(writes(a2) =~= Seq::<Seq<u8>>::empty());
        assert(writes(a1) =~= Seq::<Seq<u8>>::empty());
        assert(writes(actions) =~= seq![bytes]);
        assert(starts(a3) == 0);
        assert(starts(a2) == 1);
        assert(starts(a1) == 1);
        assert(starts(actions) == 1);
    }
}

/// A block with other channels than the device was configured for is not
/// written: playback is given up with a decode error, and nothing follows.
pub proof fn law_foreign_block_ends_playback(
    session: SessionView,
    block: BlockView,
    rest: Seq<EventView>,
)
    requires
        session.phase == Phase::Fetching,
        session.source == Source::Decoder,
        block.channels != session.channels,
    ensures
        run(session, seq![EventView::Block(block)] + rest).0 == session.at(Phase::Failed),
        run(session, seq![EventView::Block(block)] + rest).1 == seq![
            ActionView::Abort(PlayError::DecodeError),
        ],
{
    let failed = session.at(Phase::Failed);
    lemma_nothing_follows_failure(failed, rest);
    lemma_run_append(session, seq![EventView::Block(block)], rest);
    let first = seq![EventView::Block(block)];
    assert(first.drop_first().len() == 0);
    reveal_with_fuel(run, 3);
    assert(run(session, first).1 =~= seq![ActionView::Abort(PlayError::DecodeError)]);
    assert(run(session, first).0 == failed);
    assert(run(session, first).1 + Seq::<ActionView>::empty() =~= run(session, first).1);
}

/// A session that has failed takes no event.
proof fn lemma_nothing_follows_failure(session: SessionView, events: Seq<EventView>)
    requires
        session.phase == Phase::Failed,
    ensures
        run(session, events).0 == session,
        run(session, events).1 == Seq::<ActionView>::empty(),
    decreases events.len(),
{
    if events.len() > 0 {
        assert(step_spec(session, events.first()) is None);
        lemma_nothing_follows_failure(session, events.drop_first());
    }
}

/// A stream without blocks is drained and done: nothing is written and the
/// device is never started.
pub proof fn law_empty_stream_is_silent(session: SessionView)
    requires
        session.phase == Phase::Fetching,
    ensures
        run(session, stream_events(Seq::empty(), Seq::empty())).0 == session.at(Phase::Finished),
        run(session, stream_events(Seq::empty(), Seq::empty())).1 == seq![
            ActionView::Drain,
            ActionView::Finish,
        ],
        writes(run(session, stream_events(Seq::empty(), Seq::empty())).1).len() == 0,
        starts(run(session, stream_events(Seq::empty(), Seq::empty())).1) == 0,
{
    let events = stream_events(Seq::empty(), Seq::empty());
    let e1 = events.drop_first();
    let e2 = e1.drop_first();
    let s1 = session.at(Phase::Draining);
    let s2 = session.at(Phase::Finished);
    assert(step_spec(session, events[0]) == Some((s1, ActionView::Drain)));
    assert(step_spec(s1, e1[0]) == Some((s2, ActionView::Finish)));
    assert(e2.len() == 0);
    reveal_with_fuel(run, 4);
    reveal_with_fuel(writes, 4);
    reveal_with_fuel(starts, 4);
    let actions = seq![ActionView::Drain, ActionView::Finish];
    assert(run(s2, e2).1 =~= Seq::<ActionView>::empty());
    assert(run(s1, e1).1 =~= seq![ActionView::Finish]);
    assert(run(session, events).1 =~= actions);
    let a1 = actions.drop_first();
    let a2 = a1.drop_first();
    assert(a2.len() == 0);
    assert(writes(a1) =~= Seq::<Seq<u8>>::empty());
    assert(writes(actions) =~= Seq::<Seq<u8>>::empty());
    assert(starts(a1) == 0);
}

/// A stream of N blocks, each with the channels of the stream, is played in
/// exactly N writes, in the order of the blocks, each write carrying the buffer of its block; the device is started
/// once for every time it reported that it was not running; and the session
/// ends finished, whatever the device accepted of each buffer.
pub proof fn law_every_block_written_once(
    session: SessionView,
    blocks: Seq<BlockView>,
    replies: Seq<Reply>,
)
    requires
        session.phase == Phase::Fetching,
        session.source == Source::Decoder,
        replies.len() == blocks.len(),
        forall|i: int| 0 <= i < blocks.len() ==> (#[trigger] blocks[i]).channels == session.channels,
    ensures
        run(session, stream_events(blocks, replies)).0.phase == Phase::Finished,
        writes(run(session, stream_events(blocks, replies)).1).len() == blocks.len(),
        forall|i: int|
            0 <= i < blocks.len() ==> #[trigger] writes(
                run(session, stream_events(blocks, replies)).1,
            )[i] == interleaved(blocks[i], session.format.width()),
        starts(run(session, stream_events(blocks, replies)).1) == idle_reports(
            replies,
            replies.len(),
        ),
    decreases blocks.len(),
{
    if blocks.len() == 0 {
        assert(blocks =~= Seq::empty());
        assert(replies =~= Seq::empty());
        law_empty_stream_is_silent(session);
    } else {
        let head = block_events(blocks.first(), replies.first());
        let tail = stream_events(blocks.drop_first(), replies.drop_first());
        let next = after_block(session, blocks.first(), replies.first());
        assert forall|i: int| 0 <= i < blocks.drop_first().len() implies (
        #[trigger] blocks.drop_first()[i]).channels == next.channels by {
            assert(blocks.drop_first()[i] == blocks[i + 1]);
        }
        law_one_block_one_write(session, blocks.first(), replies.first());
        law_every_block_written_once(next, blocks.drop_first(), replies.drop_first());
        lemma_run_append(session, head, tail);
        lemma_actions_append(run(session, head).1, run(next, tail).1);
        lemma_idle_reports_shift(replies, replies.len());
        let all = writes(run(session, stream_events(blocks, replies)).1);
        let rest = writes(run(next, tail).1);
        assert(all =~= seq![interleaved(blocks.first(), session.format.width())] + rest);
        assert forall|i: int| 0 <= i < blocks.len() implies #[trigger] all[i] == interleaved(
            blocks[i],
            session.format.width(),
        ) by {
            if i > 0 {
                assert(all[i] == rest[i - 1]);
                assert(blocks.drop_first()[i - 1] == blocks[i]);
            }
        }
    }
}

/// Counting idle reports from the second reply on, and adding the first.
proof fn lemma_idle_reports_shift(replies: Seq<Reply>, n: nat)
    requires
        0 < n <= replies.len(),
    ensures
        idle_reports(replies, n) == idle_reports(replies.drop_first(), (n - 1) as nat)
            + if replies.first().state == DeviceState::Running {
            0nat
        } else {
            1nat
        },
    decreases n,
{
    if n == 1 {
        reveal_with_fuel(idle_reports, 2);
    } else {
        lemma_idle_reports_shift(replies, (n - 1) as nat);
        assert(replies.drop_first()[n - 2] == replies[n - 1]);
    }
}

/// The last write of a stream carries the last block: its buffer is as long
/// as that block's frames, however short the block is.
pub proof fn law_last_write_is_last_block(
    session: SessionView,
    blocks: Seq<BlockView>,
    replies: Seq<Reply>,
)
    requires
        session.phase == Phase::Fetching,
        session.source == Source::Decoder,
        replies.len() == blocks.len(),
        forall|i: int| 0 <= i < blocks.len() ==> (#[trigger] blocks[i]).channels == session.channels,
        blocks.len() > 0,
    ensures
        writes(run(session, stream_events(blocks, replies)).1).last().len() == blocks.last().frames
            * blocks.last().channels * session.format.width(),
{
    law_every_block_written_once(session, blocks, replies);
}

/// After a write the session asks the device for its state, and has it
/// started unless it reported that it is running. With the start threshold at
/// one full buffer, a device that has that much queued runs by then at the
/// latest.
pub proof fn law_start_unless_running(session: SessionView, accepted: usize, state: DeviceState)
    requires
        session.phase == Phase::Writing,
    ensures
        run(session, seq![EventView::Written(accepted), EventView::State(state)]).1
            == if state == DeviceState::Running {
            seq![ActionView::QueryState, session.fetch()]
        } else {
            seq![ActionView::QueryState, ActionView::Start]
        },
        run(session, seq![EventView::Written(accepted), EventView::State(state)]).0.phase
            == if state == DeviceState::Running {
            Phase::Fetching
        } else {
            Phase::Starting
        },
{
    let events = seq![EventView::Written(accepted), EventView::State(state)];
    let e1 = events.drop_first();
    let e2 = e1.drop_first();
    assert(e2.len() == 0);
    reveal_with_fuel(run, 4);
    let s1 = SessionView {
        phase: Phase::Checking,
        underrun: session.underrun || accepted < session.pending,
        ..session
    };
    assert(step_spec(session, events[0]) == Some((s1, ActionView::QueryState)));
    if state == DeviceState::Running {
        let s2 = s1.at(Phase::Fetching);
        assert(step_spec(s1, e1[0]) == Some((s2, session.fetch())));
        assert(run(s2, e2).1 =~= Seq::<ActionView>::empty());
        assert(run(s1, e1).1 =~= seq![session.fetch()]);
        assert(run(session, events).1 =~= seq![ActionView::QueryState, session.fetch()]);
    } else {
        let s2 = s1.at(Phase::Starting);
        assert(step_spec(s1, e1[0]) == Some((s2, ActionView::Start)));
        assert(run(s2, e2).1 =~= Seq::<ActionView>::empty());
        assert(run(s1, e1).1 =~= seq![ActionView::Start]);
        assert(run(session, events).1 =~= seq![ActionView::QueryState, ActionView::Start]);
    }
}

/// A model of a device with a start threshold: it runs from the moment it
/// is started, or `threshold` frames are queued, whichever comes first.
pub struct DeviceModel {
    pub threshold: nat,
    pub queued: nat,
    pub started: bool,
}

impl DeviceModel {
    /// The state the device reports.
    pub open spec fn state(self) -> DeviceState {
        if self.started || self.queued >= self.threshold {
            DeviceState::Running
        } else {
            DeviceState::Prepared
        }
    }

    /// The device after it accepted `frames` more frames.
    pub open spec fn after_write(self, frames: nat) -> DeviceModel {
        DeviceModel { queued: self.queued + frames, ..self }
    }

    /// The device after it was told to start `starts` times.
    pub open spec fn after_starts(self, starts: nat) -> DeviceModel {
        DeviceModel { started: self.started || starts > 0, ..self }
    }

    /// How the device answers while a buffer is played of which it accepts
    /// `accepted` frames.
    pub open spec fn reply(self, accepted: usize) -> Reply {
        Reply { accepted, state: self.after_write(accepted as nat).state() }
    }
}

/// Playing one block on a device with a start threshold leaves the device
/// running, whatever the threshold is and however much the device accepted:
/// where the frames queued reach the threshold, the device reports at the
/// status check that it runs and is not started again; where they do not, the
/// session starts it, once.
pub proof fn law_device_runs_after_each_buffer(
    session: SessionView,
    block: BlockView,
    device: DeviceModel,
    accepted: usize,
)
    requires
        session.phase == Phase::Fetching,
        session.source == Source::Decoder,
        block.channels == session.channels,
    ensures
        ({
            let actions = run(session, block_events(block, device.reply(accepted))).1;
            let queued = device.after_write(accepted as nat);
            &&& queued.after_starts(starts(actions)).state() == DeviceState::Running
            &&& starts(actions) == if queued.state() == DeviceState::Running {
                0nat
            } else {
                1nat
            }
            &&& queued.queued >= queued.threshold ==> starts(actions) == 0
        }),
{
    law_one_block_one_write(session, block, device.reply(accepted));
}

/// Once a buffer is written, nothing but a device that runs lets the session
/// go on to the next: it fetches again only on the report that the device is
/// running, or on the news that it has started.
pub proof fn law_fetch_needs_running_device(session: SessionView, event: EventView)
    requires
        session.phase == Phase::Writing || session.phase == Phase::Checking || session.phase
            == Phase::Starting,
        step_spec(session, event) is Some,
        step_spec(session, event)->Some_0.0.phase == Phase::Fetching,
    ensures
        (session.phase == Phase::Checking && event == EventView::State(DeviceState::Running)) || (
        session.phase == Phase::Starting && event == EventView::Started),
{
}

} // verus!
