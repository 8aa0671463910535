//! What holds of the run-state machine over whole sequences of events.

use vstd::prelude::*;
use crate::control::{
    language_codes, language_of, ControlView, LanguageView, ReplyView, RunState,
};
use crate::machine::{
    next_run_state, snapshot, ActionView, EventView, MachineView, SessionView,
};

verus! {

/// The run state after a sequence of events, the oldest first.
pub open spec fn run_state_after(start: RunState, events: Seq<EventView>) -> RunState
    decreases events.len(),
{
    if events.len() == 0 {
        start
    } else {
        next_run_state(run_state_after(start, events.drop_last()), events.last())
    }
}

impl EventView {
    /// Whether the event can change the run state.
    pub open spec fn moves(self) -> bool {
        self is Control && self->Control_0 is SetState || self.ends_session()
    }
}

impl MachineView {
    /// The machine after a sequence of events, the oldest first, while the
    /// wordlists that can be chosen stay the same.
    pub open spec fn run(self, events: Seq<EventView>, wordlists: Seq<Seq<char>>) -> MachineView
        decreases events.len(),
    {
        if events.len() == 0 {
            self
        } else {
            self.run(events.drop_last(), wordlists).step(events.last(), wordlists)
        }
    }
}

/// `n` ticks of the timer.
pub open spec fn ticks(n: nat) -> Seq<EventView> {
    Seq::new(n, |i: int| EventView::Tick)
}

/// The machine keeps its invariant, and its run state follows the events alone.
pub proof fn law_run_keeps_invariant(
    machine: MachineView,
    events: Seq<EventView>,
    wordlists: Seq<Seq<char>>,
)
    requires
        machine.wf(),
    ensures
        machine.run(events, wordlists).wf(),
        machine.run(events, wordlists).script == machine.script,
        machine.run(events, wordlists).run_state == run_state_after(machine.run_state, events),
    decreases events.len(),
{
    if events.len() > 0 {
        law_run_keeps_invariant(machine, events.drop_last(), wordlists);
        let before = machine.run(events.drop_last(), wordlists);
        if events.last() is Tick && before.run_state == RunState::Test {
            lemma_cursor_stays_inside(before.cursor, before.script.len() as int);
        }
    }
}

proof fn lemma_cursor_stays_inside(cursor: int, len: int)
    requires
        0 <= cursor < len,
    ensures
        0 <= (cursor + 1) % len < len,
{
    vstd::arithmetic::div_mod::lemma_mod_bound(cursor + 1, len);
}

/// Commands are served in the order in which they arrive: a `GetState` that
/// arrives after a `SetState` is answered with the run state that the machine
/// has when its turn comes. That state is the one that was set, unless an event
/// in between has moved the machine on.
pub proof fn law_query_follows_command(
    start: RunState,
    events: Seq<EventView>,
    set_at: int,
    get_at: int,
    target: RunState,
)
    requires
        0 <= set_at < get_at < events.len(),
        events[set_at] == EventView::Control(ControlView::SetState(target)),
        events[get_at] == EventView::Control(ControlView::GetState),
    ensures
        run_state_after(start, events.take(set_at + 1)) == target,
        forall|machine: MachineView, wordlists: Seq<Seq<char>>|
            machine.run_state == run_state_after(start, events.take(get_at)) ==> #[trigger] machine.action(
                events[get_at],
                wordlists,
            ) == ActionView::Reply(ReplyView::State(machine.run_state)),
        (forall|k: int| set_at < k < get_at ==> !(#[trigger] events[k]).moves())
            ==> run_state_after(start, events.take(get_at)) == target,
{
    assert(events.take(set_at + 1).last() == events[set_at]);
    if forall|k: int| set_at < k < get_at ==> !(#[trigger] events[k]).moves() {
        lemma_state_rests(start, events, set_at + 1, get_at);
    }
}

/// The run state does not change over events that cannot move it.
proof fn lemma_state_rests(start: RunState, events: Seq<EventView>, from: int, to: int)
    requires
        0 <= from <= to <= events.len(),
        forall|k: int| from <= k < to ==> !(#[trigger] events[k]).moves(),
    ensures
        run_state_after(start, events.take(to)) == run_state_after(start, events.take(from)),
    decreases to - from,
{
    if from < to {
        lemma_state_rests(start, events, from, to - 1);
        assert(events.take(to).drop_last() =~= events.take(to - 1));
        assert(events.take(to).last() == events[to - 1]);
        assert(!events[to - 1].moves());
    }
}

/// Test mode walks its script round and round: after `n` ticks the cursor has
/// moved on by `n` places, wrapping behind the last line, and the next tick
/// emits the line under it.
pub proof fn law_ticks_cycle(machine: MachineView, n: nat, wordlists: Seq<Seq<char>>)
    requires
        machine.wf(),
        machine.run_state == RunState::Test,
    ensures
        machine.run(ticks(n), wordlists).run_state == RunState::Test,
        machine.run(ticks(n), wordlists).cursor == (machine.cursor + n) % (
        machine.script.len() as int),
        machine.run(ticks(n), wordlists).action(EventView::Tick, wordlists) == ActionView::Publish(
            machine.script[(machine.cursor + n) % (machine.script.len() as int)],
        ),
    decreases n,
{
    let len = machine.script.len() as int;
    if n == 0 {
        assert(ticks(0) =~= Seq::<EventView>::empty());
        vstd::arithmetic::div_mod::lemma_small_mod(machine.cursor as nat, len as nat);
    } else {
        law_ticks_cycle(machine, (n - 1) as nat, wordlists);
        law_run_keeps_invariant(machine, ticks((n - 1) as nat), wordlists);
        assert(ticks(n).drop_last() =~= ticks((n - 1) as nat));
        assert(ticks(n).last() == EventView::Tick);
        vstd::arithmetic::div_mod::lemma_add_mod_noop_right(1, machine.cursor + n - 1, len);
        vstd::arithmetic::div_mod::lemma_mod_bound(machine.cursor + n - 1, len);
        vstd::arithmetic::div_mod::lemma_mod_bound(machine.cursor + n, len);
    }
}

/// A session keeps what it started with: while the machine stays `Running`,
/// no event changes the configuration of the session under way.
pub proof fn law_session_keeps_configuration(
    machine: MachineView,
    events: Seq<EventView>,
    wordlists: Seq<Seq<char>>,
)
    requires
        machine.wf(),
        machine.run_state == RunState::Running,
        forall|k: int| 0 <= k < events.len() ==> !(#[trigger] events[k]).moves(),
    ensures
        machine.run(events, wordlists).run_state == RunState::Running,
        machine.run(events, wordlists).session == machine.session,
    decreases events.len(),
{
    if events.len() > 0 {
        law_session_keeps_configuration(machine, events.drop_last(), wordlists);
        assert(!events[events.len() - 1].moves());
    }
}

/// A session starts with the configuration of the moment at which it starts.
pub proof fn law_session_starts_with_current_configuration(
    machine: MachineView,
    wordlists: Seq<Seq<char>>,
)
    requires
        machine.run_state != RunState::Running,
    ensures
        machine.step(
            EventView::Control(ControlView::SetState(RunState::Running)),
            wordlists,
        ).session == Some(snapshot(machine.setup)),
{
}

/// A language chosen during a session is used by the next session, not by the
/// one under way.
pub proof fn law_next_session_uses_new_language(
    machine: MachineView,
    code: Seq<char>,
    wordlists: Seq<Seq<char>>,
)
    requires
        machine.wf(),
        machine.run_state == RunState::Running,
        language_codes().contains(code),
    ensures
        ({
            let chosen = machine.step(EventView::Control(ControlView::SetLanguage(code)), wordlists);
            let stopped = chosen.step(
                EventView::Control(ControlView::SetState(RunState::Stopped)),
                wordlists,
            );
            let restarted = stopped.step(
                EventView::Control(ControlView::SetState(RunState::Running)),
                wordlists,
            );
            &&& chosen.session == machine.session
            &&& restarted.session == Some(
                SessionView { language: language_of(code), wordlist: machine.setup.wordlist },
            )
        }),
{
}

/// Exactly the queries are answered, each with the kind of reply that it asks
/// for.
pub proof fn law_queries_are_answered(
    machine: MachineView,
    msg: ControlView,
    wordlists: Seq<Seq<char>>,
)
    ensures
        machine.action(EventView::Control(msg), wordlists) is Reply <==> msg.is_query(),
        machine.action(EventView::Control(msg), wordlists) matches ActionView::Reply(reply) ==> {
            &&& reply is State <==> msg is GetState
            &&& reply is Language <==> msg is GetLanguage
            &&& reply is Wordlist <==> msg is GetWordlist
        },
{
}

/// The language in force is always one of the options, whatever is asked for.
pub proof fn law_language_stays_among_options(
    machine: MachineView,
    events: Seq<EventView>,
    wordlists: Seq<Seq<char>>,
)
    requires
        language_codes().contains(machine.setup.language),
    ensures
        language_codes().contains(machine.run(events, wordlists).setup.language),
    decreases events.len(),
{
    if events.len() > 0 {
        law_language_stays_among_options(machine, events.drop_last(), wordlists);
    }
}

/// A language code that is not among the options changes nothing, and the
/// query that follows reports the language that was in force before.
pub proof fn law_unknown_language_is_ignored(
    machine: MachineView,
    code: Seq<char>,
    wordlists: Seq<Seq<char>>,
)
    requires
        machine.wf(),
        !language_codes().contains(code),
    ensures
        machine.step(EventView::Control(ControlView::SetLanguage(code)), wordlists) == machine,
        machine.step(EventView::Control(ControlView::SetLanguage(code)), wordlists).action(
            EventView::Control(ControlView::GetLanguage),
            wordlists,
        ) == ActionView::Reply(
            ReplyView::Language(
                LanguageView { options: language_codes(), current: machine.setup.language },
            ),
        ),
{
}

/// When audio ingestion gives up, a `Running` machine falls back to `Stopped`,
/// and publishes no line until a command moves it again.
pub proof fn law_ingest_abort_silences_session(
    machine: MachineView,
    events: Seq<EventView>,
    wordlists: Seq<Seq<char>>,
)
    requires
        machine.wf(),
        machine.run_state == RunState::Running,
        forall|k: int| 0 <= k < events.len() ==> !((#[trigger] events[k]) is Control),
    ensures
        machine.step(EventView::IngestAborted, wordlists).run_state == RunState::Stopped,
        machine.step(EventView::IngestAborted, wordlists).action(EventView::IngestAborted, wordlists)
            == ActionView::Nothing,
        machine.action(EventView::IngestAborted, wordlists) == (ActionView::Transition {
            from: RunState::Running,
            to: RunState::Stopped,
        }),
        forall|k: int|
            0 <= k < events.len() ==> {
                let before = machine.step(EventView::IngestAborted, wordlists).run(
                    #[trigger] events.take(k),
                    wordlists,
                );
                before.run_state == RunState::Stopped && before.action(events[k], wordlists)
                    == ActionView::Nothing
            },
{
    let stopped = machine.step(EventView::IngestAborted, wordlists);
    assert forall|k: int| 0 <= k < events.len() implies {
        let before = stopped.run(#[trigger] events.take(k), wordlists);
        before.run_state == RunState::Stopped && before.action(events[k], wordlists)
            == ActionView::Nothing
    } by {
        lemma_stopped_rests(stopped, events.take(k), wordlists);
        assert(!(events[k] is Control));
    }
}

/// A `Stopped` machine stays `Stopped` while no command arrives.
proof fn lemma_stopped_rests(
    machine: MachineView,
    events: Seq<EventView>,
    wordlists: Seq<Seq<char>>,
)
    requires
        machine.run_state == RunState::Stopped,
        forall|k: int| 0 <= k < events.len() ==> !((#[trigger] events[k]) is Control),
    ensures
        machine.run(events, wordlists).run_state == RunState::Stopped,
    decreases events.len(),
{
    if events.len() > 0 {
        lemma_stopped_rests(machine, events.drop_last(), wordlists);
        assert(!(events[events.len() - 1] is Control));
    }
}

} // verus!
