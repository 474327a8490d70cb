//! Watching a theme: when the clients are told to reload.
use vstd::prelude::*;

verus! {

/// What happened to a file.
#[derive(Clone, Copy, Debug, PartialEq, Eq, Structural)]
pub enum ChangeKind {
    Any,
    Access,
    Create,
    Modify,
    Remove,
    Other,
}

/// What the watcher has next.
#[derive(Clone, Copy, Debug, PartialEq, Eq, Structural)]
pub enum WatchEvent {
    /// Something happened to a file.
    Changed(ChangeKind),
    /// The watcher met an error.
    Failed,
    /// There is nothing.
    Quiet,
    /// There will be nothing any more.
    Closed,
}

/// What is done next.
#[derive(Clone, Copy, Debug, PartialEq, Eq, Structural)]
pub enum WatchAction {
    /// The next event is waited for, for a tenth of a second.
    Wait,
    /// The next event is taken without waiting.
    Drain,
    /// The clients are told to reload; then the next event is waited for.
    Reload,
    /// The watch ends.
    Stop,
}

/// A change of what the theme holds.
pub open spec fn changes_theme(kind: ChangeKind) -> bool {
    kind == ChangeKind::Create || kind == ChangeKind::Modify || kind == ChangeKind::Remove
}

/// Whether a reload is pending after an event.
pub open spec fn pending_after(pending: bool, event: WatchEvent) -> bool {
    match event {
        WatchEvent::Changed(kind) => pending || changes_theme(kind),
        _ => false,
    }
}

/// What is done at an event.
pub open spec fn watch_action(pending: bool, event: WatchEvent) -> WatchAction {
    match event {
        WatchEvent::Changed(kind) => if pending || changes_theme(kind) {
            WatchAction::Drain
        } else {
            WatchAction::Wait
        },
        WatchEvent::Closed if !pending => WatchAction::Stop,
        _ => if pending {
            WatchAction::Reload
        } else {
            WatchAction::Wait
        },
    }
}

/// A watch on a theme. After a change it takes what comes with it, and then tells the clients.
#[derive(Debug)]
pub struct ThemeWatch {
    pending: bool,
}

impl View for ThemeWatch {
    type V = bool;

    /// Whether a reload is pending.
    closed spec fn view(&self) -> bool {
        self.pending
    }
}

impl ThemeWatch {
    /// A watch with no reload pending. It waits for the first event.
    pub fn new() -> (watch: Self)
        ensures
            !watch@,
    {
        ThemeWatch { pending: false }
    }

    /// Takes an event and says what is done next.
    pub fn on_event(&mut self, event: WatchEvent) -> (action: WatchAction)
        ensures
            final(self)@ == pending_after(old(self)@, event),
            action == watch_action(old(self)@, event),
    {
        match event {
            WatchEvent::Changed(kind) => {
                if self.pending || kind == ChangeKind::Create || kind == ChangeKind::Modify || kind
                    == ChangeKind::Remove {
                    self.pending = true;
                    WatchAction::Drain
                } else {
                    WatchAction::Wait
                }
            },
            WatchEvent::Failed | WatchEvent::Quiet => {
                if self.pending {
                    self.pending = false;
                    WatchAction::Reload
                } else {
                    WatchAction::Wait
                }
            },
            WatchEvent::Closed => {
                if self.pending {
                    self.pending = false;
                    WatchAction::Reload
                } else {
                    WatchAction::Stop
                }
            },
        }
    }
}

/// What is done at each of a sequence of events.
pub open spec fn watch_actions(pending: bool, events: Seq<WatchEvent>) -> Seq<WatchAction>
    decreases events.len(),
{
    if events.len() == 0 {
        seq![]
    } else {
        seq![watch_action(pending, events[0])] + watch_actions(
            pending_after(pending, events[0]),
            events.drop_first(),
        )
    }
}

/// A change of the theme, whatever other changes come with it, is told to the clients once.
pub proof fn a_burst_reloads_once(first: ChangeKind, rest: Seq<ChangeKind>, end: WatchEvent)
    requires
        changes_theme(first),
        !(end is Changed),
    ensures
        watch_actions(
            false,
            seq![WatchEvent::Changed(first)] + rest.map_values(
                |kind: ChangeKind| WatchEvent::Changed(kind),
            ) + seq![end],
        ) == Seq::new(1 + rest.len(), |i: int| WatchAction::Drain) + seq![WatchAction::Reload],
{
    let changes = rest.map_values(|kind: ChangeKind| WatchEvent::Changed(kind));
    let events = seq![WatchEvent::Changed(first)] + changes + seq![end];
    assert(events.drop_first() =~= changes + seq![end]);
    drain_then_reload(rest, end);
    assert(watch_actions(false, events) =~= Seq::new(
        1 + rest.len(),
        |i: int| WatchAction::Drain,
    ) + seq![WatchAction::Reload]);
}

proof fn drain_then_reload(rest: Seq<ChangeKind>, end: WatchEvent)
    requires
        !(end is Changed),
    ensures
        watch_actions(
            true,
            rest.map_values(|kind: ChangeKind| WatchEvent::Changed(kind)) + seq![end],
        ) == Seq::new(rest.len(), |i: int| WatchAction::Drain) + seq![WatchAction::Reload],
    decreases rest.len(),
{
    let events = rest.map_values(|kind: ChangeKind| WatchEvent::Changed(kind)) + seq![end];
    if rest.len() == 0 {
        reveal_with_fuel(watch_actions, 2);
        assert(events =~= seq![end]);
        assert(watch_actions(true, events) =~= seq![WatchAction::Reload]);
        assert(Seq::new(0, |i: int| WatchAction::Drain) + seq![WatchAction::Reload]
            =~= seq![WatchAction::Reload]);
    } else {
        let tail = rest.drop_first();
        assert(events.drop_first() =~= tail.map_values(
            |kind: ChangeKind| WatchEvent::Changed(kind),
        ) + seq![end]);
        drain_then_reload(tail, end);
        assert(watch_actions(true, events) =~= Seq::new(rest.len(), |i: int| WatchAction::Drain)
            + seq![WatchAction::Reload]);
    }
}

/// Without a change of the theme no client is told to reload.
pub proof fn nothing_reloads_without_a_change(events: Seq<WatchEvent>)
    requires
        forall|i: int| 0 <= i < events.len() && #[trigger] events[i] is Changed ==> !changes_theme(
            events[i]->0,
        ),
    ensures
        !watch_actions(false, events).contains(WatchAction::Reload),
    decreases events.len(),
{
    if events.len() > 0 {
        let tail = events.drop_first();
        assert forall|i: int| 0 <= i < tail.len() && #[trigger] tail[i] is Changed implies !changes_theme(
            tail[i]->0,
        ) by {
            assert(tail[i] == events[i + 1]);
        }
        assert(events[0] is Changed ==> !changes_theme(events[0]->0));
        nothing_reloads_without_a_change(tail);
        let actions = watch_actions(false, events);
        let after = watch_actions(false, tail);
        assert forall|i: int| 0 <= i < actions.len() implies actions[i] != WatchAction::Reload by {
            if i > 0 {
                assert(actions[i] == after[i - 1]);
                assert(after.contains(after[i - 1]));
            }
        }
    }
}

/// Without a reload pending, a file that is created, changed or removed starts one; what else
/// happens to a file does not, nor does silence or an error, and the end of events ends the watch.
pub proof fn creating_changing_and_removing_count(kind: ChangeKind)
    ensures
        kind == ChangeKind::Create || kind == ChangeKind::Modify || kind == ChangeKind::Remove ==> {
            &&& watch_action(false, WatchEvent::Changed(kind)) == WatchAction::Drain
            &&& pending_after(false, WatchEvent::Changed(kind))
        },
        kind == ChangeKind::Any || kind == ChangeKind::Access || kind == ChangeKind::Other ==> {
            &&& watch_action(false, WatchEvent::Changed(kind)) == WatchAction::Wait
            &&& !pending_after(false, WatchEvent::Changed(kind))
        },
        watch_action(false, WatchEvent::Quiet) == WatchAction::Wait,
        watch_action(false, WatchEvent::Failed) == WatchAction::Wait,
        watch_action(false, WatchEvent::Closed) == WatchAction::Stop,
        !pending_after(false, WatchEvent::Quiet),
        !pending_after(false, WatchEvent::Failed),
        !pending_after(false, WatchEvent::Closed),
{
}

/// With a reload pending, whatever happens to files is taken in; at anything else the clients are
/// told, and then no reload is pending.
pub proof fn pending_reloads_are_told(event: WatchEvent)
    ensures
        event is Changed ==> watch_action(true, event) == WatchAction::Drain && pending_after(
            true,
            event,
        ),
        !(event is Changed) ==> watch_action(true, event) == WatchAction::Reload && !pending_after(
            true,
            event,
        ),
{
}

/// A watch begins with no reload pending.
pub proof fn watches_begin_with_nothing_pending(watch: ThemeWatch)
    requires
        call_ensures(ThemeWatch::new, (), watch),
    ensures
        !watch@,
{
}

} // verus!
