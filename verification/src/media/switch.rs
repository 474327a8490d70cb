//! Changing the session that is followed: the old one is left, the new one is found, read and
//! subscribed to, and a subscription that fails half way is taken back.
use vstd::prelude::*;
use super::filter::matches_process_filter;
use super::smtc::EventState;
#[allow(unused_imports)]
use crate::song::no_song;

verus! {

/// What a session is subscribed to.
#[derive(Clone, Copy, Debug, PartialEq, Eq, Structural)]
pub enum Topic {
    Playback,
    Media,
    Timeline,
}

/// What is to be done next.
#[derive(Clone, Copy, Debug, PartialEq, Eq, Structural)]
pub enum SwitchAction {
    /// Remove all subscriptions of the session that was followed so far.
    Detach,
    /// Ask for the current session and the application that it belongs to.
    FindSession,
    /// Read the new session in full.
    Refresh,
    /// Subscribe to the new session.
    Subscribe(Topic),
    /// Take a subscription to the new session back.
    Unsubscribe(Topic),
    /// Remember the new session, with its subscriptions, as the one that is followed.
    Keep,
    /// Nothing: the change is over.
    Finish,
}

/// How the last action came out.
#[derive(Debug)]
pub enum SwitchEvent {
    /// It was carried out.
    Done,
    /// It failed; for [`SwitchAction::FindSession`], there is no session.
    Failed,
    /// The session that was asked for belongs to this application.
    Found { app_id: String, app_name: String },
}

/// A change of session under way: the action that is being carried out, and the subscriptions
/// to the new session that stand.
#[derive(Clone, Copy, Debug, PartialEq, Eq, Structural)]
pub struct SessionSwitch {
    pub action: SwitchAction,
    pub playback: bool,
    pub media: bool,
    pub timeline: bool,
}

/// The subscriptions that may stand while an action is carried out.
pub open spec fn sound(switch: SessionSwitch) -> bool {
    let standing = (switch.playback, switch.media, switch.timeline);
    match switch.action {
        SwitchAction::Detach | SwitchAction::FindSession | SwitchAction::Refresh => standing == (
            false,
            false,
            false,
        ),
        SwitchAction::Subscribe(Topic::Playback) => standing == (false, false, false),
        SwitchAction::Subscribe(Topic::Media) => standing == (true, false, false),
        SwitchAction::Subscribe(Topic::Timeline) => standing == (true, true, false),
        SwitchAction::Unsubscribe(Topic::Playback) => switch.playback && !switch.timeline,
        SwitchAction::Unsubscribe(Topic::Media) => standing == (false, true, false),
        SwitchAction::Unsubscribe(Topic::Timeline) => false,
        SwitchAction::Keep => standing == (true, true, true),
        SwitchAction::Finish => standing == (true, true, true) || standing == (
            false,
            false,
            false,
        ),
    }
}

/// The event tells of a session whose application the filter admits.
pub open spec fn admitted(filter: Seq<char>, event: SwitchEvent) -> bool {
    event matches SwitchEvent::Found { app_id, app_name } && super::filter::admits(
        filter,
        app_id@,
        app_name@,
    )
}

/// What a change of session goes on with.
pub open spec fn next_switch(
    switch: SessionSwitch,
    event: SwitchEvent,
    filter: Seq<char>,
) -> SessionSwitch {
    let ok = event is Done;
    match switch.action {
        SwitchAction::Detach => SessionSwitch { action: SwitchAction::FindSession, ..switch },
        SwitchAction::FindSession => SessionSwitch {
            action: if admitted(filter, event) {
                SwitchAction::Refresh
            } else {
                SwitchAction::Finish
            },
            ..switch
        },
        SwitchAction::Refresh => SessionSwitch {
            action: SwitchAction::Subscribe(Topic::Playback),
            ..switch
        },
        SwitchAction::Subscribe(Topic::Playback) => SessionSwitch {
            action: if ok {
                SwitchAction::Subscribe(Topic::Media)
            } else {
                SwitchAction::Finish
            },
            playback: ok,
            ..switch
        },
        SwitchAction::Subscribe(Topic::Media) => SessionSwitch {
            action: if ok {
                SwitchAction::Subscribe(Topic::Timeline)
            } else {
                SwitchAction::Unsubscribe(Topic::Playback)
            },
            media: ok,
            ..switch
        },
        SwitchAction::Subscribe(Topic::Timeline) => SessionSwitch {
            action: if ok {
                SwitchAction::Keep
            } else {
                SwitchAction::Unsubscribe(Topic::Playback)
            },
            timeline: ok,
            ..switch
        },
        SwitchAction::Unsubscribe(Topic::Playback) => SessionSwitch {
            action: if switch.media {
                SwitchAction::Unsubscribe(Topic::Media)
            } else {
                SwitchAction::Finish
            },
            playback: false,
            ..switch
        },
        SwitchAction::Unsubscribe(Topic::Media) => SessionSwitch {
            action: SwitchAction::Finish,
            media: false,
            ..switch
        },
        SwitchAction::Unsubscribe(Topic::Timeline) => SessionSwitch {
            action: SwitchAction::Finish,
            timeline: false,
            ..switch
        },
        SwitchAction::Keep | SwitchAction::Finish => SessionSwitch {
            action: SwitchAction::Finish,
            ..switch
        },
    }
}

/// What is remembered of the song when a change of session goes on: an application that the
/// filter admits is noted, and where there is no such application the song is forgotten.
pub open spec fn next_state(
    switch: SessionSwitch,
    event: SwitchEvent,
    state: super::smtc::EventView,
) -> super::smtc::EventView {
    if switch.action != SwitchAction::FindSession {
        state
    } else if admitted(state.process_filter, event) {
        super::smtc::EventView {
            app_id: event->app_id@,
            app_name: event->app_name@,
            ..state
        }
    } else {
        super::smtc::cleared(state)
    }
}

impl SessionSwitch {
    /// The beginning of a change: a session that was followed so far is left first.
    pub fn start(attached: bool) -> (switch: Self)
        ensures
            switch == (SessionSwitch {
                action: if attached {
                    SwitchAction::Detach
                } else {
                    SwitchAction::FindSession
                },
                playback: false,
                media: false,
                timeline: false,
            }),
            sound(switch),
    {
        SessionSwitch {
            action: if attached {
                SwitchAction::Detach
            } else {
                SwitchAction::FindSession
            },
            playback: false,
            media: false,
            timeline: false,
        }
    }

    /// Goes on after the last action came out as the event says.
    pub fn on_session_changed(&mut self, event: SwitchEvent, state: &mut EventState)
        ensures
            *final(self) == next_switch(*old(self), event, old(state)@.process_filter),
            final(state)@ == next_state(*old(self), event, old(state)@),
    {
        let ok = match &event {
            SwitchEvent::Done => true,
            _ => false,
        };
        match self.action {
            SwitchAction::Detach => {
                self.action = SwitchAction::FindSession;
            },
            SwitchAction::FindSession => {
                let mut followed = false;
                if let SwitchEvent::Found { app_id, app_name } = event {
                    if matches_process_filter(
                        state.process_filter.as_str(),
                        app_id.as_str(),
                        app_name.as_str(),
                    ) {
                        state.app_id = app_id;
                        state.app_name = app_name;
                        followed = true;
                    }
                }
                if followed {
                    self.action = SwitchAction::Refresh;
                } else {
                    state.clear_state();
                    self.action = SwitchAction::Finish;
                }
            },
            SwitchAction::Refresh => {
                self.action = SwitchAction::Subscribe(Topic::Playback);
            },
            SwitchAction::Subscribe(Topic::Playback) => {
                self.playback = ok;
                self.action =
                if ok {
                    SwitchAction::Subscribe(Topic::Media)
                } else {
                    SwitchAction::Finish
                };
            },
            SwitchAction::Subscribe(Topic::Media) => {
                self.media = ok;
                self.action =
                if ok {
                    SwitchAction::Subscribe(Topic::Timeline)
                } else {
                    SwitchAction::Unsubscribe(Topic::Playback)
                };
            },
            SwitchAction::Subscribe(Topic::Timeline) => {
                self.timeline = ok;
                self.action =
                if ok {
                    SwitchAction::Keep
                } else {
                    SwitchAction::Unsubscribe(Topic::Playback)
                };
            },
            SwitchAction::Unsubscribe(Topic::Playback) => {
                self.playback = false;
                self.action =
                if self.media {
                    SwitchAction::Unsubscribe(Topic::Media)
                } else {
                    SwitchAction::Finish
                };
            },
            SwitchAction::Unsubscribe(Topic::Media) => {
                self.media = false;
                self.action = SwitchAction::Finish;
            },
            SwitchAction::Unsubscribe(Topic::Timeline) => {
                self.timeline = false;
                self.action = SwitchAction::Finish;
            },
            SwitchAction::Keep | SwitchAction::Finish => {
                self.action = SwitchAction::Finish;
            },
        }
    }
}

/// A bound on the number of actions that are left.
pub open spec fn actions_left(action: SwitchAction) -> nat {
    match action {
        SwitchAction::Detach => 8,
        SwitchAction::FindSession => 7,
        SwitchAction::Refresh => 6,
        SwitchAction::Subscribe(Topic::Playback) => 5,
        SwitchAction::Subscribe(Topic::Media) => 4,
        SwitchAction::Subscribe(Topic::Timeline) => 3,
        SwitchAction::Unsubscribe(Topic::Playback) => 2,
        SwitchAction::Unsubscribe(Topic::Media) => 1,
        SwitchAction::Unsubscribe(Topic::Timeline) => 1,
        SwitchAction::Keep => 1,
        SwitchAction::Finish => 0,
    }
}

/// Every change of session comes to an end, whatever fails on the way.
pub proof fn switch_ends(switch: SessionSwitch, event: SwitchEvent, filter: Seq<char>)
    ensures
        switch.action != SwitchAction::Finish ==> actions_left(
            next_switch(switch, event, filter).action,
        ) < actions_left(switch.action),
        switch.action == SwitchAction::Finish ==> next_switch(switch, event, filter).action
            == SwitchAction::Finish,
{
}

/// A change of session leaves no subscription behind by half: at its end either all of them
/// stand, and then the session was kept, or none does.
pub proof fn subscriptions_stand_together(
    switch: SessionSwitch,
    event: SwitchEvent,
    filter: Seq<char>,
)
    requires
        sound(switch),
    ensures
        sound(next_switch(switch, event, filter)),
        ({
            let next = next_switch(switch, event, filter);
            next.action == SwitchAction::Finish ==> {
                ||| next.playback && next.media && next.timeline
                ||| !next.playback && !next.media && !next.timeline
            }
        }),
        ({
            let next = next_switch(switch, event, filter);
            next.action == SwitchAction::Finish && next.playback && switch.action
                != SwitchAction::Finish ==> switch.action == SwitchAction::Keep
        }),
{
}

/// No session of an application that the filter does not admit is ever read or subscribed to, and
/// its song is not shown.
pub proof fn unadmitted_sessions_are_not_followed(
    switch: SessionSwitch,
    event: SwitchEvent,
    state: super::smtc::EventView,
)
    requires
        switch.action == SwitchAction::FindSession,
        !admitted(state.process_filter, event),
    ensures
        next_switch(switch, event, state.process_filter).action == SwitchAction::Finish,
        next_state(switch, event, state).published == no_song(),
{
}

/// A change of session that nothing goes wrong in leaves the old session, finds the new one, reads
/// it, subscribes to playback, media and timeline, keeps it, and ends with all three subscriptions.
pub proof fn successful_switches_take_all_steps(
    filter: Seq<char>,
    app_id: String,
    app_name: String,
    standing: SessionSwitch,
)
    requires
        super::filter::admits(filter, app_id@, app_name@),
        standing.action == SwitchAction::Detach,
    ensures
        ({
            let done = SwitchEvent::Done;
            let found = SwitchEvent::Found { app_id, app_name };
            let left = next_switch(standing, done, filter);
            let known = next_switch(left, found, filter);
            let read = next_switch(known, done, filter);
            let playback = next_switch(read, done, filter);
            let media = next_switch(playback, done, filter);
            let timeline = next_switch(media, done, filter);
            let kept = next_switch(timeline, done, filter);
            &&& left.action == SwitchAction::FindSession
            &&& known.action == SwitchAction::Refresh
            &&& read.action == SwitchAction::Subscribe(Topic::Playback)
            &&& playback.action == SwitchAction::Subscribe(Topic::Media)
            &&& playback.playback
            &&& media.action == SwitchAction::Subscribe(Topic::Timeline)
            &&& media.playback && media.media
            &&& timeline.action == SwitchAction::Keep
            &&& kept.action == SwitchAction::Finish
            &&& kept.playback && kept.media && kept.timeline
        }),
{
}

/// Whatever subscription fails, those that were made are taken back before the change ends: playback
/// first and then media.
pub proof fn failed_subscriptions_are_taken_back(
    switch: SessionSwitch,
    filter: Seq<char>,
    event: SwitchEvent,
)
    requires
        sound(switch),
    ensures
        switch.action == SwitchAction::Subscribe(Topic::Playback) ==> next_switch(
            switch,
            SwitchEvent::Failed,
            filter,
        ).action == SwitchAction::Finish,
        switch.action == SwitchAction::Subscribe(Topic::Media) || switch.action
            == SwitchAction::Subscribe(Topic::Timeline) ==> next_switch(
            switch,
            SwitchEvent::Failed,
            filter,
        ).action == SwitchAction::Unsubscribe(Topic::Playback),
        switch.action == SwitchAction::Unsubscribe(Topic::Playback) && switch.media ==> next_switch(
            switch,
            event,
            filter,
        ).action == SwitchAction::Unsubscribe(Topic::Media),
        switch.action == SwitchAction::Unsubscribe(Topic::Playback) && !switch.media
            ==> next_switch(switch, event, filter).action == SwitchAction::Finish,
        switch.action == SwitchAction::Unsubscribe(Topic::Media) ==> {
            let end = next_switch(switch, event, filter);
            &&& end.action == SwitchAction::Finish
            &&& !end.playback && !end.media && !end.timeline
        },
{
}

/// A session whose application the filter admits, by its identifier and name, is followed: it is
/// read, and its application is the one that is remembered. Its song is read later, so the record
/// stays for now.
pub proof fn admitted_sessions_are_followed(
    switch: SessionSwitch,
    app_id: String,
    app_name: String,
    state: super::smtc::EventView,
)
    requires
        switch.action == SwitchAction::FindSession,
        super::filter::admits(state.process_filter, app_id@, app_name@),
    ensures
        ({
            let event = SwitchEvent::Found { app_id, app_name };
            let next = next_state(switch, event, state);
            &&& next_switch(switch, event, state.process_filter).action == SwitchAction::Refresh
            &&& next.app_id == app_id@
            &&& next.app_name == app_name@
            &&& next.published == state.published
            &&& next.last_song == state.last_song
            &&& next.process_filter == state.process_filter
        }),
{
}

/// A session that is not followed, because there is none or the filter does not admit its
/// application by identifier or name, leaves no song and no application.
pub proof fn sessions_that_are_not_followed_leave_nothing(
    switch: SessionSwitch,
    event: SwitchEvent,
    state: super::smtc::EventView,
)
    requires
        switch.action == SwitchAction::FindSession,
        event matches SwitchEvent::Found { app_id, app_name } ==> !super::filter::admits(
            state.process_filter,
            app_id@,
            app_name@,
        ),
    ensures
        ({
            let next = next_state(switch, event, state);
            &&& next_switch(switch, event, state.process_filter).action == SwitchAction::Finish
            &&& next.published == no_song()
            &&& next.last_song == no_song()
            &&& next.last_position is None
            &&& next.app_id.len() == 0
            &&& next.app_name.len() == 0
            &&& next.process_filter == state.process_filter
        }),
{
}

/// Only finding the session changes what is remembered of the song.
pub proof fn other_steps_leave_the_song(
    switch: SessionSwitch,
    event: SwitchEvent,
    state: super::smtc::EventView,
)
    requires
        switch.action != SwitchAction::FindSession,
    ensures
        next_state(switch, event, state) == state,
{
}

/// A change begins with leaving the session that is followed, if there is one, and else with finding
/// the new one.
pub proof fn switches_leave_the_old_session_first(attached: bool, switch: SessionSwitch)
    requires
        call_ensures(SessionSwitch::start, (attached,), switch),
    ensures
        attached ==> switch.action == SwitchAction::Detach,
        !attached ==> switch.action == SwitchAction::FindSession,
        !switch.playback && !switch.media && !switch.timeline,
{
}

} // verus!
