//! The two states as an enum; the context is any implementation of a
//! trait.

use crate::state::{
    daytime, hour_message, hour_message_string, is_daytime, log_line, log_line_string,
    state_message, state_message_string, LAST_HOUR,
};
use vstd::prelude::*;
use vstd::string::*;

verus! {

/// What the states act on: it keeps the current state and writes the
/// log.
pub trait Context {
    /// The state that the context is in.
    spec fn state(&self) -> State;

    /// The line written for a call to the security center.
    spec fn security_text(&self, msg: Seq<char>) -> Seq<char>;

    /// The line written for a log entry.
    spec fn log_text(&self, msg: Seq<char>) -> Seq<char>;

    fn change_state(&mut self, state: State)
        ensures
            final(self).state() == state,
    ;

    fn call_security_center(&self, msg: &str) -> (out: String)
        ensures
            out@ == self.security_text(msg@),
    ;

    fn record_log(&self, msg: &str) -> (out: String)
        ensures
            out@ == self.log_text(msg@),
    ;
}

#[derive(Debug, Clone, Copy, PartialEq, Eq, Structural)]
pub enum State {
    Day,
    Night,
}

impl State {
    /// The label of the state in the log.
    pub open spec fn label(self) -> Seq<char> {
        match self {
            State::Night => "[夜間]"@,
            State::Day => "[昼間]"@,
        }
    }

    /// The other state.
    pub open spec fn spec_opposite(self) -> State {
        match self {
            State::Day => State::Night,
            State::Night => State::Day,
        }
    }

    /// The state that follows `self` when the clock shows `hour`: day
    /// during the day shift, night outside it.
    pub open spec fn after_clock(self, hour: u32) -> State {
        if is_daytime(hour) {
            State::Day
        } else {
            State::Night
        }
    }

    /// The message of `do_alarm`.
    pub open spec fn alarm_message(self) -> Seq<char> {
        match self {
            State::Night => "非常ベル(夜間)"@,
            State::Day => "非常ベル(昼間)"@,
        }
    }

    /// The message of `do_phone`.
    pub open spec fn phone_message(self) -> Seq<char> {
        match self {
            State::Night => "夜間の通話録音"@,
            State::Day => "通常の通話(昼間)"@,
        }
    }

    /// The label of the state, as a string.
    pub fn to_string(&self) -> (out: String)
        ensures
            out@ == self.label(),
    {
        match self {
            State::Night => String::from_str("[夜間]"),
            State::Day => String::from_str("[昼間]"),
        }
    }

    /// Sets the clock: the context is moved to the state that follows
    /// (and left alone where that is `self`), and then logs the hour and
    /// the state. Gives the state that follows and what was logged.
    pub fn do_clock<C: Context>(self, context: &mut C, hour: u32) -> (result: (State, String))
        ensures
            result.0 == self.after_clock(hour),
            result.0 == self ==> *final(context) == *old(context),
            result.0 != self ==> final(context).state() == result.0,
            result.1@ == final(context).log_text(hour_message(hour)) + final(context).log_text(
                state_message(result.0.label()),
            ),
    {
        let new_state = if daytime(hour) != (self == State::Day) {
            self.opposite()
        } else {
            self
        };
        if new_state != self {
            context.change_state(new_state);
        }
        let mut out = context.record_log(hour_message_string(hour).as_str());
        out.append(
            context.record_log(state_message_string(new_state.to_string().as_str()).as_str()).as_str(),
        );
        (new_state, out)
    }

    /// Uses the safe: logged by day, an emergency at night.
    pub fn do_use<C: Context>(self, context: &C) -> (out: String)
        ensures
            out@ == match self {
                State::Night => context.security_text("非常：夜間の金庫使用！"@),
                State::Day => context.log_text("金庫使用(昼間)"@),
            },
    {
        match self {
            State::Night => context.call_security_center("非常：夜間の金庫使用！"),
            State::Day => context.record_log("金庫使用(昼間)"),
        }
    }

    /// Rings the alarm: the security center is called.
    pub fn do_alarm<C: Context>(self, context: &C) -> (out: String)
        ensures
            out@ == context.security_text(self.alarm_message()),
    {
        let msg = match self {
            State::Night => "非常ベル(夜間)",
            State::Day => "非常ベル(昼間)",
        };
        context.call_security_center(msg)
    }

    /// Uses the phone: the call is logged.
    pub fn do_phone<C: Context>(self, context: &C) -> (out: String)
        ensures
            out@ == context.log_text(self.phone_message()),
    {
        let msg = match self {
            State::Night => "夜間の通話録音",
            State::Day => "通常の通話(昼間)",
        };
        context.record_log(msg)
    }

    pub fn opposite(self) -> (other: Self)
        ensures
            other == self.spec_opposite(),
    {
        match self {
            State::Day => State::Night,
            State::Night => State::Day,
        }
    }
}

/// What is written in the hour `hour` by a context whose lines are log
/// lines under the label of `state`, the state after the clock was set:
/// the hour, the state, and the action of the hour (the safe is used in
/// hours that divide by three, the alarm rings in the hour after, the
/// phone is used in the hour after that).
pub open spec fn hour_text(state: State, hour: u32) -> Seq<char> {
    log_line(state.label(), hour_message(hour)) + log_line(
        state.label(),
        state_message(state.label()),
    ) + log_line(
        state.label(),
        if hour % 3 == 0 {
            match state {
                State::Night => "非常：夜間の金庫使用！"@,
                State::Day => "金庫使用(昼間)"@,
            }
        } else if hour % 3 == 1 {
            state.alarm_message()
        } else {
            state.phone_message()
        },
    )
}

/// What is written in the hours below `hours`. The state at the start has
/// no part in it: every hour sets the state anew.
pub open spec fn run_text(hours: nat) -> Seq<char>
    decreases hours,
{
    if hours == 0 {
        Seq::empty()
    } else {
        let hour = (hours - 1) as u32;
        run_text((hours - 1) as nat) + hour_text(State::Day.after_clock(hour), hour)
    }
}

/// A context that writes every line under the label of its state.
pub struct StateContext {
    state: State,
}

impl StateContext {
    pub fn new(state: State) -> (context: Self)
        ensures
            context.state() == state,
    {
        Self { state }
    }

    /// Goes through the hours 0 to 24.
    pub fn run(&mut self) -> (out: String)
        ensures
            out@ == run_text((LAST_HOUR + 1) as nat),
            final(self).state() == State::Night,
    {
        let mut out = String::new();
        let mut hour: u32 = 0;
        while hour <= LAST_HOUR
            invariant
                hour <= LAST_HOUR + 1,
                out@ == run_text(hour as nat),
                hour > 0 ==> self.state == State::Day.after_clock((hour - 1) as u32),
            decreases LAST_HOUR + 1 - hour,
        {
            let state = self.state;
            let (new_state, logged) = state.do_clock(self, hour);
            self.state = new_state;
            out.append(logged.as_str());
            let acted = if hour % 3 == 0 {
                self.state.do_use(self)
            } else if hour % 3 == 1 {
                self.state.do_alarm(self)
            } else {
                self.state.do_phone(self)
            };
            out.append(acted.as_str());
            assert(out@ =~= run_text(hour as nat) + hour_text(new_state, hour));
            hour = hour + 1;
        }
        out
    }
}

impl Context for StateContext {
    closed spec fn state(&self) -> State {
        self.state
    }

    open spec fn security_text(&self, msg: Seq<char>) -> Seq<char> {
        log_line(self.state().label(), msg)
    }

    open spec fn log_text(&self, msg: Seq<char>) -> Seq<char> {
        log_line(self.state().label(), msg)
    }

    fn change_state(&mut self, state: State) {
        self.state = state;
    }

    fn call_security_center(&self, msg: &str) -> (out: String) {
        log_line_string(self.state.to_string().as_str(), msg)
    }

    fn record_log(&self, msg: &str) -> (out: String) {
        log_line_string(self.state.to_string().as_str(), msg)
    }
}

} // verus!
