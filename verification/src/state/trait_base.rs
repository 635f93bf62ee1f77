//! The two states as implementations of a trait, each a type of its own,
//! held by the context as a trait object.

use crate::state::{daytime, is_daytime, log_line, log_line_string, LAST_HOUR};
use vstd::prelude::*;
use vstd::string::*;

verus! {

/// The names of the two states.
#[derive(Debug, Clone, Copy, PartialEq, Eq, Structural)]
pub enum Shift {
    Day,
    Night,
}

/// What a state asks of the context.
#[derive(Debug, Clone, Copy)]
pub enum Action {
    CallSecurityCenter(&'static str),
    RecordLog(&'static str),
}

impl Shift {
    /// The label of the state in the log.
    pub open spec fn label(self) -> Seq<char> {
        match self {
            Shift::Day => "[昼間]"@,
            Shift::Night => "[夜間]"@,
        }
    }

    /// The state that is to follow when the clock shows `hour`, or `None`
    /// where the state is to stay: night follows day outside the day
    /// shift, day follows night during it.
    pub open spec fn after_clock(self, hour: u32) -> Option<Shift> {
        match self {
            Shift::Day => if is_daytime(hour) {
                None
            } else {
                Some(Shift::Night)
            },
            Shift::Night => if is_daytime(hour) {
                Some(Shift::Day)
            } else {
                None
            },
        }
    }

    /// The state in which the context is after the clock was set.
    pub open spec fn next(self, hour: u32) -> Shift {
        match self.after_clock(hour) {
            Some(shift) => shift,
            None => self,
        }
    }

    /// What is to be done when the safe is used: logged by day, an
    /// emergency at night.
    pub open spec fn use_action(self) -> Action {
        match self {
            Shift::Day => Action::RecordLog("金庫使用(昼間)"),
            Shift::Night => Action::CallSecurityCenter("非常：夜間の金庫使用！"),
        }
    }

    /// What is to be done when the alarm rings.
    pub open spec fn alarm_action(self) -> Action {
        match self {
            Shift::Day => Action::CallSecurityCenter("非常ベル(昼間)"),
            Shift::Night => Action::CallSecurityCenter("非常ベル(夜間)"),
        }
    }

    /// What is to be done when the phone is used.
    pub open spec fn phone_action(self) -> Action {
        match self {
            Shift::Day => Action::RecordLog("通常の通話(昼間)"),
            Shift::Night => Action::RecordLog("夜間の通話録音"),
        }
    }

    /// What is to be done in the hour `hour`: the safe is used in hours
    /// that divide by three, the alarm rings in the hour after, the phone
    /// is used in the hour after that.
    pub open spec fn hour_action(self, hour: u32) -> Action {
        if hour % 3 == 0 {
            self.use_action()
        } else if hour % 3 == 1 {
            self.alarm_action()
        } else {
            self.phone_action()
        }
    }

    /// The line that a context in this state writes for `action`.
    pub open spec fn action_line(self, action: Action) -> Seq<char> {
        match action {
            Action::CallSecurityCenter(msg) => log_line(self.label(), msg@),
            Action::RecordLog(msg) => log_line(self.label(), msg@),
        }
    }
}

/// One way for the safe to behave. A state does not act on the context
/// itself: it names the state that is to follow and says what is to be
/// done, and the context does it. Every state goes by one of the two
/// names and behaves as that name says.
pub trait State {
    /// The name of the state.
    spec fn shift(&self) -> Shift;

    fn to_string(&self) -> (out: String)
        ensures
            out@ == self.shift().label(),
    ;

    fn do_clock(&self, hour: u32) -> (next: Option<Shift>)
        ensures
            next == self.shift().after_clock(hour),
    ;

    fn do_use(&self) -> (action: Action)
        ensures
            action == self.shift().use_action(),
    ;

    fn do_alarm(&self) -> (action: Action)
        ensures
            action == self.shift().alarm_action(),
    ;

    fn do_phone(&self) -> (action: Action)
        ensures
            action == self.shift().phone_action(),
    ;
}

pub struct Day;

pub struct Night;

impl State for Day {
    open spec fn shift(&self) -> Shift {
        Shift::Day
    }

    fn to_string(&self) -> (out: String) {
        String::from_str("[昼間]")
    }

    fn do_clock(&self, hour: u32) -> (next: Option<Shift>) {
        if !daytime(hour) {
            Some(Shift::Night)
        } else {
            None
        }
    }

    fn do_use(&self) -> (action: Action) {
        Action::RecordLog("金庫使用(昼間)")
    }

    fn do_alarm(&self) -> (action: Action) {
        Action::CallSecurityCenter("非常ベル(昼間)")
    }

    fn do_phone(&self) -> (action: Action) {
        Action::RecordLog("通常の通話(昼間)")
    }
}

impl State for Night {
    open spec fn shift(&self) -> Shift {
        Shift::Night
    }

    fn to_string(&self) -> (out: String) {
        String::from_str("[夜間]")
    }

    fn do_clock(&self, hour: u32) -> (next: Option<Shift>) {
        if daytime(hour) {
            Some(Shift::Day)
        } else {
            None
        }
    }

    fn do_use(&self) -> (action: Action) {
        Action::CallSecurityCenter("非常：夜間の金庫使用！")
    }

    fn do_alarm(&self) -> (action: Action) {
        Action::CallSecurityCenter("非常ベル(夜間)")
    }

    fn do_phone(&self) -> (action: Action) {
        Action::RecordLog("夜間の通話録音")
    }
}

/// The state after the hours below `hours`, from `start`.
pub open spec fn run_shift(start: Shift, hours: nat) -> Shift
    decreases hours,
{
    if hours == 0 {
        start
    } else {
        run_shift(start, (hours - 1) as nat).next((hours - 1) as u32)
    }
}

/// What is written in the hours below `hours`, from `start`: in each
/// hour, the line for the action of the state after the clock was set.
pub open spec fn run_text(start: Shift, hours: nat) -> Seq<char>
    decreases hours,
{
    if hours == 0 {
        Seq::empty()
    } else {
        let shift = run_shift(start, hours);
        run_text(start, (hours - 1) as nat) + shift.action_line(
            shift.hour_action((hours - 1) as u32),
        )
    }
}

/// What the states are applied to: it keeps the current state and writes
/// the log.
pub trait Context {
    /// The name of the state that the context is in.
    spec fn shift(&self) -> Shift;

    fn set_clock(&mut self, hour: u32)
        ensures
            final(self).shift() == old(self).shift().next(hour),
    ;

    fn change_state(&mut self, state: Box<dyn State>)
        ensures
            final(self).shift() == state.shift(),
    ;

    fn call_security_center(&self, msg: &str) -> (out: String)
        ensures
            out@ == log_line(self.shift().label(), msg@),
    ;

    fn record_log(&self, msg: &str) -> (out: String)
        ensures
            out@ == log_line(self.shift().label(), msg@),
    ;
}

/// A context that writes every line under the label of its state.
pub struct StateContext<S: State + ?Sized = dyn State> {
    state: Box<S>,
}

impl<S: State + ?Sized> StateContext<S> {
    /// The state that the context is in.
    pub closed spec fn state(&self) -> Box<S> {
        self.state
    }

    pub fn new(state: Box<S>) -> (context: Self)
        ensures
            context.state() == state,
    {
        Self { state }
    }
}

impl StateContext {

    /// Does what `action` asks for.
    pub fn perform(&self, action: Action) -> (out: String)
        ensures
            out@ == self.shift().action_line(action),
    {
        match action {
            Action::CallSecurityCenter(msg) => self.call_security_center(msg),
            Action::RecordLog(msg) => self.record_log(msg),
        }
    }

    /// Goes through the hours 0 to 24.
    pub fn run(&mut self) -> (out: String)
        ensures
            out@ == run_text(old(self).shift(), (LAST_HOUR + 1) as nat),
            final(self).shift() == run_shift(old(self).shift(), (LAST_HOUR + 1) as nat),
    {
        let mut out = String::new();
        let mut hour: u32 = 0;
        while hour <= LAST_HOUR
            invariant
                hour <= LAST_HOUR + 1,
                out@ == run_text(old(self).shift(), hour as nat),
                self.shift() == run_shift(old(self).shift(), hour as nat),
            decreases LAST_HOUR + 1 - hour,
        {
            self.set_clock(hour);
            let action = if hour % 3 == 0 {
                self.state.do_use()
            } else if hour % 3 == 1 {
                self.state.do_alarm()
            } else {
                self.state.do_phone()
            };
            out.append(self.perform(action).as_str());
            hour = hour + 1;
        }
        out
    }
}

impl Context for StateContext {
    open spec fn shift(&self) -> Shift {
        self.state().shift()
    }

    fn set_clock(&mut self, hour: u32) {
        match self.state.do_clock(hour) {
            Some(Shift::Day) => {
                let mut next: Box<dyn State> = Box::new(Day);
                std::mem::swap(&mut self.state, &mut next);
            },
            Some(Shift::Night) => {
                let mut next: Box<dyn State> = Box::new(Night);
                std::mem::swap(&mut self.state, &mut next);
            },
            None => {},
        }
    }

    fn change_state(&mut self, state: Box<dyn State>) {
        let mut state = state;
        std::mem::swap(&mut self.state, &mut state);
    }

    fn call_security_center(&self, msg: &str) -> (out: String) {
        log_line_string(self.state.to_string().as_str(), msg)
    }

    fn record_log(&self, msg: &str) -> (out: String) {
        log_line_string(self.state.to_string().as_str(), msg)
    }
}

} // verus!
