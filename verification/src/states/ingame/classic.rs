use climer::Timer;
use climer::TimerState;
use vstd::prelude::*;

use crate::states::transition::StateKind;
use crate::states::transition::Transition;

verus! {

#[verifier::external_type_specification]
#[verifier::external_body]
pub struct ExTimer(climer::Timer);

/// The state of a `climer::Timer`: what its `state` field holds.
pub uninterp spec fn timer_status(timer: Timer) -> TimerStatus;

/// Whether the time a `climer::Timer` has measured (its `time` field) is zero.
pub uninterp spec fn timer_time_is_zero(timer: Timer) -> bool;

/// A new stopwatch from `climer::Timer::default`, which its source builds through
/// `Timer::new` in the `Stopped` state with the time `Time::zero()`. Its output and
/// update delay are not stated.
#[verifier::external_body]
fn stopped_timer() -> (t: Timer)
    ensures
        timer_status(t) == TimerStatus::Stopped,
        timer_time_is_zero(t),
{
    Timer::default()
}

/// The state of a `climer::Timer`, as its `TimerState` gives it.
#[derive(Clone, Copy, Debug, PartialEq, Eq, Structural)]
pub enum TimerStatus {
    Stopped,
    Running,
    Paused,
    Finished,
}

/// Starts `timer` through `climer::Timer::start` and reads the timer's `state` field
/// afterwards. Its source shows `start` to reset the time to zero, set the state to
/// `Running` and always return `Ok`; so the timer is left `Running` at time zero, and the
/// result is that state. Its last update (the clock reading) is not stated.
#[verifier::external_body]
fn start_timer(timer: &mut Timer) -> (state: Option<TimerStatus>)
    ensures
        timer_status(*final(timer)) == TimerStatus::Running,
        timer_time_is_zero(*final(timer)),
        state == Some(TimerStatus::Running),
{
    match timer.start() {
        Ok(()) => Some(match timer.state {
            TimerState::Stopped => TimerStatus::Stopped,
            TimerState::Running => TimerStatus::Running,
            TimerState::Paused => TimerStatus::Paused,
            TimerState::Finished => TimerStatus::Finished,
        }),
        Err(_) => None,
    }
}

/// The campaigns of this in-game state: the normal one and the bonus one.
#[derive(Clone, Copy, Debug, PartialEq, Eq, Structural)]
pub enum CampaignType {
    Normal,
    Bonus,
}

/// An in-game state for two campaigns, whose levels always continue from the
/// saved level. `L` is the level manager, which exists from the start of the state on.
pub struct Ingame<L> {
    campaign: CampaignType,
    level_manager: Option<L>,
    to_main_menu: bool,
}

impl<L> Ingame<L> {
    pub closed spec fn campaign_value(&self) -> CampaignType {
        self.campaign
    }

    pub closed spec fn level_manager_value(&self) -> Option<L> {
        self.level_manager
    }

    pub closed spec fn to_main_menu_value(&self) -> bool {
        self.to_main_menu
    }

    /// The state for `campaign`, not started yet.
    pub fn new(campaign: CampaignType) -> (s: Self)
        ensures
            s.campaign_value() == campaign,
            s.level_manager_value() is None,
            !s.to_main_menu_value(),
    {
        Ingame { campaign: campaign, level_manager: None, to_main_menu: false }
    }

    /// The level manager; the state must have started.
    pub fn level_manager(&self) -> (lm: &L)
        requires
            self.level_manager_value() is Some,
        ensures
            *lm == self.level_manager_value().unwrap(),
    {
        self.level_manager.as_ref().unwrap()
    }

    /// The level manager, to change it; the state must have started.
    pub fn level_manager_mut(&mut self) -> (lm: &mut L)
        requires
            old(self).level_manager_value() is Some,
        ensures
            *lm == old(self).level_manager_value().unwrap(),
            final(self).level_manager_value() == Some(*final(lm)),
            final(self).campaign_value() == old(self).campaign_value(),
            final(self).to_main_menu_value() == old(self).to_main_menu_value(),
    {
        self.level_manager.as_mut().unwrap()
    }

    /// Of the level manager settings of both campaigns, those of the campaign played.
    pub fn level_manager_settings<S>(&self, normal: S, bonus: S) -> (s: S)
        ensures
            s == match self.campaign_value() {
                CampaignType::Normal => normal,
                CampaignType::Bonus => bonus,
            },
    {
        match self.campaign {
            CampaignType::Normal => normal,
            CampaignType::Bonus => bonus,
        }
    }

    /// Starts the state with its level manager.
    pub fn start(&mut self, level_manager: L)
        ensures
            final(self).level_manager_value() == Some(level_manager),
            final(self).campaign_value() == old(self).campaign_value(),
            final(self).to_main_menu_value() == old(self).to_main_menu_value(),
    {
        self.level_manager = Some(level_manager);
    }

    /// The global timer of a run: a new, stopped one when the first level starts,
    /// none otherwise (the running one is kept).
    pub fn new_global_timer(is_first_level: bool) -> (t: Option<Timer>)
        ensures
            t is Some <==> is_first_level,
            t matches Some(timer) ==> timer_status(timer) == TimerStatus::Stopped
                && timer_time_is_zero(timer),
    {
        if is_first_level {
            Some(stopped_timer())
        } else {
            None
        }
    }

    /// Starts the global timer, if there is one, once the level is loaded: it runs from
    /// time zero. The result is the state of the started timer, `Running`; `None` when
    /// there is no timer.
    pub fn start_global_timer(global: &mut Option<Timer>) -> (state: Option<TimerStatus>)
        ensures
            (*final(global) is Some) <==> (*old(global) is Some),
            *final(global) matches Some(timer) ==> timer_status(timer) == TimerStatus::Running
                && timer_time_is_zero(timer),
            state == if *old(global) is Some {
                Some(TimerStatus::Running)
            } else {
                None::<TimerStatus>
            },
    {
        match global.as_mut() {
            Some(timer) => start_timer(timer),
            None => None,
        }
    }

    /// Comes back from the pause menu, which may ask to return to the main menu.
    pub fn resume(&mut self, to_main_menu: bool)
        ensures
            final(self).to_main_menu_value() == to_main_menu,
            final(self).level_manager_value() == old(self).level_manager_value(),
            final(self).campaign_value() == old(self).campaign_value(),
    {
        self.to_main_menu = to_main_menu;
    }

    /// A request to close the window leaves the state.
    pub fn handle_event(&self, close_requested: bool) -> (t: Transition)
        ensures
            t == if close_requested {
                Transition::Pop
            } else {
                Transition::Stay
            },
    {
        if close_requested {
            Transition::Pop
        } else {
            Transition::Stay
        }
    }

    /// An update first checks whether the state is to return to the main menu; nothing
    /// else happens then.
    pub fn returns_to_main_menu(&self) -> (b: bool)
        ensures
            b == self.to_main_menu_value(),
    {
        self.to_main_menu
    }

    /// The pause button opens the pause menu on top of the game, before the level is
    /// updated; with `None` the level is updated and the state stays.
    pub fn handle_keys(&self, pause_down: bool) -> (t: Option<Transition>)
        ensures
            t == if pause_down {
                Some(Transition::Push(StateKind::Paused))
            } else {
                None::<Transition>
            },
    {
        if pause_down {
            Some(Transition::Push(StateKind::Paused))
        } else {
            None
        }
    }
}

} // verus!
