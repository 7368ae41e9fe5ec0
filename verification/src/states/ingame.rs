pub mod classic;

use vstd::prelude::*;

use crate::states::transition::CampaignType;
use crate::states::transition::StateKind;
use crate::states::transition::Transition;

verus! {

/// The state in which a campaign is played. `L` is the level manager, which exists from
/// the start of the state on.
pub struct Ingame<L> {
    campaign: CampaignType,
    level_manager: Option<L>,
    to_main_menu: bool,
    new_game: bool,
}

impl<L> Ingame<L> {
    pub closed spec fn campaign_value(&self) -> CampaignType {
        self.campaign
    }

    pub closed spec fn level_manager_value(&self) -> Option<L> {
        self.level_manager
    }

    pub closed spec fn to_main_menu_value(&self) -> bool {
        self.to_main_menu
    }

    pub closed spec fn new_game_value(&self) -> bool {
        self.new_game
    }

    /// Starts building the state: the normal campaign, continuing a saved game.
    pub fn builder() -> (b: IngameBuilder)
        ensures
            b.campaign_value() == CampaignType::Normal,
            !b.new_game_value(),
    {
        IngameBuilder { campaign: CampaignType::Normal, new_game: false }
    }

    /// Whether the campaign starts from its beginning.
    pub fn is_new_game(&self) -> (b: bool)
        ensures
            b == self.new_game_value(),
    {
        self.new_game
    }

    /// The level manager; the state must have started.
    pub fn level_manager(&self) -> (lm: &L)
        requires
            self.level_manager_value() is Some,
        ensures
            *lm == self.level_manager_value().unwrap(),
    {
        self.level_manager.as_ref().unwrap()
    }

    /// The level manager, to change it; the state must have started.
    pub fn level_manager_mut(&mut self) -> (lm: &mut L)
        requires
            old(self).level_manager_value() is Some,
        ensures
            *lm == old(self).level_manager_value().unwrap(),
            final(self).level_manager_value() == Some(*final(lm)),
            final(self).campaign_value() == old(self).campaign_value(),
            final(self).to_main_menu_value() == old(self).to_main_menu_value(),
            final(self).new_game_value() == old(self).new_game_value(),
    {
        self.level_manager.as_mut().unwrap()
    }

    /// Of the level manager settings of all campaigns, those of the campaign played.
    pub fn level_manager_settings<S>(&self, normal: S, bonus_a: S, bonus_b: S) -> (s: S)
        ensures
            s == match self.campaign_value() {
                CampaignType::Normal => normal,
                CampaignType::BonusA => bonus_a,
                CampaignType::BonusB => bonus_b,
            },
    {
        match self.campaign {
            CampaignType::Normal => normal,
            CampaignType::BonusA => bonus_a,
            CampaignType::BonusB => bonus_b,
        }
    }

    /// Starts the state with its level manager.
    pub fn start(&mut self, level_manager: L)
        ensures
            final(self).level_manager_value() == Some(level_manager),
            final(self).campaign_value() == old(self).campaign_value(),
            final(self).to_main_menu_value() == old(self).to_main_menu_value(),
            final(self).new_game_value() == old(self).new_game_value(),
    {
        self.level_manager = Some(level_manager);
    }

    /// Comes back from the pause menu, which may ask to return to the main menu.
    pub fn resume(&mut self, to_main_menu: bool)
        ensures
            final(self).to_main_menu_value() == to_main_menu,
            final(self).level_manager_value() == old(self).level_manager_value(),
            final(self).campaign_value() == old(self).campaign_value(),
            final(self).new_game_value() == old(self).new_game_value(),
    {
        self.to_main_menu = to_main_menu;
    }

    /// A request to close the window leaves the state.
    pub fn handle_event(&self, close_requested: bool) -> (t: Transition)
        ensures
            t == if close_requested {
                Transition::Pop
            } else {
                Transition::Stay
            },
    {
        if close_requested {
            Transition::Pop
        } else {
            Transition::Stay
        }
    }

    /// An update first checks whether the state is to return to the main menu; the
    /// level is then not updated.
    pub fn returns_to_main_menu(&self) -> (b: bool)
        ensures
            b == self.to_main_menu_value(),
    {
        self.to_main_menu
    }

    /// The pause button opens the pause menu on top of the game.
    pub fn handle_keys(&self, pause_down: bool) -> (t: Option<Transition>)
        ensures
            t == if pause_down {
                Some(Transition::Push(StateKind::Paused))
            } else {
                None::<Transition>
            },
    {
        if pause_down {
            Some(Transition::Push(StateKind::Paused))
        } else {
            None
        }
    }

    /// After the level was updated: a won game switches to the win menu of this
    /// campaign; else the pause button pauses; else the game goes on.
    pub fn after_level_update(&self, has_won_game: bool, pause_down: bool) -> (t: Transition)
        ensures
            t == if has_won_game {
                Transition::Switch(StateKind::WinGameMenu(self.campaign_value()))
            } else if pause_down {
                Transition::Push(StateKind::Paused)
            } else {
                Transition::Stay
            },
    {
        if has_won_game {
            return Transition::Switch(StateKind::WinGameMenu(self.campaign));
        }
        if let Some(t) = self.handle_keys(pause_down) {
            return t;
        }
        Transition::Stay
    }
}

/// Collects the campaign and whether to start a new game.
pub struct IngameBuilder {
    campaign: CampaignType,
    new_game: bool,
}

impl IngameBuilder {
    pub closed spec fn campaign_value(&self) -> CampaignType {
        self.campaign
    }

    pub closed spec fn new_game_value(&self) -> bool {
        self.new_game
    }

    /// Sets the campaign.
    pub fn campaign(self, campaign: CampaignType) -> (b: Self)
        ensures
            b.campaign_value() == campaign,
            b.new_game_value() == self.new_game_value(),
    {
        let mut b = self;
        b.campaign = campaign;
        b
    }

    /// Sets whether the campaign starts from its beginning.
    pub fn new_game(self, new_game: bool) -> (b: Self)
        ensures
            b.campaign_value() == self.campaign_value(),
            b.new_game_value() == new_game,
    {
        let mut b = self;
        b.new_game = new_game;
        b
    }

    /// The state, not started yet.
    pub fn build<L>(self) -> (s: Ingame<L>)
        ensures
            s.campaign_value() == self.campaign_value(),
            s.new_game_value() == self.new_game_value(),
            s.level_manager_value() is None,
            !s.to_main_menu_value(),
    {
        Ingame {
            campaign: self.campaign,
            level_manager: None,
            to_main_menu: false,
            new_game: self.new_game,
        }
    }
}

} // verus!
