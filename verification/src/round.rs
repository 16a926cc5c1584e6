//! The round state machine: draft, discard, fight, and again.
//!
//! A [`Game`] owns everything a run consists of, the random stream
//! included. It changes only through the four intents: pick a draft
//! choice, give up a roster slot, confirm the roster, and tick. An intent
//! that does not fit the state is refused and changes nothing.

use crate::battle::{
    armies_wound_up, minions_in_range, tick, Battle, Field, Outcome, Picks,
};
use crate::catalog::{Class, Minion};
use crate::dice::seeded;
use crate::draft::{offered, spawn_draft_cards, BUDGET_CAP};
use crate::laws::{
    lemma_armies_of_in_range, lemma_lineup_in_range, lemma_tick_keeps_armies_wound_up,
    lemma_tick_keeps_minion_countdowns,
};
use crate::party::{lineup, rewarded, Party, RosterEntry};
use crate::wave::{armies_of, fight_start_pre, wave};
use rand::rngs::StdRng;
use vstd::prelude::*;

verus! {

/// The phase of a round.
#[derive(Clone, Copy, Debug, PartialEq, Eq, Structural)]
pub enum Phase {
    Draft,
    Discard,
    Fight,
}

/// Where the run stands in its cycle of rounds.
#[derive(Clone, Copy, Debug, PartialEq, Eq, Structural)]
pub struct RoundContext {
    /// The difficulty: 1 at first, one more after every fight won.
    pub power: usize,
    pub phase: Phase,
    /// What is left of the draft budget. Counts only during the draft.
    pub power_left: usize,
}

/// Why an intent was refused.
#[derive(Clone, Copy, Debug, PartialEq, Eq, Structural)]
pub enum Refusal {
    /// The run has ended in defeat.
    RunOver,
    /// The intent belongs to another phase.
    WrongPhase,
    /// There are three draft choices, numbered from 0.
    NoSuchChoice,
    /// The roster holds no unit in that slot.
    NoSuchSlot,
    /// A number of the game has outgrown the machine.
    TooLarge,
}

/// What the player, or the clock, asks for.
#[derive(Clone, Copy, Debug, PartialEq, Eq, Structural)]
pub enum Intent {
    PickDraftChoice(usize),
    RemoveRosterSlot(usize),
    ConfirmDiscard,
    Tick,
}

/// A run of the game.
pub struct Game {
    pub rng: StdRng,
    pub round: RoundContext,
    /// The three classes on offer. Counts only during the draft.
    pub choices: [Class; 3],
    pub party: Party,
    /// The units on the field. Empty outside a fight.
    pub battle: Battle,
    /// Whether the run has ended in defeat.
    pub defeated: bool,
}

/// The mathematical content of a [`Game`]: all of it but the random stream.
#[verifier::ext_equal]
pub struct GameView {
    pub round: RoundContext,
    pub choices: Seq<Class>,
    pub party: Seq<RosterEntry>,
    pub battle: Field,
    pub defeated: bool,
}

impl View for Game {
    type V = GameView;

    open spec fn view(&self) -> GameView {
        GameView {
            round: self.round,
            choices: self.choices@,
            party: self.party@,
            battle: self.battle@,
            defeated: self.defeated,
        }
    }
}

impl RoundContext {
    /// The start of a run.
    pub open spec fn start() -> RoundContext {
        RoundContext { power: 1, phase: Phase::Draft, power_left: 1 }
    }

    /// What a pick costs: the budget that is left, but no more than the
    /// cap.
    pub open spec fn cost(self) -> int {
        if self.power_left <= BUDGET_CAP {
            self.power_left as int
        } else {
            BUDGET_CAP as int
        }
    }

    /// The context after a pick that brought the roster to `roster_len`
    /// units. A budget used up with fewer than three units owned is set
    /// back to 1 and the draft goes on; used up with three or more, the
    /// draft is over; otherwise the draft goes on with what is left.
    pub open spec fn picked(self, roster_len: int) -> RoundContext {
        let left = self.power_left - self.cost();
        if left == 0 && roster_len < 3 {
            RoundContext { power_left: 1, ..self }
        } else if left == 0 {
            RoundContext { power_left: 0, phase: Phase::Discard, ..self }
        } else {
            RoundContext { power_left: left as usize, ..self }
        }
    }

    /// The context after a fight won: one more difficulty, and a new draft
    /// with that budget.
    pub open spec fn won(self) -> RoundContext {
        RoundContext {
            power: (self.power + 1) as usize,
            phase: Phase::Draft,
            power_left: (self.power + 1) as usize,
        }
    }

    /// Starts a run.
    pub fn new() -> (round: RoundContext)
        ensures
            round == RoundContext::start(),
    {
        RoundContext { power: 1, phase: Phase::Draft, power_left: 1 }
    }

    /// Accounts for one pick that brought the roster to `roster_len` units.
    /// Outside the draft the pick is refused and nothing changes.
    pub fn draft_tick(&mut self, roster_len: usize) -> (result: Result<(), Refusal>)
        ensures
            old(self).phase == Phase::Draft ==> result is Ok && *final(self) == old(self).picked(
                roster_len as int,
            ),
            old(self).phase != Phase::Draft ==> result == Err::<(), Refusal>(Refusal::WrongPhase)
                && *final(self) == *old(self),
    {
        match self.phase {
            Phase::Draft => {},
            _ => {
                return Err(Refusal::WrongPhase);
            },
        }
        let cost = if self.power_left <= BUDGET_CAP {
            self.power_left
        } else {
            BUDGET_CAP
        };
        self.power_left = self.power_left - cost;
        if self.power_left == 0 && roster_len < 3 {
            self.power_left = 1;
        } else if self.power_left == 0 {
            self.phase = Phase::Discard;
        }
        Ok(())
    }
}

impl GameView {
    /// What holds of every game between two intents.
    pub open spec fn wf(self) -> bool {
        &&& self.round.power >= 1
        &&& self.choices.len() == 3
        &&& self.round.phase == Phase::Draft ==> self.round.power_left >= 1 && forall|i: int|
            0 <= i < 3 ==> offered(self.round.power_left as int, #[trigger] self.choices[i])
        &&& forall|i: int|
            0 <= i < self.party.len() ==> (#[trigger] self.party[i]).bounty < self.round.power
        &&& self.round.phase != Phase::Fight ==> self.battle == Field::empty() && !self.defeated
        &&& self.round.phase == Phase::Fight && !self.defeated ==> self.battle.armies.len() > 0
        &&& minions_in_range(self.battle.minions)
        &&& armies_wound_up(self.battle.armies)
    }

    /// Whether the draft choice `index` can be picked, and if not, why.
    pub open spec fn pick_refusal(self, index: int) -> Option<Refusal> {
        if self.defeated {
            Some(Refusal::RunOver)
        } else if self.round.phase != Phase::Draft {
            Some(Refusal::WrongPhase)
        } else if index >= 3 {
            Some(Refusal::NoSuchChoice)
        } else {
            None
        }
    }

    /// The game after the draft choice `index` was picked. While the draft
    /// goes on, `redrawn` are the choices then on offer.
    pub open spec fn picked(self, index: int, redrawn: Seq<Class>) -> GameView {
        let party = self.party.push(RosterEntry { class: self.choices[index], bounty: 0 });
        let round = self.round.picked(party.len() as int);
        GameView {
            party,
            round,
            choices: if round.phase == Phase::Draft {
                redrawn
            } else {
                self.choices
            },
            ..self
        }
    }

    /// How a pick of the draft choice `index` may end: refused, with the
    /// game as it was, or done.
    pub open spec fn pick_step(
        self,
        index: int,
        result: Result<(), Refusal>,
        now: GameView,
    ) -> bool {
        match result {
            Ok(()) => self.pick_refusal(index) is None && now == self.picked(index, now.choices),
            Err(refusal) => self.pick_refusal(index) == Some(refusal) && now == self,
        }
    }

    /// Whether roster slot `slot` can be given up, and if not, why.
    pub open spec fn remove_refusal(self, slot: int) -> Option<Refusal> {
        if self.defeated {
            Some(Refusal::RunOver)
        } else if self.round.phase != Phase::Discard {
            Some(Refusal::WrongPhase)
        } else if slot >= self.party.len() {
            Some(Refusal::NoSuchSlot)
        } else {
            None
        }
    }

    /// The game after roster slot `slot` was given up.
    pub open spec fn removed(self, slot: int) -> GameView {
        GameView { party: self.party.remove(slot), ..self }
    }

    /// How giving up roster slot `slot` may end: refused, with the game as
    /// it was, or done.
    pub open spec fn remove_step(
        self,
        slot: int,
        result: Result<(), Refusal>,
        now: GameView,
    ) -> bool {
        match result {
            Ok(()) => self.remove_refusal(slot) is None && now == self.removed(slot),
            Err(refusal) => self.remove_refusal(slot) == Some(refusal) && now == self,
        }
    }

    /// Whether the roster can be confirmed, and if not, why.
    pub open spec fn confirm_refusal(self) -> Option<Refusal> {
        if self.defeated {
            Some(Refusal::RunOver)
        } else if self.round.phase != Phase::Discard {
            Some(Refusal::WrongPhase)
        } else if !wave(self.round.power as int, self.party).fits() {
            Some(Refusal::TooLarge)
        } else {
            None
        }
    }

    /// The game after the roster was confirmed: both sides lined up, the
    /// fight on.
    pub open spec fn confirmed(self) -> GameView {
        GameView {
            round: RoundContext { phase: Phase::Fight, ..self.round },
            battle: Field {
                minions: lineup(self.party),
                armies: armies_of(wave(self.round.power as int, self.party)),
            },
            ..self
        }
    }

    /// How confirming the roster may end: refused, with the game as it
    /// was, or done.
    pub open spec fn confirm_step(self, result: Result<(), Refusal>, now: GameView) -> bool {
        match result {
            Ok(()) => self.confirm_refusal() is None && now == self.confirmed(),
            Err(refusal) => self.confirm_refusal() == Some(refusal) && now == self,
        }
    }

    /// Whether the fight can tick, and if not, why.
    pub open spec fn tick_refusal(self) -> Option<Refusal> {
        if self.defeated {
            Some(Refusal::RunOver)
        } else if self.round.phase != Phase::Fight {
            Some(Refusal::WrongPhase)
        } else if !self.battle.roomy() || self.round.power == usize::MAX {
            Some(Refusal::TooLarge)
        } else {
            None
        }
    }

    /// The game after a tick that left the field as `after` and ended as
    /// `outcome`.
    ///
    /// A round won raises the difficulty by one, adds one point of bounty
    /// to every roster entry, clears the field and opens the next draft,
    /// with `redrawn` on offer. A defeat ends the run.
    pub open spec fn ticked(self, after: Field, outcome: Outcome, redrawn: Seq<Class>) -> GameView {
        match outcome {
            Outcome::Ongoing => GameView { battle: after, ..self },
            Outcome::RunDefeated => GameView { battle: after, defeated: true, ..self },
            Outcome::RoundWon => GameView {
                round: self.round.won(),
                choices: redrawn,
                party: rewarded(self.party),
                battle: Field::empty(),
                ..self
            },
        }
    }

    /// How a tick may end: refused, with the game as it was, or done, with
    /// the field changed as one tick of combat changes it for some picks.
    pub open spec fn tick_step(self, result: Result<Outcome, Refusal>, now: GameView) -> bool {
        match result {
            Ok(outcome) => self.tick_refusal() is None && exists|picks: Picks, after: Field|
                tick(self.battle, picks) == Some((after, outcome)) && now == self.ticked(
                    after,
                    outcome,
                    now.choices,
                ),
            Err(refusal) => self.tick_refusal() == Some(refusal) && now == self,
        }
    }

    /// How an intent may end.
    pub open spec fn step(
        self,
        intent: Intent,
        result: Result<Option<Outcome>, Refusal>,
        now: GameView,
    ) -> bool {
        match intent {
            Intent::PickDraftChoice(index) => self.pick_step(
                index as int,
                match result {
                    Ok(_) => Ok(()),
                    Err(refusal) => Err(refusal),
                },
                now,
            ) && !(result matches Ok(Some(_))),
            Intent::RemoveRosterSlot(slot) => self.remove_step(
                slot as int,
                match result {
                    Ok(_) => Ok(()),
                    Err(refusal) => Err(refusal),
                },
                now,
            ) && !(result matches Ok(Some(_))),
            Intent::ConfirmDiscard => self.confirm_step(
                match result {
                    Ok(_) => Ok(()),
                    Err(refusal) => Err(refusal),
                },
                now,
            ) && !(result matches Ok(Some(_))),
            Intent::Tick => match result {
                Ok(Some(outcome)) => self.tick_step(Ok(outcome), now),
                Ok(None) => false,
                Err(refusal) => self.tick_step(Err(refusal), now),
            },
        }
    }
}

impl Game {
    /// Starts a run from a seed: difficulty 1, nobody owned, and the first
    /// draft on offer.
    pub fn new(seed: u64) -> (game: Game)
        ensures
            game@.wf(),
            game@ == (GameView {
                round: RoundContext::start(),
                party: Seq::empty(),
                battle: Field::empty(),
                defeated: false,
                choices: game@.choices,
            }),
    {
        let mut rng = seeded(seed);
        let choices = spawn_draft_cards(1, &mut rng);
        Game {
            rng,
            round: RoundContext::new(),
            choices,
            party: Party::new(),
            battle: Battle::new(),
            defeated: false,
        }
    }

    /// Opens a draft: the whole difficulty as budget, three fresh choices.
    pub fn draft_start(&mut self)
        requires
            old(self).round.power >= 1,
        ensures
            final(self)@ == (GameView {
                round: RoundContext {
                    phase: Phase::Draft,
                    power_left: old(self).round.power,
                    ..old(self).round
                },
                choices: final(self)@.choices,
                ..old(self)@
            }),
            forall|i: int|
                0 <= i < 3 ==> offered(
                    old(self).round.power as int,
                    #[trigger] final(self)@.choices[i],
                ),
    {
        self.round.phase = Phase::Draft;
        self.round.power_left = self.round.power;
        self.choices = spawn_draft_cards(self.round.power_left, &mut self.rng);
    }

    /// Picks the draft choice `index`: the class joins the roster with no
    /// bounty and the budget pays for it. While the draft goes on, three
    /// fresh choices are drawn.
    pub fn draft_tick(&mut self, index: usize) -> (result: Result<(), Refusal>)
        requires
            old(self)@.wf(),
        ensures
            final(self)@.wf(),
            old(self)@.pick_step(index as int, result, final(self)@),
    {
        if self.defeated {
            return Err(Refusal::RunOver);
        }
        match self.round.phase {
            Phase::Draft => {},
            _ => {
                return Err(Refusal::WrongPhase);
            },
        }
        if index >= 3 {
            return Err(Refusal::NoSuchChoice);
        }
        self.party.push(self.choices[index]);
        let _ = self.round.draft_tick(self.party.len());
        match self.round.phase {
            Phase::Draft => {
                self.choices = spawn_draft_cards(self.round.power_left, &mut self.rng);
            },
            _ => {},
        }
        Ok(())
    }

    /// The roster as it will line up, for the player to look at while
    /// deciding whom to give up.
    pub fn discard_start(&self) -> (shown: Vec<Minion>)
        ensures
            shown@ == lineup(self@.party),
    {
        self.party.spawn_minions()
    }

    /// Gives up the unit in roster slot `slot`.
    pub fn discard_tick(&mut self, slot: usize) -> (result: Result<(), Refusal>)
        requires
            old(self)@.wf(),
        ensures
            final(self)@.wf(),
            old(self)@.remove_step(slot as int, result, final(self)@),
    {
        if self.defeated {
            return Err(Refusal::RunOver);
        }
        match self.round.phase {
            Phase::Discard => {},
            _ => {
                return Err(Refusal::WrongPhase);
            },
        }
        match self.party.remove(slot) {
            Some(_) => Ok(()),
            None => Err(Refusal::NoSuchSlot),
        }
    }

    /// Confirms the roster: both sides line up and the fight is on.
    pub fn confirm_discard(&mut self) -> (result: Result<(), Refusal>)
        requires
            old(self)@.wf(),
        ensures
            final(self)@.wf(),
            old(self)@.confirm_step(result, final(self)@),
    {
        if self.defeated {
            return Err(Refusal::RunOver);
        }
        match self.round.phase {
            Phase::Discard => {},
            _ => {
                return Err(Refusal::WrongPhase);
            },
        }
        match fight_start_pre(self.round.power, &self.party) {
            Some(battle) => {
                proof {
                    lemma_lineup_in_range(self.party@);
                    lemma_armies_of_in_range(wave(self.round.power as int, self.party@));
                }
                self.battle = battle;
                self.round.phase = Phase::Fight;
                Ok(())
            },
            None => Err(Refusal::TooLarge),
        }
    }

    /// One tick of the fight. A round won opens the next draft; a defeat
    /// ends the run.
    pub fn fight_tick(&mut self) -> (result: Result<Outcome, Refusal>)
        requires
            old(self)@.wf(),
        ensures
            final(self)@.wf(),
            old(self)@.tick_step(result, final(self)@),
    {
        if self.defeated {
            return Err(Refusal::RunOver);
        }
        match self.round.phase {
            Phase::Fight => {},
            _ => {
                return Err(Refusal::WrongPhase);
            },
        }
        if !self.battle.has_room() || self.round.power == usize::MAX {
            return Err(Refusal::TooLarge);
        }
        let outcome = self.battle.fight_tick(&mut self.rng);
        let ghost after = self.battle@;
        let ghost picks = choose|picks: Picks|
            tick(old(self)@.battle, picks) == Some((after, outcome));
        proof {
            lemma_tick_keeps_minion_countdowns(old(self)@.battle, picks, after, outcome);
            lemma_tick_keeps_armies_wound_up(old(self)@.battle, picks, after, outcome);
        }
        match outcome {
            Outcome::Ongoing => {},
            Outcome::RunDefeated => {
                self.defeated = true;
            },
            Outcome::RoundWon => {
                self.round.power = self.round.power + 1;
                self.party.reward();
                self.battle = Battle::new();
                self.draft_start();
            },
        }
        proof {
            assert(tick(old(self)@.battle, picks) == Some((after, outcome)) && self@ == old(
                self,
            )@.ticked(after, outcome, self@.choices));
        }
        Ok(outcome)
    }

    /// Carries out one intent.
    pub fn step(&mut self, intent: Intent) -> (result: Result<Option<Outcome>, Refusal>)
        requires
            old(self)@.wf(),
        ensures
            final(self)@.wf(),
            old(self)@.step(intent, result, final(self)@),
    {
        match intent {
            Intent::PickDraftChoice(index) => match self.draft_tick(index) {
                Ok(()) => Ok(None),
                Err(refusal) => Err(refusal),
            },
            Intent::RemoveRosterSlot(slot) => match self.discard_tick(slot) {
                Ok(()) => Ok(None),
                Err(refusal) => Err(refusal),
            },
            Intent::ConfirmDiscard => match self.confirm_discard() {
                Ok(()) => Ok(None),
                Err(refusal) => Err(refusal),
            },
            Intent::Tick => match self.fight_tick() {
                Ok(outcome) => Ok(Some(outcome)),
                Err(refusal) => Err(refusal),
            },
        }
    }
}

} // verus!
