//! Party mode: after switching the bulb on, the hue walks round the colour
//! wheel in fixed steps at full saturation and value, one colour per round
//! with a pause after each.
//!
//! The caller performs the actions (sending a command, sleeping) and reports
//! how each went; this module decides what comes next.

use vstd::prelude::*;
use crate::wire::Error;

verus! {

/// Degrees by which the hue moves from one round to the next.
pub const HUE_STEP: u16 = 70;

/// Degrees in the full colour wheel.
pub const FULL_TURN: u16 = 360;

/// Dimming level sent with every colour of party mode.
pub const PARTY_DIMMING: u32 = 100;

/// Milliseconds to wait after each colour before sending the next.
pub const PARTY_PAUSE_MILLIS: u64 = 250;

/// The hue, in degrees, that round number `round` shows, counting from 0.
pub open spec fn hue_after(round: nat) -> nat {
    (70 * round) % 360
}

/// The hue of round `n + 1` is the hue of round `n` moved on by one step,
/// so the hues are those of `next_hue` applied again and again from 0.
pub proof fn lemma_hue_step(round: nat)
    ensures
        hue_after(0) == 0,
        hue_after(round + 1) == (hue_after(round) + 70) % 360,
        hue_after(round) < 360,
{
}

/// The hue that follows `hue`: one step further round the wheel.
pub fn next_hue(hue: u16) -> (next: u16)
    ensures
        next == (hue % 360 + 70) % 360,
{
    (hue % FULL_TURN + HUE_STEP) % FULL_TURN
}

/// What the caller is asked to do next.
#[derive(Debug, Clone, Copy, PartialEq, Eq, Structural)]
pub enum PartyAction {
    /// Switch the bulb on.
    TurnOn,
    /// Set the colour of this hue (in degrees) at full saturation and
    /// value, with this dimming level.
    SetColor { hue: u16, dimming: u32 },
    /// Wait this long.
    Pause { millis: u64 },
    /// Party mode is over: a command failed with this error.
    Stop { error: Error },
}

/// Which action party mode is waiting on.
#[derive(Debug, Clone, Copy, PartialEq, Eq, Structural)]
pub enum PartyStage {
    Power,
    Color,
    Rest,
    Stopped(Error),
}

/// The action that belongs to a stage in a given round.
pub open spec fn action_of(stage: PartyStage, round: nat) -> PartyAction {
    match stage {
        PartyStage::Power => PartyAction::TurnOn,
        PartyStage::Color => PartyAction::SetColor {
            hue: hue_after(round) as u16,
            dimming: 100,
        },
        PartyStage::Rest => PartyAction::Pause { millis: 250 },
        PartyStage::Stopped(error) => PartyAction::Stop { error },
    }
}

/// The stage that follows once the action of `stage` ended with `outcome`.
/// The first failure stops party mode for good; otherwise power is followed
/// by a colour, a colour by a pause, and a pause by the next colour.
pub open spec fn next_stage(stage: PartyStage, outcome: Result<(), Error>) -> PartyStage {
    match (stage, outcome) {
        (PartyStage::Stopped(error), _) => PartyStage::Stopped(error),
        (_, Err(error)) => PartyStage::Stopped(error),
        (PartyStage::Power, Ok(_)) => PartyStage::Color,
        (PartyStage::Color, Ok(_)) => PartyStage::Rest,
        (PartyStage::Rest, Ok(_)) => PartyStage::Color,
    }
}

/// The round that follows: a pause that ended well completes a round.
pub open spec fn next_round(stage: PartyStage, outcome: Result<(), Error>, round: nat) -> nat {
    if stage is Rest && outcome is Ok {
        round + 1
    } else {
        round
    }
}

/// Where party mode stands: the action it waits on, and how many rounds
/// are complete. The hue it holds is always the one of the current round.
pub struct PartyMode {
    stage: PartyStage,
    hue: u16,
    round: Ghost<nat>,
}

impl PartyMode {
    #[verifier::type_invariant]
    spec fn hue_fits_round(self) -> bool {
        self.hue == hue_after(self.round@)
    }

    /// The number of rounds that are complete.
    pub closed spec fn round(&self) -> nat {
        self.round@
    }

    /// The action that party mode waits on.
    pub closed spec fn stage(&self) -> PartyStage {
        self.stage
    }

    /// Party mode at its start: no round is complete, and the bulb is to be
    /// switched on.
    pub fn new() -> (party: PartyMode)
        ensures
            party.round() == 0,
            party.stage() == PartyStage::Power,
    {
        PartyMode { stage: PartyStage::Power, hue: 0, round: Ghost(0) }
    }

    /// The hue of the current round, in degrees: 70 times the number of
    /// complete rounds, reduced modulo 360.
    pub fn hue(&self) -> (hue: u16)
        ensures
            hue == hue_after(self.round()),
    {
        proof {
            use_type_invariant(self);
        }
        self.hue
    }

    /// The action to perform now.
    pub fn pending(&self) -> (action: PartyAction)
        ensures
            action == action_of(self.stage(), self.round()),
    {
        proof {
            use_type_invariant(self);
        }
        match self.stage {
            PartyStage::Power => PartyAction::TurnOn,
            PartyStage::Color => PartyAction::SetColor { hue: self.hue, dimming: PARTY_DIMMING },
            PartyStage::Rest => PartyAction::Pause { millis: PARTY_PAUSE_MILLIS },
            PartyStage::Stopped(error) => PartyAction::Stop { error },
        }
    }

    /// Takes note of how the pending action ended and moves on.
    pub fn resume(&mut self, outcome: Result<(), Error>)
        ensures
            final(self).stage() == next_stage(old(self).stage(), outcome),
            final(self).round() == next_round(old(self).stage(), outcome, old(self).round()),
    {
        proof {
            use_type_invariant(&*self);
            lemma_hue_step(self.round@);
        }
        let stage = match (self.stage, outcome) {
            (PartyStage::Stopped(error), _) => PartyStage::Stopped(error),
            (_, Err(error)) => PartyStage::Stopped(error),
            (PartyStage::Power, Ok(_)) => PartyStage::Color,
            (PartyStage::Color, Ok(_)) => PartyStage::Rest,
            (PartyStage::Rest, Ok(_)) => PartyStage::Color,
        };
        match (self.stage, outcome) {
            (PartyStage::Rest, Ok(_)) => {
                let next = next_hue(self.hue);
                assert(next == hue_after(self.round@ + 1)) by {
                    assert(self.hue as nat == hue_after(self.round@));
                    assert(self.hue % 360 == self.hue);
                }
                *self = PartyMode { stage, hue: next, round: Ghost(self.round@ + 1) };
            },
            _ => {
                *self = PartyMode { stage, hue: self.hue, round: Ghost(self.round@) };
            },
        }
    }
}

/// The stage and the round that party mode has reached once the bulb was
/// switched on and `shown` colours were each sent and paused on, with
/// nothing failing.
pub open spec fn after_colors(shown: nat) -> (PartyStage, nat)
    decreases shown,
{
    if shown == 0 {
        (next_stage(PartyStage::Power, Ok(())), next_round(PartyStage::Power, Ok(()), 0))
    } else {
        let (stage, round) = after_colors((shown - 1) as nat);
        let (resting, same_round) = (next_stage(stage, Ok(())), next_round(stage, Ok(()), round));
        (next_stage(resting, Ok(())), next_round(resting, Ok(()), same_round))
    }
}

/// While nothing fails, party mode switches the bulb on once and then
/// alternates colour and pause. After `shown` colours the next action is a
/// colour of hue `70 * shown` modulo 360 degrees with dimming 100, and the
/// action after it is a pause of 250 milliseconds.
pub proof fn lemma_hue_of_round(shown: nat)
    ensures
        after_colors(shown) == (PartyStage::Color, shown),
        action_of(after_colors(shown).0, after_colors(shown).1) == (PartyAction::SetColor {
            hue: ((70 * shown) % 360) as u16,
            dimming: 100,
        }),
        action_of(next_stage(after_colors(shown).0, Ok(())), shown) == (PartyAction::Pause {
            millis: 250,
        }),
    decreases shown,
{
    if shown > 0 {
        lemma_hue_of_round((shown - 1) as nat);
    }
}

/// A failure stops party mode with the error of the action that failed, and
/// nothing that is reported afterwards changes that.
pub proof fn lemma_failure_stops(
    stage: PartyStage,
    error: Error,
    later: Result<(), Error>,
    round: nat,
)
    requires
        !(stage is Stopped),
    ensures
        next_stage(stage, Err(error)) == PartyStage::Stopped(error),
        next_stage(next_stage(stage, Err(error)), later) == PartyStage::Stopped(error),
        action_of(next_stage(stage, Err(error)), round) == (PartyAction::Stop { error }),
{
}

} // verus!
