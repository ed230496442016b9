use wizlight::party::{
    next_hue, PartyAction, PartyMode, FULL_TURN, HUE_STEP, PARTY_DIMMING, PARTY_PAUSE_MILLIS,
};
use wizlight::Error;

#[test]
fn party_constants() {
    assert_eq!(HUE_STEP, 70);
    assert_eq!(FULL_TURN, 360);
    assert_eq!(PARTY_DIMMING, 100);
    assert_eq!(PARTY_PAUSE_MILLIS, 250);
}

#[test]
fn party_starts_by_turning_on() {
    let party = PartyMode::new();
    assert_eq!(party.pending(), PartyAction::TurnOn);
    assert_eq!(party.hue(), 0);
}

#[test]
fn first_actions_of_party_mode() {
    let mut party = PartyMode::new();
    let mut seen = Vec::new();
    for _ in 0..7 {
        seen.push(party.pending());
        party.resume(Ok(()));
    }
    assert_eq!(
        seen,
        vec![
            PartyAction::TurnOn,
            PartyAction::SetColor { hue: 0, dimming: 100 },
            PartyAction::Pause { millis: 250 },
            PartyAction::SetColor { hue: 70, dimming: 100 },
            PartyAction::Pause { millis: 250 },
            PartyAction::SetColor { hue: 140, dimming: 100 },
            PartyAction::Pause { millis: 250 },
        ]
    );
}

#[test]
fn hue_after_n_rounds_is_seventy_n_mod_360() {
    let mut party = PartyMode::new();
    party.resume(Ok(()));
    for round in 0u32..1000 {
        let expected = ((70 * round) % 360) as u16;
        assert_eq!(party.hue(), expected);
        assert_eq!(party.pending(), PartyAction::SetColor { hue: expected, dimming: 100 });
        party.resume(Ok(()));
        assert_eq!(party.pending(), PartyAction::Pause { millis: 250 });
        assert_eq!(party.hue(), expected);
        party.resume(Ok(()));
    }
}

#[test]
fn hue_returns_to_zero_after_36_rounds() {
    let mut party = PartyMode::new();
    party.resume(Ok(()));
    let mut hues = Vec::new();
    for _ in 0..37 {
        hues.push(party.hue());
        party.resume(Ok(()));
        party.resume(Ok(()));
    }
    assert_eq!(&hues[..8], &[0, 70, 140, 210, 280, 350, 60, 130]);
    assert_eq!(hues[36], 0);
}

#[test]
fn failing_to_turn_on_stops_party_mode() {
    let mut party = PartyMode::new();
    party.resume(Err(Error::NetWorkError));
    assert_eq!(party.pending(), PartyAction::Stop { error: Error::NetWorkError });
    party.resume(Ok(()));
    assert_eq!(party.pending(), PartyAction::Stop { error: Error::NetWorkError });
    party.resume(Err(Error::ServerError));
    assert_eq!(party.pending(), PartyAction::Stop { error: Error::NetWorkError });
}

#[test]
fn a_failed_color_stops_party_mode() {
    let mut party = PartyMode::new();
    party.resume(Ok(()));
    party.resume(Ok(()));
    party.resume(Ok(()));
    assert_eq!(party.pending(), PartyAction::SetColor { hue: 70, dimming: 100 });
    party.resume(Err(Error::ServerError));
    assert_eq!(party.pending(), PartyAction::Stop { error: Error::ServerError });
    assert_eq!(party.hue(), 70);
}

#[test]
fn next_hue_wraps_round_the_wheel() {
    assert_eq!(next_hue(0), 70);
    assert_eq!(next_hue(289), 359);
    assert_eq!(next_hue(290), 0);
    assert_eq!(next_hue(350), 60);
    assert_eq!(next_hue(360), 70);
    assert_eq!(next_hue(65535), 85);
}
