use songquiz::admin::{self, AdminInbound, AdminReaction};
use songquiz::bus::{on_subscribe, Signal};
use songquiz::buzzer::{self, BuzzerInbound, BuzzerReaction};
use songquiz::game::{Phase, Team};
use songquiz::message::{AdminInteraction, BuzzerInteraction};
use songquiz::session::{Game, ProviderCall, Update};
use songquiz::spectator::{self, SpectatorReaction};
use songquiz::track::TrackMetadata;

fn teams() -> Vec<Team> {
    vec![
        Team { name: "Otter".to_string(), points: 2 },
        Team { name: "Igel".to_string(), points: 0 },
    ]
}

fn game(phase: Phase) -> Game {
    Game { phase, teams: teams(), song: None }
}

fn track() -> TrackMetadata {
    TrackMetadata { name: "Song".to_string(), artists: vec![], images: vec![] }
}

fn admin_idle() -> AdminReaction {
    AdminReaction { push: None, notify: None, provider: None, close: false }
}

fn buzzer_idle() -> BuzzerReaction {
    BuzzerReaction { push: None, notify: None, provider: None, close: false }
}

fn selection(id: &str) -> AdminInbound {
    AdminInbound::Interaction(AdminInteraction::Selection { id: id.to_string() })
}

const NOTICE: Update = Update { teams_invalidated: false };

#[test]
fn subscription_is_announced_without_invalidating() {
    assert_eq!(on_subscribe(), Update { teams_invalidated: false });
    assert_eq!(Update::default(), Update { teams_invalidated: false });
}

#[test]
fn admin_pushes_on_notification_and_on_missed_ones() {
    let session = game(Phase::Listening { active: vec![true, true] });
    for signal in [
        Signal::Changed(NOTICE),
        Signal::Changed(Update { teams_invalidated: true }),
        Signal::Missed,
    ] {
        assert_eq!(
            admin::on_signal(&session, signal),
            AdminReaction { push: Some(session.admin_update()), ..admin_idle() }
        );
    }
}

#[test]
fn admin_ends_when_the_bus_closes() {
    let session = game(Phase::Selection);
    assert_eq!(admin::on_signal(&session, Signal::Closed), AdminReaction { close: true, ..admin_idle() });
}

#[test]
fn admin_drops_malformed_messages() {
    let mut session = game(Phase::Selection);
    assert_eq!(admin::on_inbound(&mut session, AdminInbound::Malformed), admin_idle());
    assert_eq!(session, game(Phase::Selection));
}

#[test]
fn admin_ends_when_the_connection_closes() {
    let mut session = game(Phase::Selection);
    assert_eq!(
        admin::on_inbound(&mut session, AdminInbound::Disconnected),
        AdminReaction { close: true, ..admin_idle() }
    );
    assert_eq!(session, game(Phase::Selection));
}

#[test]
fn admin_selection_asks_the_provider_for_the_track() {
    let mut session = game(Phase::Selection);
    assert_eq!(
        admin::on_inbound(&mut session, selection("spotify:track:6rqhFgbbKwnb9MLmUQDhG6")),
        AdminReaction {
            provider: Some(ProviderCall::Play { id: "6rqhFgbbKwnb9MLmUQDhG6".to_string() }),
            ..admin_idle()
        }
    );
    assert_eq!(session, game(Phase::Selection));
    assert_eq!(
        admin::on_inbound(&mut session, selection("spotify/track/abc123")),
        AdminReaction {
            provider: Some(ProviderCall::Play { id: "abc123".to_string() }),
            ..admin_idle()
        }
    );
    assert_eq!(
        admin::on_inbound(&mut session, selection("spotify:track:")),
        AdminReaction { provider: Some(ProviderCall::Play { id: String::new() }), ..admin_idle() }
    );
}

#[test]
fn admin_selection_of_no_track_is_dropped() {
    let mut session = game(Phase::Selection);
    for id in [
        "",
        "spotify",
        "6rqhFgbbKwnb9MLmUQDhG6",
        "spotify:album:6akEvsycLGftJxYudPjmqK",
        "spotify:track/6rqhFgbbKwnb9MLmUQDhG6",
        "spotify:track:6rqh-Fgbb",
        "spotify:track:6rqh:Fgbb",
        "spotify:Track:6rqhFgbb",
        "Spotify:track:6rqhFgbb",
        "spotify;track;6rqhFgbb",
        "spotify:track:6rqhFgbbä",
        "https://open.spotify.com/track/6rqhFgbbKwnb9MLmUQDhG6",
    ] {
        assert_eq!(admin::on_inbound(&mut session, selection(id)), admin_idle());
        assert_eq!(session, game(Phase::Selection));
    }
}

#[test]
fn admin_selection_outside_selection_is_dropped() {
    for phase in [
        Phase::Listening { active: vec![true, true] },
        Phase::Guessing { active: vec![true, true], team: 0 },
    ] {
        let mut session = game(phase.clone());
        assert_eq!(
            admin::on_inbound(&mut session, selection("spotify:track:6rqhFgbbKwnb9MLmUQDhG6")),
            admin_idle()
        );
        assert_eq!(session, game(phase));
    }
}

#[test]
fn admin_commits_the_track_that_plays() {
    let mut session = game(Phase::Selection);
    assert_eq!(
        admin::on_played(&mut session, track()),
        AdminReaction { notify: Some(NOTICE), ..admin_idle() }
    );
    assert_eq!(
        session,
        Game { phase: Phase::Listening { active: vec![true, true] }, teams: teams(), song: Some(track()) }
    );
}

#[test]
fn admin_drops_a_track_that_plays_too_late() {
    let mut session = game(Phase::Listening { active: vec![true, false] });
    assert_eq!(admin::on_played(&mut session, track()), admin_idle());
    assert_eq!(session, game(Phase::Listening { active: vec![true, false] }));
}

#[test]
fn admin_interactions_go_through_the_state_machine() {
    let mut session = game(Phase::Selection);
    assert_eq!(
        admin::on_inbound(
            &mut session,
            AdminInbound::Interaction(AdminInteraction::RenameTeam { team: 1, name: "Biber".to_string() })
        ),
        AdminReaction { notify: Some(NOTICE), ..admin_idle() }
    );
    assert_eq!(session.teams[1], Team { name: "Biber".to_string(), points: 0 });
    assert_eq!(
        admin::on_inbound(
            &mut session,
            AdminInbound::Interaction(AdminInteraction::DeleteTeam { team: 0 })
        ),
        AdminReaction { notify: Some(Update { teams_invalidated: true }), ..admin_idle() }
    );
    assert_eq!(session.teams, vec![Team { name: "Biber".to_string(), points: 0 }]);
    admin::on_played(&mut session, track());
    assert_eq!(
        admin::on_inbound(&mut session, AdminInbound::Interaction(AdminInteraction::StopListening)),
        AdminReaction { notify: Some(NOTICE), provider: Some(ProviderCall::Resume), ..admin_idle() }
    );
    assert_eq!(session.phase, Phase::Selection);
}

#[test]
fn admin_accepts_a_guess() {
    let mut session = game(Phase::Guessing { active: vec![true, true], team: 0 });
    assert_eq!(
        admin::on_inbound(&mut session, AdminInbound::Interaction(AdminInteraction::AcceptGuess)),
        AdminReaction { notify: Some(NOTICE), provider: Some(ProviderCall::Resume), ..admin_idle() }
    );
    assert_eq!(session.phase, Phase::Selection);
    assert_eq!(session.teams[0].points, 3);
    assert_eq!(session.teams[1].points, 0);
}

#[test]
fn admin_rejected_interaction_is_silent() {
    let mut session = game(Phase::Selection);
    for interaction in [
        AdminInteraction::AcceptGuess,
        AdminInteraction::RejectGuess,
        AdminInteraction::StopListening,
        AdminInteraction::DeleteTeam { team: 2 },
        AdminInteraction::RenameTeam { team: 2, name: "x".to_string() },
    ] {
        for _ in 0..3 {
            assert_eq!(
                admin::on_inbound(&mut session, AdminInbound::Interaction(interaction.clone())),
                admin_idle()
            );
            assert_eq!(session, game(Phase::Selection));
        }
    }
}

#[test]
fn buzzer_registers_for_an_existing_team_in_any_phase() {
    for phase in [
        Phase::Selection,
        Phase::Listening { active: vec![true, true] },
        Phase::Guessing { active: vec![true, true], team: 0 },
    ] {
        let mut session = game(phase.clone());
        let mut registered = None;
        assert_eq!(
            buzzer::on_inbound(
                &mut session,
                &mut registered,
                BuzzerInbound::Interaction(BuzzerInteraction::Register { team: 1 })
            ),
            BuzzerReaction { notify: Some(NOTICE), ..buzzer_idle() }
        );
        assert_eq!(registered, Some(1));
        assert_eq!(session, game(phase));
    }
}

#[test]
fn buzzer_registration_for_a_missing_team_is_dropped() {
    let mut session = game(Phase::Selection);
    let mut registered = Some(0);
    assert_eq!(
        buzzer::on_inbound(
            &mut session,
            &mut registered,
            BuzzerInbound::Interaction(BuzzerInteraction::Register { team: 2 })
        ),
        buzzer_idle()
    );
    assert_eq!(registered, Some(0));
}

#[test]
fn buzzer_without_registration_cannot_buzz() {
    let mut session = game(Phase::Listening { active: vec![true, true] });
    let mut registered = None;
    assert_eq!(
        buzzer::on_inbound(
            &mut session,
            &mut registered,
            BuzzerInbound::Interaction(BuzzerInteraction::Buzz)
        ),
        buzzer_idle()
    );
    assert_eq!(session, game(Phase::Listening { active: vec![true, true] }));
}

#[test]
fn buzzer_with_stale_registration_is_ignored() {
    let mut session = game(Phase::Listening { active: vec![true, true] });
    let mut registered = Some(7);
    assert_eq!(
        buzzer::on_inbound(
            &mut session,
            &mut registered,
            BuzzerInbound::Interaction(BuzzerInteraction::Buzz)
        ),
        buzzer_idle()
    );
    assert_eq!(session, game(Phase::Listening { active: vec![true, true] }));
}

#[test]
fn buzzer_buzz_pauses_and_notifies() {
    let mut session = game(Phase::Listening { active: vec![true, true] });
    let mut registered = Some(1);
    assert_eq!(
        buzzer::on_inbound(
            &mut session,
            &mut registered,
            BuzzerInbound::Interaction(BuzzerInteraction::Buzz)
        ),
        BuzzerReaction { notify: Some(NOTICE), provider: Some(ProviderCall::Pause), ..buzzer_idle() }
    );
    assert_eq!(session.phase, Phase::Guessing { active: vec![true, true], team: 1 });
    assert_eq!(registered, Some(1));
}

#[test]
fn buzzer_drops_malformed_and_ends_on_disconnect() {
    let mut session = game(Phase::Selection);
    let mut registered = Some(1);
    assert_eq!(
        buzzer::on_inbound(&mut session, &mut registered, BuzzerInbound::Malformed),
        buzzer_idle()
    );
    assert_eq!(
        buzzer::on_inbound(&mut session, &mut registered, BuzzerInbound::Disconnected),
        BuzzerReaction { close: true, ..buzzer_idle() }
    );
    assert_eq!(registered, Some(1));
    assert_eq!(session, game(Phase::Selection));
}

#[test]
fn buzzer_keeps_registration_on_plain_notification() {
    let session = game(Phase::Selection);
    let mut registered = Some(1);
    assert_eq!(
        buzzer::on_signal(&session, &mut registered, Signal::Changed(NOTICE)),
        BuzzerReaction { push: Some(session.buzzer_update(Some(1))), ..buzzer_idle() }
    );
    assert_eq!(registered, Some(1));
}

#[test]
fn buzzer_clears_registration_after_missed_notifications() {
    let session = game(Phase::Selection);
    let mut registered = Some(1);
    assert_eq!(
        buzzer::on_signal(&session, &mut registered, Signal::Missed),
        BuzzerReaction { push: Some(session.buzzer_update(None)), ..buzzer_idle() }
    );
    assert_eq!(registered, None);
}

#[test]
fn buzzer_clears_registration_when_teams_are_invalidated() {
    let session = game(Phase::Selection);
    let mut registered = Some(0);
    assert_eq!(
        buzzer::on_signal(
            &session,
            &mut registered,
            Signal::Changed(Update { teams_invalidated: true })
        ),
        BuzzerReaction { push: Some(session.buzzer_update(None)), ..buzzer_idle() }
    );
    assert_eq!(registered, None);
}

#[test]
fn buzzer_ends_when_the_bus_closes() {
    let session = game(Phase::Selection);
    let mut registered = Some(0);
    assert_eq!(
        buzzer::on_signal(&session, &mut registered, Signal::Closed),
        BuzzerReaction { close: true, ..buzzer_idle() }
    );
    assert_eq!(registered, Some(0));
}

#[test]
fn spectator_pushes_on_notification_and_ends_on_close() {
    let session = game(Phase::Selection);
    assert_eq!(
        spectator::on_signal(&session, Signal::Changed(NOTICE)),
        SpectatorReaction { push: Some(session.spectator_update()), close: false }
    );
    assert_eq!(
        spectator::on_signal(&session, Signal::Missed),
        SpectatorReaction { push: Some(session.spectator_update()), close: false }
    );
    assert_eq!(
        spectator::on_signal(&session, Signal::Closed),
        SpectatorReaction { push: None, close: true }
    );
}
