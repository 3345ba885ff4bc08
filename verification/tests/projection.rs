use songquiz::game::{Phase, Team};
use songquiz::message::{AdminUpdate, BuzzerUpdate, SpectatorUpdate};
use songquiz::session::Game;
use songquiz::track::{Track, TrackMetadata};

fn teams() -> Vec<Team> {
    vec![
        Team { name: "Otter".to_string(), points: 2 },
        Team { name: "Igel".to_string(), points: 0 },
    ]
}

fn song() -> TrackMetadata {
    TrackMetadata {
        name: "Song".to_string(),
        artists: vec!["One".to_string(), "Two".to_string()],
        images: vec!["cover".to_string(), "thumb".to_string()],
    }
}

fn shown() -> Track {
    Track {
        name: "Song".to_string(),
        artists: vec!["One".to_string(), "Two".to_string()],
        image: "cover".to_string(),
    }
}

fn game(phase: Phase) -> Game {
    Game { phase, teams: teams(), song: Some(song()) }
}

#[test]
fn admin_sees_the_song_in_every_phase() {
    for phase in [
        Phase::Selection,
        Phase::Listening { active: vec![true, false] },
        Phase::Guessing { active: vec![true, false], team: 0 },
    ] {
        assert_eq!(
            game(phase.clone()).admin_update(),
            AdminUpdate { phase, teams: teams(), song: Some(shown()) }
        );
    }
}

#[test]
fn admin_sees_no_song_before_the_first_selection() {
    assert_eq!(
        Game::new().admin_update(),
        AdminUpdate { phase: Phase::Selection, teams: vec![], song: None }
    );
}

#[test]
fn buzzer_sees_its_registration() {
    let phase = Phase::Listening { active: vec![true, false] };
    assert_eq!(
        game(phase.clone()).buzzer_update(Some(1)),
        BuzzerUpdate { phase: phase.clone(), teams: teams(), registered: Some(1) }
    );
    assert_eq!(
        game(phase.clone()).buzzer_update(None),
        BuzzerUpdate { phase, teams: teams(), registered: None }
    );
}

#[test]
fn spectator_sees_the_song_only_while_selecting() {
    assert_eq!(
        game(Phase::Selection).spectator_update(),
        SpectatorUpdate { phase: Phase::Selection, teams: teams(), revealed: Some(shown()) }
    );
    let listening = Phase::Listening { active: vec![true, true] };
    assert_eq!(
        game(listening.clone()).spectator_update(),
        SpectatorUpdate { phase: listening, teams: teams(), revealed: None }
    );
    let guessing = Phase::Guessing { active: vec![true, true], team: 1 };
    assert_eq!(
        game(guessing.clone()).spectator_update(),
        SpectatorUpdate { phase: guessing, teams: teams(), revealed: None }
    );
}

#[test]
fn projections_of_a_snapshot_are_identical() {
    let session = game(Phase::Guessing { active: vec![true, false], team: 0 });
    let snapshot = session.clone();
    assert_eq!(snapshot, session);
    assert_eq!(session.admin_update(), snapshot.admin_update());
    assert_eq!(session.admin_update(), session.admin_update());
    assert_eq!(session.buzzer_update(Some(0)), snapshot.buzzer_update(Some(0)));
    assert_eq!(session.spectator_update(), snapshot.spectator_update());
    assert_eq!(
        format!("{:?}", session.admin_update()),
        format!("{:?}", snapshot.admin_update())
    );
}

#[test]
fn projection_leaves_the_session_alone() {
    let session = game(Phase::Selection);
    let _ = session.admin_update();
    let _ = session.buzzer_update(Some(0));
    let _ = session.spectator_update();
    assert_eq!(session, game(Phase::Selection));
}
