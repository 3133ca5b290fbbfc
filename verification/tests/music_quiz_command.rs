use music_quiz_bot::app::music_quiz::notifier::{
    failure_description, final_results_description, round_completion_description,
    round_start_title,
};
use music_quiz_bot::app::music_quiz::preparation::MusicQuizPreparationService;
use music_quiz_bot::app::music_quiz::runtime::{
    pause_after_round, registration_error, PreparedMusicQuiz, RoundEndReason, RoundRunner,
    RunAction, RunEvent,
};
use music_quiz_bot::app::music_quiz::{requested_rounds, validate_participant_count};
use music_quiz_bot::commands::MusicQuizCommandError;
use music_quiz_bot::events::message_guild;
use music_quiz_bot::games::music_quiz::quiz::MusicQuiz;
use music_quiz_bot::games::music_quiz::session::{MusicQuizSession, RoundCompletion, RoundProgress};
use music_quiz_bot::games::state::GameStateError;
use music_quiz_bot::links::Url;
use music_quiz_bot::services::itunes::PreviewTrack;
use music_quiz_bot::services::spotify::{Artist, FullTrack, PlaylistTrack};

fn full_track(name: &str, artists: &[&str]) -> FullTrack {
    FullTrack {
        name: name.to_string(),
        artists: artists
            .iter()
            .map(|a| Artist { name: a.to_string() })
            .collect(),
    }
}

fn preview(title: &str, artist: &str) -> PreviewTrack {
    PreviewTrack::new(
        title.to_string(),
        artist.to_string(),
        Url::parse("https://audio.example.com/preview.m4a").unwrap(),
    )
}

#[test]
fn one_human_user_is_enough_to_start_quiz() {
    assert!(validate_participant_count(1).is_ok());
}

#[test]
fn multiple_human_users_are_still_allowed() {
    assert!(validate_participant_count(3).is_ok());
}

#[test]
fn zero_human_users_is_rejected() {
    let error = validate_participant_count(0).unwrap_err();

    assert!(matches!(
        error,
        MusicQuizCommandError::TooFewUsersInChannel { actual: 0 }
    ));
}

#[test]
fn requested_rounds_default_to_five() {
    assert_eq!(requested_rounds(None), 5);
    assert_eq!(requested_rounds(Some(8)), 8);
}

#[test]
fn build_search_query_joins_artists() {
    let track = full_track("Under Pressure", &["Queen", "David Bowie"]);
    assert_eq!(
        MusicQuizPreparationService::build_search_query(&track),
        "Under Pressure - Queen, David Bowie"
    );
    let solo = full_track("Intro", &[]);
    assert_eq!(MusicQuizPreparationService::build_search_query(&solo), "Intro - ");
}

#[test]
fn selection_refuses_short_playlists() {
    let tracks = vec![PlaylistTrack::from(full_track("Only", &["One"]))];
    let error = MusicQuizPreparationService::begin_selection(tracks, 2)
        .err()
        .unwrap();
    assert!(matches!(
        error,
        MusicQuizCommandError::PlaylistContainsNotEnoughSongs { expected: 2, actual: 1 }
    ));
}

#[test]
fn selection_stops_once_enough_previews_were_found() {
    let tracks = vec![
        PlaylistTrack::from(full_track("A", &["X"])),
        PlaylistTrack::from(full_track("B", &["Y"])),
        PlaylistTrack::from(full_track("C", &["Z"])),
    ];
    let mut selection = MusicQuizPreparationService::begin_selection(tracks, 2).unwrap();
    let mut queries = Vec::new();
    let mut answer = 0;
    while let Some(query) = selection.next_query() {
        queries.push(query);
        // the first lookup finds nothing, the next ones find a preview
        if answer == 0 {
            selection.record(None);
        } else {
            selection.record(Some(preview("found", "artist")));
        }
        answer += 1;
    }
    assert_eq!(queries.len(), 3);
    let mut sorted = queries.clone();
    sorted.sort();
    assert_eq!(sorted, vec!["A - X", "B - Y", "C - Z"]);
    let chosen = selection.finish().unwrap();
    assert_eq!(chosen.len(), 2);
    assert_eq!(chosen[0].name(), "found");
    assert_eq!(chosen[0].artist(), "artist");
    assert_eq!(
        chosen[0].preview_url().as_str(),
        "https://audio.example.com/preview.m4a"
    );
}

#[test]
fn selection_reports_too_few_previews() {
    let tracks = vec![
        PlaylistTrack::from(full_track("A", &["X"])),
        PlaylistTrack::from(full_track("B", &["Y"])),
    ];
    let mut selection = MusicQuizPreparationService::begin_selection(tracks, 2).unwrap();
    let mut lookups = 0;
    while let Some(_query) = selection.next_query() {
        lookups += 1;
        if lookups == 1 {
            selection.record(Some(preview("t", "a")));
        } else {
            selection.record(None);
        }
    }
    assert_eq!(lookups, 2);
    let error = selection.finish().err().unwrap();
    assert!(matches!(
        error,
        MusicQuizCommandError::PlaylistContainsNotEnoughPreviewableSongs { expected: 2, actual: 1 }
    ));
}

#[test]
fn round_start_title_shows_progress() {
    let title = round_start_title(RoundProgress { round_number: 2, total_rounds: 5 });
    assert_eq!(title, "🎵 Round 2/5");
}

#[test]
fn round_completion_lists_guessers() {
    let completion = RoundCompletion {
        track_name: "Song".to_string(),
        artist_name: "Band".to_string(),
        artist_guessed_by: Some(42),
        track_guessed_by: Some(7),
    };
    assert_eq!(
        round_completion_description(&completion),
        "**Song:** Song by Band\n\n🎤 Artist guessed by <@42>\n🎵 Track guessed by <@7>\n"
    );
    let nobody = RoundCompletion {
        track_name: "Song".to_string(),
        artist_name: "Band".to_string(),
        artist_guessed_by: None,
        track_guessed_by: None,
    };
    assert_eq!(round_completion_description(&nobody), "**Song:** Song by Band\n\n");
}

#[test]
fn final_results_give_medals_to_the_first_three() {
    let board = vec![(1u64, 9u32), (2, 6), (3, 3), (4, 0)];
    assert_eq!(
        final_results_description(&board),
        "**Final Scores:**\n\n🥇 <@1> - 9 points\n🥈 <@2> - 6 points\n🥉 <@3> - 3 points\n   <@4> - 0 points\n"
    );
    assert_eq!(final_results_description(&Vec::new()), "**Final Scores:**\n\n");
}

#[test]
fn failure_description_names_the_error() {
    assert_eq!(
        failure_description("Game is already running on the server."),
        "An error occurred: Game is already running on the server."
    );
}

#[test]
fn round_end_reasons_have_log_names() {
    assert_eq!(RoundEndReason::GuessedEarly.as_str(), "guessed_early");
    assert_eq!(RoundEndReason::TimedOut.as_str(), "timed_out");
}

#[test]
fn pause_only_between_rounds() {
    let mut session = MusicQuizSession::new(1, vec![1]);
    assert_eq!(pause_after_round(&session), 3);
    session.start_round(
        music_quiz_bot::games::music_quiz::QuizTrack::new(
            "a".to_string(),
            "b".to_string(),
            Url::parse("https://x.example/a").unwrap(),
        ),
    );
    assert_eq!(pause_after_round(&session), 0);
}

#[test]
fn registration_refusal_maps_to_game_running() {
    let error = registration_error(GameStateError::GameAlreadyActiveInServer);
    assert!(matches!(error, MusicQuizCommandError::GameAlreadyRunningInGuild));
}

#[test]
fn prepared_quiz_keeps_its_parts() {
    let quiz = MusicQuiz::new(3, vec![1, 2]);
    let prepared = PreparedMusicQuiz::new(quiz, 99, Vec::new());
    let (quiz, channel, tracks) = prepared.into_parts();
    assert_eq!(quiz.session().total_rounds(), 3);
    assert_eq!(channel, 99);
    assert!(tracks.is_empty());
}

#[test]
fn messages_of_bots_and_direct_messages_are_ignored() {
    assert_eq!(message_guild(true, Some(5)), None);
    assert_eq!(message_guild(false, None), None);
    assert_eq!(message_guild(false, Some(5)), Some(5));
}

#[test]
fn runner_plays_each_round_in_order_then_the_results() {
    let mut runner = RoundRunner::new(2);
    let mut actions = vec![runner.action()];
    for _ in 0..16 {
        actions.push(runner.next(RunEvent::Done));
    }
    let round = |index: usize| {
        vec![
            RunAction::StartRound { index },
            RunAction::AnnounceRound,
            RunAction::PlayPreview { index },
            RunAction::AwaitRoundEnd,
            RunAction::StopPlayback,
            RunAction::AnnounceCompletion,
            RunAction::PauseAfterRound,
        ]
    };
    let mut expected = round(0);
    expected.extend(round(1));
    expected.push(RunAction::AnnounceResults);
    expected.push(RunAction::Finish { succeeded: true });
    expected.push(RunAction::Finish { succeeded: true });
    assert_eq!(actions, expected);
}

#[test]
fn runner_without_tracks_announces_results_at_once() {
    let mut runner = RoundRunner::new(0);
    assert_eq!(runner.action(), RunAction::AnnounceResults);
    assert_eq!(runner.next(RunEvent::Done), RunAction::Finish { succeeded: true });
}

#[test]
fn runner_stops_at_the_first_failed_step() {
    let mut runner = RoundRunner::new(3);
    assert_eq!(runner.next(RunEvent::Done), RunAction::AnnounceRound);
    assert_eq!(runner.next(RunEvent::Done), RunAction::PlayPreview { index: 0 });
    assert_eq!(runner.next(RunEvent::Failed), RunAction::Finish { succeeded: false });
    assert_eq!(runner.next(RunEvent::Done), RunAction::Finish { succeeded: false });
}
