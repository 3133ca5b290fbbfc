use music_quiz_bot::games::music_quiz::matching::{
    judge_guess, normalize_string, similarity_exceeds, GuessResult,
};
use music_quiz_bot::games::music_quiz::message_handler::{reaction_to, GuessReaction};
use music_quiz_bot::games::music_quiz::quiz::{GuessOutcome, MusicQuiz};
use music_quiz_bot::games::music_quiz::session::{MusicQuizSession, Round};
use music_quiz_bot::games::music_quiz::{MusicQuizError, QuizTrack};
use music_quiz_bot::games::state::{
    register_in_slot, GameSlot, GameState, GameStateError, MusicQuizHandle,
};
use music_quiz_bot::links::Url;

fn track(name: &str, artist: &str) -> QuizTrack {
    QuizTrack::new(
        name.to_string(),
        artist.to_string(),
        Url::parse("https://audio.example.com/p.m4a").unwrap(),
    )
}

fn quiz_with_round(name: &str, artist: &str) -> MusicQuiz {
    let mut quiz = MusicQuiz::new(3, vec![1, 2, 3]);
    quiz.session_mut().start_round(track(name, artist));
    quiz
}

#[test]
fn guess_without_round_is_refused() {
    let mut quiz = MusicQuiz::new(3, vec![1]);
    assert_eq!(quiz.make_guess(1, "anything"), Err(MusicQuizError::NoRoundInProgress));
    assert_eq!(quiz.session().score(1), 0);
}

#[test]
fn naming_track_and_artist_earns_three_points() {
    let mut quiz = quiz_with_round("Bohemian Rhapsody", "Queen");
    assert_eq!(
        quiz.make_guess(1, "Bohemian Rhapsody Queen"),
        Ok(GuessOutcome::Both { points: 3 })
    );
    assert_eq!(quiz.session().score(1), 3);
    assert!(quiz.is_round_complete());
    // artist first also counts
    let mut quiz = quiz_with_round("Bohemian Rhapsody", "Queen");
    assert_eq!(
        quiz.make_guess(2, "queen - bohemian rhapsody"),
        Ok(GuessOutcome::Both { points: 3 })
    );
}

#[test]
fn track_then_artist_by_the_same_player_reports_three() {
    let mut quiz = quiz_with_round("Bohemian Rhapsody", "Queen");
    assert_eq!(
        quiz.make_guess(1, "bohemian rhapsody"),
        Ok(GuessOutcome::Track { points: 1 })
    );
    assert!(!quiz.is_round_complete());
    assert_eq!(quiz.make_guess(1, "Queen"), Ok(GuessOutcome::Artist { points: 3 }));
    assert_eq!(quiz.session().score(1), 3);
    assert!(quiz.is_round_complete());
}

#[test]
fn two_players_share_a_round() {
    let mut quiz = quiz_with_round("Bohemian Rhapsody", "Queen");
    assert_eq!(quiz.make_guess(1, "Queen"), Ok(GuessOutcome::Artist { points: 1 }));
    assert_eq!(
        quiz.make_guess(2, "Bohemian Rhapsody!"),
        Ok(GuessOutcome::Track { points: 1 })
    );
    assert_eq!(quiz.session().score(1), 1);
    assert_eq!(quiz.session().score(2), 1);
    assert_eq!(quiz.make_guess(3, "Queen"), Ok(GuessOutcome::AlreadyGuessed));
    assert_eq!(quiz.make_guess(3, "bohemian rhapsody queen"), Ok(GuessOutcome::AlreadyGuessed));
    assert_eq!(quiz.session().score(3), 0);
}

#[test]
fn wrong_guess_changes_nothing() {
    let mut quiz = quiz_with_round("Bohemian Rhapsody", "Queen");
    assert_eq!(quiz.make_guess(1, "Stairway to Heaven"), Ok(GuessOutcome::Wrong));
    assert_eq!(quiz.session().score(1), 0);
    let round = quiz.session().current_round().unwrap();
    assert_eq!(round.artist_guessed_by(), None);
    assert_eq!(round.track_guessed_by(), None);
}

#[test]
fn naming_both_after_the_track_was_guessed_takes_over_the_track() {
    let mut quiz = quiz_with_round("Bohemian Rhapsody", "Queen");
    assert_eq!(
        quiz.make_guess(1, "Bohemian Rhapsody"),
        Ok(GuessOutcome::Track { points: 1 })
    );
    assert_eq!(
        quiz.make_guess(2, "Bohemian Rhapsody Queen"),
        Ok(GuessOutcome::Track { points: 1 })
    );
    let round = quiz.session().current_round().unwrap();
    assert_eq!(round.track_guessed_by(), Some(2));
    assert_eq!(round.artist_guessed_by(), None);
    assert_eq!(quiz.session().score(1), 1);
    assert_eq!(quiz.session().score(2), 1);
}

#[test]
fn try_make_guess_refuses_an_overflowing_score() {
    let mut quiz = quiz_with_round("Song", "Band");
    quiz.session_mut().add_score(1, u32::MAX - 1);
    assert_eq!(quiz.try_make_guess(1, "Song Band"), None);
    assert_eq!(quiz.session().score(1), u32::MAX - 1);
    assert_eq!(
        quiz.try_make_guess(1, "Song"),
        Some(Ok(GuessOutcome::Track { points: 1 }))
    );
    assert_eq!(quiz.session().score(1), u32::MAX);
}

#[test]
fn leaderboard_orders_by_score_and_keeps_ties_in_join_order() {
    let mut session = MusicQuizSession::new(2, vec![1, 2, 3, 4]);
    session.add_score(3, 3);
    session.add_score(2, 3);
    session.add_score(4, 1);
    assert_eq!(
        session.get_leaderboard(),
        vec![(2, 3), (3, 3), (4, 1), (1, 0)]
    );
    let empty = MusicQuizSession::new(2, Vec::new());
    assert!(empty.get_leaderboard().is_empty());
}

#[test]
fn scores_accumulate() {
    let mut session = MusicQuizSession::new(2, vec![7]);
    assert_eq!(session.score(7), 0);
    session.add_score(7, 2);
    session.add_score(7, 3);
    assert_eq!(session.score(7), 5);
}

#[test]
fn session_finishes_after_the_planned_rounds() {
    let mut session = MusicQuizSession::new(2, vec![1]);
    assert!(!session.is_finished());
    assert!(session.current_round().is_none());
    assert!(session.round_completion().is_none());
    session.start_round(track("a", "b"));
    assert_eq!(session.round_number(), 1);
    assert!(!session.is_finished());
    session.start_round(track("c", "d"));
    assert_eq!(session.round_progress().round_number, 2);
    assert_eq!(session.round_progress().total_rounds, 2);
    assert!(session.is_finished());
    let completion = session.round_completion().unwrap();
    assert_eq!(completion.track_name, "c");
    assert_eq!(completion.artist_name, "d");
}

#[test]
fn new_round_has_no_guessers() {
    let mut round = Round::new(track("a", "b"));
    assert!(!round.is_complete());
    round.set_artist_guessed_by(5);
    assert!(!round.is_complete());
    round.set_track_guessed_by(6);
    assert!(round.is_complete());
    assert_eq!(round.artist_guessed_by(), Some(5));
    assert_eq!(round.track().name(), "a");
}

#[test]
fn normalization_keeps_lowercase_letters_and_digits() {
    assert_eq!(normalize_string("Hello, World! 42"), "helloworld42");
    assert_eq!(normalize_string("Beyoncé"), "beyoncé");
    assert_eq!(normalize_string("  ?! "), "");
}

#[test]
fn similarity_follows_the_normalized_levenshtein_score() {
    // kitten / sitting: distance 3 over 7 characters, similarity 4/7
    assert!(similarity_exceeds("kitten", "sitting", 50));
    assert!(!similarity_exceeds("kitten", "sitting", 60));
    assert!(similarity_exceeds("", "", 99));
    assert!(!similarity_exceeds("", "abc", 0));
    // one edit in ten characters is exactly 0.90: not above the track threshold
    assert!(!similarity_exceeds("abcdefghij", "abcdefghix", 90));
    assert!(similarity_exceeds("abcdefghij", "abcdefghix", 89));
}

#[test]
fn judging_tells_track_artist_or_both() {
    assert_eq!(judge_guess("Yesterday", "Yesterday", "The Beatles"), GuessResult::TrackOnly);
    assert_eq!(judge_guess("the beatles", "Yesterday", "The Beatles"), GuessResult::ArtistOnly);
    assert_eq!(judge_guess("Yesterday The Beatles", "Yesterday", "The Beatles"), GuessResult::Both);
    assert_eq!(judge_guess("Help", "Yesterday", "The Beatles"), GuessResult::Neither);
}

#[test]
fn replies_tell_the_points() {
    assert_eq!(
        reaction_to(GuessOutcome::Artist { points: 1 }),
        GuessReaction::Reply("🎤 Correct artist! +1 points!".to_string())
    );
    assert_eq!(
        reaction_to(GuessOutcome::Track { points: 3 }),
        GuessReaction::Reply("🎵 Correct track! +3 points!".to_string())
    );
    assert_eq!(
        reaction_to(GuessOutcome::Both { points: 3 }),
        GuessReaction::Reply("🎉 Correct! You guessed both! +3 points!".to_string())
    );
    assert_eq!(reaction_to(GuessOutcome::AlreadyGuessed), GuessReaction::Ignore);
    assert_eq!(reaction_to(GuessOutcome::Wrong), GuessReaction::React("❌".to_string()));
}

#[test]
fn round_complete_notify_is_shared() {
    let quiz = MusicQuiz::new(1, vec![1]);
    let first = quiz.notify_round_complete();
    let second = quiz.notify_round_complete();
    assert!(std::sync::Arc::ptr_eq(&first, &second));
}

#[test]
fn one_game_per_server() {
    let state = GameState::new();
    assert!(state.game(1).is_none());
    assert_eq!(state.start_quiz(1, MusicQuizHandle::new(MusicQuiz::new(1, vec![]))), Ok(()));
    assert_eq!(
        state.start_quiz(1, MusicQuizHandle::new(MusicQuiz::new(1, vec![]))),
        Err(GameStateError::GameAlreadyActiveInServer)
    );
    assert_eq!(state.start_quiz(2, MusicQuizHandle::new(MusicQuiz::new(1, vec![]))), Ok(()));
    assert!(state.game(1).is_some());
    state.end_game(1);
    assert!(state.game(1).is_none());
    assert_eq!(state.start_quiz(1, MusicQuizHandle::new(MusicQuiz::new(1, vec![]))), Ok(()));
}

fn woken_by_guess(quiz: &mut MusicQuiz, user: u64, guess: &str) -> bool {
    let notify = quiz.notify_round_complete();
    let runtime = tokio::runtime::Builder::new_current_thread()
        .enable_all()
        .build()
        .unwrap();
    let mut notified = Box::pin(notify.notified());
    notified.as_mut().enable();
    let _ = quiz.make_guess(user, guess);
    runtime.block_on(async {
        tokio::time::timeout(std::time::Duration::from_millis(200), notified)
            .await
            .is_ok()
    })
}

#[test]
fn completing_a_round_wakes_the_waiters() {
    let mut quiz = quiz_with_round("Bohemian Rhapsody", "Queen");
    assert!(woken_by_guess(&mut quiz, 1, "Bohemian Rhapsody Queen"));
}

#[test]
fn an_unfinished_round_wakes_nobody() {
    let mut quiz = quiz_with_round("Bohemian Rhapsody", "Queen");
    assert!(!woken_by_guess(&mut quiz, 1, "Queen"));
    assert!(!woken_by_guess(&mut quiz, 2, "something else entirely"));
    let mut idle = MusicQuiz::new(1, vec![1]);
    assert!(!woken_by_guess(&mut idle, 1, "Queen"));
}

#[test]
fn case_and_punctuation_of_a_guess_do_not_matter() {
    let mut first = quiz_with_round("Hello", "Adele");
    let mut second = quiz_with_round("Hello", "Adele");
    let a = first.make_guess(1, "Hello, Adele!");
    let b = second.make_guess(1, "helloadele");
    assert_eq!(a, Ok(GuessOutcome::Both { points: 3 }));
    assert_eq!(a, b);
    assert_eq!(first.session().score(1), second.session().score(1));
}

#[test]
fn a_free_slot_takes_the_quiz_and_a_taken_one_refuses() {
    let games: dashmap::DashMap<u64, MusicQuizHandle> = dashmap::DashMap::new();
    let slot = match games.entry(7) {
        dashmap::mapref::entry::Entry::Occupied(entry) => GameSlot::Occupied(entry),
        dashmap::mapref::entry::Entry::Vacant(entry) => GameSlot::Vacant(entry),
    };
    assert_eq!(register_in_slot(slot, MusicQuizHandle::new(MusicQuiz::new(1, vec![]))), Ok(()));
    assert!(games.contains_key(&7));
    let slot = match games.entry(7) {
        dashmap::mapref::entry::Entry::Occupied(entry) => GameSlot::Occupied(entry),
        dashmap::mapref::entry::Entry::Vacant(entry) => GameSlot::Vacant(entry),
    };
    assert_eq!(
        register_in_slot(slot, MusicQuizHandle::new(MusicQuiz::new(1, vec![]))),
        Err(GameStateError::GameAlreadyActiveInServer)
    );
    assert_eq!(games.len(), 1);
}
