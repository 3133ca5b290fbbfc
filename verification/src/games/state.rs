//! The registry of running games: one music quiz per server, shared between
//! the task that plays it and the chat that guesses.
use crate::games::music_quiz::quiz::MusicQuiz;
use dashmap::mapref::entry::{Entry, OccupiedEntry, VacantEntry};
use dashmap::DashMap;
use std::sync::Arc;
use tokio::sync::Mutex;
use vstd::prelude::*;

verus! {

/// The concurrent map of `dashmap`.
#[verifier::external_type_specification]
#[verifier::external_body]
#[verifier::reject_recursive_types(K)]
#[verifier::reject_recursive_types(V)]
#[verifier::reject_recursive_types(S)]
pub struct ExDashMap<K, V, S>(DashMap<K, V, S>);

/// The asynchronous mutex of `tokio`.
#[verifier::external_type_specification]
#[verifier::external_body]
#[verifier::reject_recursive_types(T)]
pub struct ExTokioMutex<T: ?Sized>(Mutex<T>);

/// Why a game could not be registered.
#[derive(Debug, Clone, Copy, PartialEq, Eq, Structural)]
pub enum GameStateError {
    GameAlreadyActiveInServer,
}

/// Calls `tokio::sync::Mutex::new`.
#[verifier::external_body]
fn new_quiz_lock(quiz: MusicQuiz) -> Mutex<MusicQuiz> {
    Mutex::new(quiz)
}

/// A quiz shared between the task that plays its rounds and the chat.
#[derive(Clone)]
pub struct MusicQuizHandle {
    quiz: Arc<Mutex<MusicQuiz>>,
}

impl MusicQuizHandle {
    pub fn new(quiz: MusicQuiz) -> Self {
        MusicQuizHandle { quiz: Arc::new(new_quiz_lock(quiz)) }
    }

    /// The lock that guards the quiz.
    pub fn quiz(&self) -> &Arc<Mutex<MusicQuiz>> {
        &self.quiz
    }
}

/// Calls `DashMap::new`.
#[verifier::external_body]
fn new_game_map() -> DashMap<u64, MusicQuizHandle> {
    DashMap::new()
}

/// A place in `dashmap`'s map that holds a value, locked while it is held.
#[verifier::external_type_specification]
#[verifier::external_body]
#[verifier::reject_recursive_types(K)]
#[verifier::reject_recursive_types(V)]
pub struct ExOccupiedEntry<'a, K, V>(OccupiedEntry<'a, K, V>);

/// A place in `dashmap`'s map that holds no value yet, locked while it is held.
#[verifier::external_type_specification]
#[verifier::external_body]
#[verifier::reject_recursive_types(K)]
#[verifier::reject_recursive_types(V)]
pub struct ExVacantEntry<'a, K, V>(VacantEntry<'a, K, V>);

/// The place of a server in the registry: taken by a running game, or free.
pub enum GameSlot<'a> {
    Occupied(OccupiedEntry<'a, u64, MusicQuizHandle>),
    Vacant(VacantEntry<'a, u64, MusicQuizHandle>),
}

/// Calls `DashMap::entry`, which locks the place of `guild_id` in the map and
/// tells whether a value is there; which one it is depends on the other tasks
/// that share the map, so nothing is stated of it.
#[verifier::external_body]
fn game_slot<'a>(games: &'a DashMap<u64, MusicQuizHandle>, guild_id: u64) -> GameSlot<'a> {
    match games.entry(guild_id) {
        Entry::Occupied(entry) => GameSlot::Occupied(entry),
        Entry::Vacant(entry) => GameSlot::Vacant(entry),
    }
}

/// Calls `VacantEntry::insert`, which stores `quiz` in the free place and
/// releases its lock; the map's contents are not modelled.
#[verifier::external_body]
fn fill_slot(entry: VacantEntry<'_, u64, MusicQuizHandle>, quiz: MusicQuizHandle) {
    entry.insert(quiz);
}

/// Calls `DashMap::get` and hands out another handle to the quiz found, if
/// any; the map's contents are not modelled.
#[verifier::external_body]
fn find_game(games: &DashMap<u64, MusicQuizHandle>, guild_id: u64) -> Option<MusicQuizHandle> {
    match games.get(&guild_id) {
        Some(entry) => Some(entry.value().clone()),
        None => None,
    }
}

/// Calls `DashMap::remove`; the map's contents are not modelled.
#[verifier::external_body]
fn remove_game(games: &DashMap<u64, MusicQuizHandle>, guild_id: u64) {
    games.remove(&guild_id);
}

/// Registers `quiz` in the place of its server: a free place takes it and
/// the answer is `Ok`; a taken one keeps its game and the answer is an error.
pub fn register_in_slot(slot: GameSlot<'_>, quiz: MusicQuizHandle) -> (r: Result<(), GameStateError>)
    ensures
        slot is Vacant <==> r is Ok,
        slot is Occupied ==> r == Err::<(), GameStateError>(GameStateError::GameAlreadyActiveInServer),
{
    match slot {
        GameSlot::Occupied(_) => Err(GameStateError::GameAlreadyActiveInServer),
        GameSlot::Vacant(entry) => {
            fill_slot(entry, quiz);
            Ok(())
        },
    }
}

/// The quizzes running, by server.
pub struct GameState {
    games: DashMap<u64, MusicQuizHandle>,
}

impl GameState {
    pub fn new() -> Self {
        GameState { games: new_game_map() }
    }

    /// Registers a quiz for a server, unless one is running there already.
    pub fn start_quiz(&self, guild_id: u64, quiz: MusicQuizHandle) -> (r: Result<(), GameStateError>)
        ensures
            r is Ok || r == Err::<(), GameStateError>(GameStateError::GameAlreadyActiveInServer),
    {
        register_in_slot(game_slot(&self.games, guild_id), quiz)
    }

    /// The quiz running on a server, if any.
    pub fn game(&self, guild_id: u64) -> Option<MusicQuizHandle> {
        find_game(&self.games, guild_id)
    }

    /// Forgets the quiz of a server.
    pub fn end_game(&self, guild_id: u64) {
        remove_game(&self.games, guild_id);
    }
}

} // verus!
