# music_quiz_bot

A Discord bot that runs a music quiz: it plays short previews of the tracks
of a Spotify playlist in a voice channel, and players guess the artist and
the track name in the chat.

- `src/` is the verified library: the game (rounds, scoring of guesses,
  leaderboard), the judging of guesses by normalized Levenshtein similarity,
  the configuration read from environment variables, the reading of Spotify
  playlist links, the choice of playable previews, the paging through a
  playlist, the order of the steps of a running quiz, and the texts the bot
  posts.
- `app/` is the bot around it: Discord (serenity, poise), voice (songbird),
  and the HTTP requests to Spotify and iTunes (reqwest).
- `tests/` runs the library on concrete values.
