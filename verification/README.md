# social_credit_bot

A Discord bot that keeps a social-credit score for the members of a server
(members vote with the `positivefriend` and `negativefriend` reactions),
shows leaderboards of those scores, and lets every member catch a random
Pokémon once every three hours.

- `src/` is the library, verified with Verus: parsing of commands, the
  catch rules, the Pokédex and its random draws, sprite addresses, and the
  text of every reply, each with its contract.
- `app/` is the program around it: the Discord client (serenity), the
  SQLite database (sqlx), reading `data/pokedex.json`, and logging.

The program reads `DATABASE_URL` and `DISCORD_TOKEN` from its environment
and runs the migrations in `./migrations` at start-up.
