# chat_guard

A verified library for a Telegram moderation bot that watches over a network of chats.

- `src/` is the library, written in Verus. Every public function carries a contract stating
  what it returns; the proofs are checked by Verus. It decides who is admitted to a chat
  (captcha, gifts, Iris registration age), what the antispam checks stop (invite links,
  floods, foreign bots), how commands and inline-button data are read and written, and it
  builds every text and keyboard the bot sends.
- `tests/` runs the library on concrete values.
- `app/` is the bot program: configuration from the environment, the telers dispatcher with
  its handlers, filters and middlewares, the PostgreSQL tables (sea-orm), the in-memory caches
  (moka) and the Iris API client (reqwest). It hands plain values to the library and carries
  out what the library decides.

Run the bot with `BOT_TOKEN`, `SERVER_HOST`, `SERVER_PORT`, `WEBHOOK_URL`, `WEBHOOK_PATH`,
`SECRET_TOKEN`, `DATABASE_URL`, `IRIS_API_ID` and `IRIS_API_TOKEN` set (a `.env` file works
too).
