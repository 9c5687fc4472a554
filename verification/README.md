# synology_chat

A chat channel on top of Synology Chat's webhooks.

Synology Chat posts what people write through an outgoing webhook, as a form,
and takes what the channel has to say through an incoming webhook. The library
in `src/` decides what a request of the first becomes (refused, accepted,
accepted with a message) and leads through the posts to the second. Its
contracts are proved with Verus; `src/laws.rs` states what holds of it as a
whole.

`app/` puts the library on the network: the HTTP listener, the HTTP client and
the task that runs them.

What is taken for granted of other crates stands in `src/json.rs`
(`serde_json`), `src/form.rs` (`url`), `src/secret.rs` (`zeroize`),
`src/clock.rs` (`chrono`), `src/send.rs` (how `reqwest` shows a status code) and
`src/text.rs` (`String::push`).
