# titanium-web-extension

The logic of the web extension of the Titanium browser, verified with Verus.

- `src/message_client.rs`: the extension's state for its page and the
  handler of the UI process's messages. `MessageClient::update` changes the
  state and returns a `Task` for the page; the steps that need an answer from
  the page (`click`, `hover`, `finish_hint_key`, `set_hint_map`,
  `focus_input`, `credentials_message`, `scroll_percentage_message`) take that
  answer as a value.
- `src/hint_map.rs`: the map from hint labels to the elements they name.
- `src/protocol.rs`: the messages exchanged with the UI process.
- `src/scroll.rs`: the `Scrollable` interface and its integer computations.
- `src/laws.rs`: properties that relate several steps, proved.
- `app/`: the WebKit side: it reads and changes the page and runs the tasks.
