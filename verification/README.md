# chat_launch

The decisions of a chat command-line client, verified with Verus.

- `src/launch.rs`, `src/launch_laws.rs`: how a session is launched. A launch prescribes
  one action at a time from what is known; the laws say what holds of every launch.
- `src/file_input.rs`: input that starts with a slash and yet names a file.
- `src/subscription.rs`: what the replies of the service say of a subscription.
- `src/error.rs`, `src/state.rs`, `src/args.rs`: the errors, the states and the arguments
  of a chat.
- `src/terminal.rs`, `src/trust.rs`, `src/model.rs`, `src/conversation.rs`, `src/text.rs`:
  what the terminal is told, trusted tools, models, conversation ids and text.
- `app/`: the command line, the terminal and the calls into the rest of the client.

The calls that are taken on trust are `split_words` and `main_separator` in
`src/file_input.rs` and `new_conversation_id` in `src/conversation.rs`.
