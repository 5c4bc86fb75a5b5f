# MineCLI

A command-line client for MineChat, with which one chats with the players on a
Minecraft server from a terminal. What the client decides is written and proved
in Verus; what it reads, writes and waits for is an ordinary program around it.

- `src/` is the verified library.
  - `text`: comparing, searching and reading strings; decimal numerals.
  - `address`: server addresses, written `host:port`.
  - `config`: the servers that the client is linked with.
  - `chat`: chat formats, and how a message is shown.
  - `session`: the steps of linking with a server and of connecting to it.
  - `network`: what the task that owns the connection does next.
  - `repl`: what is shown of each packet, and what each typed line does.
- `tests/` runs the library.
- `app/` is the program: arguments, files, sockets, tasks and logs.

Functions whose names begin with `law_` state what holds of the library as a
whole, such as that a client connects with the identity and the certificate
that linking stored.
