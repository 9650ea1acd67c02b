# migo_net

The network core of a desktop chat client, written in Verus: what a client does with the frames it
hears, the commands its window gives, and the answers its server sends, each stated in a contract
and proved.

The library in `src/` decides and never waits. A handler changes the state it is given and returns
a list of actions, in order; the edge in `app/` carries them out and reports what came of them.

- `worker`, `dispatch`, `inbound`: the client's state, the commands and the frames.
- `link`, `timing`, `sequence`, `sync`, `transcript`: the realtime link, resuming it, and reading
  back what an outage dropped.
- `entry`, `rotation`, `account`: the ways into an account, and rotating its identity.
- `sealing`, `sending`, `peers`, `groups`, `members`, `rooms`, `conversations`, `signed`: who a
  message is sealed for, and what each membership change does to the keys.
- `media`, `media_cache`, `voice`, `voice_draft`, `voice_listened`, `content`: attachments and voice
  notes.
- `rest`, `admin`, `wallet`, `spending`, `economy`, `people`: the account's calls and panels, and
  sending a transaction.
- `framing`, `tcp`, `quic`, `gateway`, `server_probe`, `wire`: the native transports.
- `codec`, `text`, `rows`, `ids`, `notices`, `effects`, `command`, `asks`, `room_bridge`: what the
  rest is built from.

Every `law_...` is a public proof function that states a promise over several calls, or over every
state.

`app/` holds the sockets, the files, the threads, the REST client and the window's handle. What it
needs of the rest of the program (the protocol's codec, the keys and their vault, the sound
devices, the calls) stands in `app/parts.rs` as traits.
