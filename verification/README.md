# bully_chaos

A chaos mod for the game Bully, driven by a streamer's chat: every round the
chat votes on one of four events (three random ones and "Random event"), and
the winner is applied to the running game.

`src/` is the verified library (Verus): the event catalogue and the choice of
each round's options, reading votes out of chat messages and counting them
(one vote per viewer, the latest one counts), choosing the winner, the
schedule of the meta events, the chat messages, the memory layout of the
player records and the writes each event makes, key-state decoding, and the
searches through process, module, thread and export lists.

`app/` is the program around it: the chat connection, the settings files,
and the Windows calls that read and write the game's memory, plus the events
that compute with floating-point positions and health over time.

`tests/` exercises the library on concrete values.
