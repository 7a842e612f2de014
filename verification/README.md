# beatplayer

A metronome: beat patterns, the bar of samples that a pattern is played as, and a player
that loops over it.

`src/` is the library. Its functions carry contracts, which Verus proves.

- `pattern`: beat patterns and their notation
- `double`: the order of double-precision numbers, by their bit patterns
- `signal`: tones and signals
- `bar`: how long a beat is, and how a bar is put together
- `tracker`: which beat is sounding, and when it is announced
- `stream`: what goes on inside a running stream
- `player`: the player, its settings and its stream
- `text`: text, and numbers as text
- `laws`: what holds of the player as a whole

`app/` plays on the default output device of the machine. It talks to the device and does
what takes floating-point arithmetic.
