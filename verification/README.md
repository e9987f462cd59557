# OpenLogi core

The decisions of a desktop companion for configurable mice, keyboards, lights
and cameras, written in Verus: what each function does is stated in its
contract and proved.

- `src/binding` - controls, actions, gestures and their defaults
- `src/config` - settings with the rules that a stored value has to meet, the
  store of bindings, and whether it may be written
- `src/projection.rs` - what the running system reads off a configuration
- `src/state` - commits of bindings, and what they keep
- `src/desktop` - what is known of the agent, image downloads, camera searches,
  commands, windows, the page of general settings
- `src/inject` - magnification gestures, and the route that their events take
- `src/table.rs`, `src/text.rs`, `src/text_set.rs`, `src/color.rs` - a map, the
  text of numbers, a set of texts, colours

`app/` is the program around it: the stored form of the configuration, the
event loop, and the calls to the operating system.
