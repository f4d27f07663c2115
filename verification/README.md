# surf_bridge

Web over Bluetooth for Passport Prime, a hardware wallet without Wi-Fi or a
cellular radio. A browser on the device asks a gateway, the surf-relay, for
pages; a bridge on the gateway's box carries the envelopes between the two over
Bluetooth LE and Quantum Link.

- `src/` is the library, verified with Verus: what the browser and the bridge
  decide. Each public function states what it returns or changes; the `law_*`
  proof functions state what holds across functions.
- `app/` is the ordinary Rust around it: the Bluetooth radio (`ble.rs`), sealing
  and chunking (`link.rs`), the TCP client (`relay.rs`), the state directory
  (`state.rs`), the JSON form of relay envelopes (`wire.rs`), the KeyOS window
  (`keyos.rs`) and the command line (`main.rs`).
- `tests/` exercises the library from outside.

## The library

| Module | Decides |
|---|---|
| `browser` | history, address normalization, fetch requests |
| `events` | what comes of each event on the device |
| `page`, `demo` | page blocks, and the pages built in for use without a relay |
| `ble` | which peripheral is the Passport, and where on it to write and listen |
| `ql` | Quantum Link messages |
| `router` | what the bridge does with each message from the device |
| `relay` | the framing of lines to and from the surf-relay |
| `identity`, `storage` | the state file and how it is saved |
| `sim` | the self-test with a simulated device |
| `cli` | paths on the command line |
| `nesting` | which CBOR data has a shape that can be read safely |
| `text` | text operations that the others need |

What the library has from other crates is called in `cbor` (`dcbor`, `bc-xid`,
`bc-envelope`), `json` (`serde_json`) and `identity` (`hex`), in functions that
Verus takes at their word; the comment above each says what is claimed of it.

## Running

Building the bridge needs BlueZ and the D-Bus development headers, and the
`foundation-api` and `btp` crates of the Passport firmware; building the browser
needs the KeyOS workspace.

```bash
surf-bridge --relay 127.0.0.1:8787                          # scan, connect, bridge
surf-bridge --pair-xid <device-xid-hex> --relay 127.0.0.1:8787   # first pairing
surf-bridge --sim --relay 127.0.0.1:8787                    # self-test, no Bluetooth
```
