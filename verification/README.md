# rioting

Home security system for IP cameras: it works out each camera's RTSP stream
address, serves the browser player, the camera list and each camera's HLS
directory, and talks ONVIF (SOAP over HTTP) to discover a camera's media and PTZ
services. Reading the RTSP streams and writing the HLS segments are not part of
this crate.

The library under `src/` is verified with Verus:

- `config` — camera and server configuration.
- `camera` — the RTSP stream address of each camera maker (Tapo, Reolink), parsed
  with the `url` crate.
- `wsse` — the WS-Security `UsernameToken` header:
  `Base64(SHA-1(nonce + created + password))`, with the `sha1`, `base64`, `rand` and
  `chrono` crates behind small trusted wrappers.
- `onvif` — the `GetCapabilities` request and the reading of service addresses
  (`XAddr`) from the reply, parsed with `roxmltree`.
- `xml` — the node list that the ONVIF logic reads from a parsed document.
- `server` — routes, listen address and the status codes of the PTZ and WebRTC
  handlers.
- `encoding` — standard Base64 as a specification, with its length and alphabet.
- `error` — the library's errors and their messages.
- `text` — decimal notation of numbers, with its read-back proof.
- `webrtc` — creation of a `str0m` WebRTC instance.

`app/` holds the program around it: configuration file loading (TOML), the HTTP
exchange with the camera (`reqwest`) and the axum server.
