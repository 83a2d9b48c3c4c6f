# crust_core

The engine of a Minecraft launcher, verified with Verus: signing in to Microsoft,
Yggdrasil and AZauth accounts, resolving version manifests and the files they need,
installing Forge, NeoForge, Fabric, LegacyFabric and Quilt, building the game's command
line, and pinging servers.

## Layout

- `src/` is the verified library. What is decided on values is there, with its contract:
  - `foundation`: platforms, Mojang's rules, Maven coordinates, paths, text, hashes,
    JWT payloads, PKCE, options and time arithmetic;
  - `providers`: the endpoints, request forms and answers of each service (Microsoft,
    Xbox Live, Minecraft services, Yggdrasil, AZauth, launcher metadata, Forge,
    NeoForge, Fabric, Azul);
  - `authenticator`: the sign-in flows as functions from answers to accounts, the
    refresh rule and the device-code polling steps;
  - `resolver`: the downloads, natives and runtime a version needs, the JNA and LWJGL
    library patches;
  - `checker`: what a file on disk means for a download, and what a clean-up removes;
  - `loader`: build selection, installer files, library steps and processor runs;
  - `launcher`: the JVM and game arguments, the class path, the launch plan;
  - `network`: the server list ping packets and answers, JSON values, download
    workers and retries.
- `app/` is the I/O around it: HTTP with `reqwest`, files and archives, processes and
  sockets with `tokio`, and the `serde` shapes of every JSON document. The order of the
  launch steps and the walk up emptied folders during a clean-up are written there; which
  Azul archive type is asked for next is decided in `launcher::java`.
- `tests/` runs the library on concrete values.

Calls into `base64`, `md-5`, `sha1`, `sha2`, `rand`, `url` and `serde_json` that the library makes
stand behind small trusted wrappers whose contracts say what those crates do.
