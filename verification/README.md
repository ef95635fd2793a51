# msb-operator

A Kubernetes operator for microsandbox microVMs, with its decisions verified by Verus.

- `src/` is the verified library: what the controller, the node daemon, the gateway,
  the bridge, the prerunner and the runtime decide, and what they write down. It does no
  I/O. A function takes what was observed as plain values and returns what to do.
- `app/` is the program around it: one binary whose subcommands are the components.
  It talks to the cluster, the kubelet, the sockets and the disk, and performs what the
  library decides.
- `tests/` runs the library with its outside crates linked.

| Module       | What it holds                                                        |
|--------------|----------------------------------------------------------------------|
| `sandbox`    | the Sandbox resource, its defaults and its status                    |
| `k8s`        | the parts of pods, Services and metadata that the operator uses      |
| `controller` | pods, Services, conditions, the reconcile, resizes, leader election  |
| `daemon`     | the KVM device plugin, pulls into the node cache, their markers      |
| `gateway`    | the cloud API: access, creation, conversion, sessions, logs, exec    |
| `bridge`     | the agent relay's socket, and what is forwarded                      |
| `launch`     | secrets, the network policy and the launch configuration of a microVM|
| `runtime`    | the boot plan, the wait for the cache, console log lines             |
| `manifests`  | the controller's access rules, and which spec fields are sealed      |
| `cache`      | where the markers of a pulled image are                              |

Text, names, times, paths, digests, JSON and string maps are in modules of their own. The calls
into outside crates are there too, each behind a small function whose contract says what
is relied on.

What holds of the operator as a whole is stated by public proof functions, next to the
functions they speak of; those on the lifecycle of a sandbox are in `controller::laws`.
