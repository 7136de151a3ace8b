# urd

Verified core of a Universal Robots daemon, written with Verus.

* `src/` — the library, verified by Verus:
  * `monitoring` — names of robot, safety and runtime modes; position and robot-state
    output decisions (rate limiting and change detection);
  * `rpy_analysis` — the sliding sample window of the roll/pitch/yaw analysis and the
    cadence of its statistics reports;
  * `controller` — initialization sequence, power-on/brake-release procedure, waiting
    for a robot mode, interpreter connection retries, emergency abort and shutdown;
  * `text`, `decimal` — character-level text search and decimal rendering.
* `app/` — plain Rust around the library: sockets, clocks, floating-point poses and
  statistics, JSON output.
* `tests/` — tests of the library.
