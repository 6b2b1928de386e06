# fleet_core

The decisions of a bare-metal fleet service, written in Rust and proved with Verus.

* `work_lock`: named locks on units of work. A lock is a row of a database table, written by one
  manager task and kept alive by its holder; a row that is not kept alive expires.
  * `lock_table` says what each statement does to the rows, and has a table in memory that does it.
  * `manager` serves commands over one reserved connection, which is replaced when it goes bad.
  * `handle` is the workers' side: asking for a lock, keeping it alive, letting it go.
  * `laws` holds what these promise together, such as exclusive ownership until the time-out.
* `health`: the BMC endpoints of a cluster, and the primary system of a host.
  * `source` loads the endpoints, from the cluster manager or from an inventory file.
  * `cluster`, `rpc` and `inventory` read what these list; `endpoint` makes endpoints of it.
  * `identity` chooses the primary system.
  * `laws` holds what these promise together.

Loops that wait for something outside are step functions: they take what happened and say what to
do next. `app/` drives them with Postgres, HTTP, files and the clock.

What is taken on trust stands at four small functions, each with its claim in its doc comment:
`ids::uuid_display`, `address::parse_mac`, `rpc::status_display` and `rpc::join`.
That the database runs the statements as `lock_table` says is not proved either.
