# trade_copier

A trade copier for MetaTrader 5: a master terminal sends its trades to a
router, and one worker per slave terminal relays them, scaled by the slave's
multiplier and with its symbol prefix.

`src/` is the library, verified with Verus: the line protocol with the
terminals, the worker's reactions to what happens around it, the worker
pool, the update of a worker's settings step by step, the dependency
installation steps, port freeing, the instance registries and command lines
for macOS and Windows, the Expert Advisor synchronisation, and the economic
calendar request. Each public function states its result in its `ensures`;
the `lemma_*` proof functions state the laws that span several calls.

`app/` is the program around it: the SQLite store, the network and process
work, the HTTP interface and the command-line parsing. Lot sizes are floats
and are scaled there.

`tests/` exercises the library on concrete values.
