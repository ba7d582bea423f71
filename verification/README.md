# triforce

The verified core of a service that pulls League of Legends esports data
(leagues, tournaments, teams, players, the schedule and the live feed) from the
esports API and stores it in a database.

- `src/` is the library, verified with Verus:
  - `data_pull`: the API records (`serde_models`), their deep views
    (`views`), and the reading of API ids and instants (`parse`).
  - `service`: the pulled state (`DataPull`), how fetched data is merged into
    it (`pull`), the walk through the schedule's pages (`paging`), and the
    detection of changed live events (`changes`).
  - `dao`: the database rows (`models`), the update-or-insert plans for
    leagues, tournaments, teams and players (`rows`), the team-player links
    (`links`), and the plans for schedule events, live details and streams
    (`schedule_plan`).
  - `deep`, `seqs`: structural comparison and copying, and facts about
    sequences.
- `app/` is the program: HTTP requests, JSON reading, database access and the
  periodic jobs. It hands the library plain values and carries out its plans.
- `tests/` exercises the library on concrete values.
