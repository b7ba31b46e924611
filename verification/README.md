# Healthcheck

A health monitoring service whose decisions are verified with Verus. It polls
downstream services, keeps their status and a history of incidents, serves both
as JSON and as a dashboard, and tells a Discord channel about outages, changes
during an outage, recoveries, long outages and the past week.

## Layout

- `src/` is the verified library.
  - `models`, `state`: configuration, status, incidents and the snapshot of them.
  - `check`: what is sent to a service and what its answer means.
  - `incidents`, `poll`, `poll_loop`: when an outage becomes an incident, when it
    ends, and what is announced; `poll_laws` states what holds of every check,
    every round and every outage.
  - `discord`, `webhook`: what messages say and the steps of their delivery.
  - `reminders`, `weekly`, `schedule`, `watchers`: reminders of long outages, the
    numbers of the weekly report, the time it goes out, and the steps of the two
    watchers.
  - `settings`, `clock`, `text`, `rows`: environment variables, times, texts and
    the form in which incidents are stored.
- `tests/` runs the library on concrete values.
- `app/` is the program: web server, HTTP client, database and timers.

## Settings

| Variable | Meaning | Default |
| --- | --- | --- |
| `POLL_INTERVAL_SECS` | seconds between two rounds of checks, at least 5 | 60 |
| `REQUEST_TIMEOUT_MS` | milliseconds to wait for an answer, at least 500 | 5000 |
| `INCIDENT_GRACE_PERIOD_SECS` | seconds an outage lasts before it is an incident | 120 |
| `OUTAGE_REMINDERS_ENABLED` | `0`, `false` or `off` turns reminders off | on |
| `OUTAGE_REMINDER_MINUTES` | age at which an open incident is brought up | 30 |
| `OUTAGE_REMINDER_REPEAT_MINUTES` | minutes between two reminders | the age above |
| `OUTAGE_REMINDER_CHECK_SECS` | seconds between two looks, at least 30 | 60 |
| `WEEKLY_REPORT_ENABLED` | `0`, `false` or `off` turns the report off | on |
| `WEEKLY_REPORT_DAY` | weekday of the report | Sunday |
| `WEEKLY_REPORT_HOUR` | hour of the report in UTC, at most 23 | 9 |
| `DISCORD_WEBHOOK_URL` | where messages go; none are sent without it | |
| `HEALTHCHECK_DB_PATH` | database file | `healthcheck.db` |
| `STATIC_ASSETS_DIR` | files served under `/static` | `static` in the package |
