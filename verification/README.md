# thalia

A relay that consumes a message broker: error records from the `*.error`
queue are reported and posted to a Slack hook, activity records from the
`*.logs` queue are reported, and every delivery is acknowledged.

- `src/` is the verified library (Verus): the settings read from the
  environment (`config`), the broker settings of each consumer (`settings`),
  the consumer as a state machine (`consumer`) with the laws that hold over
  any run of events (`trace`), the two services built on it (`managers`), and
  how the process itself runs and ends (`service`).
- `app/` is the program around it: it reads the environment, talks to the
  broker, Slack and the signal handlers, and feeds each consumer the events
  it asks for.
- `tests/` exercise the library on concrete values.
