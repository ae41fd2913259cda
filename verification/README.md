# convex_kmp

The core of a Convex client for mobile hosts, verified with Verus, and a thin shell around it.

A host calls Convex queries, mutations and actions through synchronous entry points, passes
arguments as JSON text by name, and gets JSON text back. It can subscribe to a query, cancel a
subscription, and shut the client down.

- `src/` decides. It admits or refuses calls, reads arguments, turns replies into answers, says what
  a subscriber is told, numbers and counts subscriptions, and cancels them. A call is a sequence of
  steps; each step takes what came back from outside as an argument.
- `app/` does. It connects, sends, waits and sleeps, and hands the outcomes to `src/`.

| module | holds |
| --- | --- |
| `client` | the client and the steps of a call |
| `state` | the client's state as a value, and how each operation changes it |
| `args` | arguments, from JSON text to Convex values |
| `reply` | replies, from Convex results to answers |
| `subscription` | what a running subscription does about an event |
| `listener` | a subscriber with the record of what it was told |
| `handle` | the owner's hold on a subscription |
| `error` | the errors of a call |
| `laws` | what holds over any run of steps |
| `outside` | what is asked of other crates, and what they are taken to do |
