# sdkwork-drive

The request validation, access-control decisions and workflow steps of the
SDKWork Drive workspace service, written in Verus and proved against their
contracts.

- `src/` is the verified library. Each module holds the decisions of one
  area (request context, validators, ACL capabilities, pagination scans,
  uploads and their completion, nodes, versions, trash, archives, spaces,
  permissions,
  collaboration, change records, the domain outbox relay, webhook delivery).
  Workflows that alternate database or network work with decisions are
  state machines: the caller performs the step the machine names and feeds
  the outcome back.
- `tests/` runs the library on concrete values.
- `app/` is the plumbing around it: problem responses, the request-context
  middleware, the store and transport ports, and the drivers that run the
  outbox dispatch and webhook fan-out machines.
