# cdl

The logic of the Common Data Layer services, verified with Verus.

- `src/` is the verified library:
  - `ids`: UUIDs as 128-bit values, their text form, and the proof that
    formatting then parsing gives the value back;
  - `text`: decimal numbers and joined lists;
  - `json`: whether a text is a JSON value;
  - `edge_registry`: the edge registry's request checking, SQL statements,
    responses, the plan for storing edges and the grouping of edges by
    relation, and the steps of storing edges up to the first failure;
  - `api`: the GraphQL API's query-router addresses and its reading of the
    registry's answers and of on-demand views, with the proofs that it reads back what the registry
    sent;
  - `grpc_routes`: the gRPC method paths, the servers' dispatch and the
    answer to an unknown path;
  - `command_service`: the Druid and PostgreSQL outputs' decisions;
  - `object_builder`, `schema_registry`, `rpc_client`, `status_endpoints`,
    `rpc_status`: settings, the export file path, client errors, the status
    flags and endpoints, gRPC statuses.
- `app/` holds the input and output around it: the status server, database
  pools and queries, HTTP calls to the query router, gRPC channels and
  settings files.
- `tests/` runs the library on concrete values.
