# mcp-k8s

A Kubernetes MCP (Model Context Protocol) server: it exposes cluster
operations as MCP tools over JSON-RPC 2.0, on stdio or HTTP(S).

- `src/` is the library, written in Verus. It holds the server's decisions
  with their contracts: which tools the permissions allow and hide, the
  namespace allowlist, the bearer-token rule, JSON-RPC method and tool
  outcomes, resource URIs and prompts, the response cache, the set of
  clusters, the arguments of the create/update tools, and the summaries
  and details the tools report for each kind of object. Laws that span
  several operations (read-only mode, overrides, cache reads after writes,
  a listed tool is a callable tool, ...) are public proof functions.
- `app/` is the program around it: command line, transports, the calls to
  the cluster through `kube`, and JSON in and out.
- `tests/` runs the library on concrete values.
