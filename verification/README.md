# noyalib_mcp

A Model Context Protocol server for lossless YAML editing, with its logic
verified by Verus.

- `src/` is the verified library: the six tools (`get`, `set`,
  `set_multidoc` on a file's text, `parse`, `edit`, `validate`), the
  prompt text, the resources and the server's decisions (which tools
  exist, how an unknown one is answered, how an outcome becomes a tool
  result). Every edit goes through noyalib's lossless `cst::Document`;
  `src/cst.rs` is the trusted boundary to noyalib and serde_json, each
  item stating what the outside source shows of the call it makes.
- `app/` is the executable: file reading and atomic writing, the rmcp
  handler with its tool and prompt routers, the serde/schemars copies of
  the library's types, and the stdio transport.
- `tests/` runs the library on concrete inputs.
