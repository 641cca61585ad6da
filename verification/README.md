# indeed-mcp

An MCP server that searches jobs on Indeed: `jobs_search` by keyword, location, radius and
number of results, and `job_detail` for one posting.

- `src/` is the library, verified with Verus: the requests that go out, what the replies come
  to, the search for a usable access token (`manager`), the secrets of an authorization
  (`pkce`), and the redirect that ends it (`callback`). `laws` states what holds of every
  search for a token, whatever happens outside.
- `app/` is the program around it: the MCP transport, HTTP, files and the browser.
- `tests/` runs the library on concrete values.

The program reads two settings from the environment: `INDEED_MCP_CLIENT_ID`, the name under
which the client is known to Indeed's authorization server, and `INDEED_MCP_PING_URL`, the
address at which an access token is tried. Tokens are kept in `.indeed-mcp-auth.json` in the
directory for configuration.
