# relatum

Weekly training reports (*Ausbildungsnachweise*): a trainee drafts a report
for an ISO week in markdown and submits it into their department's queue; a
signer of that department signs it or rejects it with a reason; instructors
read every queue. Signed reports export as PDF.

## Layout

- `src/` — the library, verified with Verus.
  - `models/` — users and roles, departments, ISO weeks (`YYYY-Www` text and
    back), signature images, timestamps, and the report state machine with
    its laws (a signed report is final, transitions keep identity, a
    rejection loops back to a submittable draft).
  - `services/` — the use-cases as step functions (state and storage answer
    to next state and round-trip) and the decisions they take: who may author,
    view, revise, submit, sign or reject, and in which order that is checked;
    one report per trainee and week; login and token rotation; department
    assignment; how a directory sync reconciles users; backend readiness.
  - `api/` — the HTTP error policy (status and code for every domain error),
    the wire shapes and their conversions, bearer-token extraction, role gates
    and the SSO redirects.
  - `cli/`, `client.rs` — command-line renderings and input choices, and the
    client's URLs, headers and error mapping.
  - `export/` — the text side of the PDF export: markdown to layout blocks,
    glyph coverage and sanitizing, word splitting.
- `app/` — the program around it: the command line, the HTTP server (axum,
  OpenAPI), the HTTP client, the keyring token store, the loops that run the
  use-cases' steps against the storage ports, and the PDF renderer.
- `tests/` — tests of the library.
