# condo_plan_reporter_api

A small HTTP service that keeps condominium projects, their floor plans and
the issues found on them, and renders an overall report per project.

- `src/` is the verified library: the clean-up and the parts (stem,
  extension) of uploaded file names, where uploads are stored and published,
  record ids, project-name validation, telling apart and collecting the
  fields of the issue upload form, the overall report, and the answer of
  each route when one of its steps fails.
- `app/` is the actix-web server around it: routing, the upload page,
  multipart streams, the Postgres queries, template rendering and PDF
  output.
- `tests/` exercises the library, comparing it with `std::path::Path`,
  `sanitize_filename` and `uuid` where those decide.
