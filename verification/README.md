# portfolio

The back end of a personal site: a blog, short links, uploads to a storage
bucket and a CDN, a contact form and a newsletter.

- `src/` is the verified library: validation rules of every form, the site's
  error type and how it answers and logs, cache keys and the cached record of
  when each blog page changed, the sitemap, the decisions of every handler,
  CDN request signing, and the small text and calendar helpers they rest on.
  Each public function states its result in its contract; the laws that span
  functions are public proof functions beside them.
- `app/` is the server around it: configuration, connections, database
  queries, Redis, mail, the bucket, and the HTTP handlers that hand request
  data to the library and perform what it decides.
- `tests/` runs the library on concrete values.
