# blog_frontend

The front end of a blog, as a verified library and a Rocket server around it.

- `src/` is the library, with its contracts proved: the URLs of the back end
  (`requests`), the cookie header it forwards (`common`), what a reply of the
  back end comes to (`requests`, `models`, `errors`), and, for each page of
  the front end, the page or redirect it answers with (`user`, `tag`, `post`,
  `session`, `pages`). Status codes are in `status`, decimal rendering in
  `text`, the template tester in `tera_custom`, the JSON:API documents in
  `jsonapi`.
- `app/` is the server: the routes, the HTTP client, the JSON reading and
  writing, and the rendering of templates. It sends the requests the library
  prepares and hands the replies back to it.
- `tests/` runs the library on concrete values.
