# backend

The rules of the KennWilliamson.org backend as a verified library.

- `src/` holds the library. Its functions have contracts, and Verus proves
  every function but the trusted wrappers named below:
  slugs (`user_slug`, `slug_utils`, `blog_text`), markdown plain text and
  excerpts (`blog_text`), OAuth state parameters (`oauth_state`), tokens and
  password hashes (`tokens`), roles (`roles`), account rules (`auth_rules`),
  blog post rules (`blog_posts`), the administrative services (`admin`),
  the Google sign-in callback steps (`oauth_flow`), the user response and
  data export (`user_records`),
  access-token claims (`jwt`), the scripted OAuth provider (`mock_oauth`),
  request parameters (`queries`), answer statuses (`responses`) and the
  SES webhook (`webhooks`). `text` holds the shared character and sequence
  helpers.
- `tests/` runs the library on concrete values.
- `app/` is ordinary Rust around the library: serde copies of the wire
  types, token signing with `jsonwebtoken`, and drivers that run the
  library's decisions against a store.

Calls into outside crates (`base64`, `hex`, `sha2`, `rand`, `bcrypt`) and
into parts of `std` that Verus has no specification for (lowercasing,
`is_alphanumeric`, collecting characters into a `String`, UTF-8 decoding,
`Debug` of a string) stand behind small trusted wrappers. Verus does not
prove these; their contracts state what the library relies on, and nothing
more than the outside source or documentation shows.
