# axum_blueprint

The logic of a web back end for users, roles, products, orders and a
gallery, with file uploads to local disk, AWS S3 or Cloudflare R2, image
preprocessing (resize, WebP) and AES-256-GCM file encryption under an
HKDF-SHA256 derived key, written in Verus.  The library's own functions
carry contracts that the verifier proves; the calls into outside crates
(`ring`, `aes-gcm`, `image`, `hex`, `uuid`, `garde`, `rand`) and a few std
functions stand behind small trusted wrappers whose contracts say what
those crates' sources show, and are not proved.

Layout:

- `src/` — the verified library.
  - `app_error`, `validate_json`, `security`: errors and their HTTP answers,
    validated request bodies, masking of secrets.
  - `configuration`, `constants`, `named_values`, `app_state`: settings read
    from an environment snapshot, and the choice of storage backend.
  - `domain`: records and request bodies, their field rules and conversions,
    document ids.
  - `storage`: storage keys and URLs, the multipart form, the storage
    providers' decisions and errors, the file preprocessors and encryption.
  - `worker`: the decisions of the Cloudflare Worker that fronts an R2 bucket.
  - `repositories`: what the database repositories decide around their queries.
  - `hexcode`, `text`: hexadecimal decoding and string helpers.
- `tests/` — tests of the library on concrete values.
- `app/` — the HTTP server: axum routes, the S3/R2/disk providers,
  PostgreSQL queries, and the JSON shapes of the bodies.
