# homework

A free, offline-capable web app where children practise elementary-school
exercises. This crate holds its core as a library verified with Verus, and
the web server around it.

## Layout

- `src/` — the verified library:
  - `exercises.rs`: the exercise catalogue, level labels, the home-page
    level sections, exercise lookup and the flashcards share-link metadata;
  - `language_banner.rs`: `Accept-Language` and cookie parsing, the choice
    of translation, HTML escaping and the banner markup;
  - `headers.rs`: reading request headers from `rama`'s header map;
  - `csp.rs`, `layout.rs`, `digest.rs`: the inline blocks a page renders,
    each fingerprinted with the base64 SHA-256 of its body when it is
    made, the Content-Security-Policy that whitelists exactly those
    blocks, and the URLs of the page head;
  - `markup.rs`, `forms.rs`, `clock.rs`, `about.rs`: the markup shared by
    the exercise pages (breadcrumb, form controls, time mode, the
    configure → play → results scaffold with its history block, the
    home-page level sections), the setup form of every exercise, the
    analogue clock's free-play page, and the contact section of the about
    page;
  - `page.rs`: the HTML document of a page, which renders exactly the
    inline blocks its policy admits;
  - `redirect.rs`: the redirects to the canonical origin (HTTPS, without
    `www.`);
  - `assets.rs`: the sitemap and the versioned web-app manifest;
  - `json_ld.rs`: the schema.org documents;
  - `routes.rs`: the route table;
  - `text.rs`: splitting, trimming, lower-casing and replacing text.
- `tests/` — tests of the library.
- `app/` — the HTTP server (`rama`): reading the assets, routing, the
  response headers and redirects, the fixed text of the home, about,
  privacy and offline pages, and the JSON-LD serialisation.

## Running

```
homework --assets <dir> --asset-version <git-sha> [--http 0.0.0.0:8080] [--haproxy] [--redirect-to-https]
```

`<dir>` holds the web assets: `assets/theme.css`,
`assets/homework.js`, …, `pages/home_speculation.json` and
`exercises/<exercise>.{css,js,jsonld}`. The fingerprint of every inlined
file, which the page's Content-Security-Policy lists, is computed from the
file's bytes when it is loaded. The import map, which maps `@homework`
to `/homework.js?v=<git-sha>`, is built from the asset version. Where `assets/site.jsonld` or an
exercise's `.jsonld` file is missing, the structured data is built from
the catalogue.
