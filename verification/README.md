# listing_downloader

A verified planner for a downloader of web directory listings (the index
pages that web servers generate for a folder).

- `src/text.rs`: splitting, joining and pattern removal on text, specified
  over `Seq<char>`, with the split/join laws.
- `src/listing.rs`: reading an entry's kind from its icon's `alt` text and
  deciding what happens to it (descend, download, or only report).
- `src/scrape.rs`: reading a page's tables, rows, links and icons with `scraper`.
- `src/page.rs`: the decisions for a whole page, and the laws over them.
- `src/download.rs`: file name, type, local path and size of a download.
- `src/prompt.rs`: the one-character answer in a typed line.
- `src/walk.rs`: the walk over the listings as a step function from the
  outcome of the last piece of work to the next one, with its failure laws.
- `app/main.rs`: the program: prompts, HTTP and files, carrying out what the
  walk asks for.
