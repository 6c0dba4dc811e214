# systembolaget

A client for the assortment of Systembolaget, the Swedish alcohol retailer,
written in Verus.

- `src/` is the verified library: the names of sort orders, assortments and
  product types; product page addresses and terminal hyperlinks; finding the
  API key in the shop's pages; building search requests; collecting result
  pages into a map of products; and which products a page of the web view
  shows. Contracts are stated over `Seq`, `Map` and spec functions, and the
  laws of the library are proof functions beside the code they are about.
- `app/` is the program around it: network requests, JSON, floating-point
  ratios and a small web server.
- `tests/` exercises the library on concrete values.
