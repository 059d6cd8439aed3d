# generator_android

A verified library that writes the Android (Jetpack Compose) project of a Dowe
application: Gradle scripts, manifests, routing, environment and translation
files, the Compose code of view trees, and the manifest of the view properties
that the generated code reads.

- `src/` holds the library. Every function is verified with Verus: each
  renderer's contract states the exact text it appends, as a spec function of
  its inputs; `src/laws.rs` states properties that span several functions.
- `tests/` holds tests on concrete inputs.
- `app/` holds the vector-icon values that are floating-point numbers, which
  the library takes as ready Kotlin text.

The typography tables, icon sets and translation resource names of the design
system are inputs to the library: a text node carries the typography of its
sizes, a translated text the resource name of its key.
