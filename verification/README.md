# gears

Two services for working with language models, with their rules proved in Verus.

* The **model registry** knows which providers and models there are, who owns them,
  and who may use or change them. Tenants form a tree. A tenant sees the providers of
  its ancestors, except those whose slug a closer tenant has taken.
* The **LLM gateway** has a vocabulary of items, tools and streamed events, in which
  types that it does not know are passed on as they are.

## Layout

`src/` is the library. Everything in it is verified.

| Module | What it holds |
| --- | --- |
| `text`, `ids` | comparing and joining text; identifiers and instants |
| `registry::models`, `query`, `security`, `error`, `config` | the registry's data |
| `registry::inheritance` | tenant chains, shadowing, and the scope of a read along a chain |
| `registry::operation` | operations as dialogues, and what holds of every run of one |
| `registry::resolve`, `evaluation`, `listing`, `management`, `model_writes`, `single_call` | the operations |
| `registry::service` | what begins each operation |
| `registry::rows` | what a store is expected to use to make, change and show its rows |
| `registry::validate`, `client`, `cache` | rules for requests; results for callers; which cache is used |
| `registry::odata` | what listings can be filtered by, and building queries |
| `registry::rest` | bodies, problems and endpoints over HTTP |
| `gateway` | the wire vocabulary and a demonstration gateway |
| `file_parser` | files whose text is to be extracted |

An operation never does outside work itself. It returns a `Step` that asks for it, and
is resumed with the reply. The contract of `Operation::resume` is the relation
`leads_to`, so that a run is a sequence of steps, and statements about all runs, such
as that no kind of request is made twice, or that a failed reply ends the operation,
are proof functions whose names begin with `law_`.

`app/` is the world around the library: the loop that performs what operations ask
for, HTTP with `axum`, the types with `serde` derives, and a demonstration program.

## What is believed

These functions of other crates are called from `src/` and their contracts are
believed: the text of an identifier (`uuid`), the text of an instant (`chrono`), the
text of a type identifier (`gts`), and reading, setting and copying parts of JSON
documents (`serde_json`).
