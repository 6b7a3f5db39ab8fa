# bleur

A template assistant: it fetches a project template (a git repository or an
archive over HTTP), asks the user for the template's variables, fills them
into the template's files, moves files whose names hold variables, and copies
the result to where the project is to live.

The library under `src/` holds the decisions, each with a contract checked by
Verus:

- `text`: replacing, splitting and case mapping on character sequences;
- `globals`: the store of variable values, the `@name@` reference syntax and
  filling references in;
- `schemes`: templates, collections of templates and how a repository's
  configuration leads to one template;
- `schemes::template::apply`: the functions (`uppercase`, `lowercase`) a value
  is passed through;
- `execute::task`: the tasks of a template, their order, and what each asks
  the caller to do;
- `manager`: assembling a run from an address, a temporary directory and a
  way of fetching.

`app/` is the command line program around it: argument parsing, prompts,
reading and writing files, fetching with git or HTTP, and the `bleur.toml`
format read with serde.
