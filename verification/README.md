# godot_rust_script

The decision logic of a runtime that lets Rust code act as a scripting
language of the Godot engine, as a library verified with Verus.

- `src/` is the verified library: the script registry, class names derived
  from script file names, the answers that script resources, script
  instances and placeholders give the engine, property groups, export hints,
  signal argument descriptions, script documentation, and the rules that the
  script macros apply to fields, methods and `#[export]` options. Laws that
  relate several operations are public proof functions whose names start
  with `law_`.
- `tests/` runs the library on concrete values.
- `app/` is the engine side: the Godot classes (script language, script
  resource, script instances, resource loader and saver, editor plugin), the
  global registries and the macros that script libraries use. It converts
  between the engine's types and the library's plain values and leaves every
  decision to the library.
