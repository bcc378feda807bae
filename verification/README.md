# rc

A small engine toolkit written in Verus, with its behaviour stated in
contracts and proved.

- `math`: generic `vec2`/`vec3` with component-wise operators, and `clamp`.
- `memory::heap`: `malloc`/`deref`/`free` over an owned heap cell.
- `obj`: reads the vertex and face lines of Wavefront OBJ text.
- `builder`: writes the expansion of `#[derive(Builder)]` as Rust source text.
- `vulkan`: the decisions of a Vulkan bring-up over plain values (layers and
  extensions, queue families, physical-device choice, swap-chain shape).
- `engine`: the bring-up as a state machine; `app/` performs its steps
  against SDL2 and the Vulkan loader (`ash`).

`app/` holds the program around the library: the SDL and Vulkan calls, file
reading, and the token plumbing of the derive.

Notes on a few choices:

- `memory::heap::free` consumes the cell without running the value's
  destructor: the memory is given back, the value is not dropped.
- Layer and extension names, and the queue families that the device is
  made with, are held in `Vec`s and searched linearly rather than in a
  `HashSet`: vstd specifies no hash set of `String`s that a proof could use,
  and a `Vec` fixes an order (graphics family first) that a hash set's walk
  leaves open.
- The OBJ reader keeps vertex coordinates as the text that `str::parse::<f32>`
  accepts (checked in `obj::is_float_text`); `app/` turns them into `f32`.
