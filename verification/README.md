# horizon

The verified core of the Horizon game engine: the decisions and data handling that
the engine makes between its windowing, scripting, asset and GPU layers, each with a
contract proved by Verus.

Layout of `src/`:

- `components`: the component storage wrapper, the numbering of component types,
  the key codes handed to scripts, and the parser chain that decides how a script's
  component description is attached to an entity, with the check that a model's
  geometry can be turned into colliders.
- `eventhandling`: the engine's answer to window events and to the outcome of a frame.
- `filesystem`: the model importer (glTF import through the `gltf` crate, after
  checking the GLB header and that every image of the asset can be found in the data
  its buffer loads) and the native and web file loaders' locations.
- `modelload`: planning the GPU meshes of a model and filling per-vertex attributes.
- `renderer`: the tiling of the light culling pass, mesh primitives with their
  attributes, building primitives, decoding each texture once and building the
  materials table, image decoding
  through the `image` crate, material texture uploads and bindings, and the
  renderer's error types.

`app/` holds the parts that touch the outside world: the window and its event loop,
conversions from `winit` types, reading files, and the byte layout uploaded to the GPU.
