# prism

The verified core of a small deferred renderer.

- `src/cube.rs`: the procedural cube on the integer lattice (coordinates in
  half edge lengths), with proofs that its indices are in range, that every
  vertex lies on the face its normal points out of, and that every triangle
  is wound counter-clockwise as seen from outside.
- `src/mesh.rs`: the vertex buffer layout (tightly packed, proved) and the
  assembly of a mesh from the attribute streams of a loaded model.
- `src/gbuffer.rs`: the G-buffer plan: texture, sampler, bind group layout,
  bind group, color attachments and pipeline targets, with proofs that the
  bind group matches its layout and that what the geometry pass writes is
  what the lighting pass reads.
- `src/scene.rs`: the entity scene on `hecs`, and the transform component on
  `glam`.
- `app/`: the floating-point and GPU side (camera, material, vertex record,
  glTF loading, wgpu resources), built on the library.
