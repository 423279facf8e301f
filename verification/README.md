# gizmo_pipeline_2d

The decisions behind drawing 2D line gizmos, verified with Verus.

- `src/mesh_key.rs`: the bit encoding of a 2D mesh pipeline key (HDR flag,
  log2 of the MSAA sample count) and the proof that a view's key gives back
  its flag and sample count.
- `src/render_layers.rs`: render layers as 64-bit words and their intersection.
- `src/config.rs`: line styles (compared as floats) and line joints.
- `src/pipeline.rs`: the line and line-joint pipelines specialized for a key,
  every part of the descriptor but the GPU handles.
- `src/queue.rs`: which gizmos are queued in which view, with entity, draw
  function, pipeline key and phase-item setup, in order, and the MSAA settings.
- `src/laws.rs`: what holds of the queues and pipelines as a whole.
- `app/lib.rs`: the bevy plugin that reads the render world, calls the
  library and maps its results to bevy values.
- `tests/`: concrete cases of every function and law.
