# blackhole

A compute-shader black hole renderer built on Bevy. The decision logic is a
verified library; the Bevy app around it performs the rendering and I/O.

- `src/asset_load.rs`: the asset loading states (Pending, Loading, Init, Ready)
  and what each frame's systems request.
- `src/render/resources.rs`: the tracer state, the pipeline cache statuses it
  reads, and the ping-pong texture pair of each bind group.
- `src/render/pipeline.rs`: the per-frame state advance, the compute dispatch
  plan and the bind group order, with their laws.
- `src/render/node.rs`: the tracer as a node that also waits for the skybox.
- `src/render/tracer.rs`: camera key mapping and the displayed texture flip.
- `app/`: the Bevy plugins and systems that feed those functions and act on
  their results; floating-point work (camera matrices, object placement,
  Schwarzschild radii) stays there.
