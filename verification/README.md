# higher_dimension_playground

Verified planning and lookup logic of a four-dimensional renderer and its game client,
written in Verus.

- `src/` is the library; every function in it is verified against its contract, except
  five small trusted wrappers whose contracts are taken on trust from the outside code
  they call: `format_block_extent`, `format_block_size` and `formats_equal` in `capture`
  (vulkano's `Format`), `unmultiply_srgba` in `egui_paint` (egui's `Color32`) and
  `push_char` in `text` (`String::push`).
  - `render`: render option enums, their codes and labels, overlay edge tags.
  - `voxel_lookup`: CPU lookups of the voxel traversal engine (leaf chunk entries,
    chunk payloads, voxel materials, macro cells) and the bookkeeping of its reference
    trace.
  - `buffer_spans`: clamped dirty ranges and write spans, buffer growth, voxel frame
    capacities and upload modes.
  - `bvh_topology`: the topology summary of a tetrahedron BVH.
  - `frame_plan`: per-frame dispatch planning (instance budgets, passes, bitonic sort,
    edge dispatches, BVH maintenance, diagnostic samples).
  - `geometry`: the boundary of the tesseract as tetrahedra.
  - `capture`: screen capture sizes, swapchain format choice, framebuffer read-back
    (on vulkano formats).
  - `egui_paint`: egui texture and mesh conversion (on egui colours).
  - `diag_compare`: comparison of GPU diagnostic records with the CPU reference.
  - `diagnostics`: traversal diagnostics settings and entity-diagnostics scheduling.
  - `device_select`: choice of the physical device.
  - `text`: file sizes, labels, number parsing and environment switches.
  - `ui_routes`, `cli_options`, `session`: the client's command-line options, overlay
    routes, window and menu state, hotbar, screenshots and scripted commands.
- `tests/` exercises the library on concrete values.
- `app/` holds what stays outside the verified library: reading the environment, the
  vulkano and egui calls that do I/O, and the floating-point reference trace.
