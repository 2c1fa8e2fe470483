# external_compositor

Sets up the graphics device that a window shares with an external compositor.

A window samples textures that somebody else renders with `wgpu`, so both sides
have to use the same native device and queue. On macOS that is a Metal device of
the host, for which the matching `wgpu` adapter is searched; on Windows `wgpu`
makes a DX12 device and the host derives its D3D11-on-12 devices from it.

`src/` holds every decision on the way, verified with Verus: which call is due
and with what, what follows from its answer, when a device is the right one, what
an error says. `app/` makes the calls.

* `external_context`: the shared device and queue, and the device-lost flag
* `graphics`: limits and descriptor of a device request
* `metal`, `dx12`, `directx_devices`: the setups, stage by stage
* `recovery`: retrying after a lost device
* `adapter_name`: the printable name of a DXGI adapter
* `error`, `directx_error`, `text`: errors and their words
