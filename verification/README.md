# liquid_glass

A desktop "liquid glass" lens for Windows: a transparent overlay over the
virtual desktop on which a Direct3D 11 pixel shader draws a refracting,
draggable capsule, fed by DXGI desktop duplication of every monitor.

- `src/` is the verified library (Verus): the decisions of the program.
  - `geometry`: points, rectangles, the virtual desktop, the scissor rectangle,
    and the lens's size in physical pixels at a monitor's DPI.
  - `drag`: the input window's drag machine; the lens stays on the desktop and
    takes its size from the DPI of its monitor.
  - `capture`: the outputs of the adapter and the per-frame capture protocol.
  - `frame`: the draw passes of a frame and their integer geometry.
  - `render`: one frame as a state machine: capture, window, passes, present.
  - `overlay`: the overlay window's answers to messages.
  - `pump`: the message loop, a bounded number of messages per frame.
  - `layout`: where the two windows start.
- `app/` is the Windows program: window procedures, Direct3D and DXGI calls,
  the HLSL shader and the floating-point shader constants. It performs the
  actions that the library decides and hands the outcomes back.
- `tests/` runs the library on concrete values.
