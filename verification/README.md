# tg_rcore_tutorial

A Verus library for the drawing and batch logic of a small RISC-V teaching kernel.

- `src/pixels.rs`: row-major pixel images, the `fill_box` model of a filled
  rectangle, and the framebuffer address formula `base + (y * width + x) * 4`.
- `src/display.rs`: the 800 x 600 display demo (GPU register writes, pixels,
  rectangles, the letters O and S).
- `src/framebuffer.rs`: the 1280 x 720 tangram framebuffer, its pieces, and the
  stage that each app of the batch shows.
- `src/tangram.rs`: the text tangram printed by the user program.
- `src/syscall.rs`: system call frames, the `write`/`exit` handlers and dispatch.
- `src/batch.rs`: the kernel's decisions around each app and after each trap.

`app/` holds what needs the machine: the kernel entry, the register and memory
writes, the console, and printing.
