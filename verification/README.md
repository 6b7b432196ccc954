# erika

The decisions of a media player's output side, verified with Verus: what is queued
for an audio device and when, how a lost device is recovered, how a frame's colours
become shader constants, which GPU backend is tried next, and what is drawn over a
picture and where.

- `src/audio` is the ring buffer in front of an output device, its timeline and
  tempo, volumes, and the recovery of lost devices.
- `src/android`, `src/ohos` and `src/apple` are the platforms' stream interfaces:
  formats, result codes and the order of calls.
- `src/renderer` is the colour pipeline, overlays and comments, and the state of the
  portable (`wgpu`) and the Direct3D (`d3d11`) renderer.
- `app` is what surrounds the library: floating point arithmetic, error texts, and the
  calls into the platform and the GPU. Direct3D is reached through a trait.

Samples, gains, rates and colours are carried as IEEE 754 bit patterns. Where the
library needs arithmetic on them it takes the operation as a function, and a contract
says to which values the operation is applied and what becomes of the result.
Operations that the platform performs are requested step by step: a function says what
is to be done next, and takes in what came of it.
