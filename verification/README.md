# sinus

Firmware for drawing shapes on an oscilloscope in XY mode with the two DAC
channels of an STM32H750 (WeAct board): the DAC runs in dual mode, paced by
TIM6 and fed by a circular DMA from a 1024-point table.

- `src/` is the verified library (Verus): the shape catalogue and its button
  order (`shapes`), the `key = value` settings format (`settings`, with the
  character helpers in `text`), the packing of two 12-bit codes into one DMA
  word (`waveform`), the TIM6 divider settings (`timing`), the decisions of
  the main loop (`control`), and the retry, size and fallback decisions of
  reading the settings file from the SD card (`sdread`).
- `app/` is the firmware around it: clocks, pins, SD card, DAC/TIM6/DMA
  registers, and the floating-point work (shape sampling with `libm`, DAC
  code quantisation, numeric settings).
- `tests/` runs the library on concrete values.
