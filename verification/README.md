# dog_teleop

Gamepad tele-operation of a quadruped robot over rosbridge, with a Tauri front end.

- `src/` is the verified library (Verus): the gait codes, the activation lock
  (long press of both shoulder buttons), gait selection, debounced step
  adjustments with their timers, the per-cycle plan of the control loop, the bounded log buffer with its `HH:MM:SS.mmm` timestamps, the
  setting keys of the front end, the filter that picks status reports out of
  rosbridge messages, the bridge's message queues and connection state, and the
  link settings the control loop follows.
- `app/` is the program around it: gilrs input, the floating-point stick curves
  and command fields, the JSON command message, the WebSocket task (tokio), the
  process-wide log buffer and the Tauri commands.
- `tests/` runs the library on concrete values.
