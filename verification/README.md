# pid_pendulum

A PID controller demonstrator: a simulated pendulum driven by a PID
controller, shown in an eframe window.

- `src/` is the verified library: the sample layouts accepted by the
  integrator, the differentiator and the controller, the difference stencil
  the differentiator reads (`samples`), the session state recorded frame by
  frame (`session`) and the canvas title (`canvas`).
- `app/` is the program: the window, the floating-point pendulum model and
  the numerical integration, differentiation and PID response, which call
  the library for their decisions.
