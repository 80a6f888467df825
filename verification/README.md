# clarke_park

A visualizer for the Clarke (abc to alpha-beta-zero) and Park (dq) transforms
of three-phase signals, split in two:

- `src/` is the verified library: the fault catalogue. It names each fault
  under which it is offered and selected, tells the names apart, and says
  for each fault what happens to each phase (kept, grounded, shorted to the
  others' common mean, or sagged). Its contracts and the laws proved beside
  them (a fault offered under its name is the fault applied; only the
  absence of a fault leaves every phase untouched; an ungrounded short
  always joins two or three phases; every fault is offered exactly once)
  are proved.
- `app/` is the egui/eframe program: signal synthesis, the transforms on
  `f64` samples, plotting and the animation loop.
