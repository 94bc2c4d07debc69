# hmc

A sandbox for Hamiltonian Monte Carlo (HMC) with a Metropolis-Hastings
baseline and a momentum-variance check, split in two:

- `src/` is the verified library (Verus): the integer and bookkeeping logic
  around the samplers. It states and proves when progress is reported and how
  often, how a burn-in window is clamped to the chain, how samples are counted
  into histogram bins, the kick schedule of the leapfrog integrator, which
  queued experiment request is honored, and the exact texts of the progress
  and status labels.
- `app/` is the program around it: the floating-point samplers and numerics,
  random draws (`rand`, `rand_distr`), the command line (`clap`), PDF export
  (`kuva`) and the interactive window (`eframe`, `egui_plot`). Started under
  the name `hmc_gui` it opens the window; otherwise it runs the experiment
  from the command line and writes the plots.
- `tests/` exercises the library on concrete values.
