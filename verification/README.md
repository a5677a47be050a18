# three_body_viewer

A viewer of three stars and an observing planet. `src/` is the verified
library: the numbered catalogue of initial configurations (`preset`), the
identities and order of the Lagrange points (`lagrange`), and the per-frame
control rules — which preset key takes effect, the fast-forward boost and the
playback speed (`control`). `app/` is the program around it: the window and
input (macroquad), and the gravity integrator, Lagrange-point solver, sky
projection and drawing, all of which compute in floating point (nalgebra).
