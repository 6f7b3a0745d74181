# physics_sandbox

The decision logic of a Bevy + Avian 3D physics sandbox, written in Verus and proved
against its contracts.

- `src/` is the verified library: collision-layer filtering and the collision hook,
  the collision event history, the J-key joint and C-key composition workflows, the
  CCD launcher, the inspector's selection and axis-lock/dominance edits, grabbing,
  hover highlighting, the physics clock keys, breakage claims, gameplay material
  defaults (in thousandths), the stress-test grid and the stations' kinds and labels.
  Entities are named by their id bits (`u64`), collision layers by their bit masks and
  locked axes by Avian's six-bit mask.
- `tests/` exercises the library on concrete values.
- `app/` is the Bevy program: it reads input and the physics world, hands plain values
  to the library and applies its decisions. Poses, velocities, forces and other
  floating-point quantities are computed there.
