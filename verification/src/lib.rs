//! Decision logic of the physics sandbox: collision filtering, event bookkeeping,
//! interaction workflows and the small state machines behind the stations.

pub mod text;
pub mod collision_layers;
pub mod collision_event_log;
pub mod joint_creation;
pub mod object_composition;
pub mod ccd_launcher;
pub mod object_inspector;
pub mod collision_hooks;
pub mod custom_constraint_station;
pub mod counted_body_spawning;
pub mod object_spawn_palette;
pub mod gameplay_materials;
pub mod breakable_objects;
pub mod cursor_hover;
pub mod object_grabbing;
pub mod physics_controls;
pub mod interpolation_comparison;
pub mod diagnostics_hud;
pub mod axis_locks_station;
pub mod damping_station;
pub mod density_mass_station;
pub mod distance_joint_station;
pub mod fixed_joint_station;
pub mod force_station;
pub mod friction_station;
pub mod gravity_controls;
pub mod collider_shape_station;
pub mod dynamic_objects;
pub mod intersection_testing;
pub mod player;
pub mod collider_debug;
pub mod picking_comparison;
