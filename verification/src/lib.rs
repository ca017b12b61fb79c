//! Terrain, road network and game rules of a city simulation, with their contracts.

pub mod terrain_slope;
pub mod terrain_rotation;
pub mod tile_surface;
pub mod numbers;
pub mod scene_object_registry;
pub mod city_data;
pub mod terrain_builder;
pub mod tile_repair;
pub mod road_navigation;
pub mod world_constants;
pub mod city_coords;
pub mod city_buildings;
pub mod text;
pub mod input_actions;
pub mod canon;
pub mod car_navigation;
pub mod fire_spawner;
pub mod building_features;
pub mod editor_tools;
pub mod gi_probes;
pub mod solar_clock;
pub mod project_settings;
pub mod title_menu;
pub mod gltf_import;
