use simchopper::gltf_import::{face_vertex_indices, GltfImporter, SupportedNodeTypes};
use simchopper::building_features::Features;
use simchopper::editor_tools::{
    ao_bake_process, ends_with_text, import_node_path, is_bake_model, is_gltf_file, keep_reading, new_non_zero,
    parse_blender_line, second_field_of, select_gltf_files, select_matching, BlenderMessage,
    BlenderStatus, ProgressState,
};
use simchopper::fire_spawner::{configuration_warnings, is_instance, lacks_editor_parts, FireSpawnerParts, OnReady};
use simchopper::scene_object_registry::{buildings, is_bridge, networks, Buildings, Powerlines, Road};
use simchopper::text::same_text;

#[test]
fn blender_lines() {
    match parse_blender_line("Progress|Baking|extra\n") {
        BlenderMessage::Progress(label) => assert_eq!(label, "Baking"),
        _ => panic!("expected a progress line"),
    }
    match parse_blender_line("File|house.glb\n") {
        BlenderMessage::File(label) => assert_eq!(label, "house.glb\n"),
        _ => panic!("expected a file line"),
    }
    assert!(matches!(parse_blender_line("Blender 4.2"), BlenderMessage::Other));
    assert_eq!(second_field_of("no bars"), "");
    assert_eq!(second_field_of("a|"), "");
}

#[test]
fn blender_is_read_while_it_runs() {
    assert!(keep_reading(BlenderStatus::Running));
    assert!(!keep_reading(BlenderStatus::Succeeded));
    assert!(!keep_reading(BlenderStatus::Failed));
    assert!(!keep_reading(BlenderStatus::Unknown));
}

#[test]
fn progress_counts_tasks_and_steps() {
    let mut p = ProgressState::new();
    p.push_task("house");
    p.push_task_step("uv");
    p.push_task_step("bake");
    assert_eq!((p.tasks_done, p.task_name.as_str(), p.steps_done, p.step_name.as_str()), (1, "house", 2, "bake"));
    p.push_task("shop");
    assert_eq!((p.tasks_done, p.task_name.as_str(), p.steps_done, p.step_name.as_str()), (2, "shop", 0, ""));
}

#[test]
fn bake_process_has_eleven_steps_per_model() {
    let process = ao_bake_process(4);
    assert_eq!(process.title, "Ambient Occlusion Baking");
    assert_eq!(process.tasks.get(), 4);
    assert_eq!(process.steps.get(), 11);
    assert_eq!(new_non_zero(3).get(), 3);
}

#[test]
fn model_files_are_gltf_or_glb() {
    assert_eq!(is_gltf_file("house.gltf"), Some(true));
    assert_eq!(is_gltf_file("house.glb"), Some(true));
    assert_eq!(is_gltf_file("house.glb.import"), Some(false));
    assert_eq!(is_gltf_file("houseglb"), Some(false));
    let names = vec!["a.png".to_string(), "b.glb".to_string(), "c.gltf".to_string()];
    assert_eq!(select_gltf_files(&names), Some(vec![1, 2]));
}

#[test]
fn matching_positions_stop_at_a_failed_pattern() {
    assert_eq!(select_matching(&vec![Some(false), Some(true), Some(true)]), Some(vec![1, 2]));
    assert_eq!(select_matching(&vec![Some(true), None, Some(true)]), None);
    assert_eq!(select_matching(&vec![]), Some(vec![]));
}

#[test]
fn import_paths_lose_their_leading_dot_slash() {
    assert_eq!(import_node_path("./Mesh"), "Mesh");
    assert_eq!(import_node_path("././Mesh/Child"), "Mesh/Child");
    assert_eq!(import_node_path("Mesh/./Child"), "Mesh/./Child");
    assert_eq!(import_node_path("."), ".");
}

#[test]
fn fire_spawner_warns_of_missing_parts() {
    let all = FireSpawnerParts {
        fire: true,
        smoke: true,
        light_source: true,
        emission_points: true,
        emission_point_normals: true,
        fire_sound: true,
    };
    assert!(configuration_warnings(all).is_empty());
    assert!(!lacks_editor_parts(all));
    let some = FireSpawnerParts { smoke: false, fire_sound: false, ..all };
    assert_eq!(
        configuration_warnings(some),
        vec!["Requires a GpuParticles3D node for the smoke vfx", "Fire audio source must be assigned"]
    );
    assert!(lacks_editor_parts(some));
    assert!(!lacks_editor_parts(FireSpawnerParts { light_source: false, ..all }));
}

#[test]
fn fire_spawner_instances() {
    assert!(is_instance("", "res://world.tscn"));
    assert!(is_instance("res://fire.tscn", "res://world.tscn"));
    assert!(!is_instance("res://fire.tscn", "res://fire.tscn"));
}

#[test]
fn values_set_once_ready() {
    let mut v: OnReady<u32> = OnReady::default();
    v.init(5);
    assert_eq!(*v.get(), 5);
}

#[test]
fn features_keep_their_order() {
    let mut f: Features<u8> = Features::default();
    f.push(Box::new(3));
    f.push(Box::new(1));
    assert_eq!(f.len(), 2);
    assert_eq!((*f.get(0), *f.get(1)), (3, 1));
}

#[test]
fn scenes_by_object_id() {
    assert_eq!(networks(0x0E), Some("res://resources/Objects/Networks/Powerline/left_right.tscn"));
    assert_eq!(Powerlines::try_from_u8(0x5C), Some(Powerlines::BridgeTopBottom));
    assert_eq!(Powerlines::LeftRight.id(), 0x0E);
    assert!(Road::try_from_u8(0x1D).is_some());
    assert_eq!(buildings(0x00), None);
    assert!(buildings(0xE6).is_some());
    assert!(!is_bridge(0x0E));
}

#[test]
fn texts_compare_by_characters() {
    assert!(same_text("abc", "abc"));
    assert!(!same_text("abc", "abd"));
    assert!(!same_text("abc", "ab"));
    assert!(same_text("", ""));
}

#[test]
fn model_node_types_by_name() {
    assert_eq!(SupportedNodeTypes::from_name("Decal"), SupportedNodeTypes::Decal);
    assert_eq!(SupportedNodeTypes::from_name("Collision"), SupportedNodeTypes::Collision);
    assert_eq!(SupportedNodeTypes::from_name("Occluder"), SupportedNodeTypes::Occluder);
    assert_eq!(SupportedNodeTypes::from_name("Light"), SupportedNodeTypes::Unsupported);
    assert_eq!(SupportedNodeTypes::Unsupported.as_str(), "UNSUPPORTED");
    assert_eq!(SupportedNodeTypes::Occluder.as_str(), "Occluder");
    assert_eq!(GltfImporter::node_type(Some("Decal")), Some(SupportedNodeTypes::Decal));
    assert_eq!(GltfImporter::node_type(Some("UNSUPPORTED")), None);
    assert_eq!(GltfImporter::node_type(None), None);
    assert_eq!(face_vertex_indices(&vec![0, 2, 5], 3), vec![Some(0), Some(2), None]);
}

#[test]
fn baker_takes_files_with_a_model_extension() {
    assert!(is_bake_model("house.gltf"));
    assert!(is_bake_model("house.glb"));
    assert!(is_bake_model("..glb"));
    assert!(!is_bake_model(".glb"));
    assert!(!is_bake_model(".gltf"));
    assert!(!is_bake_model("house.GLB"));
    assert!(!is_bake_model("house.glb.bak"));
    assert!(ends_with_text("tower.tscn", ".tscn"));
    assert!(!ends_with_text("tscn", ".tscn"));
}

#[test]
fn building_scenes_are_scene_files_under_the_objects_directory() {
    assert_eq!(Buildings::Tarmac.as_str(), "res://resources/Objects/Ground/tarmac.tscn");
    assert_eq!(Buildings::Church.as_str(), "res://resources/Objects/Buildings/church.tscn");
    assert_eq!(Buildings::Construction1.as_str(), Buildings::Construction2.as_str());
    assert_ne!(Buildings::Construction1.as_str(), Buildings::Construction3.as_str());
}
