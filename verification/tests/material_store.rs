use manifold::material::Material;
use manifold::material::MaterialStore;
use manifold::shader::ShaderType;

#[test]
fn new_store_holds_the_two_baseline_materials() {
    let store = MaterialStore::new();
    assert_eq!(store.materials.len(), 2);
    assert_eq!(store.materials[0].name, "basic");
    assert_eq!(store.materials[0].shader_type, ShaderType::Basic);
    assert_eq!(store.materials[0].diffuse_texture_id, 0);
    assert_eq!(store.materials[1].name, "grid");
    assert_eq!(store.materials[1].shader_type, ShaderType::Grid);
    assert_eq!(store.materials[1].diffuse_texture_id, 0);
    assert_eq!(store.default_material.name, "basic");
    assert_eq!(store.default_material.shader_type, ShaderType::Basic);
    assert_eq!(store.default_material.diffuse_texture_id, 0);
}

#[test]
fn added_materials_get_dense_monotonic_handles() {
    let mut store = MaterialStore::new();
    let first = store.add_material(Material {
        name: ShaderType::Hyper.name(),
        shader_type: ShaderType::Hyper,
        diffuse_texture_id: 3,
    });
    let second = store.add_material(Material {
        name: ShaderType::Basic.name(),
        shader_type: ShaderType::Basic,
        diffuse_texture_id: 4,
    });
    assert_eq!(first, 2);
    assert_eq!(second, 3);
    assert_eq!(store.get_material(2).diffuse_texture_id, 3);
    assert_eq!(store.get_material(3).diffuse_texture_id, 4);
}

#[test]
fn unknown_handle_falls_back_to_the_default_material() {
    let store = MaterialStore::new();
    assert_eq!(store.materials.len(), 2);
    let material = store.get_material(999);
    assert_eq!(*material, store.default_material);
    assert_eq!(material.name, "basic");
    assert_eq!(material.shader_type, ShaderType::Basic);
    assert_eq!(material.diffuse_texture_id, 0);
}

#[test]
fn known_handle_returns_the_stored_material() {
    let mut store = MaterialStore::new();
    let id = store.add_material(Material {
        name: String::from("crate"),
        shader_type: ShaderType::Basic,
        diffuse_texture_id: 7,
    });
    let material = store.get_material(id);
    assert_eq!(material.name, "crate");
    assert_eq!(material.diffuse_texture_id, 7);
    assert_eq!(store.get_material(1).shader_type, ShaderType::Grid);
}

#[test]
fn shader_names_are_the_material_names() {
    assert_eq!(ShaderType::Grid.name(), "grid");
    assert_eq!(ShaderType::Basic.name(), "basic");
    assert_eq!(ShaderType::Hyper.name(), "hyper");
}
